//! Render contexts: the objects that establish one logical GPU connection
//! and create one renderer per window, plus the native-handle compatibility
//! check a backend performs before touching the window system.

use vstd::prelude::*;

use crate::geometry::COORD_LIMIT;
use crate::renderer::ImpellerRenderer;

verus! {

/// The initial surface size a GL renderer is created with.
#[derive(Clone, Copy, Debug, PartialEq, Eq, Structural)]
pub struct SurfaceConfig {
    pub width: u32,
    pub height: u32,
}

/// Which window system a native handle belongs to. The embedding layer
/// classifies its raw handles into this before asking for a renderer.
#[derive(Clone, Copy, Debug, PartialEq, Eq, Structural)]
pub enum NativeHandleKind {
    Wayland,
    X11,
    Other,
}

/// Why a renderer could not be constructed for a window. Construction
/// fails cleanly: no renderer is left half built.
#[derive(Clone, Copy, Debug, PartialEq, Eq, Structural)]
pub enum CreateRendererError {
    /// The window exposed no display handle at all.
    NoDisplayHandle,
    /// The display handle belongs to a window system this backend cannot
    /// drive.
    UnsupportedDisplayHandle,
    /// The window exposed no window handle at all.
    NoWindowHandle,
    /// The window handle is not the Wayland surface this backend expects.
    ExpectedWaylandWindow,
}

/// The compatibility check of the Wayland GL backend: both handles must be
/// present and both must be Wayland, with the display checked first.
pub open spec fn spec_validate_handles(
    display: Option<NativeHandleKind>,
    window: Option<NativeHandleKind>,
) -> Result<(), CreateRendererError> {
    match display {
        None => Err(CreateRendererError::NoDisplayHandle),
        Some(d) => if d != NativeHandleKind::Wayland {
            Err(CreateRendererError::UnsupportedDisplayHandle)
        } else {
            match window {
                None => Err(CreateRendererError::NoWindowHandle),
                Some(w) => if w != NativeHandleKind::Wayland {
                    Err(CreateRendererError::ExpectedWaylandWindow)
                } else {
                    Ok(())
                },
            }
        },
    }
}

/// Check a window's native handles against what the Wayland GL backend can
/// drive; succeeds exactly when both handles exist and are Wayland.
pub fn validate_window_handles(
    display: Option<NativeHandleKind>,
    window: Option<NativeHandleKind>,
) -> (r: Result<(), CreateRendererError>)
    ensures
        r == spec_validate_handles(display, window),
        r is Ok <==> display == Some(NativeHandleKind::Wayland) && window == Some(
            NativeHandleKind::Wayland,
        ),
{
    match display {
        None => Err(CreateRendererError::NoDisplayHandle),
        Some(d) => {
            if d != NativeHandleKind::Wayland {
                Err(CreateRendererError::UnsupportedDisplayHandle)
            } else {
                match window {
                    None => Err(CreateRendererError::NoWindowHandle),
                    Some(w) => {
                        if w != NativeHandleKind::Wayland {
                            Err(CreateRendererError::ExpectedWaylandWindow)
                        } else {
                            Ok(())
                        }
                    },
                }
            }
        },
    }
}

/// The GL backend's context. The EGL display connection itself lives in
/// the embedding layer; this object carries the backend choice.
pub struct GlContext;

impl GlContext {
    /// Establishing the GL context object never fails by itself; the
    /// display connection is made when a renderer is created.
    pub fn new() -> (r: Result<GlContext, CreateRendererError>)
        ensures
            r is Ok,
    {
        Ok(GlContext)
    }
}

/// The Impeller backend's context: one logical connection shared by every
/// renderer created from it.
pub struct ImpellerContext {}

impl ImpellerContext {
    /// Establishing the context never fails by itself.
    pub fn new() -> (r: Result<ImpellerContext, CreateRendererError>)
        ensures
            r is Ok,
    {
        Ok(ImpellerContext {  })
    }

    /// Create one renderer for a window of this initial pixel size. The
    /// embedding layer binds the GPU surface; the renderer starts with an
    /// empty atlas and no preserved frame.
    pub fn create_renderer(&self, config: (u32, u32)) -> (r: ImpellerRenderer)
        requires
            config.0 <= COORD_LIMIT,
            config.1 <= COORD_LIMIT,
        ensures
            r.inv(),
            !r.has_preserved_frame,
            !r.destroyed,
            !r.transparent,
            r.sprite_atlas.context_is_bound(),
    {
        ImpellerRenderer::new(config)
    }
}

} // verus!

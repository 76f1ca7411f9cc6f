//! One frame's renderable content: an ordered sequence of typed primitive
//! batches, plus at most one changed-bounds rectangle naming the region that
//! differs from the previously presented frame. Batch order is paint order,
//! back to front; within a batch, element order is paint order.

use vstd::prelude::*;

use crate::atlas::{AtlasTextureId, AtlasTile};
use crate::color::Hsla;
use crate::geometry::{Bounds, Corners, Edges, Point, COORD_LIMIT};

verus! {

/// One stop of a two-stop linear gradient: a color and its position along
/// the gradient axis in thousandths.
#[derive(Clone, Copy, Debug, PartialEq, Eq, Structural)]
pub struct ColorStop {
    pub color: Hsla,
    pub percentage: u16,
}

impl ColorStop {
    pub open spec fn wf(self) -> bool {
        &&& self.color.wf()
        &&& self.percentage <= 1000
    }
}

/// A fill paint: a solid color, a two-stop linear gradient at a whole-degree
/// angle, or a tiled slash pattern drawn in its solid color.
#[derive(Clone, Copy, Debug, PartialEq, Eq, Structural)]
pub enum Background {
    Solid(Hsla),
    LinearGradient { angle: i32, stop0: ColorStop, stop1: ColorStop },
    PatternSlash(Hsla),
}

impl Background {
    pub open spec fn wf(self) -> bool {
        match self {
            Background::Solid(c) => c.wf(),
            Background::LinearGradient { angle: _, stop0, stop1 } => stop0.wf() && stop1.wf(),
            Background::PatternSlash(c) => c.wf(),
        }
    }
}

/// An affine transform: a 2x2 rotation/scale block in thousandths and a
/// device-pixel translation.
#[derive(Clone, Copy, Debug, PartialEq, Eq, Structural)]
pub struct TransformationMatrix {
    pub m00: i32,
    pub m01: i32,
    pub m10: i32,
    pub m11: i32,
    pub tx: i32,
    pub ty: i32,
}

impl TransformationMatrix {
    /// The transform that moves nothing.
    pub open spec fn spec_is_identity(self) -> bool {
        self == (TransformationMatrix { m00: 1000, m01: 0, m10: 0, m11: 1000, tx: 0, ty: 0 })
    }

    pub fn identity() -> (r: TransformationMatrix)
        ensures
            r.spec_is_identity(),
    {
        TransformationMatrix { m00: 1000, m01: 0, m10: 0, m11: 1000, tx: 0, ty: 0 }
    }

    pub fn is_identity(&self) -> (r: bool)
        ensures
            r == self.spec_is_identity(),
    {
        self.m00 == 1000 && self.m01 == 0 && self.m10 == 0 && self.m11 == 1000 && self.tx == 0
            && self.ty == 0
    }
}

/// A rectangle with per-corner radii, a background paint, and independent
/// per-edge border widths sharing one border color.
#[derive(Clone, Copy, Debug, PartialEq, Eq, Structural)]
pub struct Quad {
    pub bounds: Bounds,
    pub corner_radii: Corners,
    pub background: Background,
    pub border_widths: Edges,
    pub border_color: Hsla,
}

impl Quad {
    pub open spec fn wf(self) -> bool {
        &&& self.bounds.wf()
        &&& self.corner_radii.wf()
        &&& self.background.wf()
        &&& self.border_widths.wf()
        &&& self.border_color.wf()
    }
}

/// A closed point list with a background paint and a uniform border.
#[derive(Clone, Debug, PartialEq, Eq)]
pub struct Polygon {
    pub points: Vec<Point>,
    pub bounds: Bounds,
    pub background: Background,
    pub border_width: i32,
    pub border_color: Hsla,
}

impl Polygon {
    pub open spec fn wf(self) -> bool {
        &&& self.bounds.wf()
        &&& self.background.wf()
        &&& 0 <= self.border_width
        &&& self.border_color.wf()
    }
}

/// A vector path; rendered by its bounding rectangle in its solid color.
#[derive(Clone, Debug, PartialEq, Eq)]
pub struct PathShape {
    pub bounds: Bounds,
    pub vertices: Vec<Point>,
    pub color: Hsla,
}

impl PathShape {
    pub open spec fn wf(self) -> bool {
        &&& self.bounds.wf()
        &&& self.color.wf()
    }
}

/// A blurred rounded rectangle. The blur radius fixes both the Gaussian
/// sigma (half the radius) and the outward spread margin (three times it).
#[derive(Clone, Copy, Debug, PartialEq, Eq, Structural)]
pub struct Shadow {
    pub bounds: Bounds,
    pub corner_radii: Corners,
    pub blur_radius: i32,
    pub color: Hsla,
}

impl Shadow {
    pub open spec fn wf(self) -> bool {
        &&& self.bounds.wf()
        &&& self.corner_radii.wf()
        &&& 0 <= self.blur_radius <= COORD_LIMIT
        &&& self.color.wf()
    }
}

/// A text underline: a rectangle of a given thickness, drawn solid or, when
/// wavy, as a dashed line.
#[derive(Clone, Copy, Debug, PartialEq, Eq, Structural)]
pub struct Underline {
    pub bounds: Bounds,
    pub thickness: i32,
    pub color: Hsla,
    pub wavy: bool,
}

impl Underline {
    pub open spec fn wf(self) -> bool {
        &&& self.bounds.wf()
        &&& 0 <= self.thickness <= COORD_LIMIT
        &&& self.color.wf()
    }
}

/// An alpha-mask sprite, tinted with its color at draw time.
#[derive(Clone, Copy, Debug, PartialEq, Eq, Structural)]
pub struct MonochromeSprite {
    pub bounds: Bounds,
    pub color: Hsla,
    pub tile: AtlasTile,
    pub transformation: TransformationMatrix,
}

impl MonochromeSprite {
    pub open spec fn wf(self) -> bool {
        &&& self.bounds.wf()
        &&& self.color.wf()
    }
}

/// A full-color sprite, clipped to its content mask and optional corner
/// radii, optionally shown in grayscale.
#[derive(Clone, Copy, Debug, PartialEq, Eq, Structural)]
pub struct PolychromeSprite {
    pub bounds: Bounds,
    pub tile: AtlasTile,
    pub content_mask: Bounds,
    pub corner_radii: Corners,
    pub grayscale: bool,
    pub opacity: u16,
}

impl PolychromeSprite {
    pub open spec fn wf(self) -> bool {
        &&& self.bounds.wf()
        &&& self.corner_radii.wf()
        &&& self.opacity <= 1000
    }
}

/// An externally rendered surface placement; the planner leaves these to the
/// embedder and draws nothing for them.
#[derive(Clone, Copy, Debug, PartialEq, Eq, Structural)]
pub struct PaintSurface {
    pub bounds: Bounds,
}

/// One kind-homogeneous, ordered group of drawable primitives.
#[derive(Clone, Debug, PartialEq, Eq)]
pub enum PrimitiveBatch {
    Quads(Vec<Quad>),
    Polygons(Vec<Polygon>),
    Paths(Vec<PathShape>),
    Shadows(Vec<Shadow>),
    Underlines(Vec<Underline>),
    MonochromeSprites { texture_id: AtlasTextureId, sprites: Vec<MonochromeSprite> },
    PolychromeSprites { texture_id: AtlasTextureId, sprites: Vec<PolychromeSprite> },
    Surfaces(Vec<PaintSurface>),
}

impl PrimitiveBatch {
    pub open spec fn wf(self) -> bool {
        match self {
            PrimitiveBatch::Quads(v) => forall|i: int| 0 <= i < v.len() ==> (#[trigger] v[i]).wf(),
            PrimitiveBatch::Polygons(v) => forall|i: int|
                0 <= i < v.len() ==> (#[trigger] v[i]).wf(),
            PrimitiveBatch::Paths(v) => forall|i: int| 0 <= i < v.len() ==> (#[trigger] v[i]).wf(),
            PrimitiveBatch::Shadows(v) => forall|i: int|
                0 <= i < v.len() ==> (#[trigger] v[i]).wf(),
            PrimitiveBatch::Underlines(v) => forall|i: int|
                0 <= i < v.len() ==> (#[trigger] v[i]).wf(),
            PrimitiveBatch::MonochromeSprites { texture_id: _, sprites } => forall|i: int|
                0 <= i < sprites.len() ==> (#[trigger] sprites[i]).wf(),
            PrimitiveBatch::PolychromeSprites { texture_id: _, sprites } => forall|i: int|
                0 <= i < sprites.len() ==> (#[trigger] sprites[i]).wf(),
            PrimitiveBatch::Surfaces(_) => true,
        }
    }
}

/// One frame's complete renderable content. The scene is handed to the
/// renderer by reference for exactly one frame and never retained.
#[derive(Clone, Debug, PartialEq, Eq)]
pub struct Scene {
    pub batches: Vec<PrimitiveBatch>,
    pub changed_bounds: Option<Bounds>,
}

impl Scene {
    pub open spec fn wf(self) -> bool {
        &&& forall|i: int| 0 <= i < self.batches.len() ==> (#[trigger] self.batches[i]).wf()
        &&& match self.changed_bounds {
            Some(r) => r.wf(),
            None => true,
        }
    }

    /// A scene with no content and nothing marked changed.
    pub fn new() -> (r: Scene)
        ensures
            r.batches@ == Seq::<PrimitiveBatch>::empty(),
            r.changed_bounds is None,
            r.wf(),
    {
        let r = Scene { batches: Vec::new(), changed_bounds: None };
        proof {
            assert(r.batches@ =~= Seq::<PrimitiveBatch>::empty());
        }
        r
    }

    /// The ordered batches of this frame, back to front.
    pub fn batches(&self) -> (r: &Vec<PrimitiveBatch>)
        ensures
            r == &self.batches,
    {
        &self.batches
    }
}

} // verus!

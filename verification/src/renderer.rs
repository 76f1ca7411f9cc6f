//! The per-window renderer: a state machine over the drawable surface and
//! the preserved copy of the prior frame, and the planner that turns one
//! scene into the frame's ordered display list.
//!
//! Establishing the GPU connection, executing the commands and swapping the
//! surface happen in the embedding layer; everything the frame decides —
//! what is culled, what is cleared, what every primitive becomes — is
//! planned and specified here.

use vstd::prelude::*;

use crate::atlas::ImpellerAtlas;
use crate::color::Rgba;
use crate::display::{
    mono_batch_commands, paths_commands, plan_mono_sprites, plan_paths, plan_poly_sprites,
    plan_polygons, plan_quads, plan_shadows, plan_underlines, poly_batch_commands,
    polygons_commands, quads_commands, shadows_commands, underlines_commands, DrawCommand,
};
use crate::geometry::{Bounds, Size, COORD_LIMIT};
use crate::scene::{PrimitiveBatch, Scene};

verus! {

/// Coarse device identification for diagnostics; fields may be empty when
/// unavailable, never fabricated.
pub struct GpuSpecs {
    pub is_software_emulated: bool,
    pub device_name: String,
    pub driver_name: String,
    pub driver_info: String,
}

/// The renderer's state: its atlas, the background mode, the drawable size,
/// whether a preserved copy of the prior frame exists, and whether the
/// renderer was torn down.
pub struct ImpellerRenderer {
    pub sprite_atlas: ImpellerAtlas,
    pub transparent: bool,
    pub drawable_size: Size,
    pub has_preserved_frame: bool,
    pub destroyed: bool,
}

/// The color the background clears to: transparent when transparency is
/// enabled, else opaque black.
pub open spec fn spec_background_color(transparent: bool) -> Rgba {
    if transparent {
        Rgba { r: 0, g: 0, b: 0, a: 0 }
    } else {
        Rgba { r: 0, g: 0, b: 0, a: 1000 }
    }
}

/// The region a frame restricts its drawing to. A changed-bounds rectangle
/// only takes effect while a preserved frame exists to fill the untouched
/// area; right after a resize there is none, and the frame redraws fully.
pub open spec fn spec_effective_region(state: &ImpellerRenderer, scene: &Scene) -> Option<Bounds> {
    if state.has_preserved_frame {
        scene.changed_bounds
    } else {
        None
    }
}

/// How a frame opens: with a region, composite the preserved frame over the
/// full drawable first, then scissor to the region and clear exactly it;
/// without one, clear everything. The blit comes before the scissor so the
/// untouched area really is filled from the preserved frame.
pub open spec fn prelude_commands(state: &ImpellerRenderer, region: Option<Bounds>) -> Seq<
    DrawCommand,
> {
    let bg = spec_background_color(state.transparent);
    match region {
        Some(r) => seq![
            DrawCommand::BlitPreserved(state.drawable_size),
            DrawCommand::EnableScissor(r),
            DrawCommand::ClearRegion { region: r, color: bg },
        ],
        None => seq![DrawCommand::ClearAll(bg)],
    }
}

/// The commands one batch plans to, in its element order. Sprite batches
/// consult the atlas once for their shared texture and degrade every sprite
/// to a flat rectangle when it was never built.
pub open spec fn batch_commands(
    b: &PrimitiveBatch,
    bi: usize,
    region: Option<Bounds>,
    atlas: &ImpellerAtlas,
) -> Seq<DrawCommand> {
    match b {
        PrimitiveBatch::Quads(v) => quads_commands(v@, region),
        PrimitiveBatch::Polygons(v) => polygons_commands(v@, bi, region),
        PrimitiveBatch::Paths(v) => paths_commands(v@, region),
        PrimitiveBatch::Shadows(v) => shadows_commands(v@, region),
        PrimitiveBatch::Underlines(v) => underlines_commands(v@, region),
        PrimitiveBatch::MonochromeSprites { texture_id, sprites } => mono_batch_commands(
            sprites@,
            atlas.spec_texture(*texture_id) is Some,
            region,
        ),
        PrimitiveBatch::PolychromeSprites { texture_id, sprites } => poly_batch_commands(
            sprites@,
            atlas.spec_texture(*texture_id) is Some,
            region,
        ),
        PrimitiveBatch::Surfaces(_) => Seq::empty(),
    }
}

/// The commands of the first `n` batches, in batch order.
pub open spec fn batches_commands_prefix(
    batches: Seq<PrimitiveBatch>,
    n: int,
    region: Option<Bounds>,
    atlas: &ImpellerAtlas,
) -> Seq<DrawCommand>
    decreases n,
{
    if n <= 0 {
        Seq::empty()
    } else {
        batches_commands_prefix(batches, n - 1, region, atlas) + batch_commands(
            &batches[n - 1],
            (n - 1) as usize,
            region,
            atlas,
        )
    }
}

/// The commands of the whole scene, in batch order.
pub open spec fn scene_commands(
    scene: &Scene,
    region: Option<Bounds>,
    atlas: &ImpellerAtlas,
) -> Seq<DrawCommand> {
    batches_commands_prefix(scene.batches@, scene.batches@.len() as int, region, atlas)
}

/// How a frame closes: lift the scissor if one was set, copy the full
/// drawable into the preserved-frame texture, and present with a whole-
/// surface swap.
pub open spec fn tail_commands(state: &ImpellerRenderer, region: Option<Bounds>) -> Seq<
    DrawCommand,
> {
    (match region {
        Some(_) => seq![DrawCommand::DisableScissor],
        None => Seq::<DrawCommand>::empty(),
    }) + seq![DrawCommand::CopyToPreserved(state.drawable_size), DrawCommand::Present]
}

/// The complete display list one frame plans to.
pub open spec fn frame_commands(state: &ImpellerRenderer, scene: &Scene) -> Seq<DrawCommand> {
    let region = spec_effective_region(state, scene);
    prelude_commands(state, region) + scene_commands(scene, region, &state.sprite_atlas)
        + tail_commands(state, region)
}

/// One drawable dimension clamped to at least one device pixel.
pub open spec fn spec_clamp_dim(v: i32) -> i32 {
    if v < 1 {
        1
    } else {
        v
    }
}

impl ImpellerRenderer {
    /// The renderer's invariant: a sound atlas and a positive, in-range
    /// drawable size.
    pub open spec fn inv(&self) -> bool {
        &&& self.sprite_atlas.inv()
        &&& self.drawable_size.wf()
        &&& self.drawable_size.width >= 1
        &&& self.drawable_size.height >= 1
    }

    /// Everything except the preserved-frame flag is unchanged.
    pub open spec fn spec_same_but_preserved(pre: &ImpellerRenderer, post: &ImpellerRenderer) -> bool {
        &&& ImpellerAtlas::spec_same(&pre.sprite_atlas, &post.sprite_atlas)
        &&& post.transparent == pre.transparent
        &&& post.drawable_size == pre.drawable_size
        &&& post.destroyed == pre.destroyed
    }

    /// A fresh renderer for a window of this initial pixel size: an empty
    /// atlas already tied to the rendering context, an opaque background,
    /// no preserved frame yet.
    pub fn new(config: (u32, u32)) -> (r: ImpellerRenderer)
        requires
            config.0 <= COORD_LIMIT,
            config.1 <= COORD_LIMIT,
        ensures
            r.inv(),
            r.sprite_atlas.tiles() == Map::<u64, crate::atlas::AtlasTile>::empty(),
            r.sprite_atlas.texture_counter() == 0,
            r.sprite_atlas.tile_counter() == 0,
            r.sprite_atlas.context_is_bound(),
            !r.transparent,
            r.drawable_size.width == spec_clamp_dim(config.0 as i32),
            r.drawable_size.height == spec_clamp_dim(config.1 as i32),
            !r.has_preserved_frame,
            !r.destroyed,
    {
        let mut sprite_atlas = ImpellerAtlas::new();
        sprite_atlas.set_context();
        let width: i32 = if config.0 < 1 {
            1
        } else {
            config.0 as i32
        };
        let height: i32 = if config.1 < 1 {
            1
        } else {
            config.1 as i32
        };
        ImpellerRenderer {
            sprite_atlas,
            transparent: false,
            drawable_size: Size { width, height },
            has_preserved_frame: false,
            destroyed: false,
        }
    }

    /// Plan one frame: exactly the display list `frame_commands` describes,
    /// in order — the background prelude, every batch in paint order with
    /// damage culling applied, then scissor teardown, the preserved-frame
    /// copy and the present. Afterwards a preserved frame exists for the
    /// next frame's undamaged regions. The scene is only read.
    pub fn draw(&mut self, scene: &Scene) -> (r: Vec<DrawCommand>)
        requires
            old(self).inv(),
            !old(self).destroyed,
            scene.wf(),
        ensures
            r@ == frame_commands(old(self), scene),
            final(self).inv(),
            Self::spec_same_but_preserved(old(self), final(self)),
            final(self).has_preserved_frame,
    {
        let region: Option<Bounds> = if self.has_preserved_frame {
            scene.changed_bounds
        } else {
            None
        };
        let bg: Rgba = if self.transparent {
            Rgba { r: 0, g: 0, b: 0, a: 0 }
        } else {
            Rgba { r: 0, g: 0, b: 0, a: 1000 }
        };
        let mut cmds: Vec<DrawCommand> = Vec::new();
        match region {
            Some(r) => {
                cmds.push(DrawCommand::BlitPreserved(self.drawable_size));
                cmds.push(DrawCommand::EnableScissor(r));
                cmds.push(DrawCommand::ClearRegion { region: r, color: bg });
            },
            None => {
                cmds.push(DrawCommand::ClearAll(bg));
            },
        }
        proof {
            assert(cmds@ =~= prelude_commands(old(self), region));
        }
        let ghost prelude = cmds@;
        let mut bi: usize = 0;
        while bi < self.batch_count(scene)
            invariant
                self == old(self),
                self.inv(),
                scene.wf(),
                region == spec_effective_region(old(self), scene),
                crate::display::region_wf(region),
                bi <= scene.batches@.len(),
                cmds@ == prelude + batches_commands_prefix(
                    scene.batches@,
                    bi as int,
                    region,
                    &old(self).sprite_atlas,
                ),
            decreases scene.batches@.len() - bi,
        {
            let batch = &scene.batches[bi];
            proof {
                assert((#[trigger] scene.batches@[bi as int]).wf());
            }
            match batch {
                PrimitiveBatch::Quads(v) => plan_quads(&mut cmds, v, region),
                PrimitiveBatch::Polygons(v) => plan_polygons(&mut cmds, v, bi, region),
                PrimitiveBatch::Paths(v) => plan_paths(&mut cmds, v, region),
                PrimitiveBatch::Shadows(v) => plan_shadows(&mut cmds, v, region),
                PrimitiveBatch::Underlines(v) => plan_underlines(&mut cmds, v, region),
                PrimitiveBatch::MonochromeSprites { texture_id, sprites } => {
                    let textured = self.sprite_atlas.get_texture(*texture_id).is_some();
                    plan_mono_sprites(&mut cmds, sprites, textured, region);
                },
                PrimitiveBatch::PolychromeSprites { texture_id, sprites } => {
                    let textured = self.sprite_atlas.get_texture(*texture_id).is_some();
                    plan_poly_sprites(&mut cmds, sprites, textured, region);
                },
                PrimitiveBatch::Surfaces(_) => {},
            }
            proof {
                assert(cmds@ =~= prelude + batches_commands_prefix(
                    scene.batches@,
                    bi + 1,
                    region,
                    &old(self).sprite_atlas,
                ));
            }
            bi += 1;
        }
        if region.is_some() {
            cmds.push(DrawCommand::DisableScissor);
        }
        cmds.push(DrawCommand::CopyToPreserved(self.drawable_size));
        cmds.push(DrawCommand::Present);
        self.has_preserved_frame = true;
        proof {
            assert(cmds@ =~= frame_commands(old(self), scene));
        }
        cmds
    }

    /// How many batches the scene holds.
    fn batch_count(&self, scene: &Scene) -> (r: usize)
        ensures
            r == scene.batches@.len(),
    {
        scene.batches.len()
    }

    /// The shared atlas handle, so the glyph and image pipeline can
    /// populate the cache ahead of or during scene construction.
    pub fn sprite_atlas(&self) -> (r: &ImpellerAtlas)
        ensures
            r == &self.sprite_atlas,
    {
        &self.sprite_atlas
    }

    /// Coarse device identification for diagnostics.
    pub fn gpu_specs(&self) -> (r: GpuSpecs)
        ensures
            r.is_software_emulated,
            r.device_name@.len() == 0,
            r.driver_name@.len() == 0,
            r.driver_info@.len() == 0,
    {
        GpuSpecs {
            is_software_emulated: true,
            device_name: String::new(),
            driver_name: String::new(),
            driver_info: String::new(),
        }
    }

    /// Resize the drawable (clamped to at least one pixel each way) and
    /// invalidate the preserved frame: it no longer matches the new
    /// dimensions, so the next frame redraws fully even when handed a
    /// changed region.
    pub fn update_drawable_size(&mut self, size: Size)
        requires
            size.width <= COORD_LIMIT,
            size.height <= COORD_LIMIT,
        ensures
            final(self).drawable_size.width == spec_clamp_dim(size.width),
            final(self).drawable_size.height == spec_clamp_dim(size.height),
            !final(self).has_preserved_frame,
            ImpellerAtlas::spec_same(&old(self).sprite_atlas, &final(self).sprite_atlas),
            final(self).transparent == old(self).transparent,
            final(self).destroyed == old(self).destroyed,
            old(self).sprite_atlas.inv() ==> final(self).inv(),
    {
        let width: i32 = if size.width < 1 {
            1
        } else {
            size.width
        };
        let height: i32 = if size.height < 1 {
            1
        } else {
            size.height
        };
        self.drawable_size = Size { width, height };
        self.has_preserved_frame = false;
    }

    /// Change only the background fill of later frames; the surface itself
    /// is untouched and the preserved frame stays valid.
    pub fn update_transparency(&mut self, transparent: bool)
        ensures
            final(self).transparent == transparent,
            ImpellerAtlas::spec_same(&old(self).sprite_atlas, &final(self).sprite_atlas),
            final(self).drawable_size == old(self).drawable_size,
            final(self).has_preserved_frame == old(self).has_preserved_frame,
            final(self).destroyed == old(self).destroyed,
            old(self).inv() ==> final(self).inv(),
    {
        self.transparent = transparent;
    }

    /// Tear the renderer down: the preserved frame is dropped and the
    /// renderer is terminal; no call may follow.
    pub fn destroy(&mut self)
        ensures
            final(self).destroyed,
            !final(self).has_preserved_frame,
            ImpellerAtlas::spec_same(&old(self).sprite_atlas, &final(self).sprite_atlas),
            final(self).transparent == old(self).transparent,
            final(self).drawable_size == old(self).drawable_size,
    {
        self.has_preserved_frame = false;
        self.destroyed = true;
    }
}

} // verus!

//! The frame-planning laws: damage culling is conservative and exact per
//! element, a resize disables the preserved-frame fast path for the next
//! frame, border geometry clamps as specified, a zero-angle gradient spans
//! the element vertically, and a sprite without a texture degrades to a
//! flat rectangle instead of disappearing.

use vstd::prelude::*;

use crate::color::hsla_to_rgba_spec;
use crate::color::Rgba;
use crate::display::{
    mono_fallback_commands, mono_sprite_commands, path_commands, poly_fallback_commands,
    poly_sprite_commands, polygon_commands, quad_commands, shadow_commands, spec_culled,
    spec_fill_paint, spec_gradient_paint, spec_inner_radius, spec_shadow_extent,
    underline_commands, DrawCommand, PaintSource,
};
use crate::geometry::{Bounds, Corners, Edges};
use crate::numeric::{
    cos_milli_spec, isqrt_spec, lemma_isqrt, lemma_isqrt_at_least, lemma_sin_half_range,
    normalize_degrees_spec, sin_milli_spec,
};
use crate::renderer::{frame_commands, spec_effective_region, ImpellerRenderer};
use crate::scene::{
    ColorStop, MonochromeSprite, PathShape, Polygon, PolychromeSprite, Quad, Scene, Shadow,
    Underline,
};

verus! {

/// Culling a quad against a damage region is exact and conservative: with a
/// region active, the quad plans its full commands exactly when its bounds
/// overlap the region, and plans nothing when they lie wholly outside it.
pub proof fn lemma_quad_culling(q: Quad, r: Bounds)
    ensures
        quad_commands(q, Some(r)) == if q.bounds.spec_intersects(r) {
            quad_commands(q, None)
        } else {
            Seq::<DrawCommand>::empty()
        },
{
}

/// The same culling law for a polygon.
pub proof fn lemma_polygon_culling(p: Polygon, bi: usize, ei: usize, r: Bounds)
    ensures
        polygon_commands(p, bi, ei, Some(r)) == if p.bounds.spec_intersects(r) {
            polygon_commands(p, bi, ei, None)
        } else {
            Seq::<DrawCommand>::empty()
        },
{
}

/// The same culling law for a path.
pub proof fn lemma_path_culling(p: PathShape, r: Bounds)
    ensures
        path_commands(p, Some(r)) == if p.bounds.spec_intersects(r) {
            path_commands(p, None)
        } else {
            Seq::<DrawCommand>::empty()
        },
{
}

/// The same culling law for a shadow, whose extent includes its spread.
pub proof fn lemma_shadow_culling(s: Shadow, r: Bounds)
    ensures
        shadow_commands(s, Some(r)) == if spec_shadow_extent(s).spec_intersects(r) {
            shadow_commands(s, None)
        } else {
            Seq::<DrawCommand>::empty()
        },
{
}

/// The same culling law for an underline.
pub proof fn lemma_underline_culling(u: Underline, r: Bounds)
    ensures
        underline_commands(u, Some(r)) == if u.bounds.spec_intersects(r) {
            underline_commands(u, None)
        } else {
            Seq::<DrawCommand>::empty()
        },
{
}

/// The same culling law for a monochrome sprite, textured or degraded.
pub proof fn lemma_mono_sprite_culling(s: MonochromeSprite, r: Bounds)
    ensures
        mono_sprite_commands(s, Some(r)) == if s.bounds.spec_intersects(r) {
            mono_sprite_commands(s, None)
        } else {
            Seq::<DrawCommand>::empty()
        },
        mono_fallback_commands(s, Some(r)) == if s.bounds.spec_intersects(r) {
            mono_fallback_commands(s, None)
        } else {
            Seq::<DrawCommand>::empty()
        },
{
}

/// The same culling law for a polychrome sprite, textured or degraded.
pub proof fn lemma_poly_sprite_culling(s: PolychromeSprite, r: Bounds)
    ensures
        poly_sprite_commands(s, Some(r)) == if s.bounds.spec_intersects(r) {
            poly_sprite_commands(s, None)
        } else {
            Seq::<DrawCommand>::empty()
        },
        poly_fallback_commands(s, Some(r)) == if s.bounds.spec_intersects(r) {
            poly_fallback_commands(s, None)
        } else {
            Seq::<DrawCommand>::empty()
        },
{
}

/// When a preserved frame exists, a frame's damage rectangle is exactly its
/// active region, so the per-kind culling laws above describe the planned
/// frame: an element wholly outside the rectangle is never rasterized.
/// Without a preserved frame — on the first frame after a resize — resize
/// invalidation below orders a full redraw instead, and elements outside
/// the rectangle are drawn too, as the resize rule demands.
pub proof fn lemma_active_damage_region(state: &ImpellerRenderer, scene: &Scene, r: Bounds)
    requires
        state.has_preserved_frame,
        scene.changed_bounds == Some(r),
    ensures
        spec_effective_region(state, scene) == Some(r),
{
}

/// Resize invalidation: right after a resize no preserved frame exists, so
/// a frame handed a changed region plans exactly the commands of a full
/// redraw — the same display list as a scene with nothing marked changed.
pub proof fn lemma_resize_invalidation(state: &ImpellerRenderer, scene: &Scene, full: &Scene)
    requires
        !state.has_preserved_frame,
        full.changed_bounds is None,
        full.batches@ == scene.batches@,
    ensures
        frame_commands(state, scene) == frame_commands(state, full),
{
    assert(spec_effective_region(state, scene) == spec_effective_region(state, full));
    assert(crate::renderer::scene_commands(
        scene,
        None,
        &state.sprite_atlas,
    ) == crate::renderer::scene_commands(full, None, &state.sprite_atlas));
}

/// Border geometry: with a uniform corner radius and a uniform border
/// width, the inner rounded-rect radius is the outer radius less the width,
/// clamped at zero.
pub proof fn lemma_border_radius_clamp(radius: i32, width: i32)
    requires
        0 <= radius,
        0 <= width,
    ensures
        width < radius ==> spec_inner_radius(radius, width, width) == radius - width,
        width >= radius ==> spec_inner_radius(radius, width, width) == 0,
{
}

/// The same law at the quad level: a non-culled quad with uniform radius
/// and a nonzero uniform border plans its fill and then one border command
/// whose inner radii are all the clamped difference.
pub proof fn lemma_uniform_border_quad(q: Quad, radius: i32, width: i32)
    requires
        0 <= radius,
        0 < width,
        q.corner_radii == (Corners {
            top_left: radius,
            top_right: radius,
            bottom_right: radius,
            bottom_left: radius,
        }),
        q.border_widths == (Edges { top: width, right: width, bottom: width, left: width }),
    ensures
        quad_commands(q, None).len() == 2,
        quad_commands(q, None)[1] matches DrawCommand::QuadBorder {
            inner_radii,
            ..
        } && inner_radii == (Corners {
            top_left: if width < radius {
                (radius - width) as i32
            } else {
                0
            },
            top_right: if width < radius {
                (radius - width) as i32
            } else {
                0
            },
            bottom_right: if width < radius {
                (radius - width) as i32
            } else {
                0
            },
            bottom_left: if width < radius {
                (radius - width) as i32
            } else {
                0
            },
        }),
{
}

/// Gradient symmetry: a zero-angle two-stop gradient runs straight down the
/// element's vertical center line, starting at or above the top edge with
/// the first stop's color and ending at or below one pixel short of the
/// bottom edge with the second stop's color. The axis is a pure function of
/// the element, so repeated planning is deterministic.
pub proof fn lemma_gradient_vertical_axis(bounds: Bounds, stop0: ColorStop, stop1: ColorStop)
    requires
        bounds.wf(),
    ensures
        spec_gradient_paint(bounds, 0, stop0, stop1) matches PaintSource::LinearGradient {
            start,
            end,
            color0,
            color1,
            ..
        } && {
            &&& start.x == bounds.origin.x + bounds.size.width / 2
            &&& end.x == start.x
            &&& start.y <= bounds.origin.y
            &&& end.y >= bounds.origin.y + bounds.size.height - 1
            &&& color0 == hsla_to_rgba_spec(stop0.color)
            &&& color1 == hsla_to_rgba_spec(stop1.color)
        },
{
    let w = bounds.size.width as int;
    let h = bounds.size.height as int;
    let n = w * w + h * h;
    assert(0 <= n && h * h <= n && n <= 0x2000000000000int) by (nonlinear_arith)
        requires
            0 <= w <= 16777216,
            0 <= h <= 16777216,
            n == w * w + h * h,
    ;
    let deg = normalize_degrees_spec(0);
    assert(deg == 0);
    assert(sin_milli_spec(0) == 0) by {
        lemma_sin_half_range(0);
    }
    assert(cos_milli_spec(0) == sin_milli_spec(90));
    assert(sin_milli_spec(90) == 1000) by {
        lemma_sin_half_range(90);
    }
    let diag = isqrt_spec(n);
    lemma_isqrt(n);
    lemma_isqrt_at_least(n, h);
    assert(diag <= 0x2000000) by {
        if diag > 0x2000000 {
            assert(0x2000000int * 0x2000000int <= diag * diag) by (nonlinear_arith)
                requires
                    0x2000000 <= diag,
            ;
        }
    }
    let half = diag / 2;
    assert(0 <= half <= 0x1000000);
    assert(crate::display::spec_scale_milli(0, half) == 0);
    assert(1000 * half / 1000 == half) by (nonlinear_arith)
        requires
            0 <= half,
    ;
    assert(crate::display::spec_scale_milli(1000, half) == half);
    assert(h / 2 <= half) by {
        assert(h <= diag);
        assert(h / 2 <= diag / 2) by (nonlinear_arith)
            requires
                0 <= h <= diag,
        ;
    }
    assert(h / 2 + h / 2 >= h - 1) by {
        assert(h == 2 * (h / 2) + h % 2);
        assert(h % 2 <= 1);
    }
}

/// Sprite fallback: a polychrome sprite whose batch texture was never built
/// still plans exactly one command when it survives culling — a flat
/// rectangle at the sprite's destination bounds, white at the sprite's
/// opacity, with the sprite's corner radii. Rendering never silently drops
/// a sprite.
pub proof fn lemma_sprite_fallback(s: PolychromeSprite, region: Option<Bounds>)
    ensures
        !spec_culled(s.bounds, region) ==> poly_fallback_commands(s, region) == seq![
            DrawCommand::SpriteFallback {
                bounds: s.bounds,
                color: Rgba { r: 1000, g: 1000, b: 1000, a: s.opacity },
                radii: s.corner_radii,
            },
        ],
        spec_culled(s.bounds, region) ==> poly_fallback_commands(s, region) == Seq::<
            DrawCommand,
        >::empty(),
{
}

/// A sprite is drawn exactly once whether or not its texture exists: the
/// textured and the degraded plan both hold one command for a sprite that
/// survives culling.
pub proof fn lemma_sprite_never_dropped(
    m: MonochromeSprite,
    p: PolychromeSprite,
    region: Option<Bounds>,
)
    ensures
        mono_sprite_commands(m, region).len() == (if spec_culled(m.bounds, region) {
            0int
        } else {
            1int
        }),
        mono_fallback_commands(m, region).len() == (if spec_culled(m.bounds, region) {
            0int
        } else {
            1int
        }),
        poly_sprite_commands(p, region).len() == (if spec_culled(p.bounds, region) {
            0int
        } else {
            1int
        }),
        poly_fallback_commands(p, region).len() == (if spec_culled(p.bounds, region) {
            0int
        } else {
            1int
        }),
{
}

/// A solid or pattern background always fills with its own converted
/// device color.
pub proof fn lemma_solid_fill(bounds: Bounds, c: crate::color::Hsla)
    ensures
        spec_fill_paint(bounds, crate::scene::Background::Solid(c)) == PaintSource::Solid(
            hsla_to_rgba_spec(c),
        ),
        spec_fill_paint(bounds, crate::scene::Background::PatternSlash(c)) == PaintSource::Solid(
            hsla_to_rgba_spec(c),
        ),
{
}

} // verus!

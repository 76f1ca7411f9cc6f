//! The planned display list: the ordered draw commands one frame compiles
//! to, and the per-primitive planning rules that produce them. Every color
//! reaches a command already converted to device sRGBA; every gradient
//! reaches it with its axis endpoints computed from the element's diagonal,
//! so the gradient always spans corner to corner.

use vstd::prelude::*;

use crate::atlas::AtlasTextureId;
use crate::color::{hsla_to_rgba_spec, Hsla, Rgba};
use crate::geometry::{Bounds, Corners, Edges, Point, Size};
use crate::numeric::{
    cos_milli, cos_milli_spec, isqrt64, isqrt_spec, lemma_isqrt, normalize_degrees,
    normalize_degrees_spec, sin_milli, sin_milli_spec,
};
use crate::scene::{
    Background, ColorStop, MonochromeSprite, PathShape, Polygon, PolychromeSprite, Quad, Shadow,
    TransformationMatrix, Underline,
};

verus! {

/// A fill paint as a command carries it: a device color, or a two-stop
/// linear gradient with its axis already placed in device pixels.
#[derive(Clone, Copy, Debug, PartialEq, Eq, Structural)]
pub enum PaintSource {
    Solid(Rgba),
    LinearGradient {
        start: Point,
        end: Point,
        color0: Rgba,
        color1: Rgba,
        stop0: u16,
        stop1: u16,
    },
}

/// One GPU draw command. Commands are executed strictly in order; a polygon
/// command names its point list by position in the scene that the embedder
/// still holds during the call, so every command stays plain data.
#[derive(Clone, Copy, Debug, PartialEq, Eq, Structural)]
pub enum DrawCommand {
    /// Restrict all subsequent raster output to this region.
    EnableScissor(Bounds),
    /// Lift the restriction; always issued before the frame ends.
    DisableScissor,
    /// Composite the preserved copy of the previous frame over the full
    /// drawable of this size.
    BlitPreserved(Size),
    /// Clear the whole drawable to this color.
    ClearAll(Rgba),
    /// Clear exactly this region to this color, clipped to it.
    ClearRegion { region: Bounds, color: Rgba },
    /// Fill a rounded rectangle with a paint.
    Quad { bounds: Bounds, radii: Corners, paint: PaintSource },
    /// Fill the difference between an outer and an inner rounded rectangle:
    /// the mitered border of a quad.
    QuadBorder {
        outer: Bounds,
        outer_radii: Corners,
        inner: Bounds,
        inner_radii: Corners,
        color: Rgba,
    },
    /// Fill the closed polygon at this position of the scene.
    Polygon { batch_index: usize, element_index: usize, paint: PaintSource },
    /// Stroke the same closed polygon with this width and color.
    PolygonStroke { batch_index: usize, element_index: usize, width: i32, color: Rgba },
    /// Fill a path's bounding rectangle with its solid color.
    PathRect { bounds: Bounds, color: Rgba },
    /// Fill a rounded rectangle blurred with sigma of half the blur radius;
    /// the bounds already include the spread margin.
    Shadow { bounds: Bounds, radii: Corners, blur_radius: i32, color: Rgba },
    /// Fill a solid underline rectangle.
    Underline { bounds: Bounds, color: Rgba },
    /// Draw a wavy underline as a dashed center line.
    UnderlineWavy { start: Point, end: Point, dash: i32, gap: i32, color: Rgba },
    /// Sample a tile sub-rectangle, tinted through a source-in color blend.
    MonochromeSprite {
        texture_id: AtlasTextureId,
        source: Bounds,
        dest: Bounds,
        tint: Rgba,
        transform: Option<TransformationMatrix>,
    },
    /// Sample a tile sub-rectangle, clipped to the content mask and the
    /// optional rounded corners, optionally through a luminance matrix. The
    /// opacity rides along so an executor that cannot realize the sample
    /// can still degrade to the sprite's flat fallback.
    PolychromeSprite {
        texture_id: AtlasTextureId,
        source: Bounds,
        dest: Bounds,
        content_mask: Bounds,
        radii: Corners,
        grayscale: bool,
        opacity: u16,
    },
    /// The degraded form of a sprite whose texture was never built: a flat
    /// rounded rectangle at the sprite's destination.
    SpriteFallback { bounds: Bounds, color: Rgba, radii: Corners },
    /// Copy the full just-rendered drawable into the preserved-frame
    /// texture for the next frame's undamaged regions.
    CopyToPreserved(Size),
    /// Swap the surface; always the whole surface.
    Present,
}

/// Scale `v` by `f` thousandths, truncating toward zero as machine division
/// does.
pub open spec fn spec_scale_milli(v: int, f: int) -> int {
    if v >= 0 {
        v * f / 1000
    } else {
        -((-v) * f / 1000)
    }
}

/// Where a linear gradient's axis starts and ends: through the element's
/// center, aimed by the angle, spanning half the diagonal each way.
pub open spec fn spec_gradient_paint(
    bounds: Bounds,
    angle: i32,
    stop0: ColorStop,
    stop1: ColorStop,
) -> PaintSource {
    let cx = bounds.origin.x + bounds.size.width / 2;
    let cy = bounds.origin.y + bounds.size.height / 2;
    let deg = normalize_degrees_spec(angle as int);
    let diag = isqrt_spec(
        bounds.size.width * bounds.size.width + bounds.size.height * bounds.size.height,
    );
    let half = diag / 2;
    let sx = spec_scale_milli(sin_milli_spec(deg), half);
    let sy = spec_scale_milli(cos_milli_spec(deg), half);
    PaintSource::LinearGradient {
        start: Point { x: (cx - sx) as i32, y: (cy - sy) as i32 },
        end: Point { x: (cx + sx) as i32, y: (cy + sy) as i32 },
        color0: hsla_to_rgba_spec(stop0.color),
        color1: hsla_to_rgba_spec(stop1.color),
        stop0: stop0.percentage,
        stop1: stop1.percentage,
    }
}

/// The paint a background fills with: solid and pattern backgrounds become
/// their device color, gradients get their axis placed.
pub open spec fn spec_fill_paint(bounds: Bounds, background: Background) -> PaintSource {
    match background {
        Background::Solid(c) => PaintSource::Solid(hsla_to_rgba_spec(c)),
        Background::PatternSlash(c) => PaintSource::Solid(hsla_to_rgba_spec(c)),
        Background::LinearGradient { angle, stop0, stop1 } => spec_gradient_paint(
            bounds,
            angle,
            stop0,
            stop1,
        ),
    }
}

/// The inner rectangle of a border: the outer bounds shrunk by each edge's
/// width.
pub open spec fn spec_inner_bounds(b: Bounds, e: Edges) -> Bounds {
    Bounds {
        origin: Point { x: (b.origin.x + e.left) as i32, y: (b.origin.y + e.top) as i32 },
        size: Size {
            width: (b.size.width - e.left - e.right) as i32,
            height: (b.size.height - e.top - e.bottom) as i32,
        },
    }
}

/// One inner corner radius: the outer radius reduced by the larger of the
/// two adjacent edge widths, floored at zero.
pub open spec fn spec_inner_radius(radius: i32, a: i32, b: i32) -> i32 {
    let m = if a >= b {
        a as int
    } else {
        b as int
    };
    if radius - m >= 0 {
        (radius - m) as i32
    } else {
        0
    }
}

/// All four inner corner radii of a border.
pub open spec fn spec_inner_radii(c: Corners, e: Edges) -> Corners {
    Corners {
        top_left: spec_inner_radius(c.top_left, e.left, e.top),
        top_right: spec_inner_radius(c.top_right, e.right, e.top),
        bottom_right: spec_inner_radius(c.bottom_right, e.right, e.bottom),
        bottom_left: spec_inner_radius(c.bottom_left, e.left, e.bottom),
    }
}

/// Whether a damage region is active and this element's extent misses it
/// entirely. Culling is bounds-based, never pixel-exact, so elements that
/// merely overlap the region are kept whole.
pub open spec fn spec_culled(extent: Bounds, region: Option<Bounds>) -> bool {
    match region {
        Some(r) => !extent.spec_intersects(r),
        None => false,
    }
}

/// The commands one quad plans to: nothing when culled; otherwise its fill,
/// then its border when any edge has width.
pub open spec fn quad_commands(q: Quad, region: Option<Bounds>) -> Seq<DrawCommand> {
    if spec_culled(q.bounds, region) {
        Seq::empty()
    } else {
        let fill = seq![
            DrawCommand::Quad {
                bounds: q.bounds,
                radii: q.corner_radii,
                paint: spec_fill_paint(q.bounds, q.background),
            },
        ];
        if q.border_widths.spec_any_nonzero() {
            fill + seq![
                DrawCommand::QuadBorder {
                    outer: q.bounds,
                    outer_radii: q.corner_radii,
                    inner: spec_inner_bounds(q.bounds, q.border_widths),
                    inner_radii: spec_inner_radii(q.corner_radii, q.border_widths),
                    color: hsla_to_rgba_spec(q.border_color),
                },
            ]
        } else {
            fill
        }
    }
}

/// A damage region, when present, is a well-formed rectangle.
pub open spec fn region_wf(region: Option<Bounds>) -> bool {
    match region {
        Some(r) => r.wf(),
        None => true,
    }
}

/// The commands one polygon plans to: nothing when its point list is empty
/// or it is culled; otherwise its fill, then its stroke when the border has
/// width.
pub open spec fn polygon_commands(
    p: Polygon,
    bi: usize,
    ei: usize,
    region: Option<Bounds>,
) -> Seq<DrawCommand> {
    if p.points@.len() == 0 {
        Seq::empty()
    } else if spec_culled(p.bounds, region) {
        Seq::empty()
    } else {
        let fill = seq![
            DrawCommand::Polygon {
                batch_index: bi,
                element_index: ei,
                paint: spec_fill_paint(p.bounds, p.background),
            },
        ];
        if p.border_width > 0 {
            fill + seq![
                DrawCommand::PolygonStroke {
                    batch_index: bi,
                    element_index: ei,
                    width: p.border_width,
                    color: hsla_to_rgba_spec(p.border_color),
                },
            ]
        } else {
            fill
        }
    }
}

/// The commands one path plans to: its bounding rectangle filled with its
/// solid color, unless the path is empty or culled.
pub open spec fn path_commands(p: PathShape, region: Option<Bounds>) -> Seq<DrawCommand> {
    if p.vertices@.len() == 0 {
        Seq::empty()
    } else if spec_culled(p.bounds, region) {
        Seq::empty()
    } else {
        seq![DrawCommand::PathRect { bounds: p.bounds, color: hsla_to_rgba_spec(p.color) }]
    }
}

/// A shadow's visible extent: its bounds grown on every side by the spread
/// margin, three times the blur radius.
pub open spec fn spec_shadow_extent(s: Shadow) -> Bounds {
    Bounds {
        origin: Point {
            x: (s.bounds.origin.x - 3 * s.blur_radius) as i32,
            y: (s.bounds.origin.y - 3 * s.blur_radius) as i32,
        },
        size: Size {
            width: (s.bounds.size.width + 6 * s.blur_radius) as i32,
            height: (s.bounds.size.height + 6 * s.blur_radius) as i32,
        },
    }
}

/// The command one shadow plans to, culled by its visible extent.
pub open spec fn shadow_commands(s: Shadow, region: Option<Bounds>) -> Seq<DrawCommand> {
    if spec_culled(spec_shadow_extent(s), region) {
        Seq::empty()
    } else {
        seq![
            DrawCommand::Shadow {
                bounds: spec_shadow_extent(s),
                radii: s.corner_radii,
                blur_radius: s.blur_radius,
                color: hsla_to_rgba_spec(s.color),
            },
        ]
    }
}

/// The command one underline plans to: a solid rectangle of its thickness,
/// or, when wavy, a dashed center line with dash and gap of four and two
/// thicknesses.
pub open spec fn underline_commands(u: Underline, region: Option<Bounds>) -> Seq<DrawCommand> {
    if spec_culled(u.bounds, region) {
        Seq::empty()
    } else if u.wavy {
        let y = (u.bounds.origin.y + u.bounds.size.height / 2) as i32;
        seq![
            DrawCommand::UnderlineWavy {
                start: Point { x: u.bounds.origin.x, y },
                end: Point { x: (u.bounds.origin.x + u.bounds.size.width) as i32, y },
                dash: (4 * u.thickness) as i32,
                gap: (2 * u.thickness) as i32,
                color: hsla_to_rgba_spec(u.color),
            },
        ]
    } else {
        seq![
            DrawCommand::Underline {
                bounds: Bounds {
                    origin: u.bounds.origin,
                    size: Size { width: u.bounds.size.width, height: u.thickness },
                },
                color: hsla_to_rgba_spec(u.color),
            },
        ]
    }
}

/// The command one monochrome sprite plans to when its batch texture is
/// live: a tinted sample of its tile, transformed only when the transform
/// is not the identity.
pub open spec fn mono_sprite_commands(
    s: MonochromeSprite,
    region: Option<Bounds>,
) -> Seq<DrawCommand> {
    if spec_culled(s.bounds, region) {
        Seq::empty()
    } else {
        seq![
            DrawCommand::MonochromeSprite {
                texture_id: s.tile.texture_id,
                source: s.tile.bounds,
                dest: s.bounds,
                tint: hsla_to_rgba_spec(s.color),
                transform: if s.transformation.spec_is_identity() {
                    None
                } else {
                    Some(s.transformation)
                },
            },
        ]
    }
}

/// The degraded command for a monochrome sprite without a texture: a flat
/// rectangle in the sprite's color. A sprite is never silently dropped.
pub open spec fn mono_fallback_commands(
    s: MonochromeSprite,
    region: Option<Bounds>,
) -> Seq<DrawCommand> {
    if spec_culled(s.bounds, region) {
        Seq::empty()
    } else {
        seq![
            DrawCommand::SpriteFallback {
                bounds: s.bounds,
                color: hsla_to_rgba_spec(s.color),
                radii: Corners { top_left: 0, top_right: 0, bottom_right: 0, bottom_left: 0 },
            },
        ]
    }
}

/// The command one polychrome sprite plans to when its batch texture is
/// live.
pub open spec fn poly_sprite_commands(
    s: PolychromeSprite,
    region: Option<Bounds>,
) -> Seq<DrawCommand> {
    if spec_culled(s.bounds, region) {
        Seq::empty()
    } else {
        seq![
            DrawCommand::PolychromeSprite {
                texture_id: s.tile.texture_id,
                source: s.tile.bounds,
                dest: s.bounds,
                content_mask: s.content_mask,
                radii: s.corner_radii,
                grayscale: s.grayscale,
                opacity: s.opacity,
            },
        ]
    }
}

/// The degraded command for a polychrome sprite without a texture: a flat
/// white rounded rectangle at the sprite's opacity.
pub open spec fn poly_fallback_commands(
    s: PolychromeSprite,
    region: Option<Bounds>,
) -> Seq<DrawCommand> {
    if spec_culled(s.bounds, region) {
        Seq::empty()
    } else {
        seq![
            DrawCommand::SpriteFallback {
                bounds: s.bounds,
                color: Rgba { r: 1000, g: 1000, b: 1000, a: s.opacity },
                radii: s.corner_radii,
            },
        ]
    }
}

/// The commands of a whole quad batch, in element order.
pub open spec fn quads_commands(v: Seq<Quad>, region: Option<Bounds>) -> Seq<DrawCommand>
    decreases v.len(),
{
    if v.len() == 0 {
        Seq::empty()
    } else {
        quads_commands(v.drop_last(), region) + quad_commands(v.last(), region)
    }
}

/// The commands of a whole polygon batch, in element order.
pub open spec fn polygons_commands(
    v: Seq<Polygon>,
    bi: usize,
    region: Option<Bounds>,
) -> Seq<DrawCommand>
    decreases v.len(),
{
    if v.len() == 0 {
        Seq::empty()
    } else {
        polygons_commands(v.drop_last(), bi, region) + polygon_commands(
            v.last(),
            bi,
            (v.len() - 1) as usize,
            region,
        )
    }
}

/// The commands of a whole path batch, in element order.
pub open spec fn paths_commands(v: Seq<PathShape>, region: Option<Bounds>) -> Seq<DrawCommand>
    decreases v.len(),
{
    if v.len() == 0 {
        Seq::empty()
    } else {
        paths_commands(v.drop_last(), region) + path_commands(v.last(), region)
    }
}

/// The commands of a whole shadow batch, in element order.
pub open spec fn shadows_commands(v: Seq<Shadow>, region: Option<Bounds>) -> Seq<DrawCommand>
    decreases v.len(),
{
    if v.len() == 0 {
        Seq::empty()
    } else {
        shadows_commands(v.drop_last(), region) + shadow_commands(v.last(), region)
    }
}

/// The commands of a whole underline batch, in element order.
pub open spec fn underlines_commands(v: Seq<Underline>, region: Option<Bounds>) -> Seq<
    DrawCommand,
>
    decreases v.len(),
{
    if v.len() == 0 {
        Seq::empty()
    } else {
        underlines_commands(v.drop_last(), region) + underline_commands(v.last(), region)
    }
}

/// The commands of a whole monochrome sprite batch: textured samples when
/// the batch's texture is live, flat fallbacks otherwise.
pub open spec fn mono_batch_commands(
    v: Seq<MonochromeSprite>,
    textured: bool,
    region: Option<Bounds>,
) -> Seq<DrawCommand>
    decreases v.len(),
{
    if v.len() == 0 {
        Seq::empty()
    } else {
        mono_batch_commands(v.drop_last(), textured, region) + (if textured {
            mono_sprite_commands(v.last(), region)
        } else {
            mono_fallback_commands(v.last(), region)
        })
    }
}

/// The commands of a whole polychrome sprite batch: textured samples when
/// the batch's texture is live, flat fallbacks otherwise.
pub open spec fn poly_batch_commands(
    v: Seq<PolychromeSprite>,
    textured: bool,
    region: Option<Bounds>,
) -> Seq<DrawCommand>
    decreases v.len(),
{
    if v.len() == 0 {
        Seq::empty()
    } else {
        poly_batch_commands(v.drop_last(), textured, region) + (if textured {
            poly_sprite_commands(v.last(), region)
        } else {
            poly_fallback_commands(v.last(), region)
        })
    }
}

/// Compute a fill paint at the rasterization boundary.
pub fn fill_paint(bounds: Bounds, background: &Background) -> (r: PaintSource)
    requires
        bounds.wf(),
        background.wf(),
    ensures
        r == spec_fill_paint(bounds, *background),
{
    match background {
        Background::Solid(c) => PaintSource::Solid(c.to_rgba()),
        Background::PatternSlash(c) => PaintSource::Solid(c.to_rgba()),
        Background::LinearGradient { angle, stop0, stop1 } => {
            let cx: i64 = bounds.origin.x as i64 + (bounds.size.width / 2) as i64;
            let cy: i64 = bounds.origin.y as i64 + (bounds.size.height / 2) as i64;
            let w: i64 = bounds.size.width as i64;
            let h: i64 = bounds.size.height as i64;
            proof {
                assert(0 <= w * w + h * h <= 0x2000000000000int) by (nonlinear_arith)
                    requires
                        0 <= w <= 16777216,
                        0 <= h <= 16777216,
                ;
            }
            let diag: u64 = isqrt64((w * w + h * h) as u64);
            proof {
                lemma_isqrt((w * w + h * h) as int);
                assert(isqrt_spec((w * w + h * h) as int) <= 0x2000000) by {
                    if isqrt_spec((w * w + h * h) as int) > 0x2000000 {
                        let s = isqrt_spec((w * w + h * h) as int);
                        assert(0x2000000int * 0x2000000int <= s * s) by (nonlinear_arith)
                            requires
                                0x2000000 <= s,
                        ;
                    }
                }
            }
            let half: i64 = (diag / 2) as i64;
            let deg: i32 = normalize_degrees(*angle);
            let s: i64 = sin_milli(deg) as i64;
            let c: i64 = cos_milli(deg) as i64;
            let sx: i64 = scale_milli(s, half);
            let sy: i64 = scale_milli(c, half);
            PaintSource::LinearGradient {
                start: Point { x: (cx - sx) as i32, y: (cy - sy) as i32 },
                end: Point { x: (cx + sx) as i32, y: (cy + sy) as i32 },
                color0: stop0.color.to_rgba(),
                color1: stop1.color.to_rgba(),
                stop0: stop0.percentage,
                stop1: stop1.percentage,
            }
        },
    }
}

/// Whether a damage region is active and the element misses it.
pub fn is_culled(extent: Bounds, region: Option<Bounds>) -> (r: bool)
    requires
        extent.arith_wf(),
        region_wf(region),
    ensures
        r == spec_culled(extent, region),
{
    match region {
        Some(damage) => !extent.intersects(&damage),
        None => false,
    }
}

/// The inner rectangle of a border.
pub fn inner_bounds(b: Bounds, e: Edges) -> (r: Bounds)
    requires
        b.wf(),
        e.wf(),
    ensures
        r == spec_inner_bounds(b, e),
{
    Bounds {
        origin: Point { x: b.origin.x + e.left, y: b.origin.y + e.top },
        size: Size {
            width: b.size.width - e.left - e.right,
            height: b.size.height - e.top - e.bottom,
        },
    }
}

/// One inner corner radius.
pub fn inner_radius(radius: i32, a: i32, b: i32) -> (r: i32)
    requires
        0 <= radius <= 16777216,
        0 <= a <= 16777216,
        0 <= b <= 16777216,
    ensures
        r == spec_inner_radius(radius, a, b),
{
    let m: i32 = if a >= b {
        a
    } else {
        b
    };
    if radius - m >= 0 {
        radius - m
    } else {
        0
    }
}

/// All four inner corner radii of a border.
pub fn inner_radii(c: Corners, e: Edges) -> (r: Corners)
    requires
        c.wf(),
        e.wf(),
    ensures
        r == spec_inner_radii(c, e),
{
    Corners {
        top_left: inner_radius(c.top_left, e.left, e.top),
        top_right: inner_radius(c.top_right, e.right, e.top),
        bottom_right: inner_radius(c.bottom_right, e.right, e.bottom),
        bottom_left: inner_radius(c.bottom_left, e.left, e.bottom),
    }
}

/// Plan one quad.
pub fn plan_quad(cmds: &mut Vec<DrawCommand>, q: &Quad, region: Option<Bounds>)
    requires
        q.wf(),
        region_wf(region),
    ensures
        final(cmds)@ == old(cmds)@ + quad_commands(*q, region),
{
    if is_culled(q.bounds, region) {
        proof {
            assert(final(cmds)@ =~= old(cmds)@ + quad_commands(*q, region));
        }
        return ;
    }
    let paint = fill_paint(q.bounds, &q.background);
    cmds.push(DrawCommand::Quad { bounds: q.bounds, radii: q.corner_radii, paint });
    if q.border_widths.any_nonzero() {
        let inner = inner_bounds(q.bounds, q.border_widths);
        let radii = inner_radii(q.corner_radii, q.border_widths);
        cmds.push(
            DrawCommand::QuadBorder {
                outer: q.bounds,
                outer_radii: q.corner_radii,
                inner,
                inner_radii: radii,
                color: q.border_color.to_rgba(),
            },
        );
    }
    proof {
        assert(cmds@ =~= old(cmds)@ + quad_commands(*q, region));
    }
}

/// Plan a whole quad batch in element order.
pub fn plan_quads(cmds: &mut Vec<DrawCommand>, v: &Vec<Quad>, region: Option<Bounds>)
    requires
        forall|i: int| 0 <= i < v.len() ==> (#[trigger] v[i]).wf(),
        region_wf(region),
    ensures
        final(cmds)@ == old(cmds)@ + quads_commands(v@, region),
{
    let mut i: usize = 0;
    proof {
        assert(v@.take(0int) =~= Seq::<Quad>::empty());
        assert(cmds@ =~= old(cmds)@ + quads_commands(v@.take(0int), region));
    }
    while i < v.len()
        invariant
            i <= v.len(),
            forall|j: int| 0 <= j < v.len() ==> (#[trigger] v@[j]).wf(),
            region_wf(region),
            cmds@ == old(cmds)@ + quads_commands(v@.take(i as int), region),
        decreases v.len() - i,
    {
        plan_quad(cmds, &v[i], region);
        proof {
            assert(v@.take(i + 1).drop_last() =~= v@.take(i as int));
            assert(v@.take(i + 1).last() == v@[i as int]);
        }
        i += 1;
    }
    proof {
        assert(v@.take(v.len() as int) =~= v@);
    }
}

/// Plan one polygon, which the command names by its scene position.
pub fn plan_polygon(
    cmds: &mut Vec<DrawCommand>,
    p: &Polygon,
    bi: usize,
    ei: usize,
    region: Option<Bounds>,
)
    requires
        p.wf(),
        region_wf(region),
    ensures
        final(cmds)@ == old(cmds)@ + polygon_commands(*p, bi, ei, region),
{
    if p.points.len() == 0 {
        proof {
            assert(final(cmds)@ =~= old(cmds)@ + polygon_commands(*p, bi, ei, region));
        }
        return ;
    }
    if is_culled(p.bounds, region) {
        proof {
            assert(final(cmds)@ =~= old(cmds)@ + polygon_commands(*p, bi, ei, region));
        }
        return ;
    }
    let paint = fill_paint(p.bounds, &p.background);
    cmds.push(DrawCommand::Polygon { batch_index: bi, element_index: ei, paint });
    if p.border_width > 0 {
        cmds.push(
            DrawCommand::PolygonStroke {
                batch_index: bi,
                element_index: ei,
                width: p.border_width,
                color: p.border_color.to_rgba(),
            },
        );
    }
    proof {
        assert(cmds@ =~= old(cmds)@ + polygon_commands(*p, bi, ei, region));
    }
}

/// Plan a whole polygon batch in element order.
pub fn plan_polygons(cmds: &mut Vec<DrawCommand>, v: &Vec<Polygon>, bi: usize, region: Option<
    Bounds,
>)
    requires
        forall|i: int| 0 <= i < v.len() ==> (#[trigger] v[i]).wf(),
        region_wf(region),
    ensures
        final(cmds)@ == old(cmds)@ + polygons_commands(v@, bi, region),
{
    let mut i: usize = 0;
    proof {
        assert(v@.take(0int) =~= Seq::<Polygon>::empty());
        assert(cmds@ =~= old(cmds)@ + polygons_commands(v@.take(0int), bi, region));
    }
    while i < v.len()
        invariant
            i <= v.len(),
            forall|j: int| 0 <= j < v.len() ==> (#[trigger] v@[j]).wf(),
            region_wf(region),
            cmds@ == old(cmds)@ + polygons_commands(v@.take(i as int), bi, region),
        decreases v.len() - i,
    {
        plan_polygon(cmds, &v[i], bi, i, region);
        proof {
            assert(v@.take(i + 1).drop_last() =~= v@.take(i as int));
            assert(v@.take(i + 1).last() == v@[i as int]);
        }
        i += 1;
    }
    proof {
        assert(v@.take(v.len() as int) =~= v@);
    }
}

/// Plan a whole path batch in element order.
pub fn plan_paths(cmds: &mut Vec<DrawCommand>, v: &Vec<PathShape>, region: Option<Bounds>)
    requires
        forall|i: int| 0 <= i < v.len() ==> (#[trigger] v[i]).wf(),
        region_wf(region),
    ensures
        final(cmds)@ == old(cmds)@ + paths_commands(v@, region),
{
    let mut i: usize = 0;
    proof {
        assert(v@.take(0int) =~= Seq::<PathShape>::empty());
        assert(cmds@ =~= old(cmds)@ + paths_commands(v@.take(0int), region));
    }
    while i < v.len()
        invariant
            i <= v.len(),
            forall|j: int| 0 <= j < v.len() ==> (#[trigger] v@[j]).wf(),
            region_wf(region),
            cmds@ == old(cmds)@ + paths_commands(v@.take(i as int), region),
        decreases v.len() - i,
    {
        let p = &v[i];
        if p.vertices.len() > 0 && !is_culled(p.bounds, region) {
            cmds.push(DrawCommand::PathRect { bounds: p.bounds, color: p.color.to_rgba() });
        }
        proof {
            assert(v@.take(i + 1).drop_last() =~= v@.take(i as int));
            assert(v@.take(i + 1).last() == v@[i as int]);
            assert(cmds@ =~= old(cmds)@ + paths_commands(v@.take(i + 1), region));
        }
        i += 1;
    }
    proof {
        assert(v@.take(v.len() as int) =~= v@);
    }
}

/// A shadow's visible extent, computed in device pixels.
pub fn shadow_extent(s: &Shadow) -> (r: Bounds)
    requires
        s.wf(),
    ensures
        r == spec_shadow_extent(*s),
{
    Bounds {
        origin: Point {
            x: s.bounds.origin.x - 3 * s.blur_radius,
            y: s.bounds.origin.y - 3 * s.blur_radius,
        },
        size: Size {
            width: s.bounds.size.width + 6 * s.blur_radius,
            height: s.bounds.size.height + 6 * s.blur_radius,
        },
    }
}

/// Plan a whole shadow batch in element order.
pub fn plan_shadows(cmds: &mut Vec<DrawCommand>, v: &Vec<Shadow>, region: Option<Bounds>)
    requires
        forall|i: int| 0 <= i < v.len() ==> (#[trigger] v[i]).wf(),
        region_wf(region),
    ensures
        final(cmds)@ == old(cmds)@ + shadows_commands(v@, region),
{
    let mut i: usize = 0;
    proof {
        assert(v@.take(0int) =~= Seq::<Shadow>::empty());
        assert(cmds@ =~= old(cmds)@ + shadows_commands(v@.take(0int), region));
    }
    while i < v.len()
        invariant
            i <= v.len(),
            forall|j: int| 0 <= j < v.len() ==> (#[trigger] v@[j]).wf(),
            region_wf(region),
            cmds@ == old(cmds)@ + shadows_commands(v@.take(i as int), region),
        decreases v.len() - i,
    {
        let s = &v[i];
        let extent = shadow_extent(s);
        if !is_culled(extent, region) {
            cmds.push(
                DrawCommand::Shadow {
                    bounds: extent,
                    radii: s.corner_radii,
                    blur_radius: s.blur_radius,
                    color: s.color.to_rgba(),
                },
            );
        }
        proof {
            assert(v@.take(i + 1).drop_last() =~= v@.take(i as int));
            assert(v@.take(i + 1).last() == v@[i as int]);
            assert(cmds@ =~= old(cmds)@ + shadows_commands(v@.take(i + 1), region));
        }
        i += 1;
    }
    proof {
        assert(v@.take(v.len() as int) =~= v@);
    }
}

/// Plan a whole underline batch in element order.
pub fn plan_underlines(cmds: &mut Vec<DrawCommand>, v: &Vec<Underline>, region: Option<Bounds>)
    requires
        forall|i: int| 0 <= i < v.len() ==> (#[trigger] v[i]).wf(),
        region_wf(region),
    ensures
        final(cmds)@ == old(cmds)@ + underlines_commands(v@, region),
{
    let mut i: usize = 0;
    proof {
        assert(v@.take(0int) =~= Seq::<Underline>::empty());
        assert(cmds@ =~= old(cmds)@ + underlines_commands(v@.take(0int), region));
    }
    while i < v.len()
        invariant
            i <= v.len(),
            forall|j: int| 0 <= j < v.len() ==> (#[trigger] v@[j]).wf(),
            region_wf(region),
            cmds@ == old(cmds)@ + underlines_commands(v@.take(i as int), region),
        decreases v.len() - i,
    {
        let u = &v[i];
        if !is_culled(u.bounds, region) {
            if u.wavy {
                let y: i32 = u.bounds.origin.y + u.bounds.size.height / 2;
                cmds.push(
                    DrawCommand::UnderlineWavy {
                        start: Point { x: u.bounds.origin.x, y },
                        end: Point { x: u.bounds.origin.x + u.bounds.size.width, y },
                        dash: 4 * u.thickness,
                        gap: 2 * u.thickness,
                        color: u.color.to_rgba(),
                    },
                );
            } else {
                cmds.push(
                    DrawCommand::Underline {
                        bounds: Bounds {
                            origin: u.bounds.origin,
                            size: Size { width: u.bounds.size.width, height: u.thickness },
                        },
                        color: u.color.to_rgba(),
                    },
                );
            }
        }
        proof {
            assert(v@.take(i + 1).drop_last() =~= v@.take(i as int));
            assert(v@.take(i + 1).last() == v@[i as int]);
            assert(cmds@ =~= old(cmds)@ + underlines_commands(v@.take(i + 1), region));
        }
        i += 1;
    }
    proof {
        assert(v@.take(v.len() as int) =~= v@);
    }
}

/// Plan a whole monochrome sprite batch in element order: tinted samples
/// when the batch texture is live, flat fallbacks otherwise.
pub fn plan_mono_sprites(
    cmds: &mut Vec<DrawCommand>,
    v: &Vec<MonochromeSprite>,
    textured: bool,
    region: Option<Bounds>,
)
    requires
        forall|i: int| 0 <= i < v.len() ==> (#[trigger] v[i]).wf(),
        region_wf(region),
    ensures
        final(cmds)@ == old(cmds)@ + mono_batch_commands(v@, textured, region),
{
    let mut i: usize = 0;
    proof {
        assert(v@.take(0int) =~= Seq::<MonochromeSprite>::empty());
        assert(cmds@ =~= old(cmds)@ + mono_batch_commands(v@.take(0int), textured, region));
    }
    while i < v.len()
        invariant
            i <= v.len(),
            forall|j: int| 0 <= j < v.len() ==> (#[trigger] v@[j]).wf(),
            region_wf(region),
            cmds@ == old(cmds)@ + mono_batch_commands(v@.take(i as int), textured, region),
        decreases v.len() - i,
    {
        let s = &v[i];
        if !is_culled(s.bounds, region) {
            if textured {
                let transform: Option<TransformationMatrix> = if s.transformation.is_identity() {
                    None
                } else {
                    Some(s.transformation)
                };
                cmds.push(
                    DrawCommand::MonochromeSprite {
                        texture_id: s.tile.texture_id,
                        source: s.tile.bounds,
                        dest: s.bounds,
                        tint: s.color.to_rgba(),
                        transform,
                    },
                );
            } else {
                cmds.push(
                    DrawCommand::SpriteFallback {
                        bounds: s.bounds,
                        color: s.color.to_rgba(),
                        radii: Corners {
                            top_left: 0,
                            top_right: 0,
                            bottom_right: 0,
                            bottom_left: 0,
                        },
                    },
                );
            }
        }
        proof {
            assert(v@.take(i + 1).drop_last() =~= v@.take(i as int));
            assert(v@.take(i + 1).last() == v@[i as int]);
            assert(cmds@ =~= old(cmds)@ + mono_batch_commands(v@.take(i + 1), textured, region));
        }
        i += 1;
    }
    proof {
        assert(v@.take(v.len() as int) =~= v@);
    }
}

/// Plan a whole polychrome sprite batch in element order: clipped samples
/// when the batch texture is live, flat fallbacks otherwise.
pub fn plan_poly_sprites(
    cmds: &mut Vec<DrawCommand>,
    v: &Vec<PolychromeSprite>,
    textured: bool,
    region: Option<Bounds>,
)
    requires
        forall|i: int| 0 <= i < v.len() ==> (#[trigger] v[i]).wf(),
        region_wf(region),
    ensures
        final(cmds)@ == old(cmds)@ + poly_batch_commands(v@, textured, region),
{
    let mut i: usize = 0;
    proof {
        assert(v@.take(0int) =~= Seq::<PolychromeSprite>::empty());
        assert(cmds@ =~= old(cmds)@ + poly_batch_commands(v@.take(0int), textured, region));
    }
    while i < v.len()
        invariant
            i <= v.len(),
            forall|j: int| 0 <= j < v.len() ==> (#[trigger] v@[j]).wf(),
            region_wf(region),
            cmds@ == old(cmds)@ + poly_batch_commands(v@.take(i as int), textured, region),
        decreases v.len() - i,
    {
        let s = &v[i];
        if !is_culled(s.bounds, region) {
            if textured {
                cmds.push(
                    DrawCommand::PolychromeSprite {
                        texture_id: s.tile.texture_id,
                        source: s.tile.bounds,
                        dest: s.bounds,
                        content_mask: s.content_mask,
                        radii: s.corner_radii,
                        grayscale: s.grayscale,
                        opacity: s.opacity,
                    },
                );
            } else {
                cmds.push(
                    DrawCommand::SpriteFallback {
                        bounds: s.bounds,
                        color: Rgba { r: 1000, g: 1000, b: 1000, a: s.opacity },
                        radii: s.corner_radii,
                    },
                );
            }
        }
        proof {
            assert(v@.take(i + 1).drop_last() =~= v@.take(i as int));
            assert(v@.take(i + 1).last() == v@[i as int]);
            assert(cmds@ =~= old(cmds)@ + poly_batch_commands(v@.take(i + 1), textured, region));
        }
        i += 1;
    }
    proof {
        assert(v@.take(v.len() as int) =~= v@);
    }
}

/// Scale `v` by `f` thousandths.
fn scale_milli(v: i64, f: i64) -> (r: i64)
    requires
        -1000 <= v <= 1000,
        0 <= f <= 0x1000000,
    ensures
        r == spec_scale_milli(v as int, f as int),
        -f <= r <= f,
{
    proof {
        assert(0 <= 1000 * f && 1000 * f <= 0x3E8000000int) by (nonlinear_arith)
            requires
                0 <= f <= 0x1000000,
        ;
        assert(forall|a: int| 0 <= a <= 1000 ==> #[trigger] (a * f) <= 1000 * f) by {
            assert forall|a: int| 0 <= a <= 1000 implies #[trigger] (a * f) <= 1000 * f by {
                assert(a * f <= 1000 * f) by (nonlinear_arith)
                    requires
                        0 <= a <= 1000,
                        0 <= f,
                ;
            }
        }
        assert(forall|a: int| 0 <= a <= 1000 ==> 0 <= #[trigger] (a * f)) by {
            assert forall|a: int| 0 <= a <= 1000 implies 0 <= #[trigger] (a * f) by {
                assert(0 <= a * f) by (nonlinear_arith)
                    requires
                        0 <= a,
                        0 <= f,
                ;
            }
        }
        assert(forall|x: int| 0 <= x <= 1000 * f ==> 0 <= #[trigger] (x / 1000) && x / 1000
            <= f) by {
            assert forall|x: int| 0 <= x <= 1000 * f implies 0 <= #[trigger] (x / 1000) && x
                / 1000 <= f by {
                assert(0 <= x / 1000 <= f) by (nonlinear_arith)
                    requires
                        0 <= x <= 1000 * f,
                ;
            }
        }
    }
    if v >= 0 {
        v * f / 1000
    } else {
        -((-v) * f / 1000)
    }
}

} // verus!

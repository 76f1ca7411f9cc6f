use render_core::atlas::{AtlasTextureId, AtlasTextureKind, AtlasTile, TileId};
use render_core::color::{Hsla, Rgba};
use render_core::display::{DrawCommand, PaintSource};
use render_core::geometry::{Bounds, Corners, Edges, Point, Size};
use render_core::renderer::ImpellerRenderer;
use render_core::scene::{
    Background, ColorStop, MonochromeSprite, PolychromeSprite, PrimitiveBatch, Quad, Scene,
    Shadow, TransformationMatrix, Underline,
};

fn solid_quad(x: i32, y: i32, w: i32, h: i32) -> Quad {
    Quad {
        bounds: Bounds::new(x, y, w, h),
        corner_radii: Corners::uniform(0),
        background: Background::Solid(Hsla::black()),
        border_widths: Edges::zero(),
        border_color: Hsla::black(),
    }
}

fn scene_with(batches: Vec<PrimitiveBatch>, changed: Option<Bounds>) -> Scene {
    Scene { batches, changed_bounds: changed }
}

fn dummy_tile() -> AtlasTile {
    AtlasTile {
        texture_id: AtlasTextureId { index: 0, kind: AtlasTextureKind::Polychrome },
        tile_id: TileId(0),
        padding: 0,
        bounds: Bounds::new(0, 0, 8, 8),
    }
}

#[test]
fn first_frame_ignores_changed_bounds() {
    let mut renderer = ImpellerRenderer::new((200, 100));
    let scene = scene_with(vec![], Some(Bounds::new(10, 10, 20, 20)));
    let cmds = renderer.draw(&scene);
    // No preserved frame exists yet, so the frame opens with a full clear
    // and never scissors.
    assert_eq!(cmds[0], DrawCommand::ClearAll(Rgba { r: 0, g: 0, b: 0, a: 1000 }));
    assert!(!cmds.iter().any(|c| matches!(c, DrawCommand::EnableScissor(_))));
    assert_eq!(cmds[cmds.len() - 2], DrawCommand::CopyToPreserved(Size { width: 200, height: 100 }));
    assert_eq!(cmds[cmds.len() - 1], DrawCommand::Present);
}

#[test]
fn second_frame_uses_damage_region() {
    let mut renderer = ImpellerRenderer::new((200, 100));
    renderer.draw(&scene_with(vec![], None));
    let r = Bounds::new(10, 10, 20, 20);
    let cmds = renderer.draw(&scene_with(vec![], Some(r)));
    // The preserved frame fills the untouched area before the scissor
    // restricts drawing to the damage region.
    assert_eq!(cmds[0], DrawCommand::BlitPreserved(Size { width: 200, height: 100 }));
    assert_eq!(cmds[1], DrawCommand::EnableScissor(r));
    assert_eq!(
        cmds[2],
        DrawCommand::ClearRegion { region: r, color: Rgba { r: 0, g: 0, b: 0, a: 1000 } }
    );
    assert_eq!(cmds[cmds.len() - 3], DrawCommand::DisableScissor);
    assert_eq!(cmds[cmds.len() - 1], DrawCommand::Present);
}

#[test]
fn resize_invalidates_preserved_frame() {
    let quad = solid_quad(0, 0, 50, 50);
    let run = |changed: Option<Bounds>| -> Vec<DrawCommand> {
        let mut renderer = ImpellerRenderer::new((200, 100));
        renderer.draw(&scene_with(vec![PrimitiveBatch::Quads(vec![quad.clone()])], None));
        renderer.update_drawable_size(Size { width: 300, height: 150 });
        renderer.draw(&scene_with(vec![PrimitiveBatch::Quads(vec![quad.clone()])], changed))
    };
    let with_damage = run(Some(Bounds::new(5, 5, 10, 10)));
    let without = run(None);
    // Immediately after a resize a damaged draw plans exactly a full
    // redraw.
    assert_eq!(with_damage, without);
    assert_eq!(with_damage[0], DrawCommand::ClearAll(Rgba { r: 0, g: 0, b: 0, a: 1000 }));
}

#[test]
fn damage_culling_is_bounds_based() {
    let inside = solid_quad(10, 10, 20, 20);
    let overlapping = solid_quad(25, 25, 20, 20);
    let outside = solid_quad(200, 200, 20, 20);
    let mut renderer = ImpellerRenderer::new((400, 400));
    renderer.draw(&scene_with(vec![], None));
    let region = Bounds::new(0, 0, 32, 32);
    let cmds = renderer.draw(&scene_with(
        vec![PrimitiveBatch::Quads(vec![inside.clone(), overlapping.clone(), outside.clone()])],
        Some(region),
    ));
    let drawn: Vec<Bounds> = cmds
        .iter()
        .filter_map(|c| match c {
            DrawCommand::Quad { bounds, .. } => Some(*bounds),
            _ => None,
        })
        .collect();
    // Elements intersecting the region are drawn in full; wholly outside
    // ones are never rasterized.
    assert_eq!(drawn, vec![inside.bounds, overlapping.bounds]);
}

#[test]
fn border_geometry_clamps_inner_radii() {
    let quad = Quad {
        bounds: Bounds::new(10, 10, 100, 100),
        corner_radii: Corners::uniform(10),
        background: Background::Solid(Hsla::black()),
        border_widths: Edges::uniform(4),
        border_color: Hsla::white(),
    };
    let mut renderer = ImpellerRenderer::new((400, 400));
    let cmds = renderer.draw(&scene_with(vec![PrimitiveBatch::Quads(vec![quad])], None));
    let border = cmds
        .iter()
        .find_map(|c| match c {
            DrawCommand::QuadBorder { inner, inner_radii, .. } => Some((*inner, *inner_radii)),
            _ => None,
        })
        .expect("a border command is planned");
    assert_eq!(border.0, Bounds::new(14, 14, 92, 92));
    assert_eq!(border.1, Corners::uniform(6));

    let clamped = Quad {
        corner_radii: Corners::uniform(3),
        border_widths: Edges::uniform(4),
        ..quad
    };
    let cmds = renderer.draw(&scene_with(vec![PrimitiveBatch::Quads(vec![clamped])], None));
    let border = cmds
        .iter()
        .find_map(|c| match c {
            DrawCommand::QuadBorder { inner_radii, .. } => Some(*inner_radii),
            _ => None,
        })
        .unwrap();
    assert_eq!(border, Corners::uniform(0));
}

#[test]
fn zero_width_border_plans_no_border() {
    let mut renderer = ImpellerRenderer::new((400, 400));
    let cmds = renderer.draw(&scene_with(
        vec![PrimitiveBatch::Quads(vec![solid_quad(0, 0, 10, 10)])],
        None,
    ));
    assert!(!cmds.iter().any(|c| matches!(c, DrawCommand::QuadBorder { .. })));
}

#[test]
fn gradient_at_zero_angle_runs_top_to_bottom() {
    let white = Hsla::white();
    let black = Hsla::black();
    let quad = Quad {
        bounds: Bounds::new(0, 0, 100, 100),
        corner_radii: Corners::uniform(0),
        background: Background::LinearGradient {
            angle: 0,
            stop0: ColorStop { color: white, percentage: 0 },
            stop1: ColorStop { color: black, percentage: 1000 },
        },
        border_widths: Edges::zero(),
        border_color: black,
    };
    let run = || {
        let mut renderer = ImpellerRenderer::new((400, 400));
        renderer.draw(&scene_with(vec![PrimitiveBatch::Quads(vec![quad.clone()])], None))
    };
    let cmds = run();
    let paint = cmds
        .iter()
        .find_map(|c| match c {
            DrawCommand::Quad { paint, .. } => Some(*paint),
            _ => None,
        })
        .unwrap();
    match paint {
        PaintSource::LinearGradient { start, end, color0, color1, .. } => {
            // The axis is the vertical center line: isqrt(20000) = 141, so
            // the half diagonal is 70.
            assert_eq!(start, Point { x: 50, y: -20 });
            assert_eq!(end, Point { x: 50, y: 120 });
            assert!(start.y <= 0 && end.y >= 99);
            // White at the start (top), black at the end (bottom).
            assert_eq!(color0, Rgba { r: 1000, g: 1000, b: 1000, a: 1000 });
            assert_eq!(color1, Rgba { r: 0, g: 0, b: 0, a: 1000 });
        }
        _ => panic!("expected a gradient paint"),
    }
    // Determinism: planning the same frame again yields the same paint.
    let again = run();
    assert_eq!(cmds, again);
}

#[test]
fn polychrome_sprite_without_texture_degrades_to_rectangle() {
    let sprite = PolychromeSprite {
        bounds: Bounds::new(5, 5, 40, 30),
        tile: dummy_tile(),
        content_mask: Bounds::new(0, 0, 400, 400),
        corner_radii: Corners::uniform(2),
        grayscale: false,
        opacity: 700,
    };
    let mut renderer = ImpellerRenderer::new((400, 400));
    let cmds = renderer.draw(&scene_with(
        vec![PrimitiveBatch::PolychromeSprites {
            texture_id: AtlasTextureId { index: 9, kind: AtlasTextureKind::Polychrome },
            sprites: vec![sprite.clone()],
        }],
        None,
    ));
    let fallback = cmds
        .iter()
        .find_map(|c| match c {
            DrawCommand::SpriteFallback { bounds, color, radii } => Some((*bounds, *color, *radii)),
            _ => None,
        })
        .expect("the sprite is not silently dropped");
    assert_eq!(fallback.0, sprite.bounds);
    assert_eq!(fallback.1, Rgba { r: 1000, g: 1000, b: 1000, a: 700 });
    assert_eq!(fallback.2, Corners::uniform(2));
    assert!(!cmds.iter().any(|c| matches!(c, DrawCommand::PolychromeSprite { .. })));
}

#[test]
fn monochrome_sprite_without_texture_degrades_to_color_fill() {
    let sprite = MonochromeSprite {
        bounds: Bounds::new(1, 2, 8, 8),
        color: Hsla::black(),
        tile: dummy_tile(),
        transformation: TransformationMatrix::identity(),
    };
    let mut renderer = ImpellerRenderer::new((100, 100));
    let cmds = renderer.draw(&scene_with(
        vec![PrimitiveBatch::MonochromeSprites {
            texture_id: AtlasTextureId { index: 3, kind: AtlasTextureKind::Monochrome },
            sprites: vec![sprite],
        }],
        None,
    ));
    assert!(cmds.iter().any(|c| matches!(c, DrawCommand::SpriteFallback { .. })));
}

#[test]
fn identity_transform_is_skipped() {
    let mut renderer = ImpellerRenderer::new((100, 100));
    // Build a real texture so the sprite draws textured.
    let key = render_core::atlas::AtlasKey {
        id: 1,
        kind: AtlasTextureKind::Monochrome,
    };
    let tile = {
        let mut atlas_tile = None;
        let sprite_atlas = &mut renderer.sprite_atlas;
        let r = sprite_atlas
            .get_or_insert_with(&key, || Ok(Some((Size { width: 1, height: 1 }, vec![255]))));
        if let Ok(Some(t)) = r {
            atlas_tile = Some(t);
        }
        atlas_tile.unwrap()
    };
    let still = MonochromeSprite {
        bounds: Bounds::new(0, 0, 8, 8),
        color: Hsla::white(),
        tile,
        transformation: TransformationMatrix::identity(),
    };
    let mut moved = still.clone();
    moved.transformation = TransformationMatrix { m00: 1000, m01: 0, m10: 0, m11: 1000, tx: 3, ty: 4 };
    let cmds = renderer.draw(&scene_with(
        vec![PrimitiveBatch::MonochromeSprites {
            texture_id: tile.texture_id,
            sprites: vec![still, moved],
        }],
        None,
    ));
    let transforms: Vec<Option<TransformationMatrix>> = cmds
        .iter()
        .filter_map(|c| match c {
            DrawCommand::MonochromeSprite { transform, .. } => Some(*transform),
            _ => None,
        })
        .collect();
    assert_eq!(transforms.len(), 2);
    assert!(transforms[0].is_none());
    assert_eq!(transforms[1].unwrap().tx, 3);
}

#[test]
fn shadow_gets_spread_margin() {
    let shadow = Shadow {
        bounds: Bounds::new(100, 100, 50, 50),
        corner_radii: Corners::uniform(5),
        blur_radius: 4,
        color: Hsla::black(),
    };
    let mut renderer = ImpellerRenderer::new((400, 400));
    let cmds = renderer.draw(&scene_with(vec![PrimitiveBatch::Shadows(vec![shadow])], None));
    let planned = cmds
        .iter()
        .find_map(|c| match c {
            DrawCommand::Shadow { bounds, blur_radius, .. } => Some((*bounds, *blur_radius)),
            _ => None,
        })
        .unwrap();
    // The spread is three blur radii on every side.
    assert_eq!(planned.0, Bounds::new(88, 88, 74, 74));
    assert_eq!(planned.1, 4);
}

#[test]
fn wavy_underline_becomes_dashed_center_line() {
    let underline = Underline {
        bounds: Bounds::new(10, 20, 40, 6),
        thickness: 2,
        color: Hsla::black(),
        wavy: true,
    };
    let mut renderer = ImpellerRenderer::new((100, 100));
    let cmds = renderer.draw(&scene_with(vec![PrimitiveBatch::Underlines(vec![underline])], None));
    let planned = cmds
        .iter()
        .find_map(|c| match c {
            DrawCommand::UnderlineWavy { start, end, dash, gap, .. } => {
                Some((*start, *end, *dash, *gap))
            }
            _ => None,
        })
        .unwrap();
    assert_eq!(planned.0, Point { x: 10, y: 23 });
    assert_eq!(planned.1, Point { x: 50, y: 23 });
    assert_eq!(planned.2, 8, "dash length is four thicknesses");
    assert_eq!(planned.3, 4, "gap is two thicknesses");
}

#[test]
fn solid_underline_is_a_rectangle_of_its_thickness() {
    let underline = Underline {
        bounds: Bounds::new(10, 20, 40, 6),
        thickness: 2,
        color: Hsla::black(),
        wavy: false,
    };
    let mut renderer = ImpellerRenderer::new((100, 100));
    let cmds = renderer.draw(&scene_with(vec![PrimitiveBatch::Underlines(vec![underline])], None));
    let planned = cmds
        .iter()
        .find_map(|c| match c {
            DrawCommand::Underline { bounds, .. } => Some(*bounds),
            _ => None,
        })
        .unwrap();
    assert_eq!(planned, Bounds::new(10, 20, 40, 2));
}

#[test]
fn transparency_changes_only_the_clear_color() {
    let mut renderer = ImpellerRenderer::new((100, 100));
    renderer.update_transparency(true);
    let cmds = renderer.draw(&scene_with(vec![], None));
    assert_eq!(cmds[0], DrawCommand::ClearAll(Rgba { r: 0, g: 0, b: 0, a: 0 }));
}

#[test]
fn batches_plan_in_paint_order() {
    let first = solid_quad(0, 0, 10, 10);
    let second = solid_quad(20, 20, 10, 10);
    let mut renderer = ImpellerRenderer::new((100, 100));
    let cmds = renderer.draw(&scene_with(
        vec![
            PrimitiveBatch::Quads(vec![first.clone()]),
            PrimitiveBatch::Quads(vec![second.clone()]),
        ],
        None,
    ));
    let drawn: Vec<Bounds> = cmds
        .iter()
        .filter_map(|c| match c {
            DrawCommand::Quad { bounds, .. } => Some(*bounds),
            _ => None,
        })
        .collect();
    assert_eq!(drawn, vec![first.bounds, second.bounds]);
}

#[test]
fn gpu_specs_reports_software_emulation() {
    let renderer = ImpellerRenderer::new((1, 1));
    let specs = renderer.gpu_specs();
    assert!(specs.is_software_emulated);
    assert!(specs.device_name.is_empty());
    assert!(specs.driver_name.is_empty());
    assert!(specs.driver_info.is_empty());
}

#[test]
fn zero_config_clamps_to_one_pixel() {
    let renderer = ImpellerRenderer::new((0, 0));
    assert_eq!(renderer.drawable_size, Size { width: 1, height: 1 });
}

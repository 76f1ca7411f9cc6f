use render_core::color::{Hsla, Rgba};
use render_core::display::{DrawCommand, PaintSource};
use render_core::geometry::{Bounds, Point};
use render_core::renderer::ImpellerRenderer;
use render_core::scene::{
    Background, ColorStop, PathShape, Polygon, PrimitiveBatch, Scene,
};

fn draw(batches: Vec<PrimitiveBatch>, changed: Option<Bounds>) -> Vec<DrawCommand> {
    let mut renderer = ImpellerRenderer::new((400, 400));
    renderer.draw(&Scene { batches, changed_bounds: changed })
}

fn triangle(border_width: i32) -> Polygon {
    Polygon {
        points: vec![Point::new(0, 0), Point::new(40, 0), Point::new(20, 30)],
        bounds: Bounds::new(0, 0, 40, 30),
        background: Background::Solid(Hsla::black()),
        border_width,
        border_color: Hsla::white(),
    }
}

#[test]
fn polygon_commands_name_their_scene_position() {
    let cmds = draw(
        vec![
            PrimitiveBatch::Quads(vec![]),
            PrimitiveBatch::Polygons(vec![triangle(0), triangle(2)]),
        ],
        None,
    );
    let polys: Vec<(usize, usize)> = cmds
        .iter()
        .filter_map(|c| match c {
            DrawCommand::Polygon { batch_index, element_index, .. } => {
                Some((*batch_index, *element_index))
            }
            _ => None,
        })
        .collect();
    assert_eq!(polys, vec![(1, 0), (1, 1)]);

    let strokes: Vec<(usize, usize, i32)> = cmds
        .iter()
        .filter_map(|c| match c {
            DrawCommand::PolygonStroke { batch_index, element_index, width, .. } => {
                Some((*batch_index, *element_index, *width))
            }
            _ => None,
        })
        .collect();
    // Only the bordered polygon strokes, right after its fill.
    assert_eq!(strokes, vec![(1, 1, 2)]);
}

#[test]
fn empty_polygon_plans_nothing() {
    let mut empty = triangle(3);
    empty.points.clear();
    let cmds = draw(vec![PrimitiveBatch::Polygons(vec![empty])], None);
    assert!(!cmds.iter().any(|c| matches!(
        c,
        DrawCommand::Polygon { .. } | DrawCommand::PolygonStroke { .. }
    )));
}

#[test]
fn path_renders_as_its_bounding_rectangle() {
    let path = PathShape {
        bounds: Bounds::new(3, 4, 30, 20),
        vertices: vec![Point::new(3, 4), Point::new(33, 24)],
        color: Hsla::black(),
    };
    let cmds = draw(vec![PrimitiveBatch::Paths(vec![path])], None);
    let planned = cmds
        .iter()
        .find_map(|c| match c {
            DrawCommand::PathRect { bounds, color } => Some((*bounds, *color)),
            _ => None,
        })
        .unwrap();
    assert_eq!(planned.0, Bounds::new(3, 4, 30, 20));
    assert_eq!(planned.1, Rgba { r: 0, g: 0, b: 0, a: 1000 });
}

#[test]
fn empty_path_plans_nothing() {
    let path = PathShape {
        bounds: Bounds::new(3, 4, 30, 20),
        vertices: vec![],
        color: Hsla::black(),
    };
    let cmds = draw(vec![PrimitiveBatch::Paths(vec![path])], None);
    assert!(!cmds.iter().any(|c| matches!(c, DrawCommand::PathRect { .. })));
}

#[test]
fn gradient_at_quarter_turn_runs_left_to_right() {
    let quad = render_core::scene::Quad {
        bounds: Bounds::new(0, 0, 100, 100),
        corner_radii: render_core::geometry::Corners::uniform(0),
        background: Background::LinearGradient {
            angle: 90,
            stop0: ColorStop { color: Hsla::white(), percentage: 0 },
            stop1: ColorStop { color: Hsla::black(), percentage: 1000 },
        },
        border_widths: render_core::geometry::Edges::zero(),
        border_color: Hsla::black(),
    };
    let cmds = draw(vec![PrimitiveBatch::Quads(vec![quad])], None);
    let paint = cmds
        .iter()
        .find_map(|c| match c {
            DrawCommand::Quad { paint, .. } => Some(*paint),
            _ => None,
        })
        .unwrap();
    match paint {
        PaintSource::LinearGradient { start, end, .. } => {
            assert_eq!(start, Point { x: -20, y: 50 });
            assert_eq!(end, Point { x: 120, y: 50 });
        }
        _ => panic!("expected a gradient paint"),
    }
}

#[test]
fn negative_angle_normalizes_before_aiming() {
    let quad = render_core::scene::Quad {
        bounds: Bounds::new(0, 0, 100, 100),
        corner_radii: render_core::geometry::Corners::uniform(0),
        background: Background::LinearGradient {
            angle: -270,
            stop0: ColorStop { color: Hsla::white(), percentage: 0 },
            stop1: ColorStop { color: Hsla::black(), percentage: 1000 },
        },
        border_widths: render_core::geometry::Edges::zero(),
        border_color: Hsla::black(),
    };
    let cmds = draw(vec![PrimitiveBatch::Quads(vec![quad])], None);
    let paint = cmds
        .iter()
        .find_map(|c| match c {
            DrawCommand::Quad { paint, .. } => Some(*paint),
            _ => None,
        })
        .unwrap();
    // A negative three-quarter turn is the same quarter turn.
    match paint {
        PaintSource::LinearGradient { start, end, .. } => {
            assert_eq!(start, Point { x: -20, y: 50 });
            assert_eq!(end, Point { x: 120, y: 50 });
        }
        _ => panic!("expected a gradient paint"),
    }
}

#[test]
fn surfaces_plan_nothing() {
    let cmds = draw(
        vec![PrimitiveBatch::Surfaces(vec![render_core::scene::PaintSurface {
            bounds: Bounds::new(0, 0, 10, 10),
        }])],
        None,
    );
    // Only the background clear, the preserved-frame copy and the present.
    assert_eq!(cmds.len(), 3);
}

use scene_pipeline::batch::{batch, BatchError};
use scene_pipeline::canvas::{Canvas, Event, Program};
use scene_pipeline::compositor::Scene;
use scene_pipeline::geometry::{Point, Rectangle, Size};
use scene_pipeline::layout::{Layout, Node};
use scene_pipeline::loupe::{loupe, magnify};
use scene_pipeline::mesh::{
    attribute_count_of, AttributeCount, GradientVertex2D, Indexed, LinearGradient, Mesh, SolidVertex2D,
};
use scene_pipeline::mouse::Cursor;
use scene_pipeline::render::{Buffers, Command, Geometry, Renderer};
use scene_pipeline::transformation::{Transformation, Zoom};
use scene_pipeline::tree::Tree;
use scene_pipeline::widget::Widget;
use std::sync::Arc;

fn window() -> Rectangle {
    Rectangle { x: 0, y: 0, width: 800, height: 600 }
}

fn solid() -> Indexed<SolidVertex2D> {
    Indexed {
        vertices: vec![
            SolidVertex2D { position: Point { x: 0, y: 0 }, color: 1 },
            SolidVertex2D { position: Point { x: 4, y: 0 }, color: 1 },
            SolidVertex2D { position: Point { x: 0, y: 4 }, color: 1 },
        ],
        indices: vec![0, 1, 2],
    }
}

fn gradient() -> Indexed<GradientVertex2D> {
    let at = |x: i32, y: i32| GradientVertex2D {
        position: Point { x, y },
        gradient: LinearGradient {
            angle: 785,
            start: 0,
            end: 0xffff_ffff,
            bounds: Rectangle { x: 0, y: 0, width: 4, height: 4 },
        },
    };
    Indexed { vertices: vec![at(0, 0), at(4, 0), at(4, 4), at(0, 4)], indices: vec![0, 1, 2, 2, 3, 0] }
}

fn both() -> Arc<Geometry> {
    Arc::new(Geometry { size: Size { width: 4, height: 4 }, batches: vec![Buffers::Solid(solid()), Buffers::Gradient(gradient())] })
}

fn draw_at(x: i32, y: i32) -> Command {
    Command::Draw { origin: Point { x, y }, geometry: both() }
}

fn shape(mesh: &Mesh) -> (bool, Transformation, Rectangle, usize) {
    (matches!(mesh, Mesh::Solid { .. }), mesh.transformation(), mesh.clip_bounds(), mesh.indices().len())
}

#[test]
fn an_empty_list_gives_no_meshes() {
    assert_eq!(batch(&[], window()).map(|m| m.len()), Ok(0));
}

#[test]
fn each_batch_of_a_draw_is_one_mesh_placed_at_the_origin_of_the_draw() {
    let commands = vec![draw_at(30, 40)];
    let meshes = batch(&commands, window()).unwrap();
    let placed = Transformation::translate(30, 40);
    assert_eq!(
        meshes.iter().map(shape).collect::<Vec<_>>(),
        vec![(true, placed, window(), 3), (false, placed, window(), 6)]
    );
    match (&commands[0], &meshes[0], &meshes[1]) {
        (Command::Draw { geometry, .. }, Mesh::Solid { buffers: s, .. }, Mesh::Gradient { buffers: g, .. }) => {
            assert_eq!(geometry.batches[0], Buffers::Solid((*s).clone()));
            assert_eq!(geometry.batches[1], Buffers::Gradient((*g).clone()));
        }
        _ => panic!("the meshes are not in the order of the batches"),
    }
}

#[test]
fn a_layer_clips_what_is_drawn_in_it_and_nothing_after_it() {
    let bounds = Rectangle { x: 700, y: 500, width: 200, height: 200 };
    let commands = vec![Command::BeginLayer { bounds }, draw_at(1, 2), Command::EndLayer, draw_at(3, 4)];
    let meshes = batch(&commands, window()).unwrap();
    let clipped = Rectangle { x: 700, y: 500, width: 100, height: 100 };
    assert_eq!(
        meshes.iter().map(|m| m.clip_bounds()).collect::<Vec<_>>(),
        vec![clipped, clipped, window(), window()]
    );
}

#[test]
fn nested_layers_clip_to_what_they_have_in_common() {
    let outer = Rectangle { x: 10, y: 10, width: 100, height: 100 };
    let inner = Rectangle { x: 50, y: 0, width: 100, height: 60 };
    let commands = vec![
        Command::BeginLayer { bounds: outer },
        Command::BeginLayer { bounds: inner },
        draw_at(0, 0),
        Command::EndLayer,
        draw_at(0, 0),
        Command::EndLayer,
    ];
    let meshes = batch(&commands, window()).unwrap();
    assert_eq!(meshes.len(), 4);
    assert_eq!(meshes[0].clip_bounds(), Rectangle { x: 50, y: 10, width: 60, height: 50 });
    assert_eq!(meshes[2].clip_bounds(), outer);
}

#[test]
fn what_cannot_show_is_left_out() {
    let away = Rectangle { x: 800, y: 0, width: 10, height: 10 };
    let commands = vec![
        Command::BeginLayer { bounds: away },
        draw_at(0, 0),
        Command::BeginLayer { bounds: window() },
        draw_at(0, 0),
        Command::EndLayer,
        Command::EndLayer,
        draw_at(5, 5),
    ];
    let meshes = batch(&commands, window()).unwrap();
    assert_eq!(meshes.len(), 2);
    assert_eq!(meshes[0].transformation(), Transformation::translate(5, 5));
    let nothing = Rectangle { x: 0, y: 0, width: 0, height: 600 };
    assert_eq!(batch(&commands, nothing).map(|m| m.len()), Ok(0));
}

#[test]
fn transformations_nest_innermost_first() {
    let double = Transformation::scale(Zoom::new(2, 1).unwrap());
    let shift = Transformation::translate(100, 0);
    let commands = vec![
        Command::BeginTransformation { transformation: shift },
        Command::BeginTransformation { transformation: double },
        draw_at(3, 4),
        Command::EndTransformation,
        draw_at(3, 4),
        Command::EndTransformation,
        draw_at(3, 4),
    ];
    let meshes = batch(&commands, window()).unwrap();
    assert_eq!(meshes.len(), 6);
    let deepest = meshes[0].transformation();
    assert_eq!(deepest.apply(Point { x: 0, y: 0 }), Some(Point { x: 106, y: 8 }));
    assert_eq!(deepest.apply(Point { x: 1, y: 1 }), Some(Point { x: 108, y: 10 }));
    assert_eq!(
        deepest,
        shift.compose(&double).and_then(|t| t.compose(&Transformation::translate(3, 4))).unwrap()
    );
    assert_eq!(meshes[2].transformation().apply(Point { x: 0, y: 0 }), Some(Point { x: 103, y: 4 }));
    assert_eq!(meshes[4].transformation(), Transformation::translate(3, 4));
}

#[test]
fn a_scope_closed_out_of_turn_is_refused() {
    let t = Transformation::identity();
    for commands in [
        vec![Command::EndLayer],
        vec![Command::EndTransformation],
        vec![Command::BeginLayer { bounds: window() }, Command::EndTransformation],
        vec![Command::BeginTransformation { transformation: t }, Command::EndLayer],
        vec![Command::BeginLayer { bounds: window() }, Command::EndLayer, Command::EndLayer],
        vec![
            Command::BeginLayer { bounds: window() },
            Command::BeginTransformation { transformation: t },
            Command::EndLayer,
            Command::EndTransformation,
        ],
    ] {
        assert_eq!(batch(&commands, window()).map(|m| m.len()), Err(BatchError::Unbalanced));
    }
}

#[test]
fn a_scope_left_open_is_refused() {
    let t = Transformation::identity();
    for commands in [
        vec![Command::BeginLayer { bounds: window() }],
        vec![Command::BeginTransformation { transformation: t }, draw_at(0, 0)],
        vec![
            Command::BeginLayer { bounds: window() },
            Command::BeginLayer { bounds: window() },
            Command::EndLayer,
        ],
    ] {
        assert_eq!(batch(&commands, window()).map(|m| m.len()), Err(BatchError::Unbalanced));
    }
}

#[test]
fn transformations_that_overflow_are_refused() {
    let huge = Transformation::from_parts(i64::MAX, 0, 0, 1).unwrap();
    let commands = vec![
        Command::BeginTransformation { transformation: huge },
        Command::BeginTransformation { transformation: huge },
        Command::EndTransformation,
        Command::EndTransformation,
    ];
    assert_eq!(batch(&commands, window()).map(|m| m.len()), Err(BatchError::Overflow));
    let far = Transformation::from_parts(1, i64::MAX, 0, 1).unwrap();
    let commands = vec![Command::BeginTransformation { transformation: far }, draw_at(1, 0), Command::EndTransformation];
    assert_eq!(batch(&commands, window()).map(|m| m.len()), Err(BatchError::Overflow));
    let hidden = vec![
        Command::BeginLayer { bounds: Rectangle { x: -5, y: -5, width: 5, height: 5 } },
        Command::BeginTransformation { transformation: far },
        draw_at(1, 0),
        Command::EndTransformation,
        Command::EndLayer,
    ];
    assert_eq!(batch(&hidden, window()).map(|m| m.len()), Ok(0));
}

#[test]
fn the_first_failure_is_the_one_reported() {
    let huge = Transformation::from_parts(i64::MAX, 0, 0, 1).unwrap();
    let overflow_first = vec![
        Command::BeginTransformation { transformation: huge },
        Command::BeginTransformation { transformation: huge },
        Command::EndLayer,
    ];
    assert_eq!(batch(&overflow_first, window()).map(|m| m.len()), Err(BatchError::Overflow));
    let unbalanced_first = vec![
        Command::EndLayer,
        Command::BeginTransformation { transformation: huge },
        Command::BeginTransformation { transformation: huge },
    ];
    assert_eq!(batch(&unbalanced_first, window()).map(|m| m.len()), Err(BatchError::Unbalanced));
}

struct Sketch;

impl Program for Sketch {
    type Input = ();

    fn update(&mut self, _event: Event, _bounds: Size, _input: &()) {}

    fn layers(&mut self, _input: &(), _bounds: Size) -> Vec<Arc<Geometry>> {
        vec![both(), both()]
    }
}

#[test]
fn what_a_magnifying_loupe_draws_is_clipped_to_the_loupe() {
    let mut node = Node::new(Size { width: 100, height: 100 });
    node.move_to(Point { x: 750, y: 20 });
    let cursor = Point { x: 760, y: 30 };
    let mut sketch = Sketch;
    let mut wrapper = loupe(Zoom::new(3, 1).unwrap(), Canvas::new(&mut sketch, &()));
    let mut renderer = Renderer::new();
    Widget::<()>::draw(
        &mut wrapper,
        &Tree::empty(),
        &mut renderer,
        Layout::new(&node),
        Cursor::Available(cursor),
        &window(),
    );
    let commands = renderer.into_commands();
    let meshes = batch(&commands, window()).unwrap();
    assert_eq!(meshes.len(), 4);
    let visible = Rectangle { x: 750, y: 20, width: 50, height: 100 };
    let through = magnify(cursor, Zoom::new(3, 1).unwrap()).compose(&Transformation::translate(750, 20)).unwrap();
    for mesh in &meshes {
        assert_eq!(mesh.clip_bounds(), visible);
        assert_eq!(mesh.transformation(), through);
    }
    assert_eq!(through.apply(Point { x: 10, y: 10 }), Some(cursor));
    assert_eq!(through.apply(Point { x: 0, y: 0 }), Some(Point { x: 730, y: 0 }));
}

#[test]
fn the_meshes_of_a_frame_make_its_scene() {
    let commands = vec![draw_at(0, 0), Command::BeginLayer { bounds: window() }, draw_at(9, 9), Command::EndLayer];
    let meshes = batch(&commands, window()).unwrap();
    let count = attribute_count_of(&meshes);
    assert_eq!(
        count,
        AttributeCount { solid_vertices: 6, solids: 2, gradient_vertices: 8, gradients: 2, indices: 18 }
    );
    assert_eq!(Scene::of(&meshes, 2), Some(Scene { geometry: count, overlay_lines: 2 }));
    assert!(!Scene::of(&meshes, 2).unwrap().is_empty());
    let nothing = Scene::of(&[], 0).unwrap();
    assert_eq!(nothing, Scene { geometry: AttributeCount::default(), overlay_lines: 0 });
    assert!(nothing.is_empty());
    assert!(!Scene::of(&[], 1).unwrap().is_empty());
}

use scene_pipeline::event::{Event, KeyboardEvent};
use scene_pipeline::geometry::{Point, Rectangle, Size};
use scene_pipeline::layout::{Layout, Length, Limits, Node};
use scene_pipeline::loupe::{loupe, magnify, Loupe};
use scene_pipeline::mouse::{Cursor, Interaction};
use scene_pipeline::render::{Command, Geometry, Renderer};
use scene_pipeline::transformation::{Transformation, Zoom};
use scene_pipeline::tree::{State, Tag, Tree};
use scene_pipeline::widget::Widget;
use std::sync::Arc;

/// A widget that notes what it is shown and draws one piece of geometry.
struct Probe {
    seen: Vec<Cursor>,
    events: Vec<(Event, Point)>,
    geometry: Arc<Geometry>,
}

impl Probe {
    fn new() -> Probe {
        Probe { seen: Vec::new(), events: Vec::new(), geometry: Arc::new(Geometry { size: Size { width: 0, height: 0 }, batches: Vec::new() }) }
    }
}

impl Widget<u8> for Probe {
    fn width(&self) -> Length {
        Length::Units(30)
    }

    fn height(&self) -> Length {
        Length::Shrink
    }

    fn tag(&self) -> Tag {
        Tag(7)
    }

    fn state(&self) -> State {
        State { values: vec![1, 2] }
    }

    fn children(&self) -> Vec<Tree> {
        vec![Tree::empty()]
    }

    fn diff(&self, tree: &mut Tree) {
        tree.state.values.push(3);
    }

    fn layout(&self, _tree: &Tree, limits: &Limits) -> Node {
        Node::new(limits.width(Length::Units(30)).height(Length::Shrink).resolve(Size { width: 1, height: 17 }))
    }

    fn on_event(
        &mut self,
        tree: &mut Tree,
        event: Event,
        _layout: Layout<'_>,
        cursor_position: Point,
        messages: &mut Vec<u8>,
    ) {
        tree.state.values.push(9);
        self.events.push((event, cursor_position));
        messages.push(42);
    }

    fn draw(
        &mut self,
        _tree: &Tree,
        renderer: &mut Renderer,
        layout: Layout<'_>,
        cursor: Cursor,
        _viewport: &Rectangle,
    ) {
        self.seen.push(cursor);
        renderer.draw_geometry(layout.position(), &self.geometry);
    }

    fn mouse_interaction(
        &self,
        _tree: &Tree,
        layout: Layout<'_>,
        cursor: Cursor,
        _viewport: &Rectangle,
    ) -> Interaction {
        if cursor.is_over(layout.bounds()) {
            Interaction::Pointer
        } else {
            Interaction::Grab
        }
    }
}

fn zoom(numer: u16, denom: u16) -> Zoom {
    Zoom::new(numer, denom).expect("a positive ratio")
}

fn node_at(x: i32, y: i32, width: u32, height: u32) -> Node {
    let mut node = Node::new(Size { width, height });
    node.move_to(Point { x, y });
    node
}

fn viewport() -> Rectangle {
    Rectangle { x: 0, y: 0, width: 800, height: 600 }
}

fn drawn(wrapper: &mut Loupe<Probe>, node: &Node, cursor: Cursor) -> Vec<Command> {
    let mut renderer = Renderer::new();
    Widget::<u8>::draw(wrapper, &Tree::empty(), &mut renderer, Layout::new(node), cursor, &viewport());
    renderer.into_commands()
}

fn drawn_alone(node: &Node, cursor: Cursor) -> Vec<Command> {
    let mut probe = Probe::new();
    let mut renderer = Renderer::new();
    probe.draw(&Tree::empty(), &mut renderer, Layout::new(node), cursor, &viewport());
    renderer.into_commands()
}

#[test]
fn the_cursor_is_a_fixed_point_of_the_magnification() {
    let t = magnify(Point { x: 40, y: 40 }, zoom(3, 1));
    assert_eq!(t.apply(Point { x: 40, y: 40 }), Some(Point { x: 40, y: 40 }));
    assert_eq!(t.apply(Point { x: 0, y: 0 }), Some(Point { x: -80, y: -80 }));
    assert_eq!(t.apply(Point { x: 100, y: 100 }), Some(Point { x: 220, y: 220 }));
    assert_eq!(t.apply(Point { x: 41, y: 39 }), Some(Point { x: 43, y: 37 }));
}

#[test]
fn the_cursor_stays_for_every_factor() {
    for (numer, denom) in [(1, 1), (2, 1), (3, 2), (1, 2), (7, 5), (u16::MAX, 1), (1, u16::MAX)] {
        for cursor in [
            Point { x: 0, y: 0 },
            Point { x: 40, y: 40 },
            Point { x: -13, y: 977 },
            Point { x: i32::MAX, y: i32::MIN },
        ] {
            let t = magnify(cursor, zoom(numer, denom));
            assert_eq!(t.apply(cursor), Some(cursor));
        }
    }
}

#[test]
fn the_magnification_is_the_three_steps_composed() {
    let bounds = Rectangle { x: 10, y: 20, width: 100, height: 100 };
    let cursor = Point { x: 50, y: 30 };
    let (n, d) = (3i64, 2i64);
    let local = (cursor.x as i64 - bounds.x as i64, cursor.y as i64 - bounds.y as i64);
    let outer = Transformation::from_parts(
        d,
        d * bounds.x as i64 + local.0 * (d - n),
        d * bounds.y as i64 + local.1 * (d - n),
        d,
    )
    .unwrap();
    let steps = outer
        .compose(&Transformation::scale(zoom(3, 2)))
        .and_then(|t| t.compose(&Transformation::translate(-bounds.x, -bounds.y)))
        .unwrap();
    let direct = magnify(cursor, zoom(3, 2));
    assert!(direct.is_same_map(&steps));
    assert_eq!(
        (direct.scale_numerator(), direct.x_numerator(), direct.y_numerator(), direct.denominator()),
        (3, -50, -30, 2)
    );
    assert_eq!(steps.apply(cursor), Some(cursor));
    assert_eq!(steps.apply(Point { x: 52, y: 32 }), Some(Point { x: 53, y: 33 }));
}

#[test]
fn with_the_cursor_inside_the_content_is_drawn_magnified_in_a_layer() {
    let node = node_at(0, 0, 100, 100);
    let mut wrapper = loupe(zoom(3, 1), Probe::new());
    let commands = drawn(&mut wrapper, &node, Cursor::Available(Point { x: 40, y: 40 }));
    let bounds = Rectangle { x: 0, y: 0, width: 100, height: 100 };
    assert_eq!(commands.len(), 5);
    assert_eq!(commands[0], Command::BeginLayer { bounds });
    assert_eq!(
        commands[1],
        Command::BeginTransformation { transformation: magnify(Point { x: 40, y: 40 }, zoom(3, 1)) }
    );
    assert_eq!(commands[2..3], drawn_alone(&node, Cursor::Unavailable)[..]);
    assert_eq!(commands[3], Command::EndTransformation);
    assert_eq!(commands[4], Command::EndLayer);
    assert_eq!(wrapper.inner().seen, vec![Cursor::Unavailable]);
    match &commands[1] {
        Command::BeginTransformation { transformation } => {
            assert_eq!(transformation.apply(Point { x: 40, y: 40 }), Some(Point { x: 40, y: 40 }));
            assert_eq!(transformation.apply(Point { x: 0, y: 0 }), Some(Point { x: -80, y: -80 }));
        }
        other => panic!("not a transformation: {:?}", other),
    }
}

#[test]
fn with_the_cursor_outside_the_loupe_draws_what_its_content_draws() {
    let node = node_at(10, 20, 100, 50);
    for cursor in [
        Cursor::Unavailable,
        Cursor::Available(Point { x: 0, y: 0 }),
        Cursor::Available(Point { x: 110, y: 20 }),
        Cursor::Available(Point { x: 10, y: 70 }),
        Cursor::Available(Point { x: 9, y: 19 }),
    ] {
        let mut wrapper = loupe(zoom(3, 1), Probe::new());
        assert_eq!(drawn(&mut wrapper, &node, cursor), drawn_alone(&node, cursor));
        assert_eq!(wrapper.inner().seen, vec![cursor]);
    }
}

#[test]
fn the_loupe_adds_to_what_is_drawn_already() {
    let node = node_at(0, 0, 100, 100);
    let mut wrapper = loupe(zoom(2, 1), Probe::new());
    let mut renderer = Renderer::new();
    renderer.start_layer(viewport());
    Widget::<u8>::draw(
        &mut wrapper,
        &Tree::empty(),
        &mut renderer,
        Layout::new(&node),
        Cursor::Unavailable,
        &viewport(),
    );
    Widget::<u8>::draw(
        &mut wrapper,
        &Tree::empty(),
        &mut renderer,
        Layout::new(&node),
        Cursor::Available(Point { x: 1, y: 1 }),
        &viewport(),
    );
    let commands = renderer.into_commands();
    assert_eq!(commands.len(), 7);
    assert_eq!(commands[0], Command::BeginLayer { bounds: viewport() });
    assert_eq!(commands[1..2], drawn_alone(&node, Cursor::Unavailable)[..]);
    assert_eq!(commands[2], Command::BeginLayer { bounds: node.bounds() });
    assert_eq!(commands[6], Command::EndLayer);
}

#[test]
fn the_pointer_zooms_wherever_the_cursor_is_over_the_loupe() {
    let node = node_at(10, 20, 100, 50);
    let wrapper = loupe(zoom(3, 1), Probe::new());
    for (x, y) in [(10, 20), (109, 69), (60, 45), (10, 69), (109, 20)] {
        let cursor = Cursor::Available(Point { x, y });
        assert_eq!(
            Widget::<u8>::mouse_interaction(&wrapper, &Tree::empty(), Layout::new(&node), cursor, &viewport()),
            Interaction::ZoomIn
        );
        assert_eq!(
            wrapper.inner().mouse_interaction(&Tree::empty(), Layout::new(&node), cursor, &viewport()),
            Interaction::Pointer
        );
    }
}

#[test]
fn elsewhere_the_content_says_what_the_pointer_looks_like() {
    let node = node_at(10, 20, 100, 50);
    let wrapper = loupe(zoom(3, 1), Probe::new());
    for cursor in [
        Cursor::Unavailable,
        Cursor::Available(Point { x: 110, y: 20 }),
        Cursor::Available(Point { x: 10, y: 70 }),
        Cursor::Available(Point { x: 9, y: 45 }),
        Cursor::Available(Point { x: 60, y: 19 }),
    ] {
        assert_eq!(
            Widget::<u8>::mouse_interaction(&wrapper, &Tree::empty(), Layout::new(&node), cursor, &viewport()),
            wrapper.inner().mouse_interaction(&Tree::empty(), Layout::new(&node), cursor, &viewport())
        );
        assert_eq!(
            Widget::<u8>::mouse_interaction(&wrapper, &Tree::empty(), Layout::new(&node), cursor, &viewport()),
            Interaction::Grab
        );
    }
}

#[test]
fn measure_and_layout_are_those_of_the_content() {
    let wrapper = loupe(zoom(3, 1), Probe::new());
    assert_eq!(Widget::<u8>::width(&wrapper), Length::Units(30));
    assert_eq!(Widget::<u8>::height(&wrapper), Length::Shrink);
    let limits = Limits::new(Size { width: 5, height: 6 }, Size { width: 500, height: 400 });
    let node = Widget::<u8>::layout(&wrapper, &Tree::empty(), &limits);
    assert_eq!(node, wrapper.inner().layout(&Tree::empty(), &limits));
    assert_eq!(node.bounds(), Rectangle { x: 0, y: 0, width: 30, height: 17 });
    assert_eq!(wrapper.factor(), zoom(3, 1));
}

#[test]
fn events_go_to_the_content() {
    let node = node_at(10, 20, 100, 50);
    let mut wrapper = loupe(zoom(3, 1), Probe::new());
    let mut messages = vec![7u8];
    let event = Event::Keyboard(KeyboardEvent::KeyPressed);
    let mut tree = Tree::new::<u8, _>(&wrapper);
    wrapper.on_event(&mut tree, event, Layout::new(&node), Point { x: 3, y: 4 }, &mut messages);
    assert_eq!(messages, vec![7, 42]);
    assert_eq!(tree.state.values, vec![1, 2, 9]);
    assert_eq!(wrapper.inner().events, vec![(event, Point { x: 3, y: 4 })]);
}

#[test]
fn the_state_of_a_loupe_is_the_state_of_its_content() {
    let wrapper = loupe(zoom(3, 1), Probe::new());
    assert_eq!(Widget::<u8>::tag(&wrapper), Tag(7));
    assert_eq!(Widget::<u8>::state(&wrapper), State { values: vec![1, 2] });
    assert_eq!(Widget::<u8>::children(&wrapper), vec![Tree::empty()]);
    let alone = Tree::new::<u8, _>(wrapper.inner());
    let mut wrapped = Tree::new::<u8, _>(&wrapper);
    assert_eq!(wrapped, alone);
    assert_eq!(wrapped, Tree { tag: Tag(7), state: State { values: vec![1, 2] }, children: vec![Tree::empty()] });
    Widget::<u8>::diff(&wrapper, &mut wrapped);
    assert_eq!(wrapped.state.values, vec![1, 2, 3]);
}

#[test]
fn state_of_the_same_kind_is_kept_and_state_of_another_kind_is_dropped() {
    let wrapper = loupe(zoom(3, 1), Probe::new());
    let mut kept = Tree { tag: Tag(7), state: State { values: vec![50] }, children: Vec::new() };
    kept.diff::<u8, _>(&wrapper);
    assert_eq!(kept, Tree { tag: Tag(7), state: State { values: vec![50, 3] }, children: Vec::new() });
    let mut dropped = Tree { tag: Tag(8), state: State { values: vec![50] }, children: Vec::new() };
    dropped.diff::<u8, _>(&wrapper);
    assert_eq!(dropped, Tree::new::<u8, _>(&wrapper));
    let mut empty = Tree::empty();
    assert_eq!(empty, Tree { tag: Tag::stateless(), state: State::none(), children: Vec::new() });
    empty.diff::<u8, _>(&wrapper);
    assert_eq!(empty.tag, Tag(7));
    assert_eq!(empty.state.values, vec![1, 2]);
}

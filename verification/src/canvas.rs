//! A widget that shows what a program draws, layer upon layer.

use std::sync::Arc;
use vstd::prelude::*;
use crate::event;
use crate::geometry::{Point, Rectangle, Size};
use crate::layout::{Layout, Length, Limits, Node};
use crate::mouse;
use crate::mouse::{Cursor, Interaction};
use crate::batch::{batched, lemma_layer_clips_its_content};
use crate::cache::{Cache, Key, Slot};
use crate::render::{
    after_commands, lemma_balanced_in_layer, share, Command, Geometry, Renderer, Scope,
};
use crate::tree::{State, Tag, Tree};
use crate::widget::Widget;

verus! {

/// An input event as a canvas hands it to its program: with positions
/// relative to the corner of the canvas.
#[derive(Clone, Copy, Debug, PartialEq, Eq, Structural)]
pub enum Event {
    Mouse(mouse::Event),
}

/// What a canvas shows: a stack of layers, and the state behind them.
pub trait Program {
    /// What the program is drawn from.
    type Input;

    /// Whether `after` is what the program becomes when it takes note of
    /// `event`.
    open spec fn notes(&self, event: Event, bounds: Size, input: Self::Input, after: &Self) -> bool {
        true
    }

    /// Whether `layers` are what the layers of the program show, and `after`
    /// what the program becomes by showing them.
    open spec fn shows(
        &self,
        input: Self::Input,
        bounds: Size,
        layers: Seq<Arc<Geometry>>,
        after: &Self,
    ) -> bool {
        true
    }

    /// Takes note of an event on a canvas of size `bounds`.
    fn update(&mut self, event: Event, bounds: Size, input: &Self::Input)
        ensures
            old(self).notes(event, bounds, *input, final(self)),
    ;

    /// Returns what each layer shows on a canvas of size `bounds`, bottom
    /// layer first.
    fn layers(&mut self, input: &Self::Input, bounds: Size) -> (layers: Vec<Arc<Geometry>>)
        ensures
            old(self).shows(*input, bounds, layers@, final(self)),
    ;
}

/// Something that a layer of a canvas shows.
pub trait Drawable {
    /// Whether `fingerprint` is the fingerprint of the drawable.
    open spec fn has_fingerprint(&self, fingerprint: u64) -> bool {
        true
    }

    /// Whether `geometry` is what the drawable draws on a frame of `size`.
    open spec fn renders(&self, size: Size, geometry: Geometry) -> bool {
        true
    }

    /// Returns a fingerprint of what the drawable shows: of its description,
    /// not of what comes of drawing it. Two drawables with one fingerprint
    /// are taken to draw the same.
    fn fingerprint(&self) -> (fingerprint: u64)
        ensures
            self.has_fingerprint(fingerprint),
    ;

    /// Draws the drawable on a frame of `size`. Drawing cannot fail; it can
    /// come out empty.
    fn draw(&self, size: Size) -> (geometry: Geometry)
        ensures
            self.renders(size, geometry),
    ;
}

/// Whether `drawn` holds what `drawable` draws on a frame of `size`.
pub open spec fn drawn_by<D: Drawable>(drawable: &D, size: Size, drawn: Arc<Geometry>) -> bool {
    drawable.renders(size, *drawn)
}

/// A layer of a canvas: what its drawable drew last, kept for as long as the
/// drawable and the size of the canvas stay what they were.
pub struct Layer {
    cache: Cache<Arc<Geometry>>,
}

impl View for Layer {
    type V = Slot<Arc<Geometry>>;

    closed spec fn view(&self) -> Slot<Arc<Geometry>> {
        self.cache@
    }
}

impl Layer {
    /// Creates a layer that holds nothing yet.
    pub fn new() -> (layer: Layer)
        ensures
            layer@ is Empty,
    {
        Layer { cache: Cache::new() }
    }

    /// Forgets what was drawn last.
    pub fn clear(&mut self)
        ensures
            final(self)@ is Empty,
    {
        self.cache.clear();
    }

    /// Returns what `drawable` shows on a frame of `size`: what the layer
    /// holds, where it holds the geometry of this fingerprint and size, and
    /// else what the drawable draws now, which the layer holds from then on.
    pub fn draw<D: Drawable>(&mut self, drawable: &D, size: Size) -> (geometry: Arc<Geometry>)
        ensures
            exists|fingerprint: u64|
                {
                    let key = Key { content: fingerprint, size };
                    &&& #[trigger] drawable.has_fingerprint(fingerprint)
                    &&& final(self)@ == old(self)@.after_request(key, geometry)
                    &&& geometry == old(self)@.answer(key, geometry)
                    &&& !old(self)@.holds(key) ==> drawn_by(drawable, size, geometry)
                },
    {
        let key: Key = Key { content: drawable.fingerprint(), size };
        let render = || -> (drawn: Arc<Geometry>)
            ensures
                drawn_by(drawable, size, drawn),
            { Arc::new(drawable.draw(size)) };
        share(self.cache.get_or_render(key, render))
    }
}

/// The event that the program of a canvas at `bounds` gets for `event`, if
/// it gets one: mouse events only, and a cursor movement with the cursor's
/// position relative to the corner of the canvas.
pub open spec fn localized(event: event::Event, bounds: Rectangle, cursor_position: Point) -> Option<
    Event,
> {
    match event {
        event::Event::Mouse(mouse::Event::CursorMoved { .. }) => Some(
            Event::Mouse(
                mouse::Event::CursorMoved {
                    x: (cursor_position.x - bounds.x) as i64,
                    y: (cursor_position.y - bounds.y) as i64,
                },
            ),
        ),
        event::Event::Mouse(other) => Some(Event::Mouse(other)),
        _ => None,
    }
}

/// Returns the event that the program of a canvas at `bounds` gets for
/// `event`, if it gets one.
pub fn localize(event: event::Event, bounds: Rectangle, cursor_position: Point) -> (local: Option<Event>)
    ensures
        local == localized(event, bounds, cursor_position),
{
    match event {
        event::Event::Mouse(mouse_event) => Some(
            Event::Mouse(
                match mouse_event {
                    mouse::Event::CursorMoved { .. } => {
                        let offset = cursor_position.minus(bounds.position());
                        mouse::Event::CursorMoved { x: offset.x, y: offset.y }
                    },
                    _ => mouse_event,
                },
            ),
        ),
        _ => None,
    }
}

/// The commands that draw `layers` one upon the other at `origin`.
pub open spec fn layer_commands(origin: Point, layers: Seq<Arc<Geometry>>) -> Seq<Command> {
    Seq::new(layers.len(), |i: int| Command::Draw { origin, geometry: layers[i] })
}

/// Whether `command` draws geometry at `origin`.
pub open spec fn draws_at(origin: Point, command: Command) -> bool {
    command matches Command::Draw { origin: o, .. } && o == origin
}

/// Whether `commands` does nothing but draw geometry at `origin`.
pub open spec fn only_draws_at(origin: Point, commands: Seq<Command>) -> bool {
    forall|i: int|
        0 <= i < commands.len() ==> draws_at(origin, #[trigger] commands[i])
}

/// Commands that only draw open and close nothing.
pub proof fn lemma_draws_are_balanced(open: Seq<Scope>, origin: Point, commands: Seq<Command>)
    requires
        only_draws_at(origin, commands),
    ensures
        after_commands(open, commands) == Some(open),
    decreases commands.len(),
{
    if commands.len() > 0 {
        assert(commands.last() == commands[commands.len() - 1]);
        assert forall|i: int| 0 <= i < commands.drop_last().len() implies draws_at(
            origin,
            #[trigger] commands.drop_last()[i],
        ) by {
            assert(commands.drop_last()[i] == commands[i]);
        }
        lemma_draws_are_balanced(open, origin, commands.drop_last());
    }
}

/// Draws `layers` into `renderer`, one upon the other, each with its origin
/// at `origin`.
pub fn draw_layers(renderer: &mut Renderer, origin: Point, layers: &Vec<Arc<Geometry>>)
    ensures
        final(renderer)@ == old(renderer)@ + layer_commands(origin, layers@),
{
    let mut i: usize = 0;
    while i < layers.len()
        invariant
            i <= layers@.len(),
            renderer@ == old(renderer)@ + layer_commands(origin, layers@.take(i as int)),
        decreases layers@.len() - i,
    {
        renderer.draw_geometry(origin, &layers[i]);
        proof {
            assert(layer_commands(origin, layers@.take(i + 1)) =~= layer_commands(
                origin,
                layers@.take(i as int),
            ).push(Command::Draw { origin, geometry: layers@[i as int] }));
        }
        i = i + 1;
    }
    proof {
        assert(layers@.take(i as int) =~= layers@);
    }
}

/// A widget capable of drawing 2D graphics.
///
/// A canvas shows the layers of its program. The layers are drawn using the
/// painter's algorithm: on top of each other, in the order in which the
/// program lists them.
pub struct Canvas<'a, P: Program> {
    width: Length,
    height: Length,
    program: &'a mut P,
    input: &'a P::Input,
}

/// The width and the height of a canvas that was given none.
pub const DEFAULT_SIZE: u16 = 100;

impl<'a, P: Program> Canvas<'a, P> {
    /// The program of the canvas, as it is now.
    pub closed spec fn program(&self) -> P {
        *self.program
    }

    /// What the program is drawn from.
    pub closed spec fn input(&self) -> P::Input {
        *self.input
    }

    /// The width that the canvas asks for.
    pub closed spec fn spec_width(&self) -> Length {
        self.width
    }

    /// The height that the canvas asks for.
    pub closed spec fn spec_height(&self) -> Length {
        self.height
    }

    /// Creates a new canvas of the default size.
    pub fn new(program: &'a mut P, input: &'a P::Input) -> (canvas: Self)
        ensures
            canvas.spec_width() == Length::Units(DEFAULT_SIZE),
            canvas.spec_height() == Length::Units(DEFAULT_SIZE),
    {
        Canvas { width: Length::Units(DEFAULT_SIZE), height: Length::Units(DEFAULT_SIZE), program, input }
    }

    /// Sets the width of the canvas.
    pub fn width(self, width: Length) -> (canvas: Self)
        ensures
            canvas.spec_width() == width,
            canvas.spec_height() == self.spec_height(),
    {
        let mut canvas = self;
        canvas.width = width;
        canvas
    }

    /// Sets the height of the canvas.
    pub fn height(self, height: Length) -> (canvas: Self)
        ensures
            canvas.spec_height() == height,
            canvas.spec_width() == self.spec_width(),
    {
        let mut canvas = self;
        canvas.height = height;
        canvas
    }

    /// Returns what the layout of the canvas depends on. Two canvases with
    /// the same key take the same size under the same limits.
    pub fn layout_key(&self) -> (key: (Length, Length))
        ensures
            key == (self.spec_width(), self.spec_height()),
    {
        (self.width, self.height)
    }
}

impl<'a, Message, P: Program> Widget<Message> for Canvas<'a, P> {
    open spec fn asks_width(&self, length: Length) -> bool {
        length == self.spec_width()
    }

    open spec fn asks_height(&self, length: Length) -> bool {
        length == self.spec_height()
    }

    open spec fn keeps(&self, tag: Tag) -> bool {
        tag == Tag::none()
    }

    open spec fn starts_with(&self, state: State) -> bool {
        state.values@ == Seq::<u64>::empty()
    }

    open spec fn starts_over(&self, children: Seq<Tree>) -> bool {
        children == Seq::<Tree>::empty()
    }

    open spec fn reconciles(&self, before: Tree, after: Tree) -> bool {
        after == before
    }

    open spec fn takes(&self, tree: Tree, limits: Limits, size: Size) -> bool {
        size == limits.with_width(self.spec_width()).with_height(self.spec_height()).resolved(
            Size { width: 0, height: 0 },
        )
    }

    open spec fn reacts(
        &self,
        tree: Tree,
        event: event::Event,
        bounds: Rectangle,
        cursor_position: Point,
        after: &Self,
        tree_after: Tree,
        messages: Seq<Message>,
    ) -> bool {
        &&& tree_after == tree
        &&& messages == Seq::<Message>::empty()
        &&& after.input() == self.input()
        &&& match localized(event, bounds, cursor_position) {
            Some(local) => self.program().notes(local, bounds.size(), self.input(), &after.program()),
            None => after.program() == self.program(),
        }
    }

    open spec fn draws(
        &self,
        tree: Tree,
        bounds: Rectangle,
        cursor: Cursor,
        viewport: Rectangle,
        emitted: Seq<Command>,
        after: &Self,
    ) -> bool {
        &&& after.input() == self.input()
        &&& emitted.len() >= 2
        &&& emitted.first() == (Command::BeginLayer { bounds })
        &&& emitted.last() == Command::EndLayer
        &&& exists|layers: Seq<Arc<Geometry>>| #[trigger]
            self.program().shows(self.input(), bounds.size(), layers, &after.program())
                && emitted.subrange(1, emitted.len() - 1) == layer_commands(bounds.position(), layers)
    }

    open spec fn shows(
        &self,
        tree: Tree,
        bounds: Rectangle,
        cursor: Cursor,
        viewport: Rectangle,
        interaction: Interaction,
    ) -> bool {
        interaction == Interaction::Idle
    }

    fn width(&self) -> (length: Length) {
        self.width
    }

    fn height(&self) -> (length: Length) {
        self.height
    }

    fn tag(&self) -> (tag: Tag) {
        Tag::stateless()
    }

    fn state(&self) -> (state: State) {
        State::none()
    }

    fn children(&self) -> (children: Vec<Tree>) {
        Vec::new()
    }

    fn diff(&self, tree: &mut Tree) {
    }

    fn layout(&self, tree: &Tree, limits: &Limits) -> (node: Node) {
        let limits: Limits = limits.width(self.width).height(self.height);
        let size: Size = limits.resolve(Size::zero());
        Node::new(size)
    }

    fn on_event(
        &mut self,
        tree: &mut Tree,
        event: event::Event,
        layout: Layout<'_>,
        cursor_position: Point,
        messages: &mut Vec<Message>,
    )
        ensures
            final(messages)@ == old(messages)@,
    {
        let bounds: Rectangle = layout.bounds();
        if let Some(canvas_event) = localize(event, bounds, cursor_position) {
            self.program.update(canvas_event, bounds.size(), self.input);
        }
        proof {
            assert(messages@.skip(messages@.len() as int) =~= Seq::<Message>::empty());
        }
    }

    fn draw(
        &mut self,
        tree: &Tree,
        renderer: &mut Renderer,
        layout: Layout<'_>,
        cursor: Cursor,
        viewport: &Rectangle,
    ) {
        let bounds: Rectangle = layout.bounds();
        let origin: Point = bounds.position();
        let size: Size = bounds.size();
        let layers: Vec<Arc<Geometry>> = self.program.layers(self.input, size);
        renderer.start_layer(bounds);
        draw_layers(renderer, origin, &layers);
        renderer.end_layer();
        proof {
            let emitted = renderer@.skip(old(renderer)@.len() as int);
            let drawn = layer_commands(origin, layers@);
            assert(emitted =~= seq![Command::BeginLayer { bounds }] + drawn + seq![Command::EndLayer]);
            assert(emitted.subrange(1, emitted.len() - 1) =~= drawn);
            assert(renderer@.take(old(renderer)@.len() as int) =~= old(renderer)@);
            lemma_draws_are_balanced(Seq::empty(), origin, drawn);
            lemma_balanced_in_layer(bounds, drawn);
            assert(old(self).program().shows(
                old(self).input(),
                bounds.size(),
                layers@,
                &self.program(),
            ));
        }
    }

    fn mouse_interaction(
        &self,
        tree: &Tree,
        layout: Layout<'_>,
        cursor: Cursor,
        viewport: &Rectangle,
    ) -> (interaction: Interaction) {
        Interaction::Idle
    }
}

/// Nothing that a canvas draws shows outside its bounds: every mesh that
/// comes of its commands is clipped to them.
pub proof fn lemma_canvas_is_clipped<'a, Message, P: Program>(
    canvas: Canvas<P>,
    tree: Tree,
    bounds: Rectangle,
    cursor: Cursor,
    viewport: Rectangle,
    emitted: Seq<Command>,
    after: Canvas<P>,
    window: Rectangle,
)
    requires
        Widget::<Message>::draws(&canvas, tree, bounds, cursor, viewport, emitted, &after),
    ensures
        batched(emitted, window) matches Ok(meshes) ==> forall|k: int|
            0 <= k < meshes.len() ==> (#[trigger] meshes[k]).spec_clip_bounds().within(bounds),
{
    let drawn = emitted.subrange(1, emitted.len() - 1);
    assert(emitted =~= seq![Command::BeginLayer { bounds }] + drawn + seq![Command::EndLayer]);
    lemma_draws_are_balanced(Seq::empty(), bounds.position(), drawn);
    lemma_layer_clips_its_content(bounds, drawn, window);
}

/// Two canvases that ask for the same width and height take the same size
/// under the same limits, whatever their programs are.
pub proof fn lemma_layout_depends_on_key<Message, P: Program, Q: Program>(
    a: Canvas<P>,
    b: Canvas<Q>,
    tree: Tree,
    limits: Limits,
    size: Size,
)
    requires
        a.spec_width() == b.spec_width(),
        a.spec_height() == b.spec_height(),
    ensures
        Widget::<Message>::takes(&a, tree, limits, size) == Widget::<Message>::takes(
            &b,
            tree,
            limits,
            size,
        ),
{
}

} // verus!

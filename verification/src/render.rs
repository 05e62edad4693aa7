//! The render context: the display list that widgets draw into.

use std::sync::Arc;
use vstd::prelude::*;
use crate::geometry::{Point, Rectangle, Size};
use crate::mesh::{GradientVertex2D, Indexed, SolidVertex2D};
use crate::transformation::Transformation;

verus! {

/// The buffers of one batch of triangles, by the way it is coloured.
#[derive(Debug, PartialEq, Eq)]
pub enum Buffers {
    Solid(Indexed<SolidVertex2D>),
    Gradient(Indexed<GradientVertex2D>),
}

/// What a drawable produced: batches of triangles, bottom to top.
#[derive(Debug, PartialEq, Eq)]
pub struct Geometry {
    /// The size of the frame that the geometry was drawn for.
    pub size: Size,
    /// The batches, bottom to top.
    pub batches: Vec<Buffers>,
}

impl Buffers {
    /// Every index names a vertex that is there.
    pub open spec fn well_formed(&self) -> bool {
        match self {
            Buffers::Solid(buffers) => buffers.well_formed(),
            Buffers::Gradient(buffers) => buffers.well_formed(),
        }
    }

    /// Checks that every index names a vertex that is there.
    pub fn is_well_formed(&self) -> (ok: bool)
        ensures
            ok == self.well_formed(),
    {
        match self {
            Buffers::Solid(buffers) => buffers.is_well_formed(),
            Buffers::Gradient(buffers) => buffers.is_well_formed(),
        }
    }
}

impl Geometry {
    /// In every batch, every index names a vertex that is there.
    pub open spec fn well_formed(&self) -> bool {
        forall|i: int| 0 <= i < self.batches@.len() ==> (#[trigger] self.batches@[i]).well_formed()
    }

    /// Checks that in every batch every index names a vertex that is there.
    pub fn is_well_formed(&self) -> (ok: bool)
        ensures
            ok == self.well_formed(),
    {
        let mut i: usize = 0;
        while i < self.batches.len()
            invariant
                i <= self.batches@.len(),
                forall|j: int| 0 <= j < i ==> (#[trigger] self.batches@[j]).well_formed(),
            decreases self.batches@.len() - i,
        {
            if !self.batches[i].is_well_formed() {
                return false;
            }
            i = i + 1;
        }
        true
    }
}

/// One entry of a display list.
#[derive(Debug, PartialEq, Eq)]
pub enum Command {
    /// Opens a layer: until it is closed, nothing shows outside `bounds`.
    /// The bounds are in the coordinates of the window, whatever
    /// transformation the layer is opened under.
    BeginLayer { bounds: Rectangle },
    /// Closes the layer that was opened last.
    EndLayer,
    /// Opens a scope in which everything is drawn through `transformation`.
    BeginTransformation { transformation: Transformation },
    /// Closes the transformation that was opened last.
    EndTransformation,
    /// Draws `geometry` with its origin at `origin`.
    Draw { origin: Point, geometry: Arc<Geometry> },
}

/// The two kinds of scope that a display list opens and closes.
pub enum Scope {
    Layer,
    Transformation,
}

/// The scopes that are open after `command`, given those open before it, or
/// `None` where the command closes a scope that is not the innermost.
pub open spec fn after_command(open: Seq<Scope>, command: Command) -> Option<Seq<Scope>> {
    match command {
        Command::BeginLayer { .. } => Some(open.push(Scope::Layer)),
        Command::BeginTransformation { .. } => Some(open.push(Scope::Transformation)),
        Command::EndLayer => if open.len() > 0 && open.last() is Layer {
            Some(open.drop_last())
        } else {
            None
        },
        Command::EndTransformation => if open.len() > 0 && open.last() is Transformation {
            Some(open.drop_last())
        } else {
            None
        },
        Command::Draw { .. } => Some(open),
    }
}

/// The scopes that are open after `commands`, given those open before them.
pub open spec fn after_commands(open: Seq<Scope>, commands: Seq<Command>) -> Option<Seq<Scope>>
    decreases commands.len(),
{
    if commands.len() == 0 {
        Some(open)
    } else {
        match after_commands(open, commands.drop_last()) {
            Some(inner) => after_command(inner, commands.last()),
            None => None,
        }
    }
}

/// Whether every scope that `commands` opens is closed again, innermost
/// first, and nothing else is closed.
pub open spec fn balanced(commands: Seq<Command>) -> bool {
    after_commands(Seq::empty(), commands) == Some(Seq::<Scope>::empty())
}

/// Whether all the geometry that `commands` draws is well-formed.
pub open spec fn draws_well_formed(commands: Seq<Command>) -> bool {
    forall|i: int|
        0 <= i < commands.len() ==> ((#[trigger] commands[i]) matches Command::Draw {
            geometry,
            ..
        } ==> geometry.well_formed())
}

/// Whether `after` is `before` with more commands behind it.
pub open spec fn extends(after: Seq<Command>, before: Seq<Command>) -> bool {
    before.len() <= after.len() && after.take(before.len() as int) == before
}

/// Commands run one after the other: the scopes open after `front + back`
/// are those open after `back`, started from what `front` leaves open.
pub proof fn lemma_after_concat(open: Seq<Scope>, front: Seq<Command>, back: Seq<Command>)
    ensures
        after_commands(open, front + back) == (match after_commands(open, front) {
            Some(inner) => after_commands(inner, back),
            None => None,
        }),
    decreases back.len(),
{
    if back.len() == 0 {
        assert(front + back =~= front);
    } else {
        lemma_after_concat(open, front, back.drop_last());
        assert((front + back).drop_last() =~= front + back.drop_last());
        assert((front + back).last() == back.last());
    }
}

/// Commands that run from some open scopes run the same way below any
/// further scopes, and leave those untouched.
pub proof fn lemma_after_below(below: Seq<Scope>, open: Seq<Scope>, commands: Seq<Command>)
    requires
        after_commands(open, commands) is Some,
    ensures
        after_commands(below + open, commands) == Some(below + after_commands(open, commands)->0),
    decreases commands.len(),
{
    if commands.len() > 0 {
        lemma_after_below(below, open, commands.drop_last());
        let inner = after_commands(open, commands.drop_last())->0;
        match commands.last() {
            Command::BeginLayer { .. } => {
                assert((below + inner).push(Scope::Layer) =~= below + inner.push(Scope::Layer));
            },
            Command::BeginTransformation { .. } => {
                assert((below + inner).push(Scope::Transformation) =~= below + inner.push(
                    Scope::Transformation,
                ));
            },
            Command::EndLayer => {
                assert((below + inner).drop_last() =~= below + inner.drop_last());
            },
            Command::EndTransformation => {
                assert((below + inner).drop_last() =~= below + inner.drop_last());
            },
            Command::Draw { .. } => {},
        }
    }
}

/// Balanced commands leave open exactly the scopes that were open before
/// them, whatever those are.
pub proof fn lemma_balanced_anywhere(open: Seq<Scope>, commands: Seq<Command>)
    requires
        balanced(commands),
    ensures
        after_commands(open, commands) == Some(open),
{
    lemma_after_below(open, Seq::empty(), commands);
    assert(open + Seq::<Scope>::empty() =~= open);
}

/// Balanced commands laid end to end are balanced.
pub proof fn lemma_balanced_concat(front: Seq<Command>, back: Seq<Command>)
    requires
        balanced(front),
        balanced(back),
    ensures
        balanced(front + back),
{
    lemma_after_concat(Seq::empty(), front, back);
}

/// Balanced commands between the opening and the closing of a layer are
/// balanced.
pub proof fn lemma_balanced_in_layer(bounds: Rectangle, inner: Seq<Command>)
    requires
        balanced(inner),
    ensures
        balanced(seq![Command::BeginLayer { bounds }] + inner + seq![Command::EndLayer]),
{
    let open = seq![Command::BeginLayer { bounds }];
    let close = seq![Command::EndLayer];
    let layer = seq![Scope::Layer];
    assert(open.drop_last() =~= Seq::<Command>::empty());
    assert(after_commands(Seq::empty(), open) == Some(layer)) by {
        reveal_with_fuel(after_commands, 2);
        assert(Seq::<Scope>::empty().push(Scope::Layer) =~= layer);
    }
    lemma_balanced_anywhere(layer, inner);
    lemma_after_concat(Seq::empty(), open, inner);
    assert(close.drop_last() =~= Seq::<Command>::empty());
    assert(after_commands(layer, close) == Some(Seq::<Scope>::empty())) by {
        reveal_with_fuel(after_commands, 2);
        assert(layer.drop_last() =~= Seq::<Scope>::empty());
    }
    lemma_after_concat(Seq::empty(), open + inner, close);
}

/// Balanced commands between the opening and the closing of a
/// transformation are balanced.
pub proof fn lemma_balanced_in_transformation(transformation: Transformation, inner: Seq<Command>)
    requires
        balanced(inner),
    ensures
        balanced(
            seq![Command::BeginTransformation { transformation }] + inner
                + seq![Command::EndTransformation],
        ),
{
    let open = seq![Command::BeginTransformation { transformation }];
    let close = seq![Command::EndTransformation];
    let scope = seq![Scope::Transformation];
    assert(open.drop_last() =~= Seq::<Command>::empty());
    assert(after_commands(Seq::empty(), open) == Some(scope)) by {
        reveal_with_fuel(after_commands, 2);
        assert(Seq::<Scope>::empty().push(Scope::Transformation) =~= scope);
    }
    lemma_balanced_anywhere(scope, inner);
    lemma_after_concat(Seq::empty(), open, inner);
    assert(close.drop_last() =~= Seq::<Command>::empty());
    assert(after_commands(scope, close) == Some(Seq::<Scope>::empty())) by {
        reveal_with_fuel(after_commands, 2);
        assert(scope.drop_last() =~= Seq::<Scope>::empty());
    }
    lemma_after_concat(Seq::empty(), open + inner, close);
}

/// `Arc::clone`: a second handle on the allocation that `handle` points to.
/// The contract claims that the new handle points to the same value.
#[verifier::external_body]
pub(crate) fn share<T>(handle: &Arc<T>) -> (shared: Arc<T>)
    ensures
        shared == *handle,
{
    Arc::clone(handle)
}

/// The render context of one draw pass. Widgets append to its display list;
/// nothing is ever taken back.
#[derive(Debug)]
pub struct Renderer {
    commands: Vec<Command>,
}

impl View for Renderer {
    type V = Seq<Command>;

    closed spec fn view(&self) -> Seq<Command> {
        self.commands@
    }
}

impl Renderer {
    /// Creates a render context with an empty display list.
    pub fn new() -> (renderer: Renderer)
        ensures
            renderer@ == Seq::<Command>::empty(),
    {
        Renderer { commands: Vec::new() }
    }

    /// Opens a layer clipped to `bounds`.
    pub fn start_layer(&mut self, bounds: Rectangle)
        ensures
            final(self)@ == old(self)@.push(Command::BeginLayer { bounds }),
    {
        self.commands.push(Command::BeginLayer { bounds });
    }

    /// Closes the innermost layer.
    pub fn end_layer(&mut self)
        ensures
            final(self)@ == old(self)@.push(Command::EndLayer),
    {
        self.commands.push(Command::EndLayer);
    }

    /// Opens a scope drawn through `transformation`.
    pub fn start_transformation(&mut self, transformation: Transformation)
        ensures
            final(self)@ == old(self)@.push(Command::BeginTransformation { transformation }),
    {
        self.commands.push(Command::BeginTransformation { transformation });
    }

    /// Closes the innermost transformation.
    pub fn end_transformation(&mut self)
        ensures
            final(self)@ == old(self)@.push(Command::EndTransformation),
    {
        self.commands.push(Command::EndTransformation);
    }

    /// Draws `geometry` with its origin at `origin`.
    pub fn draw_geometry(&mut self, origin: Point, geometry: &Arc<Geometry>)
        ensures
            final(self)@ == old(self)@.push(Command::Draw { origin, geometry: *geometry }),
    {
        self.commands.push(Command::Draw { origin, geometry: share(geometry) });
    }

    /// The display list so far.
    pub fn commands(&self) -> (commands: &[Command])
        ensures
            commands@ == self@,
    {
        self.commands.as_slice()
    }

    /// Ends the draw pass and hands out the display list.
    pub fn into_commands(self) -> (commands: Vec<Command>)
        ensures
            commands@ == self@,
    {
        self.commands
    }
}

} // verus!

//! What every node of the widget tree can do.

use vstd::prelude::*;
use crate::event::Event;
use crate::geometry::{Point, Rectangle, Size};
use crate::layout::{Layout, Length, Limits, Node};
use crate::mouse::{Cursor, Interaction};
use crate::render::{balanced, extends, Command, Renderer};
use crate::tree::{State, Tag, Tree};

verus! {

/// A node of the widget tree: it says how much room it wants, takes the room
/// it is given, keeps state from frame to frame, draws itself, reacts to
/// input and tells what the pointer should look like over it.
///
/// `Message` is what the node hands to the application when input asks for
/// it.
///
/// Each method goes with a predicate that says what the method may return.
/// A widget that leaves a predicate as it is promises nothing about that
/// method; a widget that states one is held to it.
pub trait Widget<Message> {
    /// Whether `length` is the width that the node asks for.
    open spec fn asks_width(&self, length: Length) -> bool {
        true
    }

    /// Whether `length` is the height that the node asks for.
    open spec fn asks_height(&self, length: Length) -> bool {
        true
    }

    /// Whether `size` is the size that the node takes under `limits`.
    open spec fn takes(&self, tree: Tree, limits: Limits, size: Size) -> bool {
        true
    }

    /// Whether the node keeps state of the kind `tag`.
    open spec fn keeps(&self, tag: Tag) -> bool {
        true
    }

    /// Whether `state` is the state that the node starts with.
    open spec fn starts_with(&self, state: State) -> bool {
        true
    }

    /// Whether `children` are the states that the nodes below this one start
    /// with.
    open spec fn starts_over(&self, children: Seq<Tree>) -> bool {
        true
    }

    /// Whether `after` is what the state `before` of the previous frame
    /// becomes when it is brought to the node.
    open spec fn reconciles(&self, before: Tree, after: Tree) -> bool {
        true
    }

    /// Whether the node, with the state `tree`, may react to `event` by
    /// becoming `after`, leaving the state `tree_after` and handing `messages`
    /// to the application.
    open spec fn reacts(
        &self,
        tree: Tree,
        event: Event,
        bounds: Rectangle,
        cursor_position: Point,
        after: &Self,
        tree_after: Tree,
        messages: Seq<Message>,
    ) -> bool {
        true
    }

    /// Whether `emitted` is what the node draws when it occupies `bounds`
    /// and sees `cursor`, and `after` what it becomes by drawing.
    open spec fn draws(
        &self,
        tree: Tree,
        bounds: Rectangle,
        cursor: Cursor,
        viewport: Rectangle,
        emitted: Seq<Command>,
        after: &Self,
    ) -> bool {
        true
    }

    /// Whether `interaction` is what the pointer should look like when the
    /// node occupies `bounds` and sees `cursor`.
    open spec fn shows(
        &self,
        tree: Tree,
        bounds: Rectangle,
        cursor: Cursor,
        viewport: Rectangle,
        interaction: Interaction,
    ) -> bool {
        true
    }

    /// Returns the width that the node asks for.
    fn width(&self) -> (length: Length)
        ensures
            self.asks_width(length),
    ;

    /// Returns the height that the node asks for.
    fn height(&self) -> (length: Length)
        ensures
            self.asks_height(length),
    ;

    /// Returns the node's bounds under `limits`: its size, at the origin.
    fn layout(&self, tree: &Tree, limits: &Limits) -> (node: Node)
        ensures
            node.spec_bounds().position() == (Point { x: 0, y: 0 }),
            self.takes(*tree, *limits, node.spec_bounds().size()),
    ;

    /// Returns the kind of state that the node keeps.
    fn tag(&self) -> (tag: Tag)
        ensures
            self.keeps(tag),
    ;

    /// Returns the state that the node starts with.
    fn state(&self) -> (state: State)
        ensures
            self.starts_with(state),
    ;

    /// Returns the states that the nodes below this one start with.
    fn children(&self) -> (children: Vec<Tree>)
        ensures
            self.starts_over(children@),
    ;

    /// Brings the state of the previous frame to the node, which keeps of it
    /// what it can use. The state is of the kind that the node keeps.
    fn diff(&self, tree: &mut Tree)
        requires
            self.keeps(old(tree).tag),
        ensures
            self.reconciles(*old(tree), *final(tree)),
    ;

    /// Hands an input event to the node. `cursor_position` is where the
    /// cursor is in the window. Messages for the application are put behind
    /// those already in `messages`. What the node asks for in width and
    /// height stays as it was.
    fn on_event(
        &mut self,
        tree: &mut Tree,
        event: Event,
        layout: Layout<'_>,
        cursor_position: Point,
        messages: &mut Vec<Message>,
    )
        ensures
            forall|length: Length| final(self).asks_width(length) == old(self).asks_width(length),
            forall|length: Length| final(self).asks_height(length) == old(self).asks_height(length),
            old(messages)@.len() <= final(messages)@.len(),
            final(messages)@.take(old(messages)@.len() as int) == old(messages)@,
            old(self).reacts(
                *old(tree),
                event,
                layout.spec_bounds(),
                cursor_position,
                final(self),
                *final(tree),
                final(messages)@.skip(old(messages)@.len() as int),
            ),
    ;

    /// Draws the node into `renderer`. The commands already there stay; what
    /// is put behind them is balanced and is what `draws` allows. What the
    /// node asks for in width and height stays as it was between layout and
    /// draw.
    fn draw(
        &mut self,
        tree: &Tree,
        renderer: &mut Renderer,
        layout: Layout<'_>,
        cursor: Cursor,
        viewport: &Rectangle,
    )
        ensures
            extends(final(renderer)@, old(renderer)@),
            old(self).draws(
                *tree,
                layout.spec_bounds(),
                cursor,
                *viewport,
                final(renderer)@.skip(old(renderer)@.len() as int),
                final(self),
            ),
            balanced(final(renderer)@.skip(old(renderer)@.len() as int)),
            forall|length: Length| final(self).asks_width(length) == old(self).asks_width(length),
            forall|length: Length| final(self).asks_height(length) == old(self).asks_height(length),
    ;

    /// Returns what the pointer should look like.
    fn mouse_interaction(
        &self,
        tree: &Tree,
        layout: Layout<'_>,
        cursor: Cursor,
        viewport: &Rectangle,
    ) -> (interaction: Interaction)
        ensures
            self.shows(*tree, layout.spec_bounds(), cursor, *viewport, interaction),
    ;
}

/// Whether `tree` is a state that `widget` starts with: its own kind of
/// state, as the widget starts with it, over the states that the widgets
/// below start with.
pub open spec fn starts<Message, W: Widget<Message>>(widget: &W, tree: Tree) -> bool {
    &&& widget.keeps(tree.tag)
    &&& widget.starts_with(tree.state)
    &&& widget.starts_over(tree.children@)
}

} // verus!

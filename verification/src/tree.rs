//! What widgets keep from one frame to the next.

use vstd::prelude::*;
use crate::widget::{starts, Widget};

verus! {

/// The kind of state that a widget keeps. Two widgets with the same tag at
/// the same place of the tree in two consecutive frames are taken to be the
/// same widget.
#[derive(Clone, Copy, Debug, PartialEq, Eq, Hash, Structural)]
pub struct Tag(pub u64);

impl Tag {
    /// The tag of a widget that keeps nothing.
    pub open spec fn none() -> Tag {
        Tag(0)
    }

    /// Returns the tag of a widget that keeps nothing.
    pub fn stateless() -> (tag: Tag)
        ensures
            tag == Tag::none(),
    {
        Tag(0)
    }
}

/// The state of one widget: a scroll offset, the phase of an animation, and
/// the like, as numbers.
#[derive(Debug, PartialEq, Eq)]
pub struct State {
    pub values: Vec<u64>,
}

impl State {
    /// Returns the state of a widget that keeps nothing.
    pub fn none() -> (state: State)
        ensures
            state.values@ == Seq::<u64>::empty(),
    {
        State { values: Vec::new() }
    }
}

/// The state of a widget and of the widgets below it.
#[derive(Debug, PartialEq, Eq)]
pub struct Tree {
    /// The kind of state that the widget keeps.
    pub tag: Tag,
    /// The state of the widget.
    pub state: State,
    /// The state of the widgets below it.
    pub children: Vec<Tree>,
}

impl Tree {
    /// Creates the state of a widget that keeps nothing and has no widget
    /// below it.
    pub fn empty() -> (tree: Tree)
        ensures
            tree.tag == Tag::none(),
            tree.state.values@ == Seq::<u64>::empty(),
            tree.children@ == Seq::<Tree>::empty(),
    {
        Tree { tag: Tag::stateless(), state: State::none(), children: Vec::new() }
    }

    /// Creates the state that `widget` starts with.
    pub fn new<Message, W: Widget<Message>>(widget: &W) -> (tree: Tree)
        ensures
            starts(widget, tree),
    {
        Tree { tag: widget.tag(), state: widget.state(), children: widget.children() }
    }

    /// Brings the state of the previous frame to `widget`. Where the state
    /// is of the kind that the widget keeps, the widget reconciles it with
    /// itself; where it is of another kind, it is dropped and the widget
    /// starts anew.
    pub fn diff<Message, W: Widget<Message>>(&mut self, widget: &W)
        ensures
            (widget.keeps(old(self).tag) && widget.reconciles(*old(self), *final(self)))
                || (final(self).tag != old(self).tag && starts(widget, *final(self))),
    {
        let tag: Tag = widget.tag();
        if self.tag.0 == tag.0 {
            widget.diff(self);
        } else {
            *self = Tree { tag, state: widget.state(), children: widget.children() };
        }
    }
}

} // verus!

//! A single-slot cache of what a drawable last produced.

use vstd::prelude::*;
use crate::geometry::Size;

verus! {

/// What a cached output was made from: a fingerprint of the drawable's
/// content and the size it was asked to fill.
#[derive(Clone, Copy, Debug, PartialEq, Eq, Structural)]
pub struct Key {
    pub content: u64,
    pub size: Size,
}

/// What a cache holds: nothing, or one output under the key it was made for.
pub enum Slot<T> {
    Empty,
    Filled { key: Key, output: T },
}

impl<T> Slot<T> {
    /// Whether the slot holds an output made for `key`.
    pub open spec fn holds(self, key: Key) -> bool {
        self matches Slot::Filled { key: k, .. } && k == key
    }

    /// The slot after a request for `key`, where `rendered` is what the
    /// thunk gives if it is run.
    pub open spec fn after_request(self, key: Key, rendered: T) -> Slot<T> {
        if self.holds(key) {
            self
        } else {
            Slot::Filled { key, output: rendered }
        }
    }

    /// What a request for `key` returns, where `rendered` is what the thunk
    /// gives if it is run.
    pub open spec fn answer(self, key: Key, rendered: T) -> T {
        if self.holds(key) {
            self->output
        } else {
            rendered
        }
    }
}

/// A cache with room for one output.
pub struct Cache<T> {
    slot: Slot<T>,
}

impl<T> View for Cache<T> {
    type V = Slot<T>;

    closed spec fn view(&self) -> Slot<T> {
        self.slot
    }
}

impl<T> Cache<T> {
    /// Creates an empty cache.
    pub fn new() -> (cache: Cache<T>)
        ensures
            cache@ is Empty,
    {
        Cache { slot: Slot::Empty }
    }

    /// Empties the cache, so that the next request runs its thunk.
    pub fn clear(&mut self)
        ensures
            final(self)@ is Empty,
    {
        self.slot = Slot::Empty;
    }

    /// The output held for `key`, if there is one.
    pub fn get(&self, key: Key) -> (output: Option<&T>)
        ensures
            output is Some <==> self@.holds(key),
            output matches Some(o) ==> *o == self@->output,
    {
        match &self.slot {
            Slot::Filled { key: k, output } => {
                if *k == key {
                    Some(output)
                } else {
                    None
                }
            },
            Slot::Empty => None,
        }
    }

    /// Returns the output held for `key`; where none is held, runs `render`,
    /// keeps what it gives in place of whatever was held, and returns that.
    ///
    /// The thunk is run on a miss only: on a hit it need not even be
    /// callable.
    pub fn get_or_render<F: FnOnce() -> T>(&mut self, key: Key, render: F) -> (output: &T)
        requires
            !old(self)@.holds(key) ==> render.requires(()),
        ensures
            old(self)@.holds(key) ==> final(self)@ == old(self)@ && *output == old(self)@->output,
            !old(self)@.holds(key) ==> render.ensures((), *output) && final(self)@ == (Slot::Filled {
                key,
                output: *output,
            }),
            final(self)@ == old(self)@.after_request(key, *output),
            *output == old(self)@.answer(key, *output),
            final(self)@.holds(key),
    {
        let hit: bool = self.get(key).is_some();
        if !hit {
            let rendered: T = render();
            self.slot = Slot::Filled { key, output: rendered };
        }
        match &self.slot {
            Slot::Filled { output, .. } => output,
            Slot::Empty => vstd::pervasive::unreached(),
        }
    }
}

/// Two requests in a row for one key: the second is a hit. It is answered
/// with what the first returned, whatever its own thunk would give, and it
/// leaves the cache as the first left it.
pub proof fn lemma_repeated_request_hits<T>(slot: Slot<T>, key: Key, first: T, second: T)
    ensures
        slot.after_request(key, first).holds(key),
        slot.after_request(key, first).answer(key, second) == slot.answer(key, first),
        slot.after_request(key, first).after_request(key, second) == slot.after_request(key, first),
{
}

/// A request for another key than the last one (another size, or another
/// content) is a miss: it is answered by its own thunk, and what was held
/// gives way to that answer, so that the old key is held no more.
pub proof fn lemma_changed_request_renders<T>(
    slot: Slot<T>,
    key: Key,
    changed: Key,
    first: T,
    second: T,
)
    requires
        changed.size != key.size || changed.content != key.content,
    ensures
        !slot.after_request(key, first).holds(changed),
        slot.after_request(key, first).answer(changed, second) == second,
        slot.after_request(key, first).after_request(changed, second) == (Slot::Filled {
            key: changed,
            output: second,
        }),
        !slot.after_request(key, first).after_request(changed, second).holds(key),
{
}

/// A cache never holds outputs for two keys at once.
pub proof fn lemma_single_slot<T>(slot: Slot<T>, a: Key, b: Key)
    requires
        slot.holds(a),
        slot.holds(b),
    ensures
        a == b,
{
}

} // verus!

//! The single-slot, non-blocking value bridge: a named cell holding the most
//! recently written value of a fixed scalar type. The producing side (a
//! control on the UI context) writes; the consuming side (the audio graph,
//! once per processing tick) reads. Writes are newest-wins: a value that is
//! not yet consumed is silently superseded by a later write.

use vstd::prelude::*;

verus! {

/// A single-value, newest-wins mailbox.
///
/// A write stores the value and marks it fresh. A level-triggered read
/// ([`Channel::read`]) returns the latest written value, or the initial value
/// before any write. An edge-triggered read ([`Channel::read_and_clear_flag`])
/// returns the latest value exactly once per write and nothing more until the
/// next write; message-style controls such as a button use it so that a press
/// registers as one discrete event rather than a sustained level.
pub struct Channel<T> {
    current: T,
    fresh: bool,
}

impl<T: Copy> Channel<T> {
    /// The value a level-triggered read returns: the most recent write, or
    /// the initial value if nothing has been written yet.
    pub closed spec fn value(&self) -> T {
        self.current
    }

    /// Whether the latest write has not yet been consumed by an
    /// edge-triggered read.
    pub closed spec fn is_fresh(&self) -> bool {
        self.fresh
    }

    /// The slot as constructed: holding `init`, with no write pending.
    pub closed spec fn spec_new(init: T) -> Channel<T> {
        Channel { current: init, fresh: false }
    }

    /// The slot after a write of `v`: `v` is the latest value and is pending
    /// for the next edge-triggered read, whatever was there before.
    pub closed spec fn spec_write(self, v: T) -> Channel<T> {
        Channel { current: v, fresh: true }
    }

    /// The result and successor state of an edge-triggered read: the pending
    /// value exactly once, nothing when no write is pending.
    pub closed spec fn spec_take(self) -> (Option<T>, Channel<T>) {
        if self.fresh {
            (Some(self.current), Channel { current: self.current, fresh: false })
        } else {
            (None, self)
        }
    }

    /// Creates a slot holding `init`, so that a read before any write still
    /// returns a defined value.
    pub fn new(init: T) -> (c: Channel<T>)
        ensures
            c == Self::spec_new(init),
            c.value() == init,
            !c.is_fresh(),
    {
        Channel { current: init, fresh: false }
    }

    /// Stores `v` as the latest value. Newest-wins: any previous value, read
    /// or not, is superseded.
    pub fn write(&mut self, v: T)
        ensures
            *final(self) == old(self).spec_write(v),
            final(self).value() == v,
            final(self).is_fresh(),
    {
        self.current = v;
        self.fresh = true;
    }

    /// Level-triggered read: returns the latest written value, or the initial
    /// value if nothing has been written yet. Never an unset value.
    pub fn read(&self) -> (r: T)
        ensures
            r == self.value(),
    {
        self.current
    }

    /// Edge-triggered read: returns the latest value exactly once per write,
    /// and nothing when no write is pending. The stored value itself is kept,
    /// so a later level-triggered read still sees it.
    pub fn read_and_clear_flag(&mut self) -> (r: Option<T>)
        ensures
            (r, *final(self)) == old(self).spec_take(),
            final(self).value() == old(self).value(),
            !final(self).is_fresh(),
            r == (if old(self).is_fresh() { Some(old(self).value()) } else { Option::<T>::None }),
    {
        if self.fresh {
            self.fresh = false;
            Some(self.current)
        } else {
            None
        }
    }
}

/// The slot after the writes `vs`, applied in order with no intervening read.
pub open spec fn after_writes<T: Copy>(c: Channel<T>, vs: Seq<T>) -> Channel<T>
    decreases vs.len(),
{
    if vs.len() == 0 {
        c
    } else {
        after_writes(c, vs.drop_last()).spec_write(vs.last())
    }
}

/// Newest-wins: for any sequence of writes with no intervening read, a read
/// after all of them returns the last value written.
pub proof fn lemma_newest_wins<T: Copy>(c: Channel<T>, vs: Seq<T>)
    requires
        vs.len() > 0,
    ensures
        after_writes(c, vs).value() == vs.last(),
        after_writes(c, vs).is_fresh(),
{
}

/// No value before a write: a fresh slot's first level-triggered read returns
/// the defined initial value, never an unset one.
pub proof fn lemma_first_read_is_initial<T: Copy>(init: T)
    ensures
        Channel::spec_new(init).value() == init,
        !Channel::spec_new(init).is_fresh(),
{
}

/// Edge-trigger exactly-once: after a single write, the immediately following
/// edge-triggered read yields the written value, and every further
/// edge-triggered read yields nothing until the next write.
pub proof fn lemma_edge_exactly_once<T: Copy>(c: Channel<T>, v: T)
    ensures
        ({
            let first = c.spec_write(v).spec_take();
            let second = first.1.spec_take();
            first.0 == Some(v) && second.0 == Option::<T>::None && second.1 == first.1
        }),
{
}

} // verus!

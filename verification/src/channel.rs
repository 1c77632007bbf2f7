//! The cross-thread message stream: a producing end on the UI context, a
//! consuming end absorbed into the audio graph. The consuming end remembers
//! the last message it took, so that the graph sees a level — the most recent
//! message — once one has arrived, and sees nothing before the first one.

use vstd::prelude::*;

verus! {

#[verifier::external_type_specification]
#[verifier::external_body]
#[verifier::reject_recursive_types(T)]
pub struct ExSender<T>(crossbeam_channel::Sender<T>);

#[verifier::external_type_specification]
#[verifier::external_body]
#[verifier::reject_recursive_types(T)]
pub struct ExReceiver<T>(crossbeam_channel::Receiver<T>);

/// Relies on crossbeam_channel::unbounded: creates the sending and receiving
/// ends of an unbounded channel; a send on such a channel never blocks.
#[verifier::external_body]
fn new_unbounded<M>() -> (ends: (crossbeam_channel::Sender<M>, crossbeam_channel::Receiver<M>)) {
    crossbeam_channel::unbounded()
}

/// Relies on crossbeam_channel::Sender::try_send: delivers the message unless
/// the receiving end is gone, and never blocks. A failure to deliver is
/// deliberately dropped: a message not taken before the stream stops has no
/// one left to act on it.
#[verifier::external_body]
fn try_send_message<M>(tx: &crossbeam_channel::Sender<M>, message: M) {
    tx.try_send(message).ok();
}

/// Relies on crossbeam_channel::Receiver::try_recv: returns a queued message
/// if one is ready, and nothing when the channel is empty or the sending end
/// is gone; never blocks. What comes back depends on the other end, so
/// nothing is promised of it.
#[verifier::external_body]
fn try_recv_message<M>(rx: &crossbeam_channel::Receiver<M>) -> (r: Option<M>) {
    rx.try_recv().ok()
}

/// Relies on crossbeam_channel::Sender::clone: a clone sends into the same
/// channel as the sender it was cloned from.
#[verifier::external_body]
fn clone_sender<M>(tx: &crossbeam_channel::Sender<M>) -> (r: crossbeam_channel::Sender<M>) {
    tx.clone()
}

/// Relies on crossbeam_channel::Receiver::clone: a clone receives from the
/// same channel as the receiver it was cloned from.
#[verifier::external_body]
fn clone_receiver<M>(rx: &crossbeam_channel::Receiver<M>) -> (r: crossbeam_channel::Receiver<M>) {
    rx.clone()
}

/// The producing end of the message stream, held by the UI context. Cloneable:
/// every clone feeds the same stream.
#[verifier::reject_recursive_types(M)]
pub struct GuiTx<M> {
    tx: crossbeam_channel::Sender<M>,
}

impl<M> GuiTx<M> {
    pub fn new(tx: crossbeam_channel::Sender<M>) -> (r: GuiTx<M>) {
        GuiTx { tx }
    }

    /// Hands `message` to the consuming end. Never blocks; if the consuming
    /// end is gone the message is dropped, as no graph is left to act on it.
    pub fn send(&self, message: M) {
        try_send_message(&self.tx, message);
    }
}

impl<M> Clone for GuiTx<M> {
    fn clone(&self) -> (r: Self) {
        GuiTx { tx: clone_sender(&self.tx) }
    }
}

/// The consuming end of the message stream, read once per processing tick
/// from the audio context. It remembers the last message taken, so a read
/// returns the most recent message once one has arrived — never an unset
/// value after the first arrival.
#[verifier::reject_recursive_types(M)]
pub struct GuiRx<M> {
    rx: crossbeam_channel::Receiver<M>,
    last_message: Option<M>,
}

impl<M: Copy> GuiRx<M> {
    /// The last message this end has taken, if any.
    pub closed spec fn last(&self) -> Option<M> {
        self.last_message
    }

    pub fn new(rx: crossbeam_channel::Receiver<M>) -> (r: GuiRx<M>)
        ensures
            r.last() is None,
    {
        GuiRx { rx, last_message: None }
    }

    /// Absorbs what one take of the queue handed back: a message becomes the
    /// new level, nothing leaves the level as it was.
    pub fn absorb(&mut self, got: Option<M>)
        ensures
            final(self).last() == (if got is Some {
                got
            } else {
                old(self).last()
            }),
    {
        match got {
            Some(message) => {
                self.last_message = Some(message);
            }
            None => {}
        }
    }

    /// Takes one queued message if one is ready — absorbing it as the new
    /// level — and returns the most recent message taken so far. Once a
    /// message has arrived, every later call returns a message: the level
    /// never falls back to nothing.
    pub fn recv(&mut self) -> (r: Option<M>)
        ensures
            r == final(self).last(),
            old(self).last() is Some ==> r is Some,
            final(self).last() is None ==> old(self).last() is None,
    {
        let got = try_recv_message(&self.rx);
        self.absorb(got);
        self.last_message
    }

    /// The most recent message taken, without looking for a new one.
    pub fn last_message(&self) -> (r: Option<M>)
        ensures
            r == self.last(),
    {
        self.last_message
    }

    /// One processing block of `len` ticks: each tick takes at most one queued
    /// message and emits the most recent message so far, or nothing if none
    /// has arrived yet. Within a block the emitted level is monotone: once a
    /// tick emits a message, every later tick emits one too, and the last
    /// tick emits exactly the level this end is left holding.
    pub fn process_block(&mut self, len: usize) -> (out: Vec<Option<M>>)
        ensures
            out@.len() == len,
            forall|i: int, j: int|
                0 <= i <= j < len && out@[i] is Some ==> out@[j] is Some,
            len > 0 ==> out@[len - 1] == final(self).last(),
            len == 0 ==> *final(self) == *old(self),
            old(self).last() is Some ==> (forall|i: int| 0 <= i < len ==> out@[i] is Some),
    {
        let mut out: Vec<Option<M>> = Vec::new();
        let mut k: usize = 0;
        while k < len
            invariant
                k <= len,
                out@.len() == k,
                forall|i: int, j: int|
                    0 <= i <= j < k && out@[i] is Some ==> out@[j] is Some,
                k > 0 ==> out@[k - 1] == self.last(),
                forall|i: int| 0 <= i < k && out@[i] is Some ==> self.last() is Some,
                old(self).last() is Some ==> self.last() is Some,
                old(self).last() is Some ==> (forall|i: int| 0 <= i < k ==> out@[i] is Some),
                k == 0 ==> *self == *old(self),
            decreases len - k,
        {
            let level = self.recv();
            out.push(level);
            k = k + 1;
        }
        out
    }
}

impl<M: Copy> Clone for GuiRx<M> {
    /// The clone receives from the same channel and starts from the same last
    /// message.
    fn clone(&self) -> (r: Self)
        ensures
            r.last() == self.last(),
    {
        GuiRx { rx: clone_receiver(&self.rx), last_message: self.last_message }
    }
}

/// Both ends of a freshly created message stream, before the consuming end is
/// absorbed into the graph.
#[verifier::reject_recursive_types(M)]
pub struct GuiChannel<M> {
    tx: GuiTx<M>,
    rx: GuiRx<M>,
}

impl<M: Copy> GuiChannel<M> {
    /// The producing end as held right now.
    pub closed spec fn spec_tx(&self) -> GuiTx<M> {
        self.tx
    }

    /// The consuming end as held right now.
    pub closed spec fn spec_rx(&self) -> GuiRx<M> {
        self.rx
    }

    /// Creates a connected pair: what the producing end sends, the consuming
    /// end can take. The consuming end starts with no message.
    pub fn new() -> (c: GuiChannel<M>)
        ensures
            c.spec_rx().last() is None,
    {
        let (tx, rx) = new_unbounded();
        GuiChannel { tx: GuiTx::new(tx), rx: GuiRx::new(rx) }
    }

    pub fn tx(&self) -> (r: &GuiTx<M>)
        ensures
            *r == self.spec_tx(),
    {
        &self.tx
    }

    pub fn rx(&self) -> (r: &GuiRx<M>)
        ensures
            *r == self.spec_rx(),
    {
        &self.rx
    }
}

impl<M: Copy> Default for GuiChannel<M> {
    fn default() -> (c: Self)
        ensures
            c.spec_rx().last() is None,
    {
        GuiChannel::new()
    }
}

} // verus!

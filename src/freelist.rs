//! The queue of freed entity indices, backed by an unbounded
//! `crossbeam_channel` whose two ends this library holds together.
use vstd::prelude::*;

verus! {

/// A first-in first-out queue of recycled indices.
///
/// Both ends of the channel stay in this value, so the channel is never
/// disconnected and its content is exactly what was sent and not yet
/// received. The two handles are held together because a send through one
/// changes what the other receives: the queue is the pair, not either end.
#[verifier::external_body]
pub struct FreeList {
    tx: crossbeam_channel::Sender<u32>,
    rx: crossbeam_channel::Receiver<u32>,
}

/// The indices waiting in the queue, oldest first.
pub uninterp spec fn queued(q: FreeList) -> Seq<u32>;

impl FreeList {
    /// Relies on `crossbeam_channel::unbounded`: a new channel is empty.
    #[verifier::external_body]
    pub fn new() -> (r: FreeList)
        ensures
            queued(r) == Seq::<u32>::empty(),
    {
        let (tx, rx) = crossbeam_channel::unbounded();
        FreeList { tx, rx }
    }

    /// Relies on `crossbeam_channel::Sender::send`: on an unbounded channel
    /// whose receiver is alive the message is appended.
    #[verifier::external_body]
    pub fn push(&mut self, id: u32)
        ensures
            queued(*final(self)) == queued(*old(self)).push(id),
    {
        let _ = self.tx.send(id);
    }

    /// Relies on `crossbeam_channel::Receiver::try_recv`: the oldest message
    /// if there is one, and no message otherwise.
    #[verifier::external_body]
    pub fn pop(&mut self) -> (r: Option<u32>)
        ensures
            queued(*old(self)).len() == 0 ==> r.is_none() && queued(*final(self)) == queued(
                *old(self),
            ),
            queued(*old(self)).len() > 0 ==> r == Some(queued(*old(self))[0]) && queued(
                *final(self),
            ) == queued(*old(self)).drop_first(),
    {
        self.rx.try_recv().ok()
    }

    /// Relies on `crossbeam_channel::Receiver::len`: the number of messages
    /// in the channel.
    #[verifier::external_body]
    pub fn len(&self) -> (r: usize)
        ensures
            r == queued(*self).len(),
    {
        self.rx.len()
    }
}

} // verus!

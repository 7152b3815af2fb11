//! What a link relay decides each tick about its outbound queue: frames are
//! written in the order they were taken from the command channel, and a
//! frame whose write failed is retried on the next tick rather than lost.
use vstd::prelude::*;

use std::collections::VecDeque;

verus! {

/// Serial speed of the instrument link.
pub const BAUD_RATE: u32 = 38400;

/// Bounded wait of one read on the instrument link, in milliseconds.
pub const READ_TIMEOUT_MS: u64 = 10;

/// The outbound side of one link relay.
pub struct LinkRelay<T> {
    /// Frames taken from the command channel and not yet written, oldest first.
    pub pending: VecDeque<T>,
    /// Every frame ever taken, in order.
    pub taken: Ghost<Seq<T>>,
    /// Every frame written successfully, in order.
    pub written: Ghost<Seq<T>>,
}

impl<T: Copy> LinkRelay<T> {
    /// What was written, followed by what waits, is what was taken.
    pub open spec fn wf(&self) -> bool {
        self.written@ + self.pending@ == self.taken@
    }

    /// A relay that has taken nothing yet.
    pub fn new() -> (r: LinkRelay<T>)
        ensures
            r.wf(),
            r.pending@.len() == 0,
            r.taken@.len() == 0,
            r.written@.len() == 0,
    {
        let r = LinkRelay { pending: VecDeque::new(), taken: Ghost(Seq::empty()), written: Ghost(Seq::empty()) };
        assert(r.written@ + r.pending@ =~= r.taken@);
        r
    }

    /// Queues a frame taken from the command channel.
    pub fn accept(&mut self, frame: T)
        requires
            old(self).wf(),
        ensures
            final(self).wf(),
            final(self).pending@ == old(self).pending@.push(frame),
            final(self).taken@ == old(self).taken@.push(frame),
            final(self).written@ == old(self).written@,
    {
        self.pending.push_back(frame);
        self.taken = Ghost(self.taken@.push(frame));
        assert(self.written@ + self.pending@ =~= self.taken@);
    }

    /// The frame to write this tick: the oldest one not yet written.
    pub fn next_write(&self) -> (r: Option<T>)
        ensures
            r == (if self.pending@.len() > 0 {
                Some(self.pending@[0])
            } else {
                None::<T>
            }),
    {
        if self.pending.len() > 0 {
            Some(self.pending[0])
        } else {
            None
        }
    }

    /// Records how writing the frame from `next_write` went: written, it
    /// leaves the queue; failed, it stays at the front to be retried on the
    /// next tick.
    pub fn write_done(&mut self, ok: bool)
        requires
            old(self).wf(),
            old(self).pending@.len() > 0,
        ensures
            final(self).wf(),
            final(self).taken@ == old(self).taken@,
            ok ==> final(self).pending@ == old(self).pending@.drop_first(),
            ok ==> final(self).written@ == old(self).written@.push(old(self).pending@[0]),
            !ok ==> final(self).pending@ == old(self).pending@,
            !ok ==> final(self).written@ == old(self).written@,
    {
        if ok {
            let ghost front = self.pending@[0];
            let _ = self.pending.pop_front();
            self.written = Ghost(self.written@.push(front));
            assert(self.written@ + self.pending@ =~= old(self).written@ + old(self).pending@);
        }
    }
}

/// Frames leave a relay in the order they entered it: what has been written
/// is always a prefix of what was taken, and the next frame to write is the
/// first one taken that has not been written.
pub proof fn lemma_relay_fifo<T: Copy>(r: LinkRelay<T>)
    requires
        r.wf(),
    ensures
        r.written@.len() <= r.taken@.len(),
        r.written@ == r.taken@.take(r.written@.len() as int),
        r.pending@.len() > 0 ==> r.pending@[0] == r.taken@[r.written@.len() as int],
{
    assert(r.taken@.take(r.written@.len() as int) =~= r.written@);
}

} // verus!

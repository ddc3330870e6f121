//! The delivery channel between a session and its transport: an ordered
//! queue with one consumer. Once the consumer is gone, further sends are
//! dropped silently and counted, and so is whatever was still queued.
use vstd::prelude::*;

use crate::session::sat_add;

verus! {

/// An ordered queue of outgoing messages.
pub struct EventChannel<T> {
    queue: Vec<T>,
    open: bool,
    dropped: u64,
}

/// The mathematical value of an [`EventChannel`].
pub struct ChannelView<T> {
    /// Messages sent and not yet taken, oldest first.
    pub queue: Seq<T>,
    /// Whether the consumer is still there.
    pub open: bool,
    /// Messages dropped because the consumer was gone.
    pub dropped: u64,
}

impl<T> View for EventChannel<T> {
    type V = ChannelView<T>;

    closed spec fn view(&self) -> ChannelView<T> {
        ChannelView { queue: self.queue@, open: self.open, dropped: self.dropped }
    }
}

impl<T> EventChannel<T> {
    /// An open, empty channel.
    pub fn new() -> (r: EventChannel<T>)
        ensures
            r@ == (ChannelView::<T> { queue: seq![], open: true, dropped: 0 }),
    {
        EventChannel { queue: Vec::new(), open: true, dropped: 0 }
    }

    /// Queues `msg` behind everything sent before, or drops and counts it
    /// when the consumer is gone. Returns whether it was queued.
    pub fn send(&mut self, msg: T) -> (r: bool)
        ensures
            r == old(self)@.open,
            old(self)@.open ==> final(self)@ == (ChannelView {
                queue: old(self)@.queue.push(msg),
                ..old(self)@
            }),
            !old(self)@.open ==> final(self)@ == (ChannelView {
                dropped: sat_add(old(self)@.dropped, 1),
                ..old(self)@
            }),
    {
        if self.open {
            self.queue.push(msg);
            true
        } else {
            self.dropped = self.dropped.saturating_add(1);
            false
        }
    }

    /// Sends each of `msgs` in order.
    pub fn send_all(&mut self, msgs: Vec<T>)
        ensures
            old(self)@.open ==> final(self)@ == (ChannelView {
                queue: old(self)@.queue + msgs@,
                ..old(self)@
            }),
            !old(self)@.open ==> final(self)@ == (ChannelView {
                dropped: sat_add(old(self)@.dropped, msgs@.len()),
                ..old(self)@
            }),
    {
        let ghost start = self@;
        let ghost all = msgs@;
        let mut rest = msgs;
        let n = rest.len();
        let mut j: usize = 0;
        assert(start.queue + all.subrange(0, 0) =~= start.queue);
        while rest.len() > 0
            invariant
                j + rest@.len() == n,
                all.len() == n,
                rest@ =~= all.subrange(j as int, n as int),
                self@.open == start.open,
                start.open ==> self@ == (ChannelView {
                    queue: start.queue + all.subrange(0, j as int),
                    ..start
                }),
                !start.open ==> self@ == (ChannelView {
                    dropped: sat_add(start.dropped, j as nat),
                    ..start
                }),
            decreases rest@.len(),
        {
            let ghost old_rest = rest@;
            let m = rest.remove(0);
            assert(m == all[j as int]);
            assert(rest@ =~= all.subrange(j + 1, n as int));
            assert(start.queue + all.subrange(0, j + 1) =~= (start.queue + all.subrange(
                0,
                j as int,
            )).push(m));
            self.send(m);
            j = j + 1;
        }
        assert(all.subrange(0, n as int) =~= all);
    }

    /// Hands the consumer everything queued, oldest first, and empties the
    /// queue.
    pub fn take_all(&mut self) -> (r: Vec<T>)
        ensures
            r@ == old(self)@.queue,
            final(self)@ == (ChannelView { queue: seq![], ..old(self)@ }),
    {
        let mut taken: Vec<T> = Vec::new();
        std::mem::swap(&mut taken, &mut self.queue);
        taken
    }

    /// Records that the consumer is gone: what was queued is dropped and
    /// counted, and later sends are dropped too.
    pub fn close(&mut self)
        ensures
            final(self)@ == (ChannelView::<T> {
                queue: seq![],
                open: false,
                dropped: sat_add(old(self)@.dropped, old(self)@.queue.len()),
            }),
    {
        let n = self.queue.len();
        self.dropped = self.dropped.saturating_add(n as u64);
        self.queue = Vec::new();
        self.open = false;
    }

    /// Whether the consumer is still there.
    pub fn is_open(&self) -> (r: bool)
        ensures
            r == self@.open,
    {
        self.open
    }

    /// The number of messages dropped so far.
    pub fn dropped(&self) -> (r: u64)
        ensures
            r == self@.dropped,
    {
        self.dropped
    }
}

} // verus!

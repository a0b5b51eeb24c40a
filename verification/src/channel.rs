use vstd::prelude::*;
use crate::message::RequestEnvelope;

verus! {

/// Why a send was refused by the channel.
#[derive(Clone, Copy, PartialEq, Eq, Structural, Debug)]
pub enum SendError {
    /// The worker side has terminated; nothing will consume the envelope.
    Closed,
    /// The bounded queue is at capacity; accepting the envelope would
    /// require the sender to block, which the rendering loop never may.
    Full,
}

/// A bounded first-in-first-out conduit carrying request envelopes from the
/// interactive thread to the worker. Sends never block: a send on a full or
/// closed channel is refused immediately.
pub struct RequestChannel {
    queue: Vec<RequestEnvelope>,
    closed: bool,
    capacity: usize,
}

impl RequestChannel {
    /// The envelopes queued and not yet taken by the worker, oldest first.
    pub closed spec fn contents(self) -> Seq<RequestEnvelope> {
        self.queue@
    }

    /// Whether the channel has been closed (by either side).
    pub closed spec fn closed_spec(self) -> bool {
        self.closed
    }

    /// The bound the channel was created with.
    pub closed spec fn cap(self) -> nat {
        self.capacity as nat
    }

    /// The queue never exceeds the bound, and the bound admits at least one
    /// envelope.
    pub open spec fn wf(self) -> bool {
        &&& self.contents().len() <= self.cap()
        &&& self.cap() >= 1
    }

    /// A fresh, open, empty channel with the given bound.
    pub fn new(capacity: usize) -> (c: Self)
        requires
            capacity >= 1,
        ensures
            c.wf(),
            c.contents().len() == 0,
            !c.closed_spec(),
            c.cap() == capacity,
    {
        RequestChannel { queue: Vec::new(), closed: false, capacity }
    }

    /// Hand an envelope to the channel. Refused, without blocking, when the
    /// channel is closed or full; accepted envelopes queue in arrival order.
    pub fn send(&mut self, envelope: RequestEnvelope) -> (r: Result<(), SendError>)
        requires
            old(self).wf(),
        ensures
            final(self).wf(),
            final(self).closed_spec() == old(self).closed_spec(),
            final(self).cap() == old(self).cap(),
            old(self).closed_spec() ==> {
                &&& r == Result::<(), SendError>::Err(SendError::Closed)
                &&& final(self).contents() == old(self).contents()
            },
            !old(self).closed_spec() && old(self).contents().len() >= old(self).cap() ==> {
                &&& r == Result::<(), SendError>::Err(SendError::Full)
                &&& final(self).contents() == old(self).contents()
            },
            !old(self).closed_spec() && old(self).contents().len() < old(self).cap() ==> {
                &&& r == Result::<(), SendError>::Ok(())
                &&& final(self).contents() == old(self).contents().push(envelope)
            },
    {
        if self.closed {
            Err(SendError::Closed)
        } else if self.queue.len() >= self.capacity {
            Err(SendError::Full)
        } else {
            self.queue.push(envelope);
            Ok(())
        }
    }

    /// Take the oldest queued envelope, if any. The worker may keep draining
    /// a closed channel until it is empty.
    pub fn recv(&mut self) -> (r: Option<RequestEnvelope>)
        requires
            old(self).wf(),
        ensures
            final(self).wf(),
            final(self).closed_spec() == old(self).closed_spec(),
            final(self).cap() == old(self).cap(),
            old(self).contents().len() == 0 ==> {
                &&& r is None
                &&& final(self).contents() == old(self).contents()
            },
            old(self).contents().len() > 0 ==> {
                &&& r == Some(old(self).contents()[0])
                &&& final(self).contents() == old(self).contents().remove(0)
            },
    {
        if self.queue.len() == 0 {
            None
        } else {
            Some(self.queue.remove(0))
        }
    }

    /// Graceful shutdown from the sending side: further sends are refused,
    /// but already queued envelopes remain for the worker to drain.
    pub fn close(&mut self)
        requires
            old(self).wf(),
        ensures
            final(self).wf(),
            final(self).closed_spec(),
            final(self).contents() == old(self).contents(),
            final(self).cap() == old(self).cap(),
    {
        self.closed = true;
    }

    /// Termination of the receiving side: the worker is gone, so queued
    /// envelopes are discarded and further sends are refused.
    pub fn disconnect(&mut self)
        requires
            old(self).wf(),
        ensures
            final(self).wf(),
            final(self).closed_spec(),
            final(self).contents().len() == 0,
            final(self).cap() == old(self).cap(),
    {
        self.closed = true;
        self.queue.clear();
    }

    /// Whether the channel has been closed.
    pub fn is_closed(&self) -> (b: bool)
        ensures
            b == self.closed_spec(),
    {
        self.closed
    }

    /// How many envelopes are queued.
    pub fn len(&self) -> (n: usize)
        ensures
            n == self.contents().len(),
    {
        self.queue.len()
    }

    /// The bound the channel was created with.
    pub fn capacity(&self) -> (n: usize)
        ensures
            n == self.cap(),
    {
        self.capacity
    }
}

} // verus!

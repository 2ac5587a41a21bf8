use vstd::prelude::*;
use vinezombie::client::queue::Queue;
use vinezombie::ircmsg::ClientMsg;
use crate::codec::{queue_is_empty, queue_new, queue_pop, queue_push, queued};

verus! {

/// What the outgoing queue has to offer right now.
pub enum Release {
    /// The next message, due to be sent.
    Send(ClientMsg<'static>),
    /// A message waits; the rate limit lets it go after this many nanoseconds.
    Wait(u128),
    /// Nothing waits.
    Empty,
}

/// The rate-limited queue of outgoing messages, together with the record of
/// every message that entered it and every message it released.
pub struct Outgoing {
    queue: Queue,
    arrived: Ghost<Seq<ClientMsg<'static>>>,
    released: Ghost<Seq<ClientMsg<'static>>>,
}

impl Outgoing {
    /// Every message pushed, in arrival order.
    pub closed spec fn arrived(&self) -> Seq<ClientMsg<'static>> {
        self.arrived@
    }

    /// Every message handed out for sending, in the order handed out.
    pub closed spec fn released(&self) -> Seq<ClientMsg<'static>> {
        self.released@
    }

    /// The messages still waiting, oldest first.
    pub closed spec fn pending(&self) -> Seq<ClientMsg<'static>> {
        queued(self.queue)
    }

    /// Nothing is lost or reordered: what arrived is what was released followed
    /// by what still waits.
    pub open spec fn wf(&self) -> bool {
        self.arrived() == self.released() + self.pending()
    }

    /// An empty queue with the default rate limit.
    pub fn new() -> (r: Outgoing)
        ensures
            r.wf(),
            r.arrived().len() == 0,
            r.released().len() == 0,
            r.pending().len() == 0,
    {
        let queue = queue_new();
        Outgoing { queue, arrived: Ghost(Seq::empty()), released: Ghost(Seq::empty()) }
    }

    /// Takes over a queue that already holds messages, such as one the
    /// handshake left behind.
    pub fn from_queue(queue: Queue) -> (r: Outgoing)
        ensures
            r.wf(),
            r.pending() == queued(queue),
            r.arrived() == queued(queue),
            r.released().len() == 0,
    {
        let ghost q = queued(queue);
        let r = Outgoing { queue, arrived: Ghost(q), released: Ghost(Seq::empty()) };
        assert(r.released() + r.pending() =~= r.arrived());
        r
    }

    /// Appends a message; it goes after everything already queued.
    pub fn push(&mut self, m: ClientMsg<'static>)
        requires
            old(self).wf(),
        ensures
            final(self).wf(),
            final(self).arrived() == old(self).arrived().push(m),
            final(self).released() == old(self).released(),
            final(self).pending() == old(self).pending().push(m),
    {
        queue_push(&mut self.queue, m);
        self.arrived = Ghost(self.arrived@.push(m));
        assert(self.released() + self.pending() =~= self.arrived());
    }

    /// Hands out the oldest waiting message if the rate limit allows it;
    /// otherwise says how long to wait, or that nothing waits.
    pub fn pop_ready(&mut self) -> (r: Release)
        requires
            old(self).wf(),
        ensures
            final(self).wf(),
            final(self).arrived() == old(self).arrived(),
            match r {
                Release::Send(m) => {
                    &&& old(self).pending().len() > 0
                    &&& m == old(self).pending()[0]
                    &&& final(self).pending() == old(self).pending().drop_first()
                    &&& final(self).released() == old(self).released().push(m)
                },
                Release::Wait(d) => {
                    &&& d > 0
                    &&& old(self).pending().len() > 0
                    &&& final(self).pending() == old(self).pending()
                    &&& final(self).released() == old(self).released()
                },
                Release::Empty => {
                    &&& old(self).pending().len() == 0
                    &&& final(self).pending() == old(self).pending()
                    &&& final(self).released() == old(self).released()
                },
            },
    {
        let (m, wait) = queue_pop(&mut self.queue);
        match m {
            Some(m) => {
                self.released = Ghost(self.released@.push(m));
                assert(self.released() + self.pending() =~= self.arrived()) by {
                    let old_p = old(self).pending();
                    assert(old_p =~= seq![m] + old_p.drop_first());
                }
                Release::Send(m)
            },
            None => match wait {
                Some(d) => Release::Wait(d),
                None => Release::Empty,
            },
        }
    }

    /// Whether no message waits.
    pub fn is_idle(&self) -> (r: bool)
        ensures
            r == (self.pending().len() == 0),
    {
        queue_is_empty(&self.queue)
    }
}

/// Messages leave the queue in the order they entered it: what has been
/// released is always the oldest part of what arrived. So of two messages, the
/// one that arrived first is never released after the other.
pub proof fn lemma_arrival_order(q: &Outgoing, i: int, j: int)
    requires
        q.wf(),
        0 <= i < j < q.arrived().len(),
        j < q.released().len(),
    ensures
        q.released().len() <= q.arrived().len(),
        q.released() == q.arrived().take(q.released().len() as int),
        q.released()[i] == q.arrived()[i],
        q.released()[j] == q.arrived()[j],
{
    assert(q.released() =~= q.arrived().take(q.released().len() as int));
}

} // verus!

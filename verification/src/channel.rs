//! The channel model: one logical FIFO queue seen through a duplicable send
//! capability and a single receive capability, under one of two capacity
//! policies fixed for the whole process.

use vstd::prelude::*;
use crate::container::BufferedReceiver;
use crate::container::ReceiveHandle;

verus! {

/// How many messages a bounded queue may buffer; one constant shared by every
/// actor when the bounded policy is active.
pub const BOUNDED_CHANNEL_CAPACITY: usize = 8;

/// The process-wide capacity policy: a bounded queue pushes back on senders
/// when full, an unbounded one never refuses a message for capacity reasons.
#[derive(Clone, Copy, Debug, PartialEq, Eq, Structural)]
pub enum ChannelPolicy {
    Bounded,
    Unbounded,
}

/// What one send attempt came to.
#[derive(Debug, PartialEq, Eq)]
pub enum SendAttempt<M> {
    /// The message was accepted at the back of the queue.
    Accepted,
    /// The queue is at capacity: the sender must wait, and keeps the message.
    Full(M),
    /// The receiving side is gone; the message comes back to the caller.
    Disconnected(M),
}

/// What one receive attempt came to.
#[derive(Debug, PartialEq, Eq)]
pub enum RecvAttempt<M> {
    /// The message that stood at the front of the queue.
    Received(M),
    /// Nothing buffered, but senders remain: more messages may still arrive.
    Empty,
    /// Nothing buffered and every sender is gone: end of stream.
    Disconnected,
}

/// Whether a queue in the given condition accepts one more message. Note that
/// this depends only on the policy, the liveness of the receiving side and the
/// buffered contents — never on how many sender clones exist.
pub open spec fn queue_accepts<M>(
    policy: ChannelPolicy,
    receiver_alive: bool,
    contents: Seq<M>,
) -> bool {
    receiver_alive && (policy is Unbounded || contents.len() < BOUNDED_CHANNEL_CAPACITY as int)
}

/// One logical queue with its whole condition in view: the buffered messages
/// in arrival order, the capacity policy, how many send capabilities are
/// outstanding, and whether the receive capability still exists.
pub struct MessageQueue<M> {
    pub buffer: Vec<M>,
    pub policy: ChannelPolicy,
    pub senders: usize,
    pub receiver_alive: bool,
}

impl<M> MessageQueue<M> {
    /// The buffered messages, front of the queue first.
    pub open spec fn contents(self) -> Seq<M> {
        self.buffer@
    }

    /// Whether this queue accepts one more message right now.
    pub open spec fn can_accept(self) -> bool {
        queue_accepts(self.policy, self.receiver_alive, self.contents())
    }

    /// The outcome `try_send` is bound to return for `m`.
    pub open spec fn send_result(self, m: M) -> SendAttempt<M> {
        if !self.receiver_alive {
            SendAttempt::Disconnected(m)
        } else if !self.can_accept() {
            SendAttempt::Full(m)
        } else {
            SendAttempt::Accepted
        }
    }

    /// The buffered messages after `try_send` of `m`: appended at the back
    /// when accepted, untouched otherwise.
    pub open spec fn contents_after_send(self, m: M) -> Seq<M> {
        if self.can_accept() {
            self.contents().push(m)
        } else {
            self.contents()
        }
    }

    /// A fresh queue under `policy`, with one send capability and a live
    /// receive capability and nothing buffered.
    pub fn new(policy: ChannelPolicy) -> (q: MessageQueue<M>)
        ensures
            q.contents() == Seq::<M>::empty(),
            q.policy == policy,
            q.senders == 1,
            q.receiver_alive,
    {
        MessageQueue { buffer: Vec::new(), policy, senders: 1, receiver_alive: true }
    }

    /// Attempt to enqueue `m`. A refused message — whether the queue is full
    /// or the receiver is gone — comes back to the caller unchanged.
    pub fn try_send(&mut self, m: M) -> (r: SendAttempt<M>)
        ensures
            r == old(self).send_result(m),
            final(self).contents() == old(self).contents_after_send(m),
            final(self).policy == old(self).policy,
            final(self).senders == old(self).senders,
            final(self).receiver_alive == old(self).receiver_alive,
    {
        if !self.receiver_alive {
            SendAttempt::Disconnected(m)
        } else if matches!(self.policy, ChannelPolicy::Bounded)
            && self.buffer.len() >= BOUNDED_CHANNEL_CAPACITY {
            SendAttempt::Full(m)
        } else {
            self.buffer.push(m);
            SendAttempt::Accepted
        }
    }

    /// Attempt to dequeue the next message: the front of the buffer in FIFO
    /// order; `Empty` while senders remain, `Disconnected` once the queue is
    /// permanently closed and drained. Buffered messages drain regardless of
    /// `receiver_alive`: that flag only governs sends, and live, a dropped
    /// receiver can no longer ask — the model keeps the state reachable so
    /// that laws may quantify over it.
    pub fn try_recv(&mut self) -> (r: RecvAttempt<M>)
        ensures
            old(self).contents().len() > 0 ==> {
                &&& r == RecvAttempt::Received(old(self).contents()[0])
                &&& final(self).contents() == old(self).contents().drop_first()
            },
            old(self).contents().len() == 0 && old(self).senders > 0 ==> {
                &&& r == RecvAttempt::<M>::Empty
                &&& final(self).contents() == old(self).contents()
            },
            old(self).contents().len() == 0 && old(self).senders == 0 ==> {
                &&& r == RecvAttempt::<M>::Disconnected
                &&& final(self).contents() == old(self).contents()
            },
            final(self).policy == old(self).policy,
            final(self).senders == old(self).senders,
            final(self).receiver_alive == old(self).receiver_alive,
    {
        if self.buffer.len() > 0 {
            let m = self.buffer.remove(0);
            proof {
                assert(self.buffer@ =~= old(self).buffer@.drop_first());
            }
            RecvAttempt::Received(m)
        } else if self.senders == 0 {
            RecvAttempt::Disconnected
        } else {
            RecvAttempt::Empty
        }
    }

    /// Duplicate a send capability: one more independent sender, nothing else
    /// about the queue changes.
    pub fn clone_sender(&mut self)
        requires
            old(self).senders < usize::MAX,
        ensures
            final(self).senders == old(self).senders + 1,
            final(self).contents() == old(self).contents(),
            final(self).policy == old(self).policy,
            final(self).receiver_alive == old(self).receiver_alive,
    {
        self.senders = self.senders + 1;
    }

    /// Drop one send capability. Once the count reaches zero the queue is
    /// permanently closed: buffered messages still drain, then `try_recv`
    /// reports end of stream.
    pub fn drop_sender(&mut self)
        requires
            old(self).senders > 0,
        ensures
            final(self).senders == old(self).senders - 1,
            final(self).contents() == old(self).contents(),
            final(self).policy == old(self).policy,
            final(self).receiver_alive == old(self).receiver_alive,
    {
        self.senders = self.senders - 1;
    }

    /// Drop the receive capability: every later send is refused with the
    /// message handed back.
    pub fn drop_receiver(&mut self)
        ensures
            !final(self).receiver_alive,
            final(self).contents() == old(self).contents(),
            final(self).policy == old(self).policy,
            final(self).senders == old(self).senders,
    {
        self.receiver_alive = false;
    }

    /// Once every sender is gone the queue is a closed stream: what remains
    /// buffered is exactly what the processing loop will still deliver, in
    /// order, before it observes end of stream.
    pub fn into_receiver(self) -> (r: BufferedReceiver<M>)
        requires
            self.senders == 0,
        ensures
            r.pending() == self.contents(),
    {
        BufferedReceiver::new(self.buffer)
    }
}

/// Clone equivalence: whether a message is accepted, the refusal it meets
/// otherwise, and the queue contents that result, depend only on the queue's
/// policy, receiver liveness and buffered contents — never on which sender
/// clone performs the send. Two queues that differ only in their number of
/// outstanding senders treat every message identically, so a message sent via
/// any clone of a handle has exactly the effect it would have via the
/// original.
pub proof fn lemma_clone_equivalence<M>(q1: MessageQueue<M>, q2: MessageQueue<M>, m: M)
    requires
        q1.policy == q2.policy,
        q1.receiver_alive == q2.receiver_alive,
        q1.contents() == q2.contents(),
    ensures
        q1.send_result(m) == q2.send_result(m),
        q1.contents_after_send(m) == q2.contents_after_send(m),
{
}

/// Gone-actor signaling: once the receiving side is gone, a send is refused,
/// the very message that was offered comes back unchanged, and the queue is
/// left untouched.
pub proof fn lemma_gone_actor_signaling<M>(q: MessageQueue<M>, m: M)
    requires
        !q.receiver_alive,
    ensures
        q.send_result(m) == SendAttempt::Disconnected(m),
        q.contents_after_send(m) == q.contents(),
{
}

/// Backpressure under the bounded policy: a bounded queue holding
/// `BOUNDED_CHANNEL_CAPACITY` messages refuses the next send — the sender
/// keeps its message and must wait — and the moment the processing loop
/// consumes one message, the same send is accepted.
pub proof fn lemma_bounded_backpressure<M>(q: MessageQueue<M>, m: M)
    requires
        q.policy is Bounded,
        q.receiver_alive,
        q.contents().len() == BOUNDED_CHANNEL_CAPACITY as int,
    ensures
        q.send_result(m) == SendAttempt::Full(m),
        q.contents_after_send(m) == q.contents(),
        queue_accepts(q.policy, q.receiver_alive, q.contents().drop_first()),
{
}

/// FIFO per sender: when one sender gets two messages accepted in turn, the
/// queue holds the first strictly in front of the second, and since delivery
/// always takes the front of the queue, the handler sees the first message
/// before the second.
pub proof fn lemma_fifo_per_sender<M>(q: MessageQueue<M>, m1: M, m2: M)
    requires
        q.can_accept(),
        queue_accepts(q.policy, q.receiver_alive, q.contents().push(m1)),
    ensures
        ({
            let after_both = q.contents().push(m1).push(m2);
            &&& after_both == q.contents() + seq![m1, m2]
            &&& after_both[q.contents().len() as int] == m1
            &&& after_both[q.contents().len() as int + 1] == m2
            &&& q.contents().len() < q.contents().len() + 1
        }),
{
    assert(q.contents().push(m1).push(m2) =~= q.contents() + seq![m1, m2]);
}

} // verus!

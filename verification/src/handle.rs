//! The live actor handles: cloneable sending endpoints over tokio's two queue
//! policies, and the dispatch loop that drains either queue into an actor.

use vstd::prelude::*;
use tokio::sync::mpsc::Receiver;
use tokio::sync::mpsc::Sender;
use tokio::sync::mpsc::UnboundedReceiver;
use tokio::sync::mpsc::UnboundedSender;
use crate::actor::Actor;
use crate::actor::fold_messages;
use crate::actor::lemma_fold_messages_push;
use crate::channel::RecvAttempt;
use crate::channel::SendAttempt;

verus! {

#[verifier::external_type_specification]
#[verifier::external_body]
#[verifier::reject_recursive_types(T)]
pub struct ExUnboundedSender<T>(UnboundedSender<T>);

#[verifier::external_type_specification]
#[verifier::external_body]
#[verifier::reject_recursive_types(T)]
pub struct ExUnboundedReceiver<T>(UnboundedReceiver<T>);

#[verifier::external_type_specification]
#[verifier::external_body]
#[verifier::reject_recursive_types(T)]
pub struct ExSender<T>(Sender<T>);

#[verifier::external_type_specification]
#[verifier::external_body]
#[verifier::reject_recursive_types(T)]
pub struct ExReceiver<T>(Receiver<T>);

/// A send that was refused because the receiving side — and with it the actor
/// — no longer exists; it hands the undelivered message back to the caller.
#[derive(Debug, PartialEq, Eq)]
pub struct SendError<M>(pub M);

/// Relies on tokio::sync::mpsc::unbounded_channel: the two linked endpoints
/// of one fresh, empty, unbounded queue.
#[verifier::external_body]
pub fn unbounded_pair<M>() -> (UnboundedSender<M>, UnboundedReceiver<M>) {
    tokio::sync::mpsc::unbounded_channel()
}

/// The largest capacity a bounded queue may be created with: tokio's
/// `Semaphore::MAX_PERMITS`, `usize::MAX >> 3`.
pub const MAX_BOUNDED_CAPACITY: usize = usize::MAX >> 3;

/// Relies on tokio::sync::mpsc::channel: the two linked endpoints of one
/// fresh, empty queue that buffers at most `capacity` messages. The callee
/// panics on a zero capacity and on one above `Semaphore::MAX_PERMITS`
/// (`usize::MAX >> 3`), so both inputs are excluded here.
#[verifier::external_body]
pub fn bounded_pair<M>(capacity: usize) -> (Sender<M>, Receiver<M>)
    requires
        0 < capacity <= MAX_BOUNDED_CAPACITY,
{
    tokio::sync::mpsc::channel(capacity)
}

/// Relies on tokio::sync::mpsc::UnboundedSender::send: it never waits, it
/// enqueues the message unless the receiving half is gone, and a refusal
/// carries the very value passed to it back in the error.
#[verifier::external_body]
fn send_unbounded<M>(sender: &UnboundedSender<M>, msg: M) -> (r: Result<(), SendError<M>>)
    ensures
        r matches Err(e) ==> e.0 == msg,
{
    match sender.send(msg) {
        Ok(()) => Ok(()),
        Err(tokio::sync::mpsc::error::SendError(m)) => Err(SendError(m)),
    }
}

/// Relies on tokio::sync::mpsc::Sender::try_send: it never waits, and either
/// refusal — the queue full, or the receiving half gone — carries the very
/// message passed to it back in the error.
#[verifier::external_body]
fn try_send_bounded<M>(sender: &Sender<M>, msg: M) -> (r: SendAttempt<M>)
    ensures
        r matches SendAttempt::Full(v) ==> v == msg,
        r matches SendAttempt::Disconnected(v) ==> v == msg,
{
    match sender.try_send(msg) {
        Ok(()) => SendAttempt::Accepted,
        Err(tokio::sync::mpsc::error::TrySendError::Full(m)) => SendAttempt::Full(m),
        Err(tokio::sync::mpsc::error::TrySendError::Closed(m)) => SendAttempt::Disconnected(m),
    }
}

/// Relies on Clone for tokio::sync::mpsc::UnboundedSender: an independent
/// sending endpoint into the same queue.
#[verifier::external_body]
fn clone_unbounded_sender<M>(sender: &UnboundedSender<M>) -> UnboundedSender<M> {
    sender.clone()
}

/// Relies on Clone for tokio::sync::mpsc::Sender: an independent sending
/// endpoint into the same queue.
#[verifier::external_body]
fn clone_bounded_sender<M>(sender: &Sender<M>) -> Sender<M> {
    sender.clone()
}

/// Relies on tokio::sync::mpsc::UnboundedReceiver::try_recv: the message at
/// the front of the queue, `Empty` while senders remain, `Disconnected` once
/// the queue is closed and drained. Which of these comes back depends on what
/// concurrent senders have done, so nothing more is claimed of the outcome.
#[verifier::external_body]
fn try_recv_unbounded<M>(receiver: &mut UnboundedReceiver<M>) -> RecvAttempt<M> {
    match receiver.try_recv() {
        Ok(m) => RecvAttempt::Received(m),
        Err(tokio::sync::mpsc::error::TryRecvError::Empty) => RecvAttempt::Empty,
        Err(tokio::sync::mpsc::error::TryRecvError::Disconnected) => RecvAttempt::Disconnected,
    }
}

/// Relies on tokio::sync::mpsc::Receiver::try_recv: the same three outcomes
/// as the unbounded form, and nothing more is claimed of them either.
#[verifier::external_body]
fn try_recv_bounded<M>(receiver: &mut Receiver<M>) -> RecvAttempt<M> {
    match receiver.try_recv() {
        Ok(m) => RecvAttempt::Received(m),
        Err(tokio::sync::mpsc::error::TryRecvError::Empty) => RecvAttempt::Empty,
        Err(tokio::sync::mpsc::error::TryRecvError::Disconnected) => RecvAttempt::Disconnected,
    }
}

/// The externally visible reference to a running actor under the unbounded
/// policy: it owns one sending endpoint of the actor's queue and nothing
/// else. Any number of clones may send concurrently; all feed the one queue
/// of the one actor.
#[verifier::reject_recursive_types(M)]
pub struct BasicActorHandle<M> {
    sender: UnboundedSender<M>,
}

impl<M> BasicActorHandle<M> {
    /// The sending endpoint this handle owns.
    pub closed spec fn spec_sender(self) -> UnboundedSender<M> {
        self.sender
    }

    /// Wrap a sending endpoint whose queue a processing loop is draining: the
    /// handle owns exactly the endpoint it is given.
    pub fn new(sender: UnboundedSender<M>) -> (r: BasicActorHandle<M>)
        ensures
            r.spec_sender() == sender,
    {
        BasicActorHandle { sender }
    }

    /// Enqueue `msg` for the actor. Never waits — the queue is unbounded —
    /// and when the actor is gone the refusal carries `msg` back unchanged.
    pub fn send(&self, msg: M) -> (r: Result<(), SendError<M>>)
        ensures
            r matches Err(e) ==> e.0 == msg,
    {
        send_unbounded(&self.sender, msg)
    }

    /// An independent, interchangeable handle to the same actor: messages
    /// sent through the clone reach the one queue the original feeds.
    pub fn duplicate(&self) -> BasicActorHandle<M> {
        BasicActorHandle { sender: clone_unbounded_sender(&self.sender) }
    }
}

impl<M> Clone for BasicActorHandle<M> {
    /// All clones are functionally interchangeable: each feeds the one queue.
    fn clone(&self) -> BasicActorHandle<M> {
        self.duplicate()
    }
}

/// The handle counterpart under the bounded policy. Its `try_send` reports
/// `Full` instead of waiting: that is exactly the condition on which the
/// awaiting send of the asynchronous layer suspends the sender.
#[verifier::reject_recursive_types(M)]
pub struct BoundedActorHandle<M> {
    sender: Sender<M>,
}

impl<M> BoundedActorHandle<M> {
    /// The sending endpoint this handle owns.
    pub closed spec fn spec_sender(self) -> Sender<M> {
        self.sender
    }

    /// Wrap a sending endpoint whose queue a processing loop is draining: the
    /// handle owns exactly the endpoint it is given.
    pub fn new(sender: Sender<M>) -> (r: BoundedActorHandle<M>)
        ensures
            r.spec_sender() == sender,
    {
        BoundedActorHandle { sender }
    }

    /// Offer `msg` to the actor's queue without waiting. Either refusal — the
    /// queue at capacity, or the actor gone — carries `msg` back unchanged.
    pub fn try_send(&self, msg: M) -> (r: SendAttempt<M>)
        ensures
            r matches SendAttempt::Full(v) ==> v == msg,
            r matches SendAttempt::Disconnected(v) ==> v == msg,
    {
        try_send_bounded(&self.sender, msg)
    }

    /// An independent, interchangeable handle to the same actor.
    pub fn duplicate(&self) -> BoundedActorHandle<M> {
        BoundedActorHandle { sender: clone_bounded_sender(&self.sender) }
    }
}

impl<M> Clone for BoundedActorHandle<M> {
    /// All clones are functionally interchangeable: each feeds the one queue.
    fn clone(&self) -> BoundedActorHandle<M> {
        self.duplicate()
    }
}

/// A non-waiting poll of a live queue's receiving endpoint, under either
/// policy. Which outcome comes back depends on what concurrent senders have
/// done, so no contract is attached; the dispatch loop states what holds of
/// whatever sequence is yielded.
pub trait PollReceive<M>: Sized {
    /// The front message, or `Empty` while senders remain, or `Disconnected`
    /// once the queue is closed and drained.
    fn poll_next(&mut self) -> RecvAttempt<M>;
}

impl<M> PollReceive<M> for UnboundedReceiver<M> {
    fn poll_next(&mut self) -> RecvAttempt<M> {
        try_recv_unbounded(self)
    }
}

impl<M> PollReceive<M> for Receiver<M> {
    fn poll_next(&mut self) -> RecvAttempt<M> {
        try_recv_bounded(self)
    }
}

/// Dispatch the messages already buffered in a live queue — at most
/// `max_msgs` of them — to the actor, one at a time, in the order the queue
/// yields them. Whatever sequence the queue turns out to hold, the actor ends
/// in the state reached by folding exactly that delivered sequence.
pub fn run_available<A: Actor, R: PollReceive<A::MessageType>>(
    actor: &mut A,
    receiver: &mut R,
    max_msgs: usize,
) -> (delivered: Ghost<Seq<A::MessageType>>)
    ensures
        *final(actor) == fold_messages(*old(actor), delivered@),
        delivered@.len() <= max_msgs,
{
    let ghost mut seen: Seq<A::MessageType> = Seq::empty();
    let mut taken: usize = 0;
    loop
        invariant
            taken <= max_msgs,
            seen.len() == taken,
            *actor == fold_messages(*old(actor), seen),
        ensures
            seen.len() <= max_msgs,
            *actor == fold_messages(*old(actor), seen),
        decreases max_msgs - taken,
    {
        if taken == max_msgs {
            break;
        }
        match receiver.poll_next() {
            RecvAttempt::Received(m) => {
                let ghost delivered_msg = m;
                proof {
                    lemma_fold_messages_push(*old(actor), seen, delivered_msg);
                }
                actor.handle_message(m);
                proof {
                    seen = seen.push(delivered_msg);
                }
                taken = taken + 1;
            },
            RecvAttempt::Empty => {
                break;
            },
            RecvAttempt::Disconnected => {
                break;
            },
        }
    }
    Ghost(seen)
}

} // verus!

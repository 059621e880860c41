//! The receive capability, and the container that pairs one actor with the
//! one receiving endpoint of its queue.

use vstd::prelude::*;
use crate::actor::Actor;

verus! {

/// The receive capability over a permanently closed queue: it yields the
/// pending messages one by one, front first, then reports end of stream.
/// At most one holder exists per queue, so it alone advances the read
/// position.
pub trait ReceiveHandle<M>: Sized {
    /// The messages still to be delivered, front of the queue first.
    spec fn pending(self) -> Seq<M>;

    /// The next message in FIFO order, or `None` at end of stream.
    fn recv(&mut self) -> (r: Option<M>)
        ensures
            match r {
                Some(m) => {
                    &&& old(self).pending().len() > 0
                    &&& m == old(self).pending()[0]
                    &&& final(self).pending() == old(self).pending().drop_first()
                },
                None => {
                    &&& old(self).pending().len() == 0
                    &&& final(self).pending() == old(self).pending()
                },
            },
    ;
}

/// A receive capability backed by the drained buffer of a closed queue: what
/// it holds is exactly what will still be delivered before end of stream.
pub struct BufferedReceiver<M> {
    pub queue: Vec<M>,
}

impl<M> BufferedReceiver<M> {
    /// Wrap the remaining buffer of a closed queue, front of the queue first.
    pub fn new(queue: Vec<M>) -> (r: BufferedReceiver<M>)
        ensures
            r.pending() == queue@,
    {
        BufferedReceiver { queue }
    }
}

impl<M> ReceiveHandle<M> for BufferedReceiver<M> {
    open spec fn pending(self) -> Seq<M> {
        self.queue@
    }

    fn recv(&mut self) -> (r: Option<M>)
        ensures
            match r {
                Some(m) => {
                    &&& old(self).pending().len() > 0
                    &&& m == old(self).pending()[0]
                    &&& final(self).pending() == old(self).pending().drop_first()
                },
                None => {
                    &&& old(self).pending().len() == 0
                    &&& final(self).pending() == old(self).pending()
                },
            },
    {
        if self.queue.len() > 0 {
            let m = self.queue.remove(0);
            proof {
                assert(self.queue@ =~= old(self).queue@.drop_first());
            }
            Some(m)
        } else {
            None
        }
    }
}

/// The pairing of one actor with the receive capability of its queue. The
/// processing loop is its sole user: nothing else may read or mutate the
/// actor through it.
pub trait ActorContainer: Sized {
    type ActorType: Actor;

    type Receiver: ReceiveHandle<<Self::ActorType as Actor>::MessageType>;

    /// The contained actor's state.
    spec fn actor_state(self) -> Self::ActorType;

    /// The messages still queued for the contained actor.
    spec fn queued(self) -> Seq<<Self::ActorType as Actor>::MessageType>;

    /// The receive capability, for the processing loop to draw from.
    fn receiver(&mut self) -> (r: &mut Self::Receiver)
        ensures
            (*r).pending() == old(self).queued(),
            final(self).queued() == final(r).pending(),
            final(self).actor_state() == old(self).actor_state(),
    ;

    /// The actor, for the processing loop to dispatch into.
    fn actor(&mut self) -> (a: &mut Self::ActorType)
        ensures
            *a == old(self).actor_state(),
            final(self).actor_state() == *final(a),
            final(self).queued() == old(self).queued(),
    ;
}

/// The one concrete container: owns exactly one actor and one receive
/// capability, 1:1 and exclusively.
pub struct BasicActorContainer<A: Actor, R: ReceiveHandle<A::MessageType>> {
    receiver: R,
    actor: A,
}

impl<A: Actor, R: ReceiveHandle<A::MessageType>> BasicActorContainer<A, R> {
    /// Bind one actor value to one receive capability.
    pub fn new(actor: A, receiver: R) -> (c: BasicActorContainer<A, R>)
        ensures
            c.actor_state() == actor,
            c.queued() == receiver.pending(),
    {
        BasicActorContainer { receiver, actor }
    }
}

impl<A: Actor + Default, R: ReceiveHandle<A::MessageType>> BasicActorContainer<A, R> {
    /// Bind a default-constructed actor to one receive capability: the core of
    /// the default-construction spawn entry point. The contained actor starts
    /// in exactly a state that `A::default()` is specified to return, so for an
    /// actor type whose `default` pins one value, spawning this way is
    /// indistinguishable from spawning explicitly with that value.
    pub fn new_default(receiver: R) -> (c: BasicActorContainer<A, R>)
        ensures
            call_ensures(<A as core::default::Default>::default, (), c.actor_state()),
            c.queued() == receiver.pending(),
    {
        BasicActorContainer::new(A::default(), receiver)
    }
}

impl<A: Actor, R: ReceiveHandle<A::MessageType>> ActorContainer for BasicActorContainer<A, R> {
    type ActorType = A;

    type Receiver = R;

    closed spec fn actor_state(self) -> A {
        self.actor
    }

    closed spec fn queued(self) -> Seq<A::MessageType> {
        self.receiver.pending()
    }

    fn receiver(&mut self) -> (r: &mut R)
        ensures
            (*r).pending() == old(self).queued(),
            final(self).queued() == final(r).pending(),
            final(self).actor_state() == old(self).actor_state(),
    {
        &mut self.receiver
    }

    fn actor(&mut self) -> (a: &mut A)
        ensures
            *a == old(self).actor_state(),
            final(self).actor_state() == *final(a),
            final(self).queued() == old(self).queued(),
    {
        &mut self.actor
    }
}

} // verus!

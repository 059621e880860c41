//! The actor contract: a message type, an owned state, and a synchronous
//! handler that is the only code ever allowed to mutate that state.

use vstd::prelude::*;

verus! {

/// Marker for values that may travel from a sender into an actor's queue.
/// Ownership of a message transfers fully on each send, so any sized value
/// qualifies.
pub trait ActorMessage: Sized {}

impl<T: Sized> ActorMessage for T {}

/// An actor: private state plus a handler invoked once per delivered message.
///
/// `next_state` is the mathematical meaning of one handler invocation; the
/// executable `handle_message` must realise exactly that transition, so a run
/// of the processing loop is the left fold of `next_state` over the delivered
/// messages (see `fold_messages`).
pub trait Actor: Sized {
    type MessageType: ActorMessage;

    /// The state this actor moves to when it handles `msg` in state `self`.
    spec fn next_state(self, msg: Self::MessageType) -> Self;

    /// Handle one message, mutating the state in place.
    fn handle_message(&mut self, msg: Self::MessageType)
        ensures
            *final(self) == (*old(self)).next_state(msg),
    ;
}

/// The state an actor reaches after handling `msgs` in order, starting from
/// `init`: the left fold of `Actor::next_state` over the delivery sequence.
pub open spec fn fold_messages<A: Actor>(init: A, msgs: Seq<A::MessageType>) -> A
    decreases msgs.len(),
{
    if msgs.len() == 0 {
        init
    } else {
        fold_messages(init.next_state(msgs[0]), msgs.drop_first())
    }
}

/// Folding one more message is one more handler step: delivering `m` after
/// `msgs` leaves the actor in the state reached by folding `msgs` and then
/// handling `m`.
pub proof fn lemma_fold_messages_push<A: Actor>(
    init: A,
    msgs: Seq<A::MessageType>,
    m: A::MessageType,
)
    ensures
        fold_messages(init, msgs.push(m)) == fold_messages(init, msgs).next_state(m),
    decreases msgs.len(),
{
    if msgs.len() == 0 {
        assert(msgs.push(m)[0] == m);
        assert(msgs.push(m).drop_first() =~= Seq::<A::MessageType>::empty());
        assert(fold_messages(init, msgs.push(m)) == init.next_state(m)) by {
            reveal_with_fuel(fold_messages, 2);
        }
    } else {
        assert(msgs.push(m)[0] == msgs[0]);
        assert(msgs.push(m).drop_first() =~= msgs.drop_first().push(m));
        lemma_fold_messages_push(init.next_state(msgs[0]), msgs.drop_first(), m);
    }
}

/// A run over concatenated deliveries factors: folding `a + b` is folding `a`
/// and then folding `b` from the state so reached.
pub proof fn lemma_fold_messages_append<A: Actor>(
    init: A,
    a: Seq<A::MessageType>,
    b: Seq<A::MessageType>,
)
    ensures
        fold_messages(init, a + b) == fold_messages(fold_messages(init, a), b),
    decreases a.len(),
{
    if a.len() == 0 {
        assert(a + b =~= b);
    } else {
        assert((a + b)[0] == a[0]);
        assert((a + b).drop_first() =~= a.drop_first() + b);
        lemma_fold_messages_append(init.next_state(a[0]), a.drop_first(), b);
    }
}

/// A small concrete actor: counts its messages (saturating) and remembers the
/// first and the most recent one, which makes delivery order observable.
#[derive(Clone, Copy, Debug, PartialEq, Eq)]
pub struct CounterActor {
    pub count: u64,
    pub first: Option<u64>,
    pub last: Option<u64>,
}

impl Actor for CounterActor {
    type MessageType = u64;

    open spec fn next_state(self, msg: u64) -> CounterActor {
        CounterActor {
            count: if self.count == u64::MAX {
                u64::MAX
            } else {
                (self.count + 1) as u64
            },
            first: if self.first is Some {
                self.first
            } else {
                Some(msg)
            },
            last: Some(msg),
        }
    }

    fn handle_message(&mut self, msg: u64)
        ensures
            *final(self) == (*old(self)).next_state(msg),
    {
        if self.count < u64::MAX {
            self.count = self.count + 1;
        }
        if self.first.is_none() {
            self.first = Some(msg);
        }
        self.last = Some(msg);
    }
}

impl core::default::Default for CounterActor {
    /// The default counter has seen no message at all.
    fn default() -> (r: CounterActor)
        ensures
            r == (CounterActor { count: 0, first: None, last: None }),
    {
        CounterActor { count: 0, first: None, last: None }
    }
}

/// Default-construction parity for the counter actor: its default construction
/// pins one value, so an actor spawned via the default-construct entry point
/// starts in — and, folding any delivered messages, stays observably identical
/// to — exactly the state of one spawned explicitly with
/// `CounterActor::default()`.
pub proof fn lemma_counter_default_parity(c: CounterActor, msgs: Seq<u64>)
    requires
        call_ensures(<CounterActor as core::default::Default>::default, (), c),
    ensures
        c == (CounterActor { count: 0, first: None, last: None }),
        fold_messages(c, msgs) == fold_messages(
            CounterActor { count: 0, first: None, last: None },
            msgs,
        ),
{
}

} // verus!

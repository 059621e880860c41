//! The processing loop: the one task that drains an actor's queue and
//! dispatches every message to the handler, strictly one at a time.

use vstd::prelude::*;
use crate::actor::Actor;
use crate::actor::fold_messages;
use crate::actor::lemma_fold_messages_append;
use crate::actor::lemma_fold_messages_push;
use crate::container::ActorContainer;
use crate::container::ReceiveHandle;

verus! {

/// Run the processing loop to completion: repeatedly take the next queued
/// message and dispatch it to the actor's handler, until end of stream.
///
/// Sequential mutation: every queued message causes exactly one handler
/// invocation, each completing before the next begins, so the final actor
/// state is the left fold of the handler's transition over the messages in
/// delivery order — and the queue ends empty.
pub fn run_actor<C: ActorContainer>(container: &mut C)
    ensures
        final(container).actor_state() == fold_messages(
            old(container).actor_state(),
            old(container).queued(),
        ),
        final(container).queued().len() == 0,
{
    let ghost complete_fold = fold_messages(container.actor_state(), container.queued());
    loop
        invariant
            fold_messages(container.actor_state(), container.queued()) == complete_fold,
        ensures
            container.queued().len() == 0,
            fold_messages(container.actor_state(), container.queued()) == complete_fold,
        decreases container.queued().len(),
    {
        let next = container.receiver().recv();
        match next {
            Some(msg) => {
                container.actor().handle_message(msg);
            },
            None => {
                break;
            },
        }
    }
}

/// FIFO per sender, through the processing loop: when one sender has `m1` and
/// then `m2` accepted with nothing of its own or of others interleaved
/// between the two — an arbitrary already-accepted prefix before them, and
/// arbitrary later messages after them — the loop's run factors into: fold
/// the prefix, then handle `m1`, then handle `m2`, then the rest. The handler
/// is thus invoked with `m1` strictly before `m2`.
pub proof fn lemma_fifo_delivery_order<A: Actor>(
    init: A,
    prefix: Seq<A::MessageType>,
    m1: A::MessageType,
    m2: A::MessageType,
    rest: Seq<A::MessageType>,
)
    ensures
        fold_messages(init, prefix.push(m1).push(m2) + rest) == fold_messages(
            fold_messages(init, prefix).next_state(m1).next_state(m2),
            rest,
        ),
{
    lemma_fold_messages_append(init, prefix.push(m1).push(m2), rest);
    lemma_fold_messages_push(init, prefix.push(m1), m2);
    lemma_fold_messages_push(init, prefix, m1);
}

/// FIFO per sender in full generality: one sender's `m1` and `m2`, accepted
/// in that order, may have an arbitrary segment `mid` of other senders'
/// messages accepted between them — the queue's arbitration, not the
/// application, decides that interleaving. Whatever that segment is, the
/// loop's run factors into: fold the prefix, handle `m1`, fold the
/// interleaved segment, handle `m2`, fold the rest. The handler is thus
/// invoked with `m1` strictly before `m2`.
pub proof fn lemma_fifo_per_sender_delivery<A: Actor>(
    init: A,
    prefix: Seq<A::MessageType>,
    m1: A::MessageType,
    mid: Seq<A::MessageType>,
    m2: A::MessageType,
    rest: Seq<A::MessageType>,
)
    ensures
        fold_messages(init, prefix.push(m1) + mid.push(m2) + rest) == fold_messages(
            fold_messages(fold_messages(init, prefix).next_state(m1), mid).next_state(m2),
            rest,
        ),
{
    lemma_fold_messages_append(init, prefix.push(m1) + mid.push(m2), rest);
    lemma_fold_messages_append(init, prefix.push(m1), mid.push(m2));
    lemma_fold_messages_push(init, prefix, m1);
    lemma_fold_messages_push(fold_messages(init, prefix).next_state(m1), mid, m2);
}

} // verus!

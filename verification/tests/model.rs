use actor_runtime::Actor;
use actor_runtime::ActorContainer;
use actor_runtime::BasicActorContainer;
use actor_runtime::BufferedReceiver;
use actor_runtime::ChannelPolicy;
use actor_runtime::CounterActor;
use actor_runtime::MessageQueue;
use actor_runtime::ReceiveHandle;
use actor_runtime::RecvAttempt;
use actor_runtime::SendAttempt;
use actor_runtime::BOUNDED_CHANNEL_CAPACITY;
use actor_runtime::run_actor;

#[test]
fn sequential_mutation_folds_all_messages() {
    // Three handle clones feed one queue; every accepted message causes
    // exactly one handler invocation, in delivery order.
    let mut q: MessageQueue<u64> = MessageQueue::new(ChannelPolicy::Unbounded);
    q.clone_sender();
    q.clone_sender();
    assert_eq!(q.try_send(10), SendAttempt::Accepted);
    assert_eq!(q.try_send(20), SendAttempt::Accepted);
    assert_eq!(q.try_send(30), SendAttempt::Accepted);
    assert_eq!(q.try_send(40), SendAttempt::Accepted);
    assert_eq!(q.try_send(50), SendAttempt::Accepted);
    q.drop_sender();
    q.drop_sender();
    q.drop_sender();
    let receiver = q.into_receiver();
    let mut container = BasicActorContainer::new(CounterActor::default(), receiver);
    run_actor(&mut container);
    let actor = container.actor();
    assert_eq!(actor.count, 5);
    assert_eq!(actor.first, Some(10));
    assert_eq!(actor.last, Some(50));
}

#[test]
fn clone_equivalence() {
    // The same messages, sent once through a queue with one sender and once
    // through a queue with several clones, have identical effects.
    let mut q1: MessageQueue<u64> = MessageQueue::new(ChannelPolicy::Unbounded);
    let mut q2: MessageQueue<u64> = MessageQueue::new(ChannelPolicy::Unbounded);
    q2.clone_sender();
    q2.clone_sender();
    for m in [3u64, 1, 4, 1, 5] {
        assert_eq!(q1.try_send(m), SendAttempt::Accepted);
        assert_eq!(q2.try_send(m), SendAttempt::Accepted);
    }
    q1.drop_sender();
    q2.drop_sender();
    q2.drop_sender();
    q2.drop_sender();
    let mut c1 = BasicActorContainer::new(CounterActor::default(), q1.into_receiver());
    let mut c2 = BasicActorContainer::new(CounterActor::default(), q2.into_receiver());
    run_actor(&mut c1);
    run_actor(&mut c2);
    assert_eq!(*c1.actor(), *c2.actor());
}

#[test]
fn gone_actor_send_returns_message() {
    let mut q: MessageQueue<u64> = MessageQueue::new(ChannelPolicy::Unbounded);
    assert_eq!(q.try_send(1), SendAttempt::Accepted);
    q.drop_receiver();
    // The refusal hands back exactly the message that was offered, and the
    // queue is left as it was.
    assert_eq!(q.try_send(42), SendAttempt::Disconnected(42));
    assert_eq!(q.try_recv(), RecvAttempt::Received(1));
    assert_eq!(q.try_recv(), RecvAttempt::Empty);
}

#[test]
fn default_construction_parity() {
    let msgs = vec![7u64, 8, 9];
    let mut c_default: BasicActorContainer<CounterActor, BufferedReceiver<u64>> =
        BasicActorContainer::new_default(BufferedReceiver::new(msgs.clone()));
    let mut c_explicit =
        BasicActorContainer::new(CounterActor::default(), BufferedReceiver::new(msgs));
    run_actor(&mut c_default);
    run_actor(&mut c_explicit);
    assert_eq!(*c_default.actor(), *c_explicit.actor());
}

#[test]
fn bounded_backpressure() {
    assert_eq!(BOUNDED_CHANNEL_CAPACITY, 8);
    let mut q: MessageQueue<u64> = MessageQueue::new(ChannelPolicy::Bounded);
    for m in 0..BOUNDED_CHANNEL_CAPACITY as u64 {
        assert_eq!(q.try_send(m), SendAttempt::Accepted);
    }
    // The (C+1)-th send is refused while the queue is full: the sender keeps
    // its message and must wait.
    assert_eq!(q.try_send(99), SendAttempt::Full(99));
    // As soon as the processing loop consumes one message, it is accepted.
    assert_eq!(q.try_recv(), RecvAttempt::Received(0));
    assert_eq!(q.try_send(99), SendAttempt::Accepted);
}

#[test]
fn unbounded_never_refuses_for_capacity() {
    let mut q: MessageQueue<u64> = MessageQueue::new(ChannelPolicy::Unbounded);
    for m in 0..(BOUNDED_CHANNEL_CAPACITY as u64) * 4 {
        assert_eq!(q.try_send(m), SendAttempt::Accepted);
    }
}

#[test]
fn fifo_per_sender() {
    let mut q: MessageQueue<u64> = MessageQueue::new(ChannelPolicy::Unbounded);
    assert_eq!(q.try_send(10), SendAttempt::Accepted);
    assert_eq!(q.try_send(20), SendAttempt::Accepted);
    assert_eq!(q.try_recv(), RecvAttempt::Received(10));
    assert_eq!(q.try_recv(), RecvAttempt::Received(20));
    assert_eq!(q.try_recv(), RecvAttempt::Empty);
}

#[test]
fn end_of_stream_only_after_drain() {
    let mut q: MessageQueue<u64> = MessageQueue::new(ChannelPolicy::Unbounded);
    assert_eq!(q.try_send(7), SendAttempt::Accepted);
    q.drop_sender();
    // Buffered messages still drain after the last sender is gone; only then
    // does the receiver observe end of stream.
    assert_eq!(q.try_recv(), RecvAttempt::Received(7));
    assert_eq!(q.try_recv(), RecvAttempt::Disconnected);
}

#[test]
fn empty_run_leaves_actor_unchanged() {
    let mut container =
        BasicActorContainer::new(CounterActor::default(), BufferedReceiver::new(Vec::new()));
    run_actor(&mut container);
    let actor = container.actor();
    assert_eq!(actor.count, 0);
    assert_eq!(actor.first, None);
    assert_eq!(actor.last, None);
}

#[test]
fn buffered_receiver_yields_in_order_then_ends() {
    let mut r = BufferedReceiver::new(vec![1u64, 2, 3]);
    assert_eq!(r.recv(), Some(1));
    assert_eq!(r.recv(), Some(2));
    assert_eq!(r.recv(), Some(3));
    assert_eq!(r.recv(), None);
    assert_eq!(r.recv(), None);
}

#[test]
fn counter_actor_handles_one_message() {
    let mut a = CounterActor::default();
    a.handle_message(11);
    assert_eq!(a.count, 1);
    assert_eq!(a.first, Some(11));
    assert_eq!(a.last, Some(11));
    a.handle_message(12);
    assert_eq!(a.count, 2);
    assert_eq!(a.first, Some(11));
    assert_eq!(a.last, Some(12));
}

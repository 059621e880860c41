use actor_runtime::BasicActorHandle;
use actor_runtime::BoundedActorHandle;
use actor_runtime::CounterActor;
use actor_runtime::SendAttempt;
use actor_runtime::SendError;
use actor_runtime::BOUNDED_CHANNEL_CAPACITY;
use actor_runtime::bounded_pair;
use actor_runtime::run_available;
use actor_runtime::unbounded_pair;

#[test]
fn live_sends_reach_one_actor_in_order() {
    let (tx, mut rx) = unbounded_pair::<u64>();
    let handle = BasicActorHandle::new(tx);
    assert_eq!(handle.send(1), Ok(()));
    let clone_a = handle.clone();
    assert_eq!(clone_a.send(2), Ok(()));
    let clone_b = handle.duplicate();
    assert_eq!(clone_b.send(3), Ok(()));
    let mut actor = CounterActor::default();
    let _ = run_available(&mut actor, &mut rx, 10);
    assert_eq!(actor.count, 3);
    assert_eq!(actor.first, Some(1));
    assert_eq!(actor.last, Some(3));
}

#[test]
fn live_gone_actor_returns_message_unchanged() {
    let (tx, rx) = unbounded_pair::<u64>();
    let handle = BasicActorHandle::new(tx);
    drop(rx);
    assert_eq!(handle.send(9), Err(SendError(9)));
    let retained = handle.clone();
    assert_eq!(retained.send(11), Err(SendError(11)));
}

#[test]
fn live_bounded_backpressure() {
    let (tx, mut rx) = bounded_pair::<u64>(BOUNDED_CHANNEL_CAPACITY);
    let handle = BoundedActorHandle::new(tx);
    for m in 0..BOUNDED_CHANNEL_CAPACITY as u64 {
        assert_eq!(handle.try_send(m), SendAttempt::Accepted);
    }
    // The full queue refuses the next message and hands it back: the signal
    // on which an awaiting send suspends its caller.
    assert_eq!(handle.try_send(99), SendAttempt::Full(99));
    let mut actor = CounterActor::default();
    let _ = run_available(&mut actor, &mut rx, 1);
    assert_eq!(actor.count, 1);
    assert_eq!(handle.try_send(99), SendAttempt::Accepted);
}

#[test]
fn live_bounded_sends_reach_one_actor_in_order() {
    let (tx, mut rx) = bounded_pair::<u64>(BOUNDED_CHANNEL_CAPACITY);
    let handle = BoundedActorHandle::new(tx);
    assert_eq!(handle.try_send(1), SendAttempt::Accepted);
    let clone_a = handle.clone();
    assert_eq!(clone_a.try_send(2), SendAttempt::Accepted);
    let clone_b = handle.duplicate();
    assert_eq!(clone_b.try_send(3), SendAttempt::Accepted);
    let mut actor = CounterActor::default();
    let _ = run_available(&mut actor, &mut rx, 10);
    assert_eq!(actor.count, 3);
    assert_eq!(actor.first, Some(1));
    assert_eq!(actor.last, Some(3));
}

#[test]
fn live_bounded_gone_actor_returns_message_unchanged() {
    let (tx, rx) = bounded_pair::<u64>(BOUNDED_CHANNEL_CAPACITY);
    let handle = BoundedActorHandle::new(tx);
    drop(rx);
    assert_eq!(handle.try_send(7), SendAttempt::Disconnected(7));
}

#[test]
fn live_dispatch_respects_budget() {
    let (tx, mut rx) = unbounded_pair::<u64>();
    let handle = BasicActorHandle::new(tx);
    for m in [5u64, 6, 7] {
        assert_eq!(handle.send(m), Ok(()));
    }
    let mut actor = CounterActor::default();
    let _ = run_available(&mut actor, &mut rx, 2);
    assert_eq!(actor.count, 2);
    assert_eq!(actor.last, Some(6));
    let _ = run_available(&mut actor, &mut rx, 10);
    assert_eq!(actor.count, 3);
    assert_eq!(actor.last, Some(7));
}

use consumer_pool::tick::{RebalanceTick, TickAction, TickEvent, TickPhase, TickResult};

#[test]
fn tick_with_lock_rebalances_then_releases() {
    let mut tick = RebalanceTick::new();
    assert_eq!(tick.step(TickEvent::Start), TickAction::AcquireLock);
    assert_eq!(tick.step(TickEvent::LockReply(Some(true))), TickAction::Rebalance);
    assert_eq!(tick.step(TickEvent::RebalanceDone { ok: true }), TickAction::ReleaseLock);
    assert!(!tick.is_finished());
    assert_eq!(
        tick.step(TickEvent::LockReleased { ok: true }),
        TickAction::Stop { result: TickResult::Rebalanced }
    );
    assert!(tick.is_finished());
}

#[test]
fn lock_is_released_even_when_rebalance_fails() {
    let mut tick = RebalanceTick::new();
    tick.step(TickEvent::Start);
    tick.step(TickEvent::LockReply(Some(true)));
    assert_eq!(tick.step(TickEvent::RebalanceDone { ok: false }), TickAction::ReleaseLock);
    assert_eq!(
        tick.step(TickEvent::LockReleased { ok: false }),
        TickAction::Stop { result: TickResult::RebalanceFailed }
    );
}

#[test]
fn second_rebalancer_does_not_get_the_lock() {
    let mut first = RebalanceTick::new();
    let mut second = RebalanceTick::new();
    first.step(TickEvent::Start);
    second.step(TickEvent::Start);
    assert_eq!(first.step(TickEvent::LockReply(Some(true))), TickAction::Rebalance);
    assert_eq!(
        second.step(TickEvent::LockReply(Some(false))),
        TickAction::Stop { result: TickResult::LockNotAcquired }
    );
    assert_eq!(second.phase, TickPhase::Finished { result: TickResult::LockNotAcquired });
}

#[test]
fn failed_lock_call_is_an_error_not_a_miss() {
    let mut tick = RebalanceTick::new();
    tick.step(TickEvent::Start);
    assert_eq!(
        tick.step(TickEvent::LockReply(None)),
        TickAction::Stop { result: TickResult::LockFailed }
    );
    assert_eq!(tick.phase, TickPhase::Finished { result: TickResult::LockFailed });
}

#[test]
fn out_of_order_events_are_ignored() {
    let mut tick = RebalanceTick::new();
    assert_eq!(tick.step(TickEvent::RebalanceDone { ok: true }), TickAction::Ignore);
    assert_eq!(tick.phase, TickPhase::Idle);
    tick.step(TickEvent::Start);
    tick.step(TickEvent::LockReply(Some(true)));
    assert_eq!(tick.step(TickEvent::Start), TickAction::Ignore);
    assert_eq!(tick.phase, TickPhase::Rebalancing);
}

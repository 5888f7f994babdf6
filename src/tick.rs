//! One rebalance tick as a state machine: take the lock, rebalance, give the
//! lock back. The process performs each action and reports what came of it.
use vstd::prelude::*;

verus! {

/// Where a tick stands.
#[derive(Debug, Clone, Copy, PartialEq, Eq, Structural)]
pub enum TickPhase {
    Idle,
    AwaitingLock,
    Rebalancing,
    Releasing { rebalance_ok: bool },
    Finished { result: TickResult },
}

/// How a tick ended.
#[derive(Debug, Clone, Copy, PartialEq, Eq, Structural)]
pub enum TickResult {
    /// Another process held the lock: nothing done, silently.
    LockNotAcquired,
    /// The lock call itself failed: nothing done, and the tick reports an error.
    LockFailed,
    /// The lock was taken, the rebalance ran to its end, the lock was given back.
    Rebalanced,
    /// The lock was taken and given back, but the rebalance reported an error.
    RebalanceFailed,
}

/// What the process reports to the tick.
#[derive(Debug, Clone, Copy, PartialEq, Eq, Structural)]
pub enum TickEvent {
    /// The schedule fired.
    Start,
    /// Answer to the conditional set of the lock key: whether the key was
    /// newly set, or `None` when the call failed.
    LockReply(Option<bool>),
    /// The rebalance finished, without error or with one.
    RebalanceDone { ok: bool },
    /// The lock key was deleted, or the delete failed (the TTL then frees it).
    LockReleased { ok: bool },
}

/// What the tick asks the process to do next.
#[derive(Debug, Clone, Copy, PartialEq, Eq, Structural)]
pub enum TickAction {
    AcquireLock,
    Rebalance,
    ReleaseLock,
    Stop { result: TickResult },
    /// The event does not apply to the current phase: nothing to do.
    Ignore,
}

/// Whether the tick holds the rebalance lock in this phase.
pub open spec fn holds_lock(p: TickPhase) -> bool {
    p is Rebalancing || p is Releasing
}

/// The transition of a tick: next phase and action.
pub open spec fn tick_next(p: TickPhase, e: TickEvent) -> (TickPhase, TickAction) {
    match (p, e) {
        (TickPhase::Idle, TickEvent::Start) => (TickPhase::AwaitingLock, TickAction::AcquireLock),
        (TickPhase::AwaitingLock, TickEvent::LockReply(reply)) => {
            match reply {
                Some(true) => (TickPhase::Rebalancing, TickAction::Rebalance),
                Some(false) => (
                    TickPhase::Finished { result: TickResult::LockNotAcquired },
                    TickAction::Stop { result: TickResult::LockNotAcquired },
                ),
                None => (
                    TickPhase::Finished { result: TickResult::LockFailed },
                    TickAction::Stop { result: TickResult::LockFailed },
                ),
            }
        },
        (TickPhase::Rebalancing, TickEvent::RebalanceDone { ok }) => (
            TickPhase::Releasing { rebalance_ok: ok },
            TickAction::ReleaseLock,
        ),
        (TickPhase::Releasing { rebalance_ok }, TickEvent::LockReleased { .. }) => {
            let result = if rebalance_ok {
                TickResult::Rebalanced
            } else {
                TickResult::RebalanceFailed
            };
            (TickPhase::Finished { result }, TickAction::Stop { result })
        },
        (p, _) => (p, TickAction::Ignore),
    }
}

/// A rebalance tick.
pub struct RebalanceTick {
    pub phase: TickPhase,
}

impl RebalanceTick {
    /// A tick that has not started.
    pub fn new() -> (r: Self)
        ensures
            r.phase is Idle,
    {
        RebalanceTick { phase: TickPhase::Idle }
    }

    /// Feeds one event to the tick and returns the action to perform.
    pub fn step(&mut self, event: TickEvent) -> (r: TickAction)
        ensures
            (final(self).phase, r) == tick_next(old(self).phase, event),
    {
        let (next, action) = match (&self.phase, event) {
            (TickPhase::Idle, TickEvent::Start) => (TickPhase::AwaitingLock, TickAction::AcquireLock),
            (TickPhase::AwaitingLock, TickEvent::LockReply(reply)) => {
                match reply {
                    Some(true) => (TickPhase::Rebalancing, TickAction::Rebalance),
                    Some(false) => (
                        TickPhase::Finished { result: TickResult::LockNotAcquired },
                        TickAction::Stop { result: TickResult::LockNotAcquired },
                    ),
                    None => (
                        TickPhase::Finished { result: TickResult::LockFailed },
                        TickAction::Stop { result: TickResult::LockFailed },
                    ),
                }
            },
            (TickPhase::Rebalancing, TickEvent::RebalanceDone { ok }) => (
                TickPhase::Releasing { rebalance_ok: ok },
                TickAction::ReleaseLock,
            ),
            (TickPhase::Releasing { rebalance_ok }, TickEvent::LockReleased { .. }) => {
                if *rebalance_ok {
                    (
                        TickPhase::Finished { result: TickResult::Rebalanced },
                        TickAction::Stop { result: TickResult::Rebalanced },
                    )
                } else {
                    (
                        TickPhase::Finished { result: TickResult::RebalanceFailed },
                        TickAction::Stop { result: TickResult::RebalanceFailed },
                    )
                }
            },
            (TickPhase::Idle, _) => (TickPhase::Idle, TickAction::Ignore),
            (TickPhase::AwaitingLock, _) => (TickPhase::AwaitingLock, TickAction::Ignore),
            (TickPhase::Rebalancing, _) => (TickPhase::Rebalancing, TickAction::Ignore),
            (TickPhase::Releasing { rebalance_ok }, _) => (
                TickPhase::Releasing { rebalance_ok: *rebalance_ok },
                TickAction::Ignore,
            ),
            (TickPhase::Finished { result }, _) => (
                TickPhase::Finished { result: *result },
                TickAction::Ignore,
            ),
        };
        self.phase = next;
        action
    }

    /// Whether the tick has ended.
    pub fn is_finished(&self) -> (r: bool)
        ensures
            r == self.phase is Finished,
    {
        match self.phase {
            TickPhase::Finished { .. } => true,
            _ => false,
        }
    }
}

/// The rebalance runs only right after the broker granted the lock: no
/// other phase and no other event leads to it.
pub proof fn lemma_rebalance_only_under_lock(p: TickPhase, e: TickEvent)
    ensures
        tick_next(p, e).1 is Rebalance ==> p is AwaitingLock && e == TickEvent::LockReply(Some(true)),
        tick_next(p, e).1 is Rebalance ==> holds_lock(tick_next(p, e).0),
{
}

/// A tick that holds the lock keeps it until it asks for its release, and it
/// asks for that as soon as the rebalance ends, whether the rebalance failed
/// or not.
pub proof fn lemma_lock_released_after_rebalance(p: TickPhase, e: TickEvent)
    ensures
        p is Rebalancing && e is RebalanceDone ==> tick_next(p, e).1 is ReleaseLock,
        holds_lock(p) && !holds_lock(tick_next(p, e).0) ==> p is Releasing && e is LockReleased,
        p is Rebalancing ==> holds_lock(tick_next(p, e).0),
{
}

/// A tick that did not get the lock stops without touching any consumer:
/// silently when another process holds it, with an error when the lock call
/// itself failed.
pub proof fn lemma_lock_miss_stops()
    ensures
        tick_next(TickPhase::AwaitingLock, TickEvent::LockReply(Some(false))) == (
            TickPhase::Finished { result: TickResult::LockNotAcquired },
            TickAction::Stop { result: TickResult::LockNotAcquired },
        ),
        tick_next(TickPhase::AwaitingLock, TickEvent::LockReply(None)) == (
            TickPhase::Finished { result: TickResult::LockFailed },
            TickAction::Stop { result: TickResult::LockFailed },
        ),
{
}

} // verus!

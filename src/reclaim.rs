//! The handling of one dead consumer within a tick, as a state machine:
//! fetch its pending ids, claim them chunk by chunk for the live consumers of
//! its group (one by one when a chunk claim fails), and drop its heartbeat
//! last. The process performs each action and reports what came of it.
use crate::constants::PENDING_FETCH_LIMIT;
use crate::rebalance::{
    chunk_count, claim_outcome, claim_plan, individual_claims, planned_batch, round_robin_target, ClaimBatch,
    ClaimOutcome, SingleClaim,
};
use vstd::prelude::*;

verus! {

/// Where the handling of a dead consumer stands.
#[derive(Debug, Clone, Copy, PartialEq, Eq, Structural)]
pub enum RunPhase {
    Start,
    AwaitingPending,
    /// Waiting for the answer to the claim of chunk `index`.
    Claiming { index: usize },
    /// Waiting for the one-by-one claims of the ids of chunk `index`.
    ClaimingSingles { index: usize },
    Dropping,
    /// Done; `dropped` tells whether the heartbeat was deleted.
    Finished { dropped: bool },
}

/// What the process reports.
pub enum RunEvent {
    Begin,
    /// The pending ids of the dead consumer, or `None` when the call failed.
    Pending(Option<Vec<String>>),
    /// Number of entries the chunk claim handed over, or `None` when the call failed.
    ChunkClaimed(Option<usize>),
    /// The one-by-one claims of a chunk were all attempted.
    SinglesDone,
    /// The heartbeat field was deleted, or the delete failed.
    HeartbeatDropped { ok: bool },
}

/// What the process is asked to do.
#[derive(Debug, Clone, Copy, PartialEq, Eq, Structural)]
pub enum RunAction {
    FetchPending { limit: usize },
    /// Claim chunk `index` of the plan for its target.
    ClaimChunk { index: usize },
    /// Claim the ids of chunk `index` one by one, as `singles` lists them.
    ClaimSingles { index: usize },
    DropHeartbeat,
    Stop { dropped: bool },
    /// The event does not apply to the current phase: nothing to do.
    Ignore,
}

/// The handling of one dead consumer.
pub struct DeadConsumerRun {
    /// The live consumers of the dead consumer's group.
    pub live: Vec<String>,
    /// The chunks to claim, once the pending ids are known.
    pub plan: Vec<ClaimBatch>,
    pub phase: RunPhase,
}

/// The step after chunk `i` has been dealt with: the next chunk, or the
/// heartbeat when it was the last one.
pub open spec fn after_chunk(i: int, plan_len: int) -> (RunPhase, RunAction) {
    if i + 1 < plan_len {
        (RunPhase::Claiming { index: (i + 1) as usize }, RunAction::ClaimChunk { index: (i + 1) as usize })
    } else {
        (RunPhase::Dropping, RunAction::DropHeartbeat)
    }
}

/// One transition: from `old` on `e` to `new`, asking for `a`.
pub open spec fn run_step(old: DeadConsumerRun, e: RunEvent, new: DeadConsumerRun, a: RunAction) -> bool {
    &&& new.live@ == old.live@
    &&& match (old.phase, e) {
        (RunPhase::Start, RunEvent::Begin) => new.plan@ == old.plan@ && if old.live@.len() == 0 {
            new.phase == RunPhase::Dropping && a == RunAction::DropHeartbeat
        } else {
            new.phase == RunPhase::AwaitingPending && a == (RunAction::FetchPending { limit: PENDING_FETCH_LIMIT })
        },
        (RunPhase::AwaitingPending, RunEvent::Pending(Some(ids))) => {
            &&& old.live@.len() > 0 ==> new.plan@.len() == chunk_count(ids@.len() as int)
            &&& old.live@.len() == 0 ==> new.plan@.len() == 0
            &&& forall|k: int|
                0 <= k < new.plan@.len() ==> planned_batch(#[trigger] new.plan@[k], ids@, old.live@, k)
            &&& if new.plan@.len() == 0 {
                new.phase == RunPhase::Dropping && a == RunAction::DropHeartbeat
            } else {
                new.phase == (RunPhase::Claiming { index: 0 }) && a == (RunAction::ClaimChunk { index: 0 })
            }
        },
        (RunPhase::AwaitingPending, RunEvent::Pending(None)) => new.plan@ == old.plan@ && new.phase == (
        RunPhase::Finished { dropped: false }) && a == (RunAction::Stop { dropped: false }),
        (RunPhase::Claiming { index }, RunEvent::ChunkClaimed(claimed)) => new.plan@ == old.plan@ && if index
            < old.plan@.len() {
            let requested = old.plan@[index as int].ids@.len();
            let failed = claimed is None || claimed == Some(0usize) && requested != 0;
            if failed {
                new.phase == (RunPhase::ClaimingSingles { index }) && a == (RunAction::ClaimSingles { index })
            } else {
                (new.phase, a) == after_chunk(index as int, old.plan@.len() as int)
            }
        } else {
            new.phase == old.phase && a == RunAction::Ignore
        },
        (RunPhase::ClaimingSingles { index }, RunEvent::SinglesDone) => new.plan@ == old.plan@ && (new.phase, a)
            == after_chunk(index as int, old.plan@.len() as int),
        (RunPhase::Dropping, RunEvent::HeartbeatDropped { ok }) => new.plan@ == old.plan@ && new.phase == (
        RunPhase::Finished { dropped: ok }) && a == (RunAction::Stop { dropped: ok }),
        _ => new.plan@ == old.plan@ && new.phase == old.phase && a == RunAction::Ignore,
    }
}

impl DeadConsumerRun {
    /// The handling of a dead consumer whose group has the live consumers `live`.
    pub fn new(live: Vec<String>) -> (r: Self)
        ensures
            r.live@ == live@,
            r.plan@.len() == 0,
            r.phase == RunPhase::Start,
    {
        DeadConsumerRun { live, plan: Vec::new(), phase: RunPhase::Start }
    }

    fn advance(&mut self, index: usize) -> (a: RunAction)
        requires
            index < old(self).plan@.len(),
        ensures
            final(self).live@ == old(self).live@,
            final(self).plan@ == old(self).plan@,
            (final(self).phase, a) == after_chunk(index as int, old(self).plan@.len() as int),
    {
        if self.plan.len() - index > 1 {
            self.phase = RunPhase::Claiming { index: index + 1 };
            RunAction::ClaimChunk { index: index + 1 }
        } else {
            self.phase = RunPhase::Dropping;
            RunAction::DropHeartbeat
        }
    }

    /// Feeds one event and returns the action to perform.
    pub fn step(&mut self, event: RunEvent) -> (a: RunAction)
        ensures
            run_step(*old(self), event, *final(self), a),
    {
        match (self.phase, event) {
            (RunPhase::Start, RunEvent::Begin) => {
                if self.live.len() == 0 {
                    self.phase = RunPhase::Dropping;
                    RunAction::DropHeartbeat
                } else {
                    self.phase = RunPhase::AwaitingPending;
                    RunAction::FetchPending { limit: PENDING_FETCH_LIMIT }
                }
            },
            (RunPhase::AwaitingPending, RunEvent::Pending(Some(ids))) => {
                self.plan = claim_plan(&ids, &self.live);
                if self.plan.len() == 0 {
                    self.phase = RunPhase::Dropping;
                    RunAction::DropHeartbeat
                } else {
                    self.phase = RunPhase::Claiming { index: 0 };
                    RunAction::ClaimChunk { index: 0 }
                }
            },
            (RunPhase::AwaitingPending, RunEvent::Pending(None)) => {
                self.phase = RunPhase::Finished { dropped: false };
                RunAction::Stop { dropped: false }
            },
            (RunPhase::Claiming { index }, RunEvent::ChunkClaimed(claimed)) => {
                if index < self.plan.len() {
                    match claim_outcome(self.plan[index].ids.len(), claimed) {
                        ClaimOutcome::Failed => {
                            self.phase = RunPhase::ClaimingSingles { index };
                            RunAction::ClaimSingles { index }
                        },
                        _ => self.advance(index),
                    }
                } else {
                    RunAction::Ignore
                }
            },
            (RunPhase::ClaimingSingles { index }, RunEvent::SinglesDone) => {
                if index < self.plan.len() {
                    self.advance(index)
                } else {
                    self.phase = RunPhase::Dropping;
                    RunAction::DropHeartbeat
                }
            },
            (RunPhase::Dropping, RunEvent::HeartbeatDropped { ok }) => {
                self.phase = RunPhase::Finished { dropped: ok };
                RunAction::Stop { dropped: ok }
            },
            _ => RunAction::Ignore,
        }
    }

    /// The one-by-one claims that stand in for chunk `index` of the plan.
    pub fn singles(&self, index: usize) -> (r: Vec<SingleClaim>)
        requires
            index < self.plan@.len(),
        ensures
            r@.len() == (if self.live@.len() == 0 {
                0
            } else {
                self.plan@[index as int].ids@.len()
            }),
            forall|j: int|
                0 <= j < r@.len() ==> (#[trigger] r@[j]).id == self.plan@[index as int].ids@[j] && r@[j].target
                    == round_robin_target(self.live@, j),
    {
        individual_claims(&self.plan[index].ids, &self.live)
    }
}

/// The heartbeat of a dead consumer is dropped last: only when its group has
/// no live consumer, when it had no pending id, or right after its last chunk
/// has been dealt with.
pub proof fn lemma_heartbeat_dropped_last(old: DeadConsumerRun, e: RunEvent, new: DeadConsumerRun, a: RunAction)
    requires
        run_step(old, e, new, a),
        a == RunAction::DropHeartbeat,
    ensures
        (old.phase == RunPhase::Start && old.live@.len() == 0) || (old.phase == RunPhase::AwaitingPending
            && new.plan@.len() == 0) || (old.phase matches RunPhase::Claiming { index } && index + 1
            >= old.plan@.len()) || (old.phase matches RunPhase::ClaimingSingles { index } && index + 1
            >= old.plan@.len()),
{
}

/// When the pending ids cannot be fetched, the heartbeat stays: the consumer
/// is still dead at the next tick, which tries again.
pub proof fn lemma_fetch_failure_keeps_heartbeat(old: DeadConsumerRun, new: DeadConsumerRun, a: RunAction)
    requires
        old.phase == RunPhase::AwaitingPending,
        run_step(old, RunEvent::Pending(None), new, a),
    ensures
        new.phase == (RunPhase::Finished { dropped: false }),
        a == (RunAction::Stop { dropped: false }),
{
}

/// Chunks are claimed in order, each once: the first after the pending ids
/// arrive, every other one right after its predecessor was dealt with.
pub proof fn lemma_chunks_claimed_in_order(old: DeadConsumerRun, e: RunEvent, new: DeadConsumerRun, a: RunAction)
    requires
        run_step(old, e, new, a),
        old.plan@.len() <= usize::MAX,
    ensures
        a matches RunAction::ClaimChunk { index } ==> (index == 0 && old.phase == RunPhase::AwaitingPending) || (
        old.phase matches RunPhase::Claiming { index: i } && index == i + 1) || (
        old.phase matches RunPhase::ClaimingSingles { index: i } && index == i + 1),
        a matches RunAction::ClaimChunk { index } ==> index < new.plan@.len(),
{
}

} // verus!

use consumer_pool::constants::PENDING_FETCH_LIMIT;
use consumer_pool::reclaim::{DeadConsumerRun, RunAction, RunEvent, RunPhase};

fn strings(v: &[&str]) -> Vec<String> {
    v.iter().map(|s| s.to_string()).collect()
}

#[test]
fn dead_consumer_with_three_pending_entries() {
    let mut run = DeadConsumerRun::new(strings(&["c_1"]));
    assert_eq!(run.step(RunEvent::Begin), RunAction::FetchPending { limit: PENDING_FETCH_LIMIT });
    assert_eq!(run.step(RunEvent::Pending(Some(strings(&["e1", "e2", "e3"])))), RunAction::ClaimChunk { index: 0 });
    assert_eq!(run.plan.len(), 1);
    assert_eq!(run.plan[0].target, "c_1");
    assert_eq!(run.plan[0].ids, strings(&["e1", "e2", "e3"]));
    assert_eq!(run.step(RunEvent::ChunkClaimed(Some(3))), RunAction::DropHeartbeat);
    assert_eq!(run.step(RunEvent::HeartbeatDropped { ok: true }), RunAction::Stop { dropped: true });
    assert_eq!(run.phase, RunPhase::Finished { dropped: true });
}

#[test]
fn no_live_consumer_only_drops_the_heartbeat() {
    let mut run = DeadConsumerRun::new(Vec::new());
    assert_eq!(run.step(RunEvent::Begin), RunAction::DropHeartbeat);
    assert_eq!(run.step(RunEvent::HeartbeatDropped { ok: true }), RunAction::Stop { dropped: true });
}

#[test]
fn no_pending_entries_drops_the_heartbeat() {
    let mut run = DeadConsumerRun::new(strings(&["c_1"]));
    run.step(RunEvent::Begin);
    assert_eq!(run.step(RunEvent::Pending(Some(Vec::new()))), RunAction::DropHeartbeat);
}

#[test]
fn failed_fetch_keeps_the_heartbeat() {
    let mut run = DeadConsumerRun::new(strings(&["c_1"]));
    run.step(RunEvent::Begin);
    assert_eq!(run.step(RunEvent::Pending(None)), RunAction::Stop { dropped: false });
    assert_eq!(run.step(RunEvent::HeartbeatDropped { ok: true }), RunAction::Ignore);
}

#[test]
fn failed_chunk_falls_back_to_single_claims() {
    let ids: Vec<String> = (0..15).map(|i| format!("{}-0", i)).collect();
    let mut run = DeadConsumerRun::new(strings(&["a", "b"]));
    run.step(RunEvent::Begin);
    assert_eq!(run.step(RunEvent::Pending(Some(ids))), RunAction::ClaimChunk { index: 0 });
    assert_eq!(run.step(RunEvent::ChunkClaimed(None)), RunAction::ClaimSingles { index: 0 });
    let singles = run.singles(0);
    assert_eq!(singles.len(), 10);
    assert_eq!((singles[0].id.as_str(), singles[0].target.as_str()), ("0-0", "a"));
    assert_eq!((singles[1].id.as_str(), singles[1].target.as_str()), ("1-0", "b"));
    assert_eq!(run.step(RunEvent::SinglesDone), RunAction::ClaimChunk { index: 1 });
    assert_eq!(run.plan[1].target, "b");
    // a partial claim is accepted: the rest waits for a later tick
    assert_eq!(run.step(RunEvent::ChunkClaimed(Some(2))), RunAction::DropHeartbeat);
}

#[test]
fn claim_of_nothing_counts_as_failure() {
    let mut run = DeadConsumerRun::new(strings(&["a"]));
    run.step(RunEvent::Begin);
    run.step(RunEvent::Pending(Some(strings(&["1-0"]))));
    assert_eq!(run.step(RunEvent::ChunkClaimed(Some(0))), RunAction::ClaimSingles { index: 0 });
}

//! What the rebalancer decides in one tick: which heartbeat records count,
//! which consumers are dead, and which live consumer claims which of their
//! pending entries.
use crate::constants::{BATCH_SIZE, CONSUMER_GROUP_NAME, HEARTBEAT_TIMEOUT_SECONDS};
use crate::heartbeat::{HeartbeatView, RedisConsumerHeartBeat};
use vstd::prelude::*;

verus! {

/// A heartbeat record together with the consumer group of its writer.
#[derive(Debug, Clone)]
pub struct ConsumerStatus {
    pub heartbeat: RedisConsumerHeartBeat,
    pub group: String,
}

/// What a consumer status says, as mathematical values.
pub struct StatusView {
    pub heartbeat: HeartbeatView,
    pub group: Seq<char>,
}

impl View for ConsumerStatus {
    type V = StatusView;

    open spec fn view(&self) -> StatusView {
        StatusView { heartbeat: self.heartbeat@, group: self.group@ }
    }
}

/// The views of a sequence of statuses.
pub open spec fn statuses_view(v: Seq<ConsumerStatus>) -> Seq<StatusView> {
    v.map_values(|c: ConsumerStatus| c@)
}

/// One field of the heartbeat hash: the consumer identity under which it is
/// stored, and the record parsed from its value (`None` when the value is
/// not a well-formed record).
pub type HeartbeatEntry = (String, Option<RedisConsumerHeartBeat>);

/// A record counts when it parsed and names the consumer it is stored under.
pub open spec fn entry_counts(e: HeartbeatEntry) -> bool {
    e.1 matches Some(hb) && hb.consumer_name@ == e.0@
}

/// The statuses that a snapshot yields, in snapshot order: every record that
/// counts, in the deployment's one group.
pub open spec fn snapshot_statuses(s: Seq<HeartbeatEntry>) -> Seq<StatusView>
    decreases s.len(),
{
    if s.len() == 0 {
        Seq::empty()
    } else {
        let rest = snapshot_statuses(s.drop_last());
        let e = s.last();
        if entry_counts(e) {
            rest.push(StatusView { heartbeat: e.1.unwrap()@, group: CONSUMER_GROUP_NAME@ })
        } else {
            rest
        }
    }
}

fn copy_heartbeat(hb: &RedisConsumerHeartBeat) -> (r: RedisConsumerHeartBeat)
    ensures
        r@ == hb@,
{
    RedisConsumerHeartBeat {
        stream_name: hb.stream_name.clone(),
        consumer_name: hb.consumer_name.clone(),
        last_heartbeat: hb.last_heartbeat,
    }
}

/// The consumer statuses of a heartbeat hash snapshot. Malformed records and
/// records whose embedded consumer name disagrees with their field are left
/// out; every status is put in the deployment's consumer group.
pub fn consumer_statuses(snapshot: &Vec<HeartbeatEntry>) -> (r: Vec<ConsumerStatus>)
    ensures
        statuses_view(r@) == snapshot_statuses(snapshot@),
{
    let mut out: Vec<ConsumerStatus> = Vec::new();
    let mut i: usize = 0;
    while i < snapshot.len()
        invariant
            i <= snapshot@.len(),
            statuses_view(out@) == snapshot_statuses(snapshot@.subrange(0, i as int)),
        decreases snapshot@.len() - i,
    {
        let entry = &snapshot[i];
        proof {
            assert(snapshot@.subrange(0, i + 1).drop_last() =~= snapshot@.subrange(0, i as int));
            assert(snapshot@.subrange(0, i + 1).last() == snapshot@[i as int]);
        }
        match &entry.1 {
            Some(hb) => {
                if hb.consumer_name == entry.0 {
                    let status = ConsumerStatus {
                        heartbeat: copy_heartbeat(hb),
                        group: String::from_str(CONSUMER_GROUP_NAME),
                    };
                    let ghost before = out@;
                    out.push(status);
                    proof {
                        assert(statuses_view(out@) =~= statuses_view(before).push(status@));
                    }
                }
            },
            None => {},
        }
        i += 1;
    }
    proof {
        assert(snapshot@.subrange(0, snapshot@.len() as int) =~= snapshot@);
    }
    out
}

/// A consumer whose last heartbeat is more than the timeout older than `now`.
pub open spec fn expired_at(now: int, last_heartbeat: int) -> bool {
    now - last_heartbeat > HEARTBEAT_TIMEOUT_SECONDS
}

/// Whether a consumer that last wrote its heartbeat at `last_heartbeat` is
/// dead at time `now`.
pub fn is_expired(now: i64, last_heartbeat: i64) -> (r: bool)
    ensures
        r == expired_at(now as int, last_heartbeat as int),
{
    (now as i128) - (last_heartbeat as i128) > HEARTBEAT_TIMEOUT_SECONDS as i128
}

/// The expired statuses, in order.
pub open spec fn expired_statuses(s: Seq<StatusView>, now: int) -> Seq<StatusView>
    decreases s.len(),
{
    if s.len() == 0 {
        Seq::empty()
    } else {
        let rest = expired_statuses(s.drop_last(), now);
        if expired_at(now, s.last().heartbeat.last_heartbeat) {
            rest.push(s.last())
        } else {
            rest
        }
    }
}

/// The names of the live consumers of group `group`, in order.
pub open spec fn live_names(s: Seq<StatusView>, now: int, group: Seq<char>) -> Seq<Seq<char>>
    decreases s.len(),
{
    if s.len() == 0 {
        Seq::empty()
    } else {
        let rest = live_names(s.drop_last(), now, group);
        let c = s.last();
        if !expired_at(now, c.heartbeat.last_heartbeat) && c.group == group {
            rest.push(c.heartbeat.consumer_name)
        } else {
            rest
        }
    }
}

/// A status of `s` at time `now` that is alive and in group `group`, under the name `name`.
pub open spec fn has_live_member(s: Seq<StatusView>, now: int, group: Seq<char>, name: Seq<char>) -> bool {
    exists|i: int|
        0 <= i < s.len() && !expired_at(now, s[i].heartbeat.last_heartbeat) && s[i].group == group
            && #[trigger] s[i].heartbeat.consumer_name == name
}

/// Every name that `live_names` lists belongs to a live status of the group.
pub proof fn lemma_live_names_are_live(s: Seq<StatusView>, now: int, group: Seq<char>)
    ensures
        forall|m: int|
            0 <= m < live_names(s, now, group).len() ==> has_live_member(
                s,
                now,
                group,
                #[trigger] live_names(s, now, group)[m],
            ),
    decreases s.len(),
{
    if s.len() > 0 {
        let init = s.drop_last();
        lemma_live_names_are_live(init, now, group);
        let names = live_names(s, now, group);
        assert forall|m: int| 0 <= m < names.len() implies has_live_member(s, now, group, #[trigger] names[m]) by {
            if m < live_names(init, now, group).len() {
                let name = live_names(init, now, group)[m];
                assert(names[m] == name);
                assert(has_live_member(init, now, group, name));
                let i = choose|i: int|
                    0 <= i < init.len() && !expired_at(now, init[i].heartbeat.last_heartbeat) && init[i].group
                        == group && #[trigger] init[i].heartbeat.consumer_name == name;
                assert(s[i] == init[i]);
            } else {
                let i = s.len() - 1;
                assert(s[i].heartbeat.consumer_name == names[m]);
            }
        }
    }
}

/// The views of a sequence of strings.
pub open spec fn strings_view(v: Seq<String>) -> Seq<Seq<char>> {
    v.map_values(|x: String| x@)
}

fn copy_status(c: &ConsumerStatus) -> (r: ConsumerStatus)
    ensures
        r@ == c@,
{
    ConsumerStatus { heartbeat: copy_heartbeat(&c.heartbeat), group: c.group.clone() }
}

/// The consumers that count as dead at time `now`, in order.
pub fn failed_consumers(statuses: &Vec<ConsumerStatus>, now: i64) -> (r: Vec<ConsumerStatus>)
    ensures
        statuses_view(r@) == expired_statuses(statuses_view(statuses@), now as int),
{
    let ghost all = statuses_view(statuses@);
    let mut out: Vec<ConsumerStatus> = Vec::new();
    let mut i: usize = 0;
    while i < statuses.len()
        invariant
            i <= statuses@.len(),
            all == statuses_view(statuses@),
            statuses_view(out@) == expired_statuses(all.subrange(0, i as int), now as int),
        decreases statuses@.len() - i,
    {
        proof {
            assert(all.subrange(0, i + 1).drop_last() =~= all.subrange(0, i as int));
            assert(all.subrange(0, i + 1).last() == statuses@[i as int]@);
        }
        if is_expired(now, statuses[i].heartbeat.last_heartbeat) {
            let status = copy_status(&statuses[i]);
            let ghost before = out@;
            out.push(status);
            proof {
                assert(statuses_view(out@) =~= statuses_view(before).push(status@));
            }
        }
        i += 1;
    }
    proof {
        assert(all.subrange(0, all.len() as int) =~= all);
    }
    out
}

/// The names of the consumers of group `group` that are alive at time `now`,
/// in order: the targets among which a dead consumer's entries are shared.
pub fn live_consumer_names(statuses: &Vec<ConsumerStatus>, now: i64, group: &String) -> (r: Vec<String>)
    ensures
        strings_view(r@) == live_names(statuses_view(statuses@), now as int, group@),
{
    let ghost all = statuses_view(statuses@);
    let mut out: Vec<String> = Vec::new();
    let mut i: usize = 0;
    while i < statuses.len()
        invariant
            i <= statuses@.len(),
            all == statuses_view(statuses@),
            strings_view(out@) == live_names(all.subrange(0, i as int), now as int, group@),
        decreases statuses@.len() - i,
    {
        proof {
            assert(all.subrange(0, i + 1).drop_last() =~= all.subrange(0, i as int));
            assert(all.subrange(0, i + 1).last() == statuses@[i as int]@);
        }
        let c = &statuses[i];
        if !is_expired(now, c.heartbeat.last_heartbeat) && c.group == *group {
            let name = c.heartbeat.consumer_name.clone();
            let ghost before = out@;
            out.push(name);
            proof {
                assert(strings_view(out@) =~= strings_view(before).push(name@));
            }
        }
        i += 1;
    }
    proof {
        assert(all.subrange(0, all.len() as int) =~= all);
    }
    out
}

/// The pending ids of one dead consumer that go to one live consumer in one claim.
#[derive(Debug, Clone)]
pub struct ClaimBatch {
    pub target: String,
    pub ids: Vec<String>,
}

/// Number of chunks of at most `BATCH_SIZE` (ten) ids that `n` ids make.
pub open spec fn chunk_count(n: int) -> int {
    (n + 9) / 10
}

/// Chunk `k` of `ids`: the ids from position `k * BATCH_SIZE`, at most
/// `BATCH_SIZE` (ten) of them.
pub open spec fn chunk_of(ids: Seq<String>, k: int) -> Seq<String> {
    let start = k * 10;
    let end = if start + 10 < ids.len() {
        start + 10
    } else {
        ids.len() as int
    };
    ids.subrange(start, end)
}

/// The live consumer that receives chunk `k`: round robin over `live`.
pub open spec fn round_robin_target(live: Seq<String>, k: int) -> String
    recommends
        live.len() > 0,
{
    live[k % (live.len() as int)]
}

/// Batch `k` of a claim plan: chunk `k` of the ids, for its round-robin target.
pub open spec fn planned_batch(b: ClaimBatch, ids: Seq<String>, live: Seq<String>, k: int) -> bool {
    b.ids@ == chunk_of(ids, k) && b.target == round_robin_target(live, k)
}

/// How the pending ids of a dead consumer are shared: chunk `k` of `ids`
/// goes to `live[k mod len(live)]`. With no live consumer nothing is claimed.
pub fn claim_plan(ids: &Vec<String>, live: &Vec<String>) -> (r: Vec<ClaimBatch>)
    ensures
        live@.len() == 0 ==> r@.len() == 0,
        live@.len() > 0 ==> r@.len() == chunk_count(ids@.len() as int),
        live@.len() > 0 ==> forall|k: int|
            0 <= k < r@.len() ==> planned_batch(#[trigger] r@[k], ids@, live@, k),
{
    assert(BATCH_SIZE == 10);
    let mut out: Vec<ClaimBatch> = Vec::new();
    if live.len() == 0 {
        return out;
    }
    let n = ids.len();
    let chunks: usize = if n % 10 == 0 {
        n / 10
    } else {
        n / 10 + 1
    };
    let mut k: usize = 0;
    while k < chunks
        invariant
            n == ids@.len(),
            live@.len() > 0,
            chunks == chunk_count(n as int),
            k <= chunks,
            out@.len() == k,
            forall|j: int| 0 <= j < k ==> planned_batch(#[trigger] out@[j], ids@, live@, j),
        decreases chunks - k,
    {
        let start: usize = k * BATCH_SIZE;
        let end: usize = if n - start > BATCH_SIZE {
            start + BATCH_SIZE
        } else {
            n
        };
        let mut chunk: Vec<String> = Vec::new();
        let mut p: usize = start;
        while p < end
            invariant
                start <= p <= end,
                end <= n == ids@.len(),
                chunk@ == ids@.subrange(start as int, p as int),
            decreases end - p,
        {
            chunk.push(ids[p].clone());
            proof {
                assert(chunk@ =~= ids@.subrange(start as int, p + 1));
            }
            p += 1;
        }
        let batch = ClaimBatch { target: live[k % live.len()].clone(), ids: chunk };
        proof {
            assert(batch.ids@ == chunk_of(ids@, k as int));
        }
        out.push(batch);
        k += 1;
    }
    out
}

proof fn lemma_id_in_its_chunk(ids: Seq<String>, live: Seq<String>, j: int)
    requires
        live.len() > 0,
        0 <= j < ids.len(),
    ensures
        0 <= j / 10 < chunk_count(ids.len() as int),
        chunk_of(ids, j / 10).contains(ids[j]),
        live.contains(round_robin_target(live, j / 10)),
{
    let k = j / 10;
    let c = chunk_of(ids, k);
    assert(c[j - k * 10] == ids[j]);
    let t = k % (live.len() as int);
    assert(live[t] == round_robin_target(live, k));
}

/// Every pending id of a dead consumer lies in the chunk of its position
/// divided by the chunk size, which the plan has, and that chunk's target is
/// one of the live consumers.
pub proof fn lemma_plan_covers_every_id(ids: Seq<String>, live: Seq<String>)
    requires
        live.len() > 0,
    ensures
        forall|j: int|
            #![trigger ids[j]]
            0 <= j < ids.len() ==> 0 <= j / 10 < chunk_count(ids.len() as int) && chunk_of(
                ids,
                j / 10,
            ).contains(ids[j]) && live.contains(round_robin_target(live, j / 10)),
{
    assert forall|j: int| #![trigger ids[j]] 0 <= j < ids.len() implies 0 <= j / 10 < chunk_count(
        ids.len() as int,
    ) && chunk_of(ids, j / 10).contains(ids[j]) && live.contains(round_robin_target(live, j / 10)) by {
        lemma_id_in_its_chunk(ids, live, j);
    }
}

/// Total number of ids in the first `m` chunks of `ids`.
pub open spec fn chunks_total(ids: Seq<String>, m: int) -> int
    decreases m,
{
    if m <= 0 {
        0
    } else {
        chunks_total(ids, m - 1) + chunk_of(ids, m - 1).len()
    }
}

proof fn lemma_chunks_total_prefix(ids: Seq<String>, m: int)
    requires
        0 <= m <= chunk_count(ids.len() as int),
    ensures
        chunks_total(ids, m) == if m * 10 < ids.len() {
            m * 10
        } else {
            ids.len() as int
        },
    decreases m,
{
    if m > 0 {
        lemma_chunks_total_prefix(ids, m - 1);
    }
}

/// The chunks of a plan split the ids exactly: position `j` of the ids lies
/// in chunk `k` (at position `j - 10 k` of it, holding `ids[j]`) if and only
/// if `k` is `j` divided by the chunk size, and the chunk sizes add up to the
/// number of ids. No id is claimed twice in one plan and none is left out.
pub proof fn lemma_chunks_partition_ids(ids: Seq<String>)
    ensures
        chunks_total(ids, chunk_count(ids.len() as int)) == ids.len(),
        forall|j: int, k: int|
            #![trigger ids[j], chunk_of(ids, k)]
            0 <= j < ids.len() && 0 <= k < chunk_count(ids.len() as int) ==> ((0 <= j - k * 10 < chunk_of(
                ids,
                k,
            ).len()) <==> k == j / 10),
        forall|j: int|
            #![trigger ids[j]]
            0 <= j < ids.len() ==> chunk_of(ids, j / 10)[j - (j / 10) * 10] == ids[j],
{
    lemma_chunks_total_prefix(ids, chunk_count(ids.len() as int));
}

/// What became of one chunk claim.
#[derive(Debug, Clone, Copy, PartialEq, Eq, Structural)]
pub enum ClaimOutcome {
    /// Every id of the chunk changed owner.
    Complete,
    /// Some ids changed owner; the rest stay pending for a later tick.
    Partial,
    /// No id changed owner, or the call failed: claim the ids one by one.
    Failed,
}

/// Classifies a chunk claim of `requested` ids that handed over `claimed`
/// entries (`None` when the broker call failed).
pub fn claim_outcome(requested: usize, claimed: Option<usize>) -> (r: ClaimOutcome)
    ensures
        claimed is None ==> r is Failed,
        claimed matches Some(c) ==> (c == requested ==> r is Complete),
        claimed matches Some(c) ==> (c != requested && c > 0 ==> r is Partial),
        claimed matches Some(c) ==> (c != requested && c == 0 ==> r is Failed),
{
    match claimed {
        None => ClaimOutcome::Failed,
        Some(c) => {
            if c == requested {
                ClaimOutcome::Complete
            } else if c > 0 {
                ClaimOutcome::Partial
            } else {
                ClaimOutcome::Failed
            }
        },
    }
}

/// One id claimed alone, and the consumer that receives it.
#[derive(Debug, Clone)]
pub struct SingleClaim {
    pub id: String,
    pub target: String,
}

/// The fallback for a chunk whose claim failed: id `j` of the chunk goes to
/// `live[j mod len(live)]`, one claim per id. With no live consumer nothing
/// is claimed.
pub fn individual_claims(chunk: &Vec<String>, live: &Vec<String>) -> (r: Vec<SingleClaim>)
    ensures
        live@.len() == 0 ==> r@.len() == 0,
        live@.len() > 0 ==> r@.len() == chunk@.len(),
        live@.len() > 0 ==> forall|j: int|
            0 <= j < r@.len() ==> (#[trigger] r@[j]).id == chunk@[j] && r@[j].target
                == round_robin_target(live@, j),
{
    let mut out: Vec<SingleClaim> = Vec::new();
    if live.len() == 0 {
        return out;
    }
    let mut j: usize = 0;
    while j < chunk.len()
        invariant
            live@.len() > 0,
            j <= chunk@.len(),
            out@.len() == j,
            forall|i: int|
                0 <= i < j ==> (#[trigger] out@[i]).id == chunk@[i] && out@[i].target
                    == round_robin_target(live@, i),
        decreases chunk@.len() - j,
    {
        out.push(SingleClaim { id: chunk[j].clone(), target: live[j % live.len()].clone() });
        j += 1;
    }
    out
}

/// The work a tick owes one dead consumer: the consumer, and the live
/// consumers of its group among which its pending entries are shared.
#[derive(Debug, Clone)]
pub struct FailedConsumerWork {
    pub consumer: ConsumerStatus,
    pub live: Vec<String>,
}

/// The work of one tick at time `now`, given the statuses of the snapshot:
/// one item per dead consumer, in snapshot order.
pub fn plan_rebalance(statuses: &Vec<ConsumerStatus>, now: i64) -> (r: Vec<FailedConsumerWork>)
    ensures
        r@.len() == expired_statuses(statuses_view(statuses@), now as int).len(),
        forall|k: int|
            0 <= k < r@.len() ==> (#[trigger] r@[k]).consumer@ == expired_statuses(
                statuses_view(statuses@),
                now as int,
            )[k] && strings_view(r@[k].live@) == live_names(
                statuses_view(statuses@),
                now as int,
                r@[k].consumer.group@,
            ),
{
    let failed = failed_consumers(statuses, now);
    let ghost expired = expired_statuses(statuses_view(statuses@), now as int);
    let mut out: Vec<FailedConsumerWork> = Vec::new();
    let mut k: usize = 0;
    while k < failed.len()
        invariant
            k <= failed@.len(),
            statuses_view(failed@) == expired,
            expired == expired_statuses(statuses_view(statuses@), now as int),
            out@.len() == k,
            forall|j: int|
                0 <= j < k ==> (#[trigger] out@[j]).consumer@ == expired[j] && strings_view(out@[j].live@)
                    == live_names(statuses_view(statuses@), now as int, out@[j].consumer.group@),
        decreases failed@.len() - k,
    {
        let consumer = copy_status(&failed[k]);
        proof {
            assert(statuses_view(failed@)[k as int] == failed@[k as int]@);
        }
        let live = live_consumer_names(statuses, now, &consumer.group);
        out.push(FailedConsumerWork { consumer, live });
        k += 1;
    }
    out
}

/// The statuses of group `group`, in order.
pub open spec fn statuses_in_group(s: Seq<StatusView>, group: Seq<char>) -> Seq<StatusView>
    decreases s.len(),
{
    if s.len() == 0 {
        Seq::empty()
    } else {
        let rest = statuses_in_group(s.drop_last(), group);
        if s.last().group == group {
            rest.push(s.last())
        } else {
            rest
        }
    }
}

/// The statuses whose consumer belongs to group `group`, for monitoring.
pub fn get_group_consumers(statuses: &Vec<ConsumerStatus>, group: &String) -> (r: Vec<ConsumerStatus>)
    ensures
        statuses_view(r@) == statuses_in_group(statuses_view(statuses@), group@),
{
    let ghost all = statuses_view(statuses@);
    let mut out: Vec<ConsumerStatus> = Vec::new();
    let mut i: usize = 0;
    while i < statuses.len()
        invariant
            i <= statuses@.len(),
            all == statuses_view(statuses@),
            statuses_view(out@) == statuses_in_group(all.subrange(0, i as int), group@),
        decreases statuses@.len() - i,
    {
        proof {
            assert(all.subrange(0, i + 1).drop_last() =~= all.subrange(0, i as int));
            assert(all.subrange(0, i + 1).last() == statuses@[i as int]@);
        }
        if statuses[i].group == *group {
            let status = copy_status(&statuses[i]);
            let ghost before = out@;
            out.push(status);
            proof {
                assert(statuses_view(out@) =~= statuses_view(before).push(status@));
            }
        }
        i += 1;
    }
    proof {
        assert(all.subrange(0, all.len() as int) =~= all);
    }
    out
}

/// Within one tick, every pending id of a dead consumer whose group has a
/// live consumer is claimed, in exactly one chunk, for a consumer that is
/// alive and in the same group.
pub proof fn lemma_dead_consumer_entries_go_to_live_peers(
    statuses: Seq<StatusView>,
    now: int,
    group: Seq<char>,
    live: Seq<String>,
    ids: Seq<String>,
)
    requires
        strings_view(live) == live_names(statuses, now, group),
        live.len() > 0,
    ensures
        forall|j: int|
            #![trigger ids[j]]
            0 <= j < ids.len() ==> 0 <= j / 10 < chunk_count(ids.len() as int) && chunk_of(
                ids,
                j / 10,
            ).contains(ids[j]) && has_live_member(
                statuses,
                now,
                group,
                round_robin_target(live, j / 10)@,
            ),
{
    lemma_plan_covers_every_id(ids, live);
    lemma_live_names_are_live(statuses, now, group);
    assert forall|j: int| #![trigger ids[j]] 0 <= j < ids.len() implies 0 <= j / 10 < chunk_count(
        ids.len() as int,
    ) && chunk_of(ids, j / 10).contains(ids[j]) && has_live_member(
        statuses,
        now,
        group,
        round_robin_target(live, j / 10)@,
    ) by {
        let t = (j / 10) % (live.len() as int);
        assert(strings_view(live)[t] == live[t]@);
        assert(live_names(statuses, now, group)[t] == round_robin_target(live, j / 10)@);
    }
}

} // verus!

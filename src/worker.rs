//! Decisions of a consumer worker and of its heartbeat emitter.
use crate::constants::{MESSAGE_KEY, RETRY_BACKOFF_MS};
use crate::heartbeat::RedisConsumerHeartBeat;
use vstd::prelude::*;
use vstd::utf8::{decode_utf8, valid_utf8};

verus! {

/// Cursor of a group read that returns the entries already delivered to
/// this consumer and not yet acknowledged.
pub const PENDING_CURSOR: &'static str = "0";

/// Cursor of a group read that returns entries never delivered before.
pub const NEW_CURSOR: &'static str = ">";

/// What a worker does next.
#[derive(Debug, Clone, Copy, PartialEq, Eq, Structural)]
pub enum WorkerAction {
    /// Shutdown has been signalled: return.
    Exit,
    /// Run one read cycle: read with the pending cursor, handle and
    /// acknowledge, then the same with the new-entries cursor.
    ReadCycle,
    /// The last cycle hit a broker error: sleep, then go on.
    Backoff { delay_ms: u64 },
}

/// Decides a worker's next step from the shutdown flag and from whether the
/// last read cycle failed.
pub fn worker_next(shutdown: bool, last_cycle_failed: bool) -> (r: WorkerAction)
    ensures
        shutdown ==> r is Exit,
        !shutdown && last_cycle_failed ==> r == (WorkerAction::Backoff { delay_ms: RETRY_BACKOFF_MS }),
        !shutdown && !last_cycle_failed ==> r is ReadCycle,
{
    if shutdown {
        WorkerAction::Exit
    } else if last_cycle_failed {
        WorkerAction::Backoff { delay_ms: RETRY_BACKOFF_MS }
    } else {
        WorkerAction::ReadCycle
    }
}

/// One field of a stream entry: its name, and its value when the value is a
/// byte string.
pub type EntryField = (String, Option<Vec<u8>>);

/// A stream entry as a group read returns it.
#[derive(Debug, Clone)]
pub struct StreamEntry {
    pub id: String,
    pub fields: Vec<EntryField>,
}

/// The value of the first field named `message`: `None` when there is no
/// such field, `Some(None)` when its value is not a byte string.
pub open spec fn message_field(fields: Seq<EntryField>) -> Option<Option<Seq<u8>>>
    decreases fields.len(),
{
    if fields.len() == 0 {
        None
    } else if fields[0].0@ == MESSAGE_KEY@ {
        match fields[0].1 {
            Some(b) => Some(Some(b@)),
            None => Some(None),
        }
    } else {
        message_field(fields.drop_first())
    }
}

/// The payload of an entry: its message bytes read as UTF-8 text.
pub open spec fn payload_of(fields: Seq<EntryField>) -> Option<Seq<char>> {
    match message_field(fields) {
        Some(Some(b)) => if valid_utf8(b) {
            Some(decode_utf8(b))
        } else {
            None
        },
        _ => None,
    }
}

/// Relies on String::from_utf8: text exactly when the bytes are valid UTF-8,
/// and then the characters they encode.
#[verifier::external_body]
fn utf8_text(bytes: Vec<u8>) -> (r: Option<String>)
    ensures
        r is Some <==> valid_utf8(bytes@),
        r matches Some(s) ==> s@ == decode_utf8(bytes@),
{
    String::from_utf8(bytes).ok()
}

/// The payload handed to the handler for an entry; `None` when the entry
/// has no `message` field or its value is not UTF-8 text.
pub fn entry_payload(entry: &StreamEntry) -> (r: Option<String>)
    ensures
        r matches Some(s) ==> payload_of(entry.fields@) == Some(s@),
        r is None ==> payload_of(entry.fields@) is None,
{
    let key = String::from_str(MESSAGE_KEY);
    let fields = &entry.fields;
    let mut i: usize = 0;
    proof {
        assert(fields@.subrange(0, fields@.len() as int) =~= fields@);
    }
    while i < fields.len()
        invariant
            i <= fields@.len(),
            fields@ == entry.fields@,
            key@ == MESSAGE_KEY@,
            message_field(fields@) == message_field(fields@.subrange(i as int, fields@.len() as int)),
        decreases fields@.len() - i,
    {
        let ghost rest = fields@.subrange(i as int, fields@.len() as int);
        proof {
            assert(rest.drop_first() =~= fields@.subrange(i + 1, fields@.len() as int));
            assert(rest[0] == fields@[i as int]);
        }
        if fields[i].0 == key {
            match &fields[i].1 {
                Some(bytes) => {
                    let copy = bytes.clone();
                    proof {
                        assert(copy@ =~= bytes@);
                        assert(message_field(fields@) == Some(Some(bytes@)));
                    }
                    return utf8_text(copy);
                },
                None => {
                    return None;
                },
            }
        }
        i += 1;
    }
    None
}

/// The work of one non-empty batch: a payload per entry for the handler
/// (`None` where the entry carries none), and the ids to acknowledge.
#[derive(Debug, Clone)]
pub struct BatchPlan {
    pub payloads: Vec<Option<String>>,
    pub ack_ids: Vec<String>,
}

/// Plans one batch returned by a group read. An empty batch needs nothing.
/// Every id of the batch is acknowledged, in one call, once the handler
/// calls have returned, whatever they returned.
pub fn plan_batch(entries: &Vec<StreamEntry>) -> (r: Option<BatchPlan>)
    ensures
        entries@.len() == 0 <==> r is None,
        r matches Some(p) ==> p.ack_ids@.len() == entries@.len() && p.payloads@.len() == entries@.len(),
        r matches Some(p) ==> forall|i: int|
            0 <= i < entries@.len() ==> #[trigger] p.ack_ids@[i] == entries@[i].id,
        r matches Some(p) ==> forall|i: int|
            0 <= i < entries@.len() ==> match #[trigger] p.payloads@[i] {
                Some(s) => payload_of(entries@[i].fields@) == Some(s@),
                None => payload_of(entries@[i].fields@) is None,
            },
{
    if entries.len() == 0 {
        return None;
    }
    let mut payloads: Vec<Option<String>> = Vec::new();
    let mut ack_ids: Vec<String> = Vec::new();
    let mut i: usize = 0;
    while i < entries.len()
        invariant
            i <= entries@.len(),
            ack_ids@.len() == i,
            payloads@.len() == i,
            forall|j: int| 0 <= j < i ==> #[trigger] ack_ids@[j] == entries@[j].id,
            forall|j: int|
                0 <= j < i ==> match #[trigger] payloads@[j] {
                    Some(s) => payload_of(entries@[j].fields@) == Some(s@),
                    None => payload_of(entries@[j].fields@) is None,
                },
        decreases entries@.len() - i,
    {
        payloads.push(entry_payload(&entries[i]));
        ack_ids.push(entries[i].id.clone());
        i += 1;
    }
    Some(BatchPlan { payloads, ack_ids })
}

/// What wakes a heartbeat emitter.
pub enum HeartbeatEvent {
    /// The shutdown flag changed.
    ShutdownChanged,
    /// The interval elapsed; `now` is the time in seconds since the epoch.
    Tick { now: i64 },
}

/// What a heartbeat emitter does next.
pub enum HeartbeatAction {
    /// Shutdown has been signalled: return.
    Exit,
    /// Store `record` in the heartbeat hash under field `field`.
    Write { field: String, record: RedisConsumerHeartBeat },
    /// Nothing to do until the next event.
    Wait,
}

/// Decides a heartbeat emitter's next step. While no shutdown is signalled,
/// every tick writes a fresh record, stamped with the tick's time, under the
/// consumer's own identity.
pub fn heartbeat_step(stream_name: &str, consumer_name: &str, shutdown: bool, event: HeartbeatEvent) -> (r:
    HeartbeatAction)
    ensures
        shutdown ==> r is Exit,
        !shutdown && event is ShutdownChanged ==> r is Wait,
        !shutdown ==> (event matches HeartbeatEvent::Tick { now } ==> r matches HeartbeatAction::Write {
            field,
            record,
        } && field@ == consumer_name@ && record.stream_name@ == stream_name@ && record.consumer_name@
            == consumer_name@ && record.last_heartbeat == now),
{
    if shutdown {
        return HeartbeatAction::Exit;
    }
    match event {
        HeartbeatEvent::ShutdownChanged => HeartbeatAction::Wait,
        HeartbeatEvent::Tick { now } => HeartbeatAction::Write {
            field: String::from_str(consumer_name),
            record: RedisConsumerHeartBeat::new(stream_name, consumer_name, now),
        },
    }
}

} // verus!

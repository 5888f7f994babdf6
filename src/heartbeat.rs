//! The liveness record that each consumer writes, and its JSON text.
use crate::text::{i64_text, int_text};
use vstd::prelude::*;

verus! {

/// Liveness record of one consumer: which stream it drains, who it is, and
/// when it last proved alive (seconds since the epoch, UTC).
#[derive(Debug, Clone)]
pub struct RedisConsumerHeartBeat {
    pub stream_name: String,
    pub consumer_name: String,
    pub last_heartbeat: i64,
}

/// What a heartbeat record says, as mathematical values.
pub struct HeartbeatView {
    pub stream_name: Seq<char>,
    pub consumer_name: Seq<char>,
    pub last_heartbeat: int,
}

impl View for RedisConsumerHeartBeat {
    type V = HeartbeatView;

    open spec fn view(&self) -> HeartbeatView {
        HeartbeatView {
            stream_name: self.stream_name@,
            consumer_name: self.consumer_name@,
            last_heartbeat: self.last_heartbeat as int,
        }
    }
}

/// A hexadecimal digit, lower case.
pub open spec fn hex_digit(d: int) -> char
    recommends
        0 <= d < 16,
{
    seq!['0', '1', '2', '3', '4', '5', '6', '7', '8', '9', 'a', 'b', 'c', 'd', 'e', 'f'][d]
}

/// How a JSON string literal writes one character: quote and backslash
/// behind a backslash, the usual short escapes for backspace, tab, line
/// feed, form feed and carriage return, `\u00XX` for the other control
/// characters, every other character as it is.
pub open spec fn json_char_escape(c: char) -> Seq<char> {
    if c == '"' {
        seq!['\\', '"']
    } else if c == '\\' {
        seq!['\\', '\\']
    } else if c == '\u{8}' {
        seq!['\\', 'b']
    } else if c == '\t' {
        seq!['\\', 't']
    } else if c == '\n' {
        seq!['\\', 'n']
    } else if c == '\u{c}' {
        seq!['\\', 'f']
    } else if c == '\r' {
        seq!['\\', 'r']
    } else if (c as u32) < 0x20 {
        seq!['\\', 'u', '0', '0', hex_digit((c as u32) as int / 16), hex_digit((c as u32) as int % 16)]
    } else {
        seq![c]
    }
}

/// The characters of a text, each written as a JSON string literal writes it.
pub open spec fn json_escaped(s: Seq<char>) -> Seq<char>
    decreases s.len(),
{
    if s.len() == 0 {
        Seq::empty()
    } else {
        json_escaped(s.drop_last()) + json_char_escape(s.last())
    }
}

/// The JSON string literal of a text: its escaped characters between quotes.
pub open spec fn json_string_literal(s: Seq<char>) -> Seq<char> {
    seq!['"'] + json_escaped(s) + seq!['"']
}

/// Relies on serde_json::to_string applied to a `str`: it writes the string
/// literal into a `Vec<u8>`, escaping as its ESCAPE table says, and cannot
/// fail there, since writing to a `Vec` gives no I/O error.
#[verifier::external_body]
fn json_quote(s: &str) -> (r: Option<String>)
    ensures
        r is Some,
        r matches Some(t) ==> t@ == json_string_literal(s@),
{
    serde_json::to_string(s).ok()
}

/// The compact JSON object of a heartbeat record, fields in declaration order.
pub open spec fn record_text(stream_name: Seq<char>, consumer_name: Seq<char>, last_heartbeat: int) -> Seq<char> {
    "{\"stream_name\":"@ + json_string_literal(stream_name) + ",\"consumer_name\":"@
        + json_string_literal(consumer_name) + ",\"last_heartbeat\":"@ + int_text(last_heartbeat) + "}"@
}

impl RedisConsumerHeartBeat {
    /// The record that `consumer_name` on `stream_name` writes at time `now`.
    pub fn new(stream_name: &str, consumer_name: &str, now: i64) -> (r: Self)
        ensures
            r.stream_name@ == stream_name@,
            r.consumer_name@ == consumer_name@,
            r.last_heartbeat == now,
    {
        RedisConsumerHeartBeat {
            stream_name: String::from_str(stream_name),
            consumer_name: String::from_str(consumer_name),
            last_heartbeat: now,
        }
    }

    /// The JSON text stored in the heartbeat hash.
    pub fn to_json(&self) -> (r: String)
        ensures
            r@ == record_text(self.stream_name@, self.consumer_name@, self.last_heartbeat as int),
    {
        let stream = json_quote(self.stream_name.as_str()).unwrap();
        let consumer = json_quote(self.consumer_name.as_str()).unwrap();
        let mut out = String::from_str("{\"stream_name\":");
        out.append(stream.as_str());
        out.append(",\"consumer_name\":");
        out.append(consumer.as_str());
        out.append(",\"last_heartbeat\":");
        out.append(i64_text(self.last_heartbeat).as_str());
        out.append("}");
        out
    }
}

} // verus!

use consumer_pool::heartbeat::RedisConsumerHeartBeat;
use consumer_pool::text::{i64_text, u64_text};

#[test]
fn heartbeat_json_is_compact_and_ordered() {
    let hb = RedisConsumerHeartBeat::new("task_type_a", "task_consumer_0", 1700000000);
    assert_eq!(
        hb.to_json(),
        r#"{"stream_name":"task_type_a","consumer_name":"task_consumer_0","last_heartbeat":1700000000}"#
    );
}

#[test]
fn heartbeat_json_escapes_strings() {
    let hb = RedisConsumerHeartBeat::new("a\"b", "c\\d\n", -5);
    assert_eq!(
        hb.to_json(),
        r#"{"stream_name":"a\"b","consumer_name":"c\\d\n","last_heartbeat":-5}"#
    );
}

#[test]
fn heartbeat_json_round_trips() {
    let hb = RedisConsumerHeartBeat::new("task_type_b", "task_consumer_\u{e9}\"x", i64::MIN);
    let text = hb.to_json();
    let v: serde_json::Value = serde_json::from_str(&text).unwrap();
    assert_eq!(v.get("stream_name").and_then(|x| x.as_str()), Some("task_type_b"));
    assert_eq!(v.get("consumer_name").and_then(|x| x.as_str()), Some("task_consumer_\u{e9}\"x"));
    assert_eq!(v.get("last_heartbeat").and_then(|x| x.as_i64()), Some(i64::MIN));
    assert_eq!(v.as_object().map(|o| o.len()), Some(3));
}

#[test]
fn decimal_text() {
    assert_eq!(u64_text(0), "0");
    assert_eq!(u64_text(907), "907");
    assert_eq!(u64_text(u64::MAX), "18446744073709551615");
    assert_eq!(i64_text(-42), "-42");
    assert_eq!(i64_text(i64::MIN), "-9223372036854775808");
    assert_eq!(i64_text(7), "7");
}

#[test]
fn heartbeat_json_escapes_control_characters() {
    let hb = RedisConsumerHeartBeat::new("\u{1}\u{8}\u{c}\t\r", "\u{1f}\u{7f}é", 0);
    assert_eq!(
        hb.to_json(),
        "{\"stream_name\":\"\\u0001\\b\\f\\t\\r\",\"consumer_name\":\"\\u001f\u{7f}é\",\"last_heartbeat\":0}"
    );
}

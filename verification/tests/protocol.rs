use lapin::types::AMQPValue;
use sd_worker::protocol::{get_properties, routing_key, Message};

fn job(from_uin: i64, send_to: i64, send_type: &str, tag: &str, uin: i64) -> Message {
    Message {
        from_uin,
        send_to,
        send_type: send_type.to_string(),
        tag: tag.to_string(),
        uin,
    }
}

#[test]
fn routing_key_is_prefix_and_number() {
    assert_eq!(routing_key(30), "sd.callback.30");
    assert_eq!(routing_key(0), "sd.callback.0");
    assert_eq!(routing_key(-5), "sd.callback.-5");
    assert_eq!(routing_key(i64::MAX), "sd.callback.9223372036854775807");
    assert_eq!(routing_key(i64::MIN), "sd.callback.-9223372036854775808");
    for uin in [1i64, 12, 123, 1000, 2_147_483_648, 987_654_321_012] {
        assert_eq!(routing_key(uin), format!("sd.callback.{}", uin));
    }
}

#[test]
fn headers_carry_the_job() {
    let properties = get_properties(job(10, 20, "group", "a cat", 30));
    let table = properties.headers().as_ref().unwrap().inner();
    assert_eq!(table.len(), 3);
    assert_eq!(table.get("send_to"), Some(&AMQPValue::LongLongInt(20)));
    assert_eq!(table.get("from_uin"), Some(&AMQPValue::LongLongInt(10)));
    assert_eq!(table.get("send_type"), Some(&AMQPValue::LongString("group".into())));
}

#[test]
fn headers_keep_the_whole_range() {
    let properties = get_properties(job(i64::MIN, i64::MAX, "", "", 0));
    let table = properties.headers().as_ref().unwrap().inner();
    assert_eq!(table.get("send_to"), Some(&AMQPValue::LongLongInt(i64::MAX)));
    assert_eq!(table.get("from_uin"), Some(&AMQPValue::LongLongInt(i64::MIN)));
    assert_eq!(table.get("send_type"), Some(&AMQPValue::LongString("".into())));
}

#[test]
fn send_type_is_kept_byte_for_byte() {
    let hint = "gr\u{f6}up \u{7fa4} \u{1f431}\n\"x\"";
    let properties = get_properties(job(1, 2, hint, "t", 3));
    let table = properties.headers().as_ref().unwrap().inner();
    match table.get("send_type") {
        Some(AMQPValue::LongString(text)) => assert_eq!(text.as_bytes(), hint.as_bytes()),
        other => panic!("send_type is {:?}", other),
    }
}

#[test]
fn properties_hold_headers_only() {
    let properties = get_properties(job(1, 2, "private", "t", 3));
    let expected = lapin::BasicProperties::default()
        .with_headers(properties.headers().clone().unwrap());
    assert_eq!(properties, expected);
    assert!(properties.content_type().is_none());
    assert!(properties.delivery_mode().is_none());
}

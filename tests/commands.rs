use actix_redis::command::cluster_setslot::{importing, migrating, node, stable};
use actix_redis::command::{asking, cluster_count_keys_in_slot, cluster_get_keys_in_slot};
use actix_redis::command::{cluster_slots, migrate, shutdown, RedisCommand};
use actix_redis::command::{Asking, ClusterGetKeysInSlot, ClusterSetSlot, ClusterSlots, Migrate, Shutdown};
use actix_redis::text::{i64_text, third_field, u64_text};
use actix_redis::{RespValue, Slots};

fn bulk(s: &str) -> RespValue {
    RespValue::BulkString(s.as_bytes().to_vec())
}

fn words(ws: &[&str]) -> RespValue {
    RespValue::Array(ws.iter().map(|w| bulk(w)).collect())
}

fn simple(s: &str) -> RespValue {
    RespValue::SimpleString(s.to_string())
}

#[test]
fn count_keys_in_slot_request_and_reply() {
    assert_eq!(
        cluster_count_keys_in_slot(16383).serialize(),
        words(&["CLUSTER", "COUNTKEYSINSLOT", "16383"])
    );
    assert_eq!(
        <actix_redis::command::ClusterCountKeysInSlot as RedisCommand>::deserialize(RespValue::Integer(3))
            .unwrap(),
        3
    );
    let e = <actix_redis::command::ClusterCountKeysInSlot as RedisCommand>::deserialize(simple("x"))
        .unwrap_err();
    assert_eq!(e.message, "invalid response to CLUSTER COUNTKEYSINSLOT");
    assert_eq!(e.resp, Some(simple("x")));
}

#[test]
fn get_keys_in_slot_request_and_reply() {
    assert_eq!(
        cluster_get_keys_in_slot(0, -10).serialize(),
        words(&["CLUSTER", "GETKEYSINSLOT", "0", "-10"])
    );
    let keys = ClusterGetKeysInSlot::deserialize(RespValue::Array(vec![simple("a"), bulk("key")]))
        .unwrap();
    assert_eq!(keys, vec!["a".to_string(), "key".to_string()]);
    let lossy = ClusterGetKeysInSlot::deserialize(RespValue::Array(vec![RespValue::BulkString(vec![
        b'k', 0xff,
    ])]))
    .unwrap();
    assert_eq!(lossy, vec!["k\u{fffd}".to_string()]);
    let e = ClusterGetKeysInSlot::deserialize(RespValue::Array(vec![
        simple("a"),
        RespValue::Integer(1),
        RespValue::Nil,
    ]))
    .unwrap_err();
    assert_eq!(e.message, "CLUSTER GETKEYSINSLOT: not a string");
    assert_eq!(e.resp, Some(RespValue::Integer(1)));
    let e = ClusterGetKeysInSlot::deserialize(RespValue::Nil).unwrap_err();
    assert_eq!(e.message, "invalid response to CLUSTER GETKEYSINSLOT");
}

#[test]
fn setslot_requests() {
    assert_eq!(
        importing(10, "src".to_string()).serialize(),
        words(&["CLUSTER", "SETSLOT", "10", "IMPORTING", "src"])
    );
    assert_eq!(
        migrating(100, "dst".to_string()).serialize(),
        words(&["CLUSTER", "SETSLOT", "100", "MIGRATING", "dst"])
    );
    assert_eq!(stable(5).serialize(), words(&["CLUSTER", "SETSLOT", "5", "STABLE"]));
    assert_eq!(
        node(9, "n1".to_string()).serialize(),
        words(&["CLUSTER", "SETSLOT", "9", "NODE", "n1"])
    );
    assert!(ClusterSetSlot::deserialize(simple("OK")).is_ok());
    let e = ClusterSetSlot::deserialize(simple("NO")).unwrap_err();
    assert_eq!(e.message, "invalid response to CLUSTER SETSLOT");
}

#[test]
fn migrate_request_and_reply() {
    assert_eq!(
        migrate("10.0.0.1".to_string(), 7001, "test-moved".to_string(), 0, 1000).serialize(),
        words(&["MIGRATE", "10.0.0.1", "7001", "test-moved", "0", "1000"])
    );
    assert!(Migrate::deserialize(simple("OK")).unwrap());
    assert!(!Migrate::deserialize(simple("NOKEY")).unwrap());
    let e = Migrate::deserialize(RespValue::Nil).unwrap_err();
    assert_eq!(e.message, "Invalid response to MIGRATE");
}

#[test]
fn shutdown_requests() {
    assert_eq!(shutdown().serialize(), words(&["SHUTDOWN"]));
    assert_eq!(shutdown().save().serialize(), words(&["SHUTDOWN", "SAVE"]));
    assert_eq!(shutdown().no_save().serialize(), words(&["SHUTDOWN", "NOSAVE"]));
    assert_eq!(shutdown().no_save().save().serialize(), words(&["SHUTDOWN", "SAVE", "NOSAVE"]));
    assert_eq!(Shutdown::deserialize(simple("ERR")).unwrap(), "ERR");
    assert!(Shutdown::deserialize(RespValue::Integer(0)).is_err());
}

#[test]
fn asking_request_and_reply() {
    assert_eq!(asking().serialize(), words(&["ASKING"]));
    assert!(Asking::deserialize(simple("OK")).is_ok());
    assert!(Asking::deserialize(simple("QUEUED")).is_err());
}

fn node_desc(host: &str, port: i64, id: &str) -> RespValue {
    RespValue::Array(vec![bulk(host), RespValue::Integer(port), bulk(id)])
}

#[test]
fn cluster_slots_reply_is_read() {
    assert_eq!(cluster_slots().serialize(), words(&["CLUSTER", "SLOTS"]));
    let reply = RespValue::Array(vec![
        RespValue::Array(vec![
            RespValue::Integer(0),
            RespValue::Integer(5460),
            node_desc("127.0.0.1", 7000, "a"),
            node_desc("127.0.0.1", 7003, "d"),
        ]),
        RespValue::Array(vec![
            RespValue::Integer(5461),
            RespValue::Integer(16383),
            RespValue::Array(vec![bulk("127.0.0.1"), RespValue::Integer(7001)]),
        ]),
    ]);
    let slots: Vec<Slots> = ClusterSlots::deserialize(reply).unwrap();
    assert_eq!(slots.len(), 2);
    assert_eq!((slots[0].start, slots[0].end), (0, 5460));
    assert_eq!(slots[0].nodes.len(), 2);
    assert_eq!(slots[0].nodes[0], ("127.0.0.1".to_string(), 7000, Some("a".to_string())));
    assert_eq!(slots[0].master_addr(), "127.0.0.1:7000");
    assert_eq!(slots[1].nodes[0], ("127.0.0.1".to_string(), 7001, None));
    assert_eq!(slots[1].master_addr(), "127.0.0.1:7001");
}

#[test]
fn cluster_slots_rejects_bad_records() {
    let out_of_range = RespValue::Array(vec![RespValue::Array(vec![
        RespValue::Integer(0),
        RespValue::Integer(16384),
        node_desc("h", 1, "x"),
    ])]);
    let e = ClusterSlots::deserialize(out_of_range.clone()).unwrap_err();
    assert_eq!(e.message, "invalid response to CLUSTER SLOTS");
    assert_eq!(e.resp, Some(out_of_range));
    let no_nodes = RespValue::Array(vec![RespValue::Array(vec![
        RespValue::Integer(0),
        RespValue::Integer(1),
    ])]);
    assert!(ClusterSlots::deserialize(no_nodes).is_err());
    assert!(ClusterSlots::deserialize(RespValue::Nil).is_err());
}

#[test]
fn decimal_text() {
    assert_eq!(u64_text(0), "0");
    assert_eq!(u64_text(16383), "16383");
    assert_eq!(i64_text(-42), "-42");
    assert_eq!(i64_text(i64::MIN), "-9223372036854775808");
}

#[test]
fn third_field_of_redirections() {
    assert_eq!(third_field("MOVED 3000 127.0.0.1:7001"), Some("127.0.0.1:7001".to_string()));
    assert_eq!(third_field("ASK 1 h:1 extra"), Some("h:1".to_string()));
    assert_eq!(third_field("MOVED  h:1"), Some("h:1".to_string()));
    assert_eq!(third_field("MOVED 3000"), None);
    assert_eq!(third_field("MOVED 3000 "), Some(String::new()));
}

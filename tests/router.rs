use actix_redis::command::{DeserializeError, DirectedTo, RedisClusterCommand, RedisCommand};
use actix_redis::command::{cluster_count_keys_in_slot, ClusterCountKeysInSlot};
use actix_redis::{ClusterError, ClusterRouter, Dispatch, Outcome, Request, RespError, RespValue};
use actix_redis::{Slots, Step, MAX_RETRY};

const A: &str = "127.0.0.1:7000";
const B: &str = "127.0.0.1:7001";
const C: &str = "127.0.0.1:7002";

fn range(start: u16, end: u16, port: u16) -> Slots {
    Slots {
        start,
        end,
        nodes: vec![("127.0.0.1".to_string(), port, Some(format!("id{}", port)))],
    }
}

fn three_nodes() -> Vec<Slots> {
    vec![range(0, 5460, 7000), range(5461, 10922, 7001), range(10923, 16383, 7002)]
}

fn router() -> ClusterRouter {
    let mut r = ClusterRouter::new(A.to_string());
    let (addr, connect) = r.begin_refresh();
    assert_eq!(addr, A);
    assert!(connect);
    let created = r.finish_refresh(Ok(three_nodes()));
    assert_eq!(created, vec![B.to_string(), C.to_string()]);
    r
}

fn request(slot: u16, payload: RespValue) -> Request {
    Request { slot, addr: None, req: payload, retry: 0 }
}

fn send_to(d: Dispatch) -> (String, bool) {
    match d {
        Dispatch::Send { addr, connect } => (addr, connect),
        Dispatch::Fail(e) => panic!("no node: {:?}", e),
    }
}

fn set_k_v() -> RespValue {
    RespValue::Array(vec![
        RespValue::BulkString(b"SET".to_vec()),
        RespValue::BulkString(b"k".to_vec()),
        RespValue::BulkString(b"v".to_vec()),
    ])
}

#[test]
fn basic_dispatch_goes_to_slot_master() {
    let mut r = router();
    let req = request(3000, set_k_v());
    let (addr, connect) = send_to(r.dispatch(&req));
    assert_eq!(addr, A);
    assert!(!connect);
    match r.on_outcome(req, Outcome::Reply(RespValue::SimpleString("OK".to_string()))) {
        Step::Deliver(Ok(v)) => assert_eq!(v, RespValue::SimpleString("OK".to_string())),
        _ => panic!("expected delivery"),
    }
    let get = request(3000, RespValue::Array(vec![RespValue::BulkString(b"GET".to_vec())]));
    let (addr, _) = send_to(r.dispatch(&get));
    assert_eq!(addr, A);
    match r.on_outcome(get, Outcome::Reply(RespValue::BulkString(b"v".to_vec()))) {
        Step::Deliver(Ok(v)) => assert_eq!(v, RespValue::BulkString(b"v".to_vec())),
        _ => panic!("expected delivery"),
    }
}

#[test]
fn lookup_uses_first_matching_range() {
    let r = router();
    assert_eq!(r.lookup_slot(0), Some(A.to_string()));
    assert_eq!(r.lookup_slot(5461), Some(B.to_string()));
    assert_eq!(r.lookup_slot(16383), Some(C.to_string()));
}

#[test]
fn no_range_for_slot_fails_not_connected() {
    let mut r = ClusterRouter::new(A.to_string());
    r.finish_refresh(Ok(vec![range(0, 99, 7000)]));
    match r.dispatch(&request(100, set_k_v())) {
        Dispatch::Fail(ClusterError::NotConnected) => {}
        _ => panic!("expected NotConnected"),
    }
}

#[test]
fn moved_redirects_to_carried_address() {
    let mut r = router();
    let req = request(3000, set_k_v());
    let moved = format!("MOVED 3000 {}", B);
    match r.on_outcome(req, Outcome::Reply(RespValue::Error(moved))) {
        Step::Redirect(n) => {
            assert_eq!(n.addr, Some(B.to_string()));
            assert_eq!(n.retry, 1);
            assert_eq!(n.slot, 3000);
            assert_eq!(n.req, set_k_v());
            let (addr, connect) = send_to(r.dispatch(&n));
            assert_eq!(addr, B);
            assert!(!connect);
        }
        _ => panic!("expected a redirection"),
    }
}

#[test]
fn ask_sends_asking_then_resends_to_new_node() {
    let mut r = router();
    let req = request(3000, set_k_v());
    let ask = format!("ASK 3000 {}", B);
    match r.on_outcome(req, Outcome::Reply(RespValue::Error(ask))) {
        Step::Ask { asking, request } => {
            assert_eq!(asking.addr, Some(B.to_string()));
            assert_eq!(asking.retry, MAX_RETRY);
            assert_eq!(asking.req, RespValue::Array(vec![RespValue::BulkString(b"ASKING".to_vec())]));
            assert_eq!(request.retry, 1);
            // ASKING itself is never retried: a MOVED reply to it is delivered.
            match r.on_outcome(asking, Outcome::Reply(RespValue::Error(format!("MOVED 1 {}", C)))) {
                Step::Deliver(Ok(RespValue::Error(_))) => {}
                _ => panic!("ASKING must not be redirected"),
            }
            let next = ClusterRouter::resume_after_asking(
                request,
                Ok(RespValue::SimpleString("OK".to_string())),
            );
            assert_eq!(next.addr, Some(B.to_string()));
            assert_eq!(next.req, set_k_v());
            assert_eq!(next.retry, 1);
        }
        _ => panic!("expected ASK handling"),
    }
}

#[test]
fn failed_asking_falls_back_to_slot_map() {
    let req = Request { slot: 3000, addr: Some(B.to_string()), req: set_k_v(), retry: 1 };
    let next = ClusterRouter::resume_after_asking(req, Err(ClusterError::Disconnected));
    assert_eq!(next.addr, None);
    assert_eq!(next.retry, 1);
    let req = Request { slot: 3000, addr: Some(B.to_string()), req: set_k_v(), retry: 1 };
    let next = ClusterRouter::resume_after_asking(req, Ok(RespValue::Error("ERR".to_string())));
    assert_eq!(next.addr, None);
}

#[test]
fn clusterdown_clears_pool_and_recovers() {
    let mut r = router();
    let req = request(3000, set_k_v());
    let down = "CLUSTERDOWN The cluster is down".to_string();
    match r.on_outcome(req, Outcome::Reply(RespValue::Error(down))) {
        Step::Recover(n) => {
            assert_eq!(n.addr, None);
            assert_eq!(n.retry, 1);
            // The pool is empty: the bootstrap node needs a new connection.
            let (addr, connect) = r.begin_refresh();
            assert_eq!(addr, A);
            assert!(connect);
            let created = r.finish_refresh(Ok(vec![range(0, 16383, 7001)]));
            assert_eq!(created, vec![B.to_string()]);
            let (addr, connect) = send_to(r.dispatch(&n));
            assert_eq!(addr, B);
            assert!(!connect);
        }
        _ => panic!("expected recovery"),
    }
}

#[test]
fn not_connected_recovers_like_clusterdown() {
    let mut r = router();
    match r.on_outcome(request(3000, set_k_v()), Outcome::Failed(ClusterError::NotConnected)) {
        Step::Recover(n) => assert_eq!(n.retry, 1),
        _ => panic!("expected recovery"),
    }
    let spent = Request { slot: 3000, addr: None, req: set_k_v(), retry: MAX_RETRY };
    match r.on_outcome(spent, Outcome::Failed(ClusterError::NotConnected)) {
        Step::Deliver(Err(ClusterError::NotConnected)) => {}
        _ => panic!("expected NotConnected after the last retry"),
    }
}

#[test]
fn canceled_connection_delivers_disconnected() {
    let mut r = router();
    match r.on_outcome(request(3000, set_k_v()), Outcome::Canceled) {
        Step::Deliver(Err(ClusterError::Disconnected)) => {}
        _ => panic!("expected Disconnected"),
    }
}

#[test]
fn other_server_errors_are_delivered() {
    let mut r = router();
    let err = RespValue::Error("ERR wrong number of arguments".to_string());
    match r.on_outcome(request(3000, set_k_v()), Outcome::Reply(err.clone())) {
        Step::Deliver(Ok(v)) => assert_eq!(v, err),
        _ => panic!("expected delivery"),
    }
}

#[test]
fn malformed_moved_is_delivered_as_is() {
    let mut r = router();
    let err = RespValue::Error("MOVED 3000".to_string());
    match r.on_outcome(request(3000, set_k_v()), Outcome::Reply(err.clone())) {
        Step::Deliver(Ok(v)) => assert_eq!(v, err),
        _ => panic!("expected delivery"),
    }
}

#[test]
fn moved_loop_exhausts_retries() {
    let mut r = router();
    let mut req = request(3000, set_k_v());
    let moved = format!("MOVED 3000 {}", A);
    let mut redirects = 0;
    loop {
        let (addr, _) = send_to(r.dispatch(&req));
        assert_eq!(addr, A);
        match r.on_outcome(req, Outcome::Reply(RespValue::Error(moved.clone()))) {
            Step::Redirect(n) => {
                redirects += 1;
                req = n;
            }
            Step::Deliver(Ok(v)) => {
                assert_eq!(v, RespValue::Error(moved.clone()));
                break;
            }
            _ => panic!("unexpected step"),
        }
    }
    assert_eq!(redirects, MAX_RETRY);
}

#[test]
fn failed_refresh_keeps_slot_map() {
    let mut r = router();
    let created = r.finish_refresh(Err(ClusterError::Disconnected));
    assert!(created.is_empty());
    assert_eq!(r.lookup_slot(6000), Some(B.to_string()));
}

#[test]
fn refresh_replaces_slot_map_wholesale() {
    let mut r = router();
    r.finish_refresh(Ok(vec![range(0, 16383, 7002)]));
    assert_eq!(r.lookup_slot(0), Some(C.to_string()));
    assert_eq!(r.lookup_slot(6000), Some(C.to_string()));
}

#[test]
fn same_ranges_route_alike() {
    let a = router();
    let mut b = ClusterRouter::new(B.to_string());
    b.finish_refresh(Ok(three_nodes()));
    for slot in [0u16, 5460, 5461, 10922, 10923, 16383] {
        assert_eq!(a.lookup_slot(slot), b.lookup_slot(slot));
    }
}

#[test]
fn restart_forgets_slots() {
    let mut r = router();
    r.restarting();
    assert_eq!(r.lookup_slot(0), None);
    let (_, connect) = r.begin_refresh();
    assert!(connect);
}

struct MultiDel {
    slots: Vec<u16>,
}

// Outside the verifier the spec functions of the traits are plain methods.
impl RedisCommand for MultiDel {
    type Output = i64;

    fn serialized(&self, _r: RespValue) -> bool {
        true
    }

    fn deserialized(_resp: RespValue, _r: Result<i64, DeserializeError>) -> bool {
        true
    }

    fn serialize(self) -> RespValue {
        RespValue::Array(vec![RespValue::BulkString(b"DEL".to_vec())])
    }

    fn deserialize(resp: RespValue) -> Result<i64, DeserializeError> {
        match resp {
            RespValue::Integer(n) => Ok(n),
            resp => Err(DeserializeError::new("invalid response to DEL", resp)),
        }
    }
}

impl RedisClusterCommand for MultiDel {
    fn slot_spec(&self) -> Result<u16, vstd::seq::Seq<u16>> {
        Ok(0)
    }

    fn slot(&self) -> Result<u16, Vec<u16>> {
        if self.slots.len() == 1 {
            Ok(self.slots[0])
        } else {
            Err(self.slots.clone())
        }
    }
}

#[test]
fn different_slots_are_rejected() {
    match ClusterRouter::accept(MultiDel { slots: vec![100, 8000] }) {
        Err(ClusterError::DifferentSlots(s)) => assert_eq!(s, vec![100, 8000]),
        _ => panic!("expected DifferentSlots"),
    }
}

#[test]
fn accepted_command_starts_fresh() {
    let req = ClusterRouter::accept(DirectedTo { command: cluster_count_keys_in_slot(7), slot: 7 }).unwrap();
    assert_eq!(req.slot, 7);
    assert_eq!(req.retry, 0);
    assert_eq!(req.addr, None);
    assert_eq!(
        req.req,
        RespValue::Array(vec![
            RespValue::BulkString(b"CLUSTER".to_vec()),
            RespValue::BulkString(b"COUNTKEYSINSLOT".to_vec()),
            RespValue::BulkString(b"7".to_vec()),
        ])
    );
}

#[test]
fn finish_reads_reply_or_reports_it() {
    let ok = ClusterRouter::finish::<ClusterCountKeysInSlot>(Ok(RespValue::Integer(42)));
    assert_eq!(ok.unwrap(), 42);
    let bad = ClusterRouter::finish::<ClusterCountKeysInSlot>(Ok(RespValue::Nil));
    match bad {
        Err(ClusterError::Redis(RespError::RESP(m, Some(RespValue::Nil)))) => {
            assert_eq!(m, "invalid response to CLUSTER COUNTKEYSINSLOT")
        }
        _ => panic!("expected a RESP error"),
    }
    match ClusterRouter::finish::<ClusterCountKeysInSlot>(Err(ClusterError::Disconnected)) {
        Err(ClusterError::Disconnected) => {}
        _ => panic!("expected the error unchanged"),
    }
}

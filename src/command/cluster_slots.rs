use super::{bulk, is_request, lossy_text, request_of, text_of_bytes, DeserializeError, RedisCommand};
use crate::{Slots, SLOT_COUNT};
use vstd::prelude::*;

use redis_async::resp::RespValue;

verus! {

/// The bytes of a bulk string.
pub open spec fn bulk_bytes(r: RespValue) -> Option<Seq<u8>> {
    match r {
        RespValue::BulkString(b) => Some(b@),
        _ => None,
    }
}

/// The value of an integer reply.
pub open spec fn integer(r: RespValue) -> Option<int> {
    match r {
        RespValue::Integer(i) => Some(i as int),
        _ => None,
    }
}

/// A node descriptor: `[host, port, node-id]`, the node id optional; items
/// after it are not read.
pub open spec fn node_spec(r: RespValue) -> Option<(Seq<char>, u16, Option<Seq<char>>)> {
    match r {
        RespValue::Array(v) => {
            if v@.len() >= 2 && bulk_bytes(v@[0]) is Some && integer(v@[1]) is Some && 0 <= integer(
                v@[1],
            )->0 <= u16::MAX && (v@.len() == 2 || bulk_bytes(v@[2]) is Some) {
                Some(
                    (
                        lossy_text(bulk_bytes(v@[0])->0),
                        integer(v@[1])->0 as u16,
                        if v@.len() == 2 {
                            None
                        } else {
                            Some(lossy_text(bulk_bytes(v@[2])->0))
                        },
                    ),
                )
            } else {
                None
            }
        },
        _ => None,
    }
}

/// `n` holds the node that `t` describes.
pub open spec fn node_is(n: (String, u16, Option<String>), t: (Seq<char>, u16, Option<Seq<char>>)) -> bool {
    &&& n.0@ == t.0
    &&& n.1 == t.1
    &&& match (n.2, t.2) {
        (Some(a), Some(b)) => a@ == b,
        (None, None) => true,
        _ => false,
    }
}

/// A slot-range record: `[start, end, master, replicas...]` with
/// `start <= end < 16384` and at least one node.
pub open spec fn record_ok(r: RespValue) -> bool {
    match r {
        RespValue::Array(v) => {
            &&& v@.len() >= 3
            &&& integer(v@[0]) is Some
            &&& integer(v@[1]) is Some
            &&& 0 <= integer(v@[0])->0 <= integer(v@[1])->0 < SLOT_COUNT
            &&& forall|k: int| 2 <= k < v@.len() ==> (#[trigger] node_spec(v@[k])) is Some
        },
        _ => false,
    }
}

/// `s` holds the range that the record `r` describes.
pub open spec fn slots_is(s: Slots, r: RespValue) -> bool {
    match r {
        RespValue::Array(v) => {
            &&& s.start as int == integer(v@[0])->0
            &&& s.end as int == integer(v@[1])->0
            &&& s.nodes@.len() == v@.len() - 2
            &&& forall|k: int|
                0 <= k < s.nodes@.len() ==> node_is(#[trigger] s.nodes@[k], node_spec(v@[k + 2])->0)
        },
        _ => false,
    }
}

fn parse_node(r: &RespValue) -> (o: Option<(String, u16, Option<String>)>)
    ensures
        match node_spec(*r) {
            Some(t) => o matches Some(n) && node_is(n, t),
            None => o is None,
        },
{
    match r {
        RespValue::Array(v) => {
            if v.len() < 2 {
                return None;
            }
            let host = match &v[0] {
                RespValue::BulkString(b) => text_of_bytes(b),
                _ => {
                    return None;
                },
            };
            let port = match &v[1] {
                RespValue::Integer(p) => *p,
                _ => {
                    return None;
                },
            };
            if port < 0 || port > u16::MAX as i64 {
                return None;
            }
            let id = if v.len() == 2 {
                None
            } else {
                match &v[2] {
                    RespValue::BulkString(b) => Some(text_of_bytes(b)),
                    _ => {
                        return None;
                    },
                }
            };
            Some((host, port as u16, id))
        },
        _ => None,
    }
}

fn parse_record(r: &RespValue) -> (o: Option<Slots>)
    ensures
        record_ok(*r) ==> (o matches Some(s) && slots_is(s, *r)),
        !record_ok(*r) ==> o is None,
{
    match r {
        RespValue::Array(v) => {
            if v.len() < 3 {
                return None;
            }
            let start = match &v[0] {
                RespValue::Integer(i) => *i,
                _ => {
                    return None;
                },
            };
            let end = match &v[1] {
                RespValue::Integer(i) => *i,
                _ => {
                    return None;
                },
            };
            if start < 0 || start > end || end >= SLOT_COUNT as i64 {
                return None;
            }
            let n = v.len();
            let mut nodes: Vec<(String, u16, Option<String>)> = Vec::new();
            let mut k: usize = 2;
            while k < n
                invariant
                    match *r {
                        RespValue::Array(w) => w@ == v@,
                        _ => false,
                    },
                    integer(v@[0]) == Some(start as int),
                    integer(v@[1]) == Some(end as int),
                    0 <= start <= end < SLOT_COUNT,
                    n == v@.len(),
                    2 <= k <= n,
                    nodes@.len() == k - 2,
                    forall|j: int| 2 <= j < k ==> (#[trigger] node_spec(v@[j])) is Some,
                    forall|j: int|
                        0 <= j < nodes@.len() ==> node_is(#[trigger] nodes@[j], node_spec(v@[j + 2])->0),
                decreases n - k,
            {
                match parse_node(&v[k]) {
                    Some(node) => {
                        nodes.push(node);
                    },
                    None => {
                        proof {
                            assert(node_spec(v@[k as int]) is None);
                        }
                        return None;
                    },
                }
                k += 1;
            }
            Some(Slots { start: start as u16, end: end as u16, nodes })
        },
        _ => None,
    }
}

/// CLUSTER SLOTS command: the slot ranges of the cluster and their nodes.
#[derive(Debug)]
pub struct ClusterSlots;

/// CLUSTER SLOTS command.
pub fn cluster_slots() -> ClusterSlots {
    ClusterSlots
}

impl RedisCommand for ClusterSlots {
    type Output = Vec<Slots>;

    open spec fn serialized(&self, r: RespValue) -> bool {
        is_request(r, seq!["CLUSTER"@, "SLOTS"@])
    }

    open spec fn deserialized(resp: RespValue, r: Result<Vec<Slots>, DeserializeError>) -> bool {
        match resp {
            RespValue::Array(v) => {
                if forall|i: int| 0 <= i < v@.len() ==> #[trigger] record_ok(v@[i]) {
                    r matches Ok(out) && out@.len() == v@.len() && forall|i: int|
                        0 <= i < v@.len() ==> slots_is(#[trigger] out@[i], v@[i])
                } else {
                    r matches Err(e) && e.is("invalid response to CLUSTER SLOTS"@, resp)
                }
            },
            _ => r matches Err(e) && e.is("invalid response to CLUSTER SLOTS"@, resp),
        }
    }

    fn serialize(self) -> (r: RespValue) {
        let ghost words = seq!["CLUSTER"@, "SLOTS"@];
        let items = vec![bulk("CLUSTER"), bulk("SLOTS")];
        request_of(items, Ghost(words))
    }

    fn deserialize(resp: RespValue) -> (r: Result<Vec<Slots>, DeserializeError>) {
        let parsed = match &resp {
            RespValue::Array(v) => parse_records(v),
            _ => None,
        };
        match parsed {
            Some(out) => Ok(out),
            None => Err(DeserializeError::new("invalid response to CLUSTER SLOTS", resp)),
        }
    }
}

fn parse_records(v: &Vec<RespValue>) -> (o: Option<Vec<Slots>>)
    ensures
        (forall|i: int| 0 <= i < v@.len() ==> #[trigger] record_ok(v@[i])) ==> (o matches Some(out)
            && out@.len() == v@.len() && forall|i: int|
            0 <= i < v@.len() ==> slots_is(#[trigger] out@[i], v@[i])),
        !(forall|i: int| 0 <= i < v@.len() ==> #[trigger] record_ok(v@[i])) ==> o is None,
{
    let n = v.len();
    let mut out: Vec<Slots> = Vec::new();
    let mut i: usize = 0;
    while i < n
        invariant
            n == v@.len(),
            i <= n,
            out@.len() == i,
            forall|j: int| 0 <= j < i ==> #[trigger] record_ok(v@[j]),
            forall|j: int| 0 <= j < out@.len() ==> slots_is(#[trigger] out@[j], v@[j]),
        decreases n - i,
    {
        match parse_record(&v[i]) {
            Some(s) => {
                out.push(s);
            },
            None => {
                proof {
                    assert(!record_ok(v@[i as int]));
                }
                return None;
            },
        }
        i += 1;
    }
    Some(out)
}

} // verus!

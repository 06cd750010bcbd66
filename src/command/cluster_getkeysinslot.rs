use super::{bulk, is_request, lossy_text, request_of, text_of_bytes, DeserializeError, RedisCommand};
use crate::text::{decimal, i64_text, int_text, u64_text};
use vstd::prelude::*;

use redis_async::resp::RespValue;

verus! {

/// The key that an item of the reply names, where it is a string.
pub open spec fn key_of(r: RespValue) -> Option<Seq<char>> {
    match r {
        RespValue::SimpleString(s) => Some(s@),
        RespValue::BulkString(b) => Some(lossy_text(b@)),
        _ => None,
    }
}

/// CLUSTER GETKEYSINSLOT command.
#[derive(Debug)]
pub struct ClusterGetKeysInSlot {
    pub slot: u16,
    pub count: i64,
}

/// CLUSTER GETKEYSINSLOT command: up to `count` keys of `slot`.
pub fn cluster_get_keys_in_slot(slot: u16, count: i64) -> (r: ClusterGetKeysInSlot)
    ensures
        r.slot == slot,
        r.count == count,
{
    ClusterGetKeysInSlot { slot, count }
}

impl RedisCommand for ClusterGetKeysInSlot {
    type Output = Vec<String>;

    open spec fn serialized(&self, r: RespValue) -> bool {
        is_request(
            r,
            seq![
                "CLUSTER"@,
                "GETKEYSINSLOT"@,
                decimal(self.slot as nat),
                int_text(self.count as int),
            ],
        )
    }

    open spec fn deserialized(resp: RespValue, r: Result<Vec<String>, DeserializeError>) -> bool {
        match resp {
            RespValue::Array(v) => {
                if forall|i: int| 0 <= i < v@.len() ==> (#[trigger] key_of(v@[i])) is Some {
                    r matches Ok(out) && out@.len() == v@.len() && forall|i: int|
                        0 <= i < v@.len() ==> Some((#[trigger] out@[i])@) == key_of(v@[i])
                } else {
                    r matches Err(e) && exists|j: int|
                        0 <= j < v@.len() && (#[trigger] key_of(v@[j])) is None && (forall|k: int|
                            0 <= k < j ==> (#[trigger] key_of(v@[k])) is Some) && e.is(
                            "CLUSTER GETKEYSINSLOT: not a string"@,
                            v@[j],
                        )
                }
            },
            _ => r matches Err(e) && e.is("invalid response to CLUSTER GETKEYSINSLOT"@, resp),
        }
    }

    fn serialize(self) -> (r: RespValue) {
        let ghost words = seq![
            "CLUSTER"@,
            "GETKEYSINSLOT"@,
            decimal(self.slot as nat),
            int_text(self.count as int),
        ];
        let slot = u64_text(self.slot as u64);
        let count = i64_text(self.count);
        let items = vec![
            bulk("CLUSTER"),
            bulk("GETKEYSINSLOT"),
            bulk(slot.as_str()),
            bulk(count.as_str()),
        ];
        request_of(items, Ghost(words))
    }

    fn deserialize(resp: RespValue) -> (r: Result<Vec<String>, DeserializeError>) {
        let ghost orig = resp;
        match resp {
            RespValue::Array(v) => {
                let ghost items = v@;
                let mut v = v;
                let n = v.len();
                let mut out: Vec<String> = Vec::new();
                let mut i: usize = 0;
                while i < n
                    invariant
                        orig == resp,
                        match orig {
                            RespValue::Array(w) => w@ == items,
                            _ => false,
                        },
                        v@ == items,
                        n == items.len(),
                        i <= n,
                        out@.len() == i,
                        forall|k: int| 0 <= k < i ==> (#[trigger] key_of(items[k])) is Some,
                        forall|k: int| 0 <= k < i ==> Some((#[trigger] out@[k])@) == key_of(items[k]),
                    decreases n - i,
                {
                    match &v[i] {
                        RespValue::SimpleString(s) => {
                            out.push(s.clone());
                        },
                        RespValue::BulkString(b) => {
                            out.push(text_of_bytes(b));
                        },
                        _ => {
                            let bad = v.remove(i);
                            let e = DeserializeError::new("CLUSTER GETKEYSINSLOT: not a string", bad);
                            proof {
                                assert(bad == items[i as int]);
                                assert(key_of(items[i as int]) is None);
                                assert(exists|j: int|
                                    0 <= j < items.len() && (#[trigger] key_of(items[j])) is None
                                        && (forall|k: int| 0 <= k < j ==> (#[trigger] key_of(items[k])) is Some)
                                        && e.is("CLUSTER GETKEYSINSLOT: not a string"@, items[j]));
                            }
                            return Err(e);
                        },
                    }
                    i += 1;
                }
                Ok(out)
            },
            resp => Err(DeserializeError::new("invalid response to CLUSTER GETKEYSINSLOT", resp)),
        }
    }
}

} // verus!

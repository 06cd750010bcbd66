use super::{bulk, is_request, request_of, DeserializeError, RedisCommand};
use crate::text::{decimal, u64_text};
use vstd::prelude::*;

use redis_async::resp::RespValue;

verus! {

/// CLUSTER COUNTKEYSINSLOT command.
#[derive(Debug)]
pub struct ClusterCountKeysInSlot {
    pub slot: u16,
}

/// CLUSTER COUNTKEYSINSLOT command: the number of keys in `slot`.
pub fn cluster_count_keys_in_slot(slot: u16) -> (r: ClusterCountKeysInSlot)
    ensures
        r.slot == slot,
{
    ClusterCountKeysInSlot { slot }
}

impl RedisCommand for ClusterCountKeysInSlot {
    type Output = i64;

    open spec fn serialized(&self, r: RespValue) -> bool {
        is_request(r, seq!["CLUSTER"@, "COUNTKEYSINSLOT"@, decimal(self.slot as nat)])
    }

    open spec fn deserialized(resp: RespValue, r: Result<i64, DeserializeError>) -> bool {
        match resp {
            RespValue::Integer(v) => r == Ok::<i64, DeserializeError>(v),
            _ => r matches Err(e) && e.is("invalid response to CLUSTER COUNTKEYSINSLOT"@, resp),
        }
    }

    fn serialize(self) -> (r: RespValue) {
        let n = u64_text(self.slot as u64);
        let items = vec![bulk("CLUSTER"), bulk("COUNTKEYSINSLOT"), bulk(n.as_str())];
        let ghost words: Seq<Seq<char>> = seq!["CLUSTER"@, "COUNTKEYSINSLOT"@, decimal(self.slot as nat)];
        request_of(items, Ghost(words))
    }

    fn deserialize(resp: RespValue) -> (r: Result<i64, DeserializeError>) {
        match resp {
            RespValue::Integer(v) => Ok(v),
            resp => Err(DeserializeError::new("invalid response to CLUSTER COUNTKEYSINSLOT", resp)),
        }
    }
}

} // verus!

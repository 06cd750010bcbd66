use super::{bulk, is_request, is_simple_text, request_of, DeserializeError, RedisCommand};
use crate::text::same_text;
use vstd::prelude::*;

use redis_async::resp::RespValue;

verus! {

/// ASKING command: the next command may address a slot that the node is
/// importing.
#[derive(Debug)]
pub struct Asking;

/// ASKING command.
pub fn asking() -> Asking {
    Asking
}

impl RedisCommand for Asking {
    type Output = ();

    open spec fn serialized(&self, r: RespValue) -> bool {
        is_request(r, seq!["ASKING"@])
    }

    open spec fn deserialized(resp: RespValue, r: Result<(), DeserializeError>) -> bool {
        if is_simple_text(resp, "OK"@) {
            r is Ok
        } else {
            r matches Err(e) && e.is("invalid response to ASKING"@, resp)
        }
    }

    fn serialize(self) -> (r: RespValue) {
        let items = vec![bulk("ASKING")];
        let ghost words: Seq<Seq<char>> = seq!["ASKING"@];
        request_of(items, Ghost(words))
    }

    fn deserialize(resp: RespValue) -> (r: Result<(), DeserializeError>) {
        let ok = match &resp {
            RespValue::SimpleString(s) => same_text(s.as_str(), "OK"),
            _ => false,
        };
        if ok {
            Ok(())
        } else {
            Err(DeserializeError::new("invalid response to ASKING", resp))
        }
    }
}

} // verus!

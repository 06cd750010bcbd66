use super::{bulk, is_request, is_simple_text, request_of, DeserializeError, RedisCommand};
use crate::text::{decimal, i64_text, int_text, same_text, u64_text};
use vstd::prelude::*;

use redis_async::resp::RespValue;

verus! {

/// MIGRATE command: moves `key` to the node at `host:port`.
#[derive(Debug)]
pub struct Migrate {
    pub host: String,
    pub port: u16,
    pub key: String,
    pub db: i64,
    pub timeout: i64,
}

/// MIGRATE command.
pub fn migrate(host: String, port: u16, key: String, db: i64, timeout: i64) -> (r: Migrate)
    ensures
        r == (Migrate { host, port, key, db, timeout }),
{
    Migrate { host, port, key, db, timeout }
}

impl RedisCommand for Migrate {
    /// true if key exists, false if not.
    type Output = bool;

    open spec fn serialized(&self, r: RespValue) -> bool {
        is_request(
            r,
            seq![
                "MIGRATE"@,
                self.host@,
                decimal(self.port as nat),
                self.key@,
                int_text(self.db as int),
                int_text(self.timeout as int),
            ],
        )
    }

    open spec fn deserialized(resp: RespValue, r: Result<bool, DeserializeError>) -> bool {
        if is_simple_text(resp, "OK"@) {
            r == Ok::<bool, DeserializeError>(true)
        } else if is_simple_text(resp, "NOKEY"@) {
            r == Ok::<bool, DeserializeError>(false)
        } else {
            r matches Err(e) && e.is("Invalid response to MIGRATE"@, resp)
        }
    }

    fn serialize(self) -> (r: RespValue) {
        let ghost words = seq![
            "MIGRATE"@,
            self.host@,
            decimal(self.port as nat),
            self.key@,
            int_text(self.db as int),
            int_text(self.timeout as int),
        ];
        let port = u64_text(self.port as u64);
        let db = i64_text(self.db);
        let timeout = i64_text(self.timeout);
        let items = vec![
            bulk("MIGRATE"),
            bulk(self.host.as_str()),
            bulk(port.as_str()),
            bulk(self.key.as_str()),
            bulk(db.as_str()),
            bulk(timeout.as_str()),
        ];
        request_of(items, Ghost(words))
    }

    fn deserialize(resp: RespValue) -> (r: Result<bool, DeserializeError>) {
        let (ok, nokey) = match &resp {
            RespValue::SimpleString(s) => (same_text(s.as_str(), "OK"), same_text(s.as_str(), "NOKEY")),
            _ => (false, false),
        };
        if ok {
            Ok(true)
        } else if nokey {
            Ok(false)
        } else {
            Err(DeserializeError::new("Invalid response to MIGRATE", resp))
        }
    }
}

} // verus!

//! CLUSTER SETSLOT command.
use super::{bulk, is_request, is_simple_text, request_of, DeserializeError, RedisCommand};
use crate::text::{decimal, same_text, u64_text};
use vstd::prelude::*;

use redis_async::resp::RespValue;

verus! {

/// CLUSTER SETSLOT command: changes the state of a slot on a node.
#[derive(Debug)]
pub enum ClusterSetSlot {
    Importing { slot: u16, source_node_id: String },
    Migrating { slot: u16, dest_node_id: String },
    Stable { slot: u16 },
    Node { slot: u16, node_id: String },
}

/// The slot is being imported from the node `source_node_id`.
pub fn importing(slot: u16, source_node_id: String) -> (r: ClusterSetSlot)
    ensures
        r == (ClusterSetSlot::Importing { slot, source_node_id }),
{
    ClusterSetSlot::Importing { slot, source_node_id }
}

/// The slot is being migrated to the node `dest_node_id`.
pub fn migrating(slot: u16, dest_node_id: String) -> (r: ClusterSetSlot)
    ensures
        r == (ClusterSetSlot::Migrating { slot, dest_node_id }),
{
    ClusterSetSlot::Migrating { slot, dest_node_id }
}

/// The slot is neither imported nor migrated.
pub fn stable(slot: u16) -> (r: ClusterSetSlot)
    ensures
        r == (ClusterSetSlot::Stable { slot }),
{
    ClusterSetSlot::Stable { slot }
}

/// The slot is served by the node `node_id`.
pub fn node(slot: u16, node_id: String) -> (r: ClusterSetSlot)
    ensures
        r == (ClusterSetSlot::Node { slot, node_id }),
{
    ClusterSetSlot::Node { slot, node_id }
}

/// The words of a CLUSTER SETSLOT request.
pub open spec fn setslot_words(c: ClusterSetSlot) -> Seq<Seq<char>> {
    match c {
        ClusterSetSlot::Importing { slot, source_node_id } => seq![
            "CLUSTER"@,
            "SETSLOT"@,
            decimal(slot as nat),
            "IMPORTING"@,
            source_node_id@,
        ],
        ClusterSetSlot::Migrating { slot, dest_node_id } => seq![
            "CLUSTER"@,
            "SETSLOT"@,
            decimal(slot as nat),
            "MIGRATING"@,
            dest_node_id@,
        ],
        ClusterSetSlot::Stable { slot } => seq![
            "CLUSTER"@,
            "SETSLOT"@,
            decimal(slot as nat),
            "STABLE"@,
        ],
        ClusterSetSlot::Node { slot, node_id } => seq![
            "CLUSTER"@,
            "SETSLOT"@,
            decimal(slot as nat),
            "NODE"@,
            node_id@,
        ],
    }
}

impl RedisCommand for ClusterSetSlot {
    type Output = ();

    open spec fn serialized(&self, r: RespValue) -> bool {
        is_request(r, setslot_words(*self))
    }

    open spec fn deserialized(resp: RespValue, r: Result<(), DeserializeError>) -> bool {
        if is_simple_text(resp, "OK"@) {
            r is Ok
        } else {
            r matches Err(e) && e.is("invalid response to CLUSTER SETSLOT"@, resp)
        }
    }

    fn serialize(self) -> (r: RespValue) {
        let ghost words = setslot_words(self);
        match self {
            ClusterSetSlot::Importing { slot, source_node_id } => {
                let n = u64_text(slot as u64);
                let items = vec![
                    bulk("CLUSTER"),
                    bulk("SETSLOT"),
                    bulk(n.as_str()),
                    bulk("IMPORTING"),
                    bulk(source_node_id.as_str()),
                ];
                request_of(items, Ghost(words))
            },
            ClusterSetSlot::Migrating { slot, dest_node_id } => {
                let n = u64_text(slot as u64);
                let items = vec![
                    bulk("CLUSTER"),
                    bulk("SETSLOT"),
                    bulk(n.as_str()),
                    bulk("MIGRATING"),
                    bulk(dest_node_id.as_str()),
                ];
                request_of(items, Ghost(words))
            },
            ClusterSetSlot::Stable { slot } => {
                let n = u64_text(slot as u64);
                let items = vec![
                    bulk("CLUSTER"),
                    bulk("SETSLOT"),
                    bulk(n.as_str()),
                    bulk("STABLE"),
                ];
                request_of(items, Ghost(words))
            },
            ClusterSetSlot::Node { slot, node_id } => {
                let n = u64_text(slot as u64);
                let items = vec![
                    bulk("CLUSTER"),
                    bulk("SETSLOT"),
                    bulk(n.as_str()),
                    bulk("NODE"),
                    bulk(node_id.as_str()),
                ];
                request_of(items, Ghost(words))
            },
        }
    }

    fn deserialize(resp: RespValue) -> (r: Result<(), DeserializeError>) {
        let ok = match &resp {
            RespValue::SimpleString(s) => same_text(s.as_str(), "OK"),
            _ => false,
        };
        if ok {
            Ok(())
        } else {
            Err(DeserializeError::new("invalid response to CLUSTER SETSLOT", resp))
        }
    }
}

} // verus!

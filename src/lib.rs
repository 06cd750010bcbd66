//! A router for a sharded Redis cluster: it keeps the slot map, chooses the
//! node for each command, follows MOVED / ASK redirections, recovers from
//! CLUSTERDOWN and lost connections, and bounds the retries of each command.
use vstd::prelude::*;
use vstd::string::*;

pub mod cluster;
pub mod command;
pub mod text;

pub use cluster::{ClusterRouter, Dispatch, Outcome, Request, Step, MAX_RETRY};
pub use redis_async::error::Error as RespError;
pub use redis_async::resp::RespValue;

use crate::text::{decimal, push_decimal};

verus! {

/// The RESP value of redis-async, with its variants visible to proofs.
#[verifier::external_type_specification]
pub struct ExRespValue(redis_async::resp::RespValue);

/// The error of redis-async, with its variants visible to proofs.
#[verifier::external_type_specification]
pub struct ExRespError(redis_async::error::Error);

/// Why a redis-async connection failed.
#[verifier::external_type_specification]
pub struct ExConnectionReason(redis_async::error::ConnectionReason);

/// An I/O error, carried through unread.
#[verifier::external_type_specification]
#[verifier::external_body]
pub struct ExIoError(std::io::Error);

/// General purpose error of the cluster client.
#[derive(Debug)]
pub enum ClusterError {
    /// An error of the RESP layer, or a reply that the command could not read.
    Redis(RespError),
    /// The keys of a command lie in different slots; these are the slots.
    DifferentSlots(Vec<u16>),
    /// No node serves the slot, or the node is not connected.
    NotConnected,
    /// The connection was dropped before it replied.
    Disconnected,
}

/// The number of hash slots of a cluster.
pub const SLOT_COUNT: u16 = 16384;

/// The range of the slots served by a node
#[derive(Clone, Debug)]
pub struct Slots {
    pub start: u16,
    pub end: u16,
    /// IP address, port, id of nodes serving the slots.
    /// The first entry corresponds to the master node.
    pub nodes: Vec<(String, u16, Option<String>)>,
}

impl Slots {
    /// Whether `slot` lies in this range.
    pub open spec fn serves(&self, slot: u16) -> bool {
        self.start <= slot && slot <= self.end
    }

    /// `host:port` of the first node.
    pub open spec fn master_addr_spec(&self) -> Seq<char> {
        self.nodes@[0].0@ + seq![':'] + decimal(self.nodes@[0].1 as nat)
    }

    /// Address of the master node in `addr:port` format.
    pub fn master_addr(&self) -> (r: String)
        requires
            self.nodes@.len() > 0,
        ensures
            r@ == self.master_addr_spec(),
    {
        let mut s = self.nodes[0].0.clone();
        s.append(":");
        proof {
            reveal_strlit(":");
        }
        push_decimal(&mut s, self.nodes[0].1 as u64);
        s
    }
}

} // verus!

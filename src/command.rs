//! Redis command types.
use vstd::prelude::*;
use vstd::slice::slice_to_vec;
use vstd::string::*;
use vstd::utf8::{decode_utf8, encode_utf8, valid_utf8};

mod asking;
mod cluster_countkeysinslot;
mod cluster_getkeysinslot;
pub mod cluster_setslot;
mod cluster_slots;
mod migrate;
mod shutdown;

pub use asking::{asking, Asking};
pub use cluster_countkeysinslot::{cluster_count_keys_in_slot, ClusterCountKeysInSlot};
pub use cluster_getkeysinslot::{cluster_get_keys_in_slot, ClusterGetKeysInSlot};
pub use cluster_setslot::ClusterSetSlot;
pub use cluster_slots::{cluster_slots, ClusterSlots};
pub use migrate::{migrate, Migrate};
pub use shutdown::{shutdown, Shutdown};

use redis_async::resp::RespValue;

verus! {

/// `r` is a bulk string holding the UTF-8 encoding of `t`.
pub open spec fn is_bulk_text(r: RespValue, t: Seq<char>) -> bool {
    match r {
        RespValue::BulkString(b) => b@ == encode_utf8(t),
        _ => false,
    }
}

/// `r` is a request made of the given words, each sent as a bulk string.
pub open spec fn is_request(r: RespValue, words: Seq<Seq<char>>) -> bool {
    match r {
        RespValue::Array(v) => v@.len() == words.len() && forall|i: int|
            0 <= i < words.len() ==> #[trigger] is_bulk_text(v@[i], words[i]),
        _ => false,
    }
}

/// `r` is a simple string reply holding `t`.
pub open spec fn is_simple_text(r: RespValue, t: Seq<char>) -> bool {
    match r {
        RespValue::SimpleString(s) => s@ == t,
        _ => false,
    }
}

/// The request word `s` as a bulk string.
pub fn bulk(s: &str) -> (r: RespValue)
    ensures
        is_bulk_text(r, s@),
{
    RespValue::BulkString(slice_to_vec(s.as_bytes()))
}

/// A request of the given bulk strings.
pub(crate) fn request_of(items: Vec<RespValue>, words: Ghost<Seq<Seq<char>>>) -> (r: RespValue)
    requires
        items@.len() == words@.len(),
        forall|i: int| 0 <= i < words@.len() ==> is_bulk_text(items@[i], words@[i]),
    ensures
        is_request(r, words@),
{
    RespValue::Array(items)
}

/// The text that `String::from_utf8_lossy` makes of the bytes `b`.
pub uninterp spec fn lossy_text(b: Seq<u8>) -> Seq<char>;

/// Relies on `String::from_utf8_lossy`: the text of the bytes, each invalid
/// sequence replaced; valid UTF-8 is decoded as it stands.
#[verifier::external_body]
pub(crate) fn text_of_bytes(b: &Vec<u8>) -> (r: String)
    ensures
        r@ == lossy_text(b@),
        valid_utf8(b@) ==> r@ == decode_utf8(b@),
{
    String::from_utf8_lossy(b).into_owned()
}

/// The error type returned when deserializing a response from Redis failed.
#[derive(Clone, Debug)]
pub struct DeserializeError {
    /// Error message.
    pub message: String,
    /// The RESP value (optional).
    pub resp: Option<RespValue>,
}

impl DeserializeError {
    /// An error that carries the reply that could not be read.
    pub fn new(message: &str, resp: RespValue) -> (r: Self)
        ensures
            r.message@ == message@,
            r.resp == Some(resp),
    {
        DeserializeError { message: message.to_owned(), resp: Some(resp) }
    }

    /// An error without a reply.
    pub fn message(message: &str) -> (r: Self)
        ensures
            r.message@ == message@,
            r.resp is None,
    {
        DeserializeError { message: message.to_owned(), resp: None }
    }

    /// Whether this error holds the message `m` and the reply `resp`.
    pub open spec fn is(&self, m: Seq<char>, resp: RespValue) -> bool {
        self.message@ == m && self.resp == Some(resp)
    }
}

/// A Redis command.
pub trait RedisCommand: Sized {
    /// The Rust type of the output of this command.
    type Output;

    /// `r` is the request of this command.
    spec fn serialized(&self, r: RespValue) -> bool;

    /// `r` is what reading the reply `resp` gives.
    spec fn deserialized(resp: RespValue, r: Result<Self::Output, DeserializeError>) -> bool;

    /// Serialize the request into `RespValue`.
    fn serialize(self) -> (r: RespValue)
        ensures
            self.serialized(r),
    ;

    /// Deserialize the response from `RespValue`.
    fn deserialize(resp: RespValue) -> (r: Result<Self::Output, DeserializeError>)
        ensures
            Self::deserialized(resp, r),
    ;
}

/// A Redis Cluster command.
pub trait RedisClusterCommand: RedisCommand {
    /// The slot of the keys, or the distinct slots where they differ.
    spec fn slot_spec(&self) -> Result<u16, Seq<u16>>;

    /// Returns a single slot of the keys.
    ///
    /// The command will be sent to a node according to the slot.
    ///
    /// # Errors
    ///
    /// This method will return an error if the keys have different slots,
    /// as such a request may be rejected by Redis if the slots are served by different nodes.
    fn slot(&self) -> (r: Result<u16, Vec<u16>>)
        ensures
            match r {
                Ok(s) => self.slot_spec() == Ok::<u16, Seq<u16>>(s),
                Err(v) => self.slot_spec() == Err::<u16, Seq<u16>>(v@),
            },
    ;
}

/// A Redis command directed to a node serving the slot
#[derive(Debug)]
pub struct DirectedTo<C> {
    pub command: C,
    pub slot: u16,
}

impl<C: RedisCommand> RedisCommand for DirectedTo<C> {
    type Output = C::Output;

    open spec fn serialized(&self, r: RespValue) -> bool {
        self.command.serialized(r)
    }

    open spec fn deserialized(resp: RespValue, r: Result<Self::Output, DeserializeError>) -> bool {
        C::deserialized(resp, r)
    }

    fn serialize(self) -> (r: RespValue) {
        self.command.serialize()
    }

    fn deserialize(resp: RespValue) -> (r: Result<Self::Output, DeserializeError>) {
        C::deserialize(resp)
    }
}

impl<C: RedisCommand> RedisClusterCommand for DirectedTo<C> {
    open spec fn slot_spec(&self) -> Result<u16, Seq<u16>> {
        Ok(self.slot)
    }

    fn slot(&self) -> (r: Result<u16, Vec<u16>>) {
        Ok(self.slot)
    }
}

} // verus!

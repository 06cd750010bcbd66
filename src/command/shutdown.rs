use super::{bulk, is_request, request_of, DeserializeError, RedisCommand};
use vstd::prelude::*;

use redis_async::resp::RespValue;

verus! {

/// SHUTDOWN command.
#[derive(Debug)]
pub struct Shutdown {
    no_save: bool,
    save: bool,
}

/// The words of a SHUTDOWN request.
pub open spec fn shutdown_words(save: bool, no_save: bool) -> Seq<Seq<char>> {
    seq!["SHUTDOWN"@] + (if save {
        seq!["SAVE"@]
    } else {
        Seq::empty()
    }) + (if no_save {
        seq!["NOSAVE"@]
    } else {
        Seq::empty()
    })
}

impl Shutdown {
    /// Whether SAVE is requested.
    pub closed spec fn saves(&self) -> bool {
        self.save
    }

    /// Whether NOSAVE is requested.
    pub closed spec fn skips_save(&self) -> bool {
        self.no_save
    }

    /// Force Redis to not save data.
    pub fn no_save(self) -> (r: Self)
        ensures
            r.skips_save(),
            r.saves() == self.saves(),
    {
        Self { no_save: true, save: self.save }
    }

    /// Force Redis to save data.
    pub fn save(self) -> (r: Self)
        ensures
            r.saves(),
            r.skips_save() == self.skips_save(),
    {
        Self { save: true, no_save: self.no_save }
    }
}

/// SHUTDOWN command.
pub fn shutdown() -> (r: Shutdown)
    ensures
        !r.saves(),
        !r.skips_save(),
{
    Shutdown { no_save: false, save: false }
}

impl RedisCommand for Shutdown {
    /// Simple string reply *on error*.
    /// If the command succeeds, connection is closed.
    type Output = String;

    open spec fn serialized(&self, r: RespValue) -> bool {
        is_request(r, shutdown_words(self.saves(), self.skips_save()))
    }

    open spec fn deserialized(resp: RespValue, r: Result<String, DeserializeError>) -> bool {
        match resp {
            RespValue::SimpleString(s) => r == Ok::<String, DeserializeError>(s),
            _ => r matches Err(e) && e.is("Invalid response to SHUTDOWN"@, resp),
        }
    }

    fn serialize(self) -> (r: RespValue) {
        let ghost words = shutdown_words(self.saves(), self.skips_save());
        let mut payload = vec![bulk("SHUTDOWN")];
        if self.save {
            payload.push(bulk("SAVE"));
        }
        if self.no_save {
            payload.push(bulk("NOSAVE"));
        }
        proof {
            assert(payload@.len() == words.len());
            assert forall|i: int| 0 <= i < words.len() implies super::is_bulk_text(
                payload@[i],
                words[i],
            ) by {
                if self.save && self.no_save {
                    assert(words =~= seq!["SHUTDOWN"@, "SAVE"@, "NOSAVE"@]);
                } else if self.save {
                    assert(words =~= seq!["SHUTDOWN"@, "SAVE"@]);
                } else if self.no_save {
                    assert(words =~= seq!["SHUTDOWN"@, "NOSAVE"@]);
                } else {
                    assert(words =~= seq!["SHUTDOWN"@]);
                }
            }
        }
        request_of(payload, Ghost(words))
    }

    fn deserialize(resp: RespValue) -> (r: Result<String, DeserializeError>) {
        match resp {
            RespValue::SimpleString(s) => Ok(s),
            resp => Err(DeserializeError::new("Invalid response to SHUTDOWN", resp)),
        }
    }
}

} // verus!

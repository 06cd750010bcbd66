//! The cluster router: slot map, pool of node addresses, node selection and
//! the redirection / recovery rules applied to each outcome of a dispatch.
//!
//! The router decides; whoever drives it performs the I/O. For each request
//! it calls `dispatch`, sends the payload to the chosen node, hands the
//! outcome to `on_outcome`, and follows the returned `Step` until it is
//! `Step::Deliver`.
use vstd::prelude::*;

use crate::command::{
    is_request, is_simple_text, Asking, DeserializeError, RedisClusterCommand, RedisCommand,
};
use crate::text::{fields, has_prefix, same_text, starts_with, third_field};
use crate::{ClusterError, RespError, Slots};

use redis_async::resp::RespValue;

verus! {

/// The number of retries a command is allowed after its first dispatch.
pub const MAX_RETRY: usize = 16;

/// A command on its way through the router.
pub struct Request {
    /// The slot of the command's keys.
    pub slot: u16,
    /// The node to use instead of the slot map (after a redirection).
    pub addr: Option<String>,
    /// The serialized command.
    pub req: RespValue,
    /// How many dispatches of this command came before this one.
    pub retry: usize,
}

/// What a node connection gave back for one dispatch.
pub enum Outcome {
    /// The node replied (a server error is a reply too).
    Reply(RespValue),
    /// The connection reported an error.
    Failed(ClusterError),
    /// The connection was dropped before it replied.
    Canceled,
}

/// What to do with a request after the outcome of its dispatch.
pub enum Step {
    /// Hand this result to the caller; the request is finished.
    Deliver(Result<RespValue, ClusterError>),
    /// MOVED: dispatch the request at once, and refresh the slot map
    /// alongside without waiting for it.
    Redirect(Request),
    /// ASK: dispatch `asking` (ASKING to the new node, with no retries of its
    /// own), then continue with `resume_after_asking(request, result)`.
    Ask { asking: Request, request: Request },
    /// CLUSTERDOWN or a lost connection: the pool has been cleared; refresh
    /// the slot map, wait for it, then dispatch the request.
    Recover(Request),
}

/// Where a request goes.
pub enum Dispatch {
    /// Send the payload to `addr`; `connect` says that the pool had no
    /// connection to it, so one must be made.
    Send { addr: String, connect: bool },
    /// No node can be chosen: deliver this error.
    Fail(ClusterError),
}

/// The master address of the first range of `slots`, from index `i` on,
/// that serves `slot`.
pub open spec fn lookup_from(slots: Seq<Slots>, slot: u16, i: int) -> Option<Seq<char>>
    decreases slots.len() - i,
{
    if i < 0 || i >= slots.len() {
        None
    } else if slots[i].serves(slot) {
        Some(slots[i].master_addr_spec())
    } else {
        lookup_from(slots, slot, i + 1)
    }
}

/// The master address of the first range of `slots` that serves `slot`.
pub open spec fn lookup(slots: Seq<Slots>, slot: u16) -> Option<Seq<char>> {
    lookup_from(slots, slot, 0)
}

/// `n` may follow `req`: retries were left, and `n` is the same command
/// with one retry more.
pub open spec fn follows(req: Request, n: Request) -> bool {
    &&& req.retry < MAX_RETRY
    &&& n.slot == req.slot
    &&& n.req == req.req
    &&& n.retry == req.retry + 1
}

/// `n` is the next dispatch of `req`, with the given forced address.
pub open spec fn retried(req: Request, n: Request, addr: Option<Seq<char>>) -> bool {
    &&& follows(req, n)
    &&& match addr {
        Some(a) => n.addr matches Some(x) && x@ == a,
        None => n.addr is None,
    }
}

/// `a` is the ASKING request sent to `addr` for a command on `slot`: it is
/// never retried.
pub open spec fn asking_for(a: Request, slot: u16, addr: Seq<char>) -> bool {
    &&& a.slot == slot
    &&& a.addr matches Some(x) && x@ == addr
    &&& is_request(a.req, seq!["ASKING"@])
    &&& a.retry == MAX_RETRY
}

/// The step that follows `outcome` for `req`.
pub open spec fn step_spec(req: Request, outcome: Outcome, s: Step) -> bool {
    let budget = req.retry < MAX_RETRY;
    match outcome {
        Outcome::Reply(RespValue::Error(e)) => {
            if budget && starts_with(e@, "MOVED"@) && fields(e@).len() >= 3 {
                s matches Step::Redirect(n) && retried(req, n, Some(fields(e@)[2]))
            } else if budget && starts_with(e@, "MOVED"@) {
                s == Step::Deliver(Ok::<RespValue, ClusterError>(RespValue::Error(e)))
            } else if budget && starts_with(e@, "ASK"@) && fields(e@).len() >= 3 {
                s matches Step::Ask { asking, request } && retried(req, request, Some(fields(e@)[2]))
                    && asking_for(asking, req.slot, fields(e@)[2])
            } else if budget && starts_with(e@, "ASK"@) {
                s == Step::Deliver(Ok::<RespValue, ClusterError>(RespValue::Error(e)))
            } else if budget && starts_with(e@, "CLUSTERDOWN"@) {
                s matches Step::Recover(n) && retried(req, n, None)
            } else {
                s == Step::Deliver(Ok::<RespValue, ClusterError>(RespValue::Error(e)))
            }
        },
        Outcome::Reply(v) => s == Step::Deliver(Ok::<RespValue, ClusterError>(v)),
        Outcome::Failed(ClusterError::NotConnected) => {
            if budget {
                s matches Step::Recover(n) && retried(req, n, None)
            } else {
                s == Step::Deliver(Err::<RespValue, ClusterError>(ClusterError::NotConnected))
            }
        },
        Outcome::Failed(e) => s == Step::Deliver(Err::<RespValue, ClusterError>(e)),
        Outcome::Canceled => s == Step::Deliver(
            Err::<RespValue, ClusterError>(ClusterError::Disconnected),
        ),
    }
}

/// The request that a step dispatches next, if any.
pub open spec fn next_of(s: Step) -> Option<Request> {
    match s {
        Step::Deliver(_) => None,
        Step::Redirect(n) => Some(n),
        Step::Ask { asking: _, request } => Some(request),
        Step::Recover(n) => Some(n),
    }
}

/// The request as `accept` makes it from a command with slot `slot` and
/// payload `payload`.
pub open spec fn fresh(r: Request, slot: u16, payload: RespValue) -> bool {
    r.slot == slot && r.addr is None && r.req == payload && r.retry == 0
}

/// The router's state: the bootstrap address, the slot map and the pool of
/// node addresses that have a connection.
pub struct ClusterRouter {
    initial_addr: String,
    slots: Vec<Slots>,
    connections: Vec<String>,
}

impl ClusterRouter {
    /// The bootstrap address.
    pub closed spec fn initial(&self) -> Seq<char> {
        self.initial_addr@
    }

    /// The slot map.
    pub closed spec fn slot_map(&self) -> Seq<Slots> {
        self.slots@
    }

    /// The addresses of the pool, in the order they were added.
    pub closed spec fn pool(&self) -> Seq<Seq<char>> {
        self.connections@.map_values(|c: String| c@)
    }

    /// At most one connection per address, and a master in every range.
    pub open spec fn wf(&self) -> bool {
        &&& self.pool().no_duplicates()
        &&& forall|i: int| 0 <= i < self.slot_map().len() ==> (#[trigger] self.slot_map()[i]).nodes@.len() > 0
    }

    /// The pool after making sure that `a` has a connection.
    pub open spec fn pool_with(&self, a: Seq<char>) -> Seq<Seq<char>> {
        if self.pool().contains(a) {
            self.pool()
        } else {
            self.pool().push(a)
        }
    }

    /// The node that `req` goes to: its forced address, else the slot map's.
    pub open spec fn target(&self, req: Request) -> Option<Seq<char>> {
        match req.addr {
            Some(a) => Some(a@),
            None => lookup(self.slot_map(), req.slot),
        }
    }

    /// A router for the cluster reached through `addr`, with an empty slot
    /// map and an empty pool.
    pub fn new(addr: String) -> (r: Self)
        ensures
            r.wf(),
            r.initial() == addr@,
            r.slot_map().len() == 0,
            r.pool().len() == 0,
    {
        let r = ClusterRouter { initial_addr: addr, slots: Vec::new(), connections: Vec::new() };
        proof {
            assert(r.pool() =~= Seq::<Seq<char>>::empty());
        }
        r
    }

    /// Forgets the slot map and the pool, as on a restart.
    pub fn restarting(&mut self)
        ensures
            final(self).wf(),
            final(self).initial() == old(self).initial(),
            final(self).slot_map().len() == 0,
            final(self).pool().len() == 0,
    {
        self.slots.clear();
        self.connections.clear();
        proof {
            assert(self.pool() =~= Seq::<Seq<char>>::empty());
        }
    }

    /// Makes sure that `addr` has a connection; true where it had none.
    fn connect(&mut self, addr: &String) -> (created: bool)
        requires
            old(self).wf(),
        ensures
            final(self).wf(),
            final(self).initial() == old(self).initial(),
            final(self).slot_map() == old(self).slot_map(),
            created == !old(self).pool().contains(addr@),
            final(self).pool() == old(self).pool_with(addr@),
    {
        let n = self.connections.len();
        let mut i: usize = 0;
        while i < n
            invariant
                *self == *old(self),
                old(self).wf(),
                n == self.connections@.len(),
                i <= n,
                forall|j: int| 0 <= j < i ==> self.pool()[j] != addr@,
            decreases n - i,
        {
            if same_text(self.connections[i].as_str(), addr.as_str()) {
                proof {
                    assert(self.pool()[i as int] == addr@);
                }
                return false;
            }
            i += 1;
        }
        let ghost before = self.pool();
        proof {
            assert(!before.contains(addr@)) by {
                if before.contains(addr@) {
                    let j = choose|j: int| 0 <= j < before.len() && before[j] == addr@;
                    assert(self.pool()[j] != addr@);
                }
            }
        }
        self.connections.push(addr.clone());
        proof {
            assert(self.pool() =~= before.push(addr@));
            assert forall|a: int, b: int| 0 <= a < b < self.pool().len() implies self.pool()[a]
                != self.pool()[b] by {
                if b == before.len() {
                    assert(before[a] == self.pool()[a]);
                } else {
                    assert(before[a] != before[b]);
                }
            }
            assert(self.pool().no_duplicates());
            assert(self.slot_map() == old(self).slot_map());
        }
        true
    }

    /// The master address of the first range of the slot map serving `slot`.
    pub fn lookup_slot(&self, slot: u16) -> (r: Option<String>)
        requires
            self.wf(),
        ensures
            match lookup(self.slot_map(), slot) {
                Some(a) => r matches Some(x) && x@ == a,
                None => r is None,
            },
    {
        let n = self.slots.len();
        let mut i: usize = 0;
        while i < n
            invariant
                self.wf(),
                n == self.slot_map().len(),
                i <= n,
                lookup(self.slot_map(), slot) == lookup_from(self.slot_map(), slot, i as int),
            decreases n - i,
        {
            let s = &self.slots[i];
            if s.start <= slot && slot <= s.end {
                proof {
                    assert(self.slot_map()[i as int].nodes@.len() > 0);
                }
                return Some(s.master_addr());
            }
            i += 1;
        }
        None
    }

    /// Chooses the node for `req`: its forced address if set, else the
    /// master of the first range serving its slot. Makes sure that the
    /// chosen node has a connection. Where no range serves the slot, the
    /// request fails with `NotConnected`.
    pub fn dispatch(&mut self, req: &Request) -> (d: Dispatch)
        requires
            old(self).wf(),
        ensures
            final(self).wf(),
            final(self).initial() == old(self).initial(),
            final(self).slot_map() == old(self).slot_map(),
            match old(self).target(*req) {
                None => d == Dispatch::Fail(ClusterError::NotConnected) && final(self).pool()
                    == old(self).pool(),
                Some(a) => d matches Dispatch::Send { addr, connect } && addr@ == a && connect
                    == !old(self).pool().contains(a) && final(self).pool() == old(
                    self,
                ).pool_with(a),
            },
    {
        let addr = match &req.addr {
            Some(a) => a.clone(),
            None => match self.lookup_slot(req.slot) {
                Some(a) => a,
                None => {
                    return Dispatch::Fail(ClusterError::NotConnected);
                },
            },
        };
        let connect = self.connect(&addr);
        Dispatch::Send { addr, connect }
    }

    /// Applies the redirection and recovery rules to the outcome of a
    /// dispatch of `req`. On CLUSTERDOWN or a lost connection, with retries
    /// left, the pool is cleared.
    pub fn on_outcome(&mut self, req: Request, outcome: Outcome) -> (s: Step)
        requires
            old(self).wf(),
        ensures
            final(self).wf(),
            final(self).initial() == old(self).initial(),
            final(self).slot_map() == old(self).slot_map(),
            step_spec(req, outcome, s),
            s is Recover ==> final(self).pool().len() == 0,
            !(s is Recover) ==> final(self).pool() == old(self).pool(),
    {
        let Request { slot, addr: _, req: payload, retry } = req;
        match outcome {
            Outcome::Reply(RespValue::Error(e)) => {
                if retry < MAX_RETRY {
                    if has_prefix(e.as_str(), "MOVED") {
                        return match third_field(e.as_str()) {
                            Some(to) => Step::Redirect(
                                Request { slot, addr: Some(to), req: payload, retry: retry + 1 },
                            ),
                            None => Step::Deliver(Ok(RespValue::Error(e))),
                        };
                    }
                    if has_prefix(e.as_str(), "ASK") {
                        return match third_field(e.as_str()) {
                            Some(to) => {
                                let asking_req = Request {
                                    slot,
                                    addr: Some(to.clone()),
                                    req: Asking.serialize(),
                                    retry: MAX_RETRY,
                                };
                                let request = Request {
                                    slot,
                                    addr: Some(to),
                                    req: payload,
                                    retry: retry + 1,
                                };
                                Step::Ask { asking: asking_req, request }
                            },
                            None => Step::Deliver(Ok(RespValue::Error(e))),
                        };
                    }
                    if has_prefix(e.as_str(), "CLUSTERDOWN") {
                        self.clear_pool();
                        return Step::Recover(Request { slot, addr: None, req: payload, retry: retry + 1 });
                    }
                }
                Step::Deliver(Ok(RespValue::Error(e)))
            },
            Outcome::Reply(v) => Step::Deliver(Ok(v)),
            Outcome::Failed(ClusterError::NotConnected) => {
                if retry < MAX_RETRY {
                    self.clear_pool();
                    Step::Recover(Request { slot, addr: None, req: payload, retry: retry + 1 })
                } else {
                    Step::Deliver(Err(ClusterError::NotConnected))
                }
            },
            Outcome::Failed(e) => Step::Deliver(Err(e)),
            Outcome::Canceled => Step::Deliver(Err(ClusterError::Disconnected)),
        }
    }

    /// Makes sure that the bootstrap address has a connection, and returns
    /// it with whether a connection must be made; CLUSTER SLOTS goes there.
    pub fn begin_refresh(&mut self) -> (r: (String, bool))
        requires
            old(self).wf(),
        ensures
            final(self).wf(),
            final(self).initial() == old(self).initial(),
            final(self).slot_map() == old(self).slot_map(),
            r.0@ == old(self).initial(),
            r.1 == !old(self).pool().contains(old(self).initial()),
            final(self).pool() == old(self).pool_with(old(self).initial()),
    {
        let addr = self.initial_addr.clone();
        let created = self.connect(&addr);
        (addr, created)
    }

    /// Takes the result of CLUSTER SLOTS. On success the slot map is replaced
    /// by the received ranges in one assignment, and every master gets a
    /// connection; the addresses that had none are returned, in the order
    /// they were added. On failure nothing changes.
    pub fn finish_refresh(&mut self, res: Result<Vec<Slots>, ClusterError>) -> (created: Vec<String>)
        requires
            old(self).wf(),
            res matches Ok(v) ==> forall|i: int| 0 <= i < v@.len() ==> (#[trigger] v@[i]).nodes@.len() > 0,
        ensures
            final(self).wf(),
            final(self).initial() == old(self).initial(),
            final(self).pool() == old(self).pool() + created@.map_values(|c: String| c@),
            match res {
                Ok(v) => {
                    &&& final(self).slot_map() == v@
                    &&& forall|i: int| 0 <= i < v@.len() ==> final(self).pool().contains(
                        (#[trigger] v@[i]).master_addr_spec(),
                    )
                },
                Err(_) => final(self).slot_map() == old(self).slot_map() && created@.len() == 0,
            },
            forall|slot: u16|
                #![trigger lookup(final(self).slot_map(), slot)]
                lookup(final(self).slot_map(), slot) == match res {
                    Ok(v) => lookup(v@, slot),
                    Err(_) => lookup(old(self).slot_map(), slot),
                },
    {
        let mut created: Vec<String> = Vec::new();
        match res {
            Ok(v) => {
                let n = v.len();
                let mut i: usize = 0;
                while i < n
                    invariant
                        n == v@.len(),
                        i <= n,
                        forall|j: int| 0 <= j < v@.len() ==> (#[trigger] v@[j]).nodes@.len() > 0,
                        self.wf(),
                        self.initial() == old(self).initial(),
                        self.slot_map() == old(self).slot_map(),
                        self.pool() == old(self).pool() + created@.map_values(|c: String| c@),
                        forall|j: int| 0 <= j < i ==> self.pool().contains(
                            (#[trigger] v@[j]).master_addr_spec(),
                        ),
                    decreases n - i,
                {
                    let addr = v[i].master_addr();
                    let ghost before = self.pool();
                    let ghost a = addr@;
                    let ghost made = created@.map_values(|c: String| c@);
                    if self.connect(&addr) {
                        created.push(addr);
                        proof {
                            assert(created@.map_values(|c: String| c@) =~= made.push(addr@));
                            assert(self.pool() =~= old(self).pool() + created@.map_values(
                                |c: String| c@,
                            ));
                        }
                    }
                    proof {
                        if !before.contains(a) {
                            assert(self.pool()[before.len() as int] == a);
                        }
                        assert(self.pool().contains(a));
                        assert forall|j: int| 0 <= j < i + 1 implies self.pool().contains(
                            (#[trigger] v@[j]).master_addr_spec(),
                        ) by {
                            if j < i {
                                let k = choose|k: int|
                                    0 <= k < before.len() && before[k] == v@[j].master_addr_spec();
                                assert(self.pool()[k] == before[k]);
                            }
                        }
                    }
                    i += 1;
                }
                self.slots = v;
                proof {
                    assert(self.slot_map() == v@);
                }
            },
            Err(_) => {
                proof {
                    assert(created@.map_values(|c: String| c@) =~= Seq::<Seq<char>>::empty());
                    assert(old(self).pool() + Seq::<Seq<char>>::empty() =~= old(self).pool());
                }
            },
        }
        created
    }

    /// Turns a command into a request, or refuses it without any dispatch
    /// where its keys lie in different slots.
    pub fn accept<C: RedisClusterCommand>(cmd: C) -> (r: Result<Request, ClusterError>)
        ensures
            match cmd.slot_spec() {
                Ok(s) => r matches Ok(q) && fresh(q, s, q.req) && cmd.serialized(q.req),
                Err(v) => r matches Err(ClusterError::DifferentSlots(w)) && w@ == v,
            },
    {
        let slot = match cmd.slot() {
            Ok(s) => s,
            Err(v) => {
                return Err(ClusterError::DifferentSlots(v));
            },
        };
        let req = cmd.serialize();
        Ok(Request { slot, addr: None, req, retry: 0 })
    }

    /// Reads the delivered result as the command's output; a reply the
    /// command cannot read becomes a RESP error carrying its message and the
    /// reply.
    pub fn finish<C: RedisCommand>(res: Result<RespValue, ClusterError>) -> (r: Result<
        C::Output,
        ClusterError,
    >)
        ensures
            match res {
                Ok(v) => match r {
                    Ok(o) => C::deserialized(v, Ok(o)),
                    Err(ClusterError::Redis(RespError::RESP(m, x))) => C::deserialized(
                        v,
                        Err((DeserializeError { message: m, resp: x })),
                    ),
                    Err(_) => false,
                },
                Err(e) => r == Err::<C::Output, ClusterError>(e),
            },
    {
        match res {
            Ok(v) => match C::deserialize(v) {
                Ok(o) => Ok(o),
                Err(e) => Err(ClusterError::Redis(RespError::RESP(e.message, e.resp))),
            },
            Err(e) => Err(e),
        }
    }

    /// Continues an ASK redirection once ASKING has returned: where it was
    /// accepted the request keeps the new node, else the slot map chooses.
    pub fn resume_after_asking(request: Request, asked: Result<RespValue, ClusterError>) -> (r:
        Request)
        ensures
            r.slot == request.slot,
            r.req == request.req,
            r.retry == request.retry,
            if asked matches Ok(v) && is_simple_text(v, "OK"@) {
                r.addr == request.addr
            } else {
                r.addr is None
            },
    {
        let accepted = match asked {
            Ok(v) => match Asking::deserialize(v) {
                Ok(()) => true,
                Err(_) => false,
            },
            Err(_) => false,
        };
        if accepted {
            request
        } else {
            Request { slot: request.slot, addr: None, req: request.req, retry: request.retry }
        }
    }

    fn clear_pool(&mut self)
        requires
            old(self).wf(),
        ensures
            final(self).wf(),
            final(self).initial() == old(self).initial(),
            final(self).slot_map() == old(self).slot_map(),
            final(self).pool().len() == 0,
    {
        self.connections.clear();
        proof {
            assert(self.pool() =~= Seq::<Seq<char>>::empty());
            assert(self.pool().no_duplicates());
            assert(self.slot_map() == old(self).slot_map());
        }
    }
}

/// A step that dispatches again hands on a retry of the same command, and
/// once the retries are spent every outcome is delivered.
pub proof fn lemma_step_continues(req: Request, outcome: Outcome, s: Step)
    requires
        step_spec(req, outcome, s),
    ensures
        next_of(s) matches Some(n) ==> follows(req, n),
        req.retry >= MAX_RETRY ==> s is Deliver,
{
}

/// The dispatches of one command form a chain in which each follows the one
/// before. Such a chain holds at most `MAX_RETRY + 1` dispatches counted from
/// `accept`, where no retry is used yet. An ASKING request starts with its
/// retries spent, so it is dispatched once.
pub proof fn lemma_retry_bound(chain: Seq<Request>)
    requires
        chain.len() > 0,
        chain[0].retry <= MAX_RETRY,
        forall|i: int| 0 <= i < chain.len() - 1 ==> follows(#[trigger] chain[i], chain[i + 1]),
    ensures
        forall|i: int| 0 <= i < chain.len() ==> (#[trigger] chain[i]).retry == chain[0].retry + i,
        chain[0].retry + chain.len() <= MAX_RETRY + 1,
    decreases chain.len(),
{
    if chain.len() > 1 {
        let prefix = chain.drop_last();
        assert forall|i: int| 0 <= i < prefix.len() - 1 implies follows(
            #[trigger] prefix[i],
            prefix[i + 1],
        ) by {
            assert(follows(chain[i], chain[i + 1]));
        }
        lemma_retry_bound(prefix);
        let last = chain.len() - 1;
        assert(follows(chain[last - 1], chain[last]));
        assert(prefix[last - 1] == chain[last - 1]);
        assert forall|i: int| 0 <= i < chain.len() implies (#[trigger] chain[i]).retry == chain[0].retry
            + i by {
            if i < last {
                assert(prefix[i] == chain[i]);
            }
        }
    }
}

/// The run of one command: its requests, the outcome of each dispatch and
/// the step taken on it, where every step but the last dispatches the next
/// request. No step before the last delivers, and a run that has spent its
/// retries ends by delivering: the caller's result is handed over once.
pub proof fn lemma_delivered_once(chain: Seq<Request>, outcomes: Seq<Outcome>, steps: Seq<Step>)
    requires
        chain.len() > 0,
        chain[0].retry <= MAX_RETRY,
        outcomes.len() == chain.len(),
        steps.len() == chain.len(),
        forall|i: int| 0 <= i < chain.len() ==> step_spec(chain[i], outcomes[i], #[trigger] steps[i]),
        forall|i: int| 0 <= i < chain.len() - 1 ==> next_of(#[trigger] steps[i]) == Some(chain[i + 1]),
    ensures
        forall|i: int| #![trigger steps[i]] 0 <= i < chain.len() - 1 ==> !(steps[i] is Deliver),
        chain[0].retry + chain.len() <= MAX_RETRY + 1,
        chain[0].retry + chain.len() == MAX_RETRY + 1 ==> steps.last() is Deliver,
{
    assert forall|i: int| 0 <= i < chain.len() - 1 implies follows(#[trigger] chain[i], chain[i + 1]) by {
        assert(step_spec(chain[i], outcomes[i], steps[i]));
        lemma_step_continues(chain[i], outcomes[i], steps[i]);
        assert(next_of(steps[i]) == Some(chain[i + 1]));
    }
    lemma_retry_bound(chain);
    let last = chain.len() - 1;
    assert(step_spec(chain[last], outcomes[last], steps[last]));
    lemma_step_continues(chain[last], outcomes[last], steps[last]);
    assert forall|i: int| #![trigger steps[i]] 0 <= i < chain.len() - 1 implies !(steps[i] is Deliver) by {
        assert(next_of(steps[i]) == Some(chain[i + 1]));
    }
}

/// Two routers whose slot maps were both set from the same ranges (say, the
/// reply of CLUSTER SLOTS through one of them, fed to a fresh one) send every
/// request without a forced address to the same node.
pub proof fn lemma_same_routing(a: ClusterRouter, b: ClusterRouter, v: Seq<Slots>)
    requires
        a.slot_map() == v,
        b.slot_map() == v,
    ensures
        forall|req: Request| req.addr is None ==> #[trigger] a.target(req) == b.target(req),
        forall|slot: u16| #[trigger] lookup(a.slot_map(), slot) == lookup(v, slot),
{
}

} // verus!

use crate::text::str_eq;
use crate::types::SidecarError;
use vstd::prelude::*;
use vstd::string::StringExecFns;

verus! {

#[verifier::external_type_specification]
#[verifier::external_body]
pub struct ExValue(serde_json::Value);

/// The protocol tag every envelope carries.
pub const PROTOCOL_VERSION: &'static str = "2.0";

/// A request to the engine.
#[derive(Debug)]
pub struct RpcRequest {
    pub jsonrpc: String,
    pub method: String,
    pub params: serde_json::Value,
    pub id: u64,
}

/// A response of the engine, answering the request of the same id.
#[derive(Debug)]
pub struct RpcResponse {
    pub jsonrpc: String,
    pub result: serde_json::Value,
    pub id: u64,
}

/// The outstanding requests of one bridge, by id.
pub struct CallTable {
    connected: bool,
    next_id: u64,
    pending: Vec<u64>,
}

pub struct CallTableView {
    /// Whether an engine endpoint is published.
    pub connected: bool,
    /// The id the next request gets.
    pub next_id: u64,
    /// Ids of the requests that await a response.
    pub pending: Set<u64>,
}

impl View for CallTable {
    type V = CallTableView;

    closed spec fn view(&self) -> CallTableView {
        CallTableView {
            connected: self.connected,
            next_id: self.next_id,
            pending: self.pending@.to_set(),
        }
    }
}

impl CallTableView {
    /// Every outstanding id was handed out before.
    pub open spec fn wf(self) -> bool {
        forall|id: u64| self.pending.contains(id) ==> id < self.next_id
    }

    /// Whether a new request is admitted.
    pub open spec fn admits_call(self) -> bool {
        self.connected && self.next_id < u64::MAX
    }

    /// The table after a request was sent.
    pub open spec fn after_call(self) -> CallTableView {
        CallTableView {
            next_id: (self.next_id + 1) as u64,
            pending: self.pending.insert(self.next_id),
            ..self
        }
    }

    /// Whether a response with this tag and id answers an outstanding request.
    pub open spec fn accepts(self, tag: Seq<char>, id: u64) -> bool {
        tag == PROTOCOL_VERSION@ && self.pending.contains(id)
    }

    /// The table after a response: the request it answers, and no other,
    /// is no longer outstanding; a response that answers nothing changes
    /// nothing.
    pub open spec fn after_response(self, tag: Seq<char>, id: u64) -> CallTableView {
        if self.accepts(tag, id) {
            CallTableView { pending: self.pending.remove(id), ..self }
        } else {
            self
        }
    }

    /// The table after the endpoint was lost: nothing outstanding, nothing admitted.
    pub open spec fn after_disconnect(self) -> CallTableView {
        CallTableView { connected: false, pending: Set::empty(), ..self }
    }
}

impl CallTable {
    /// A well-formed table: no id outstanding twice, none not yet handed out.
    pub closed spec fn wf(&self) -> bool {
        &&& self.pending@.no_duplicates()
        &&& self@.wf()
    }

    /// A table with no endpoint and nothing outstanding.
    pub fn new() -> (r: CallTable)
        ensures
            r.wf(),
            !r@.connected,
            r@.pending == Set::<u64>::empty(),
            r@.next_id == 1,
    {
        let r = CallTable { connected: false, next_id: 1, pending: Vec::new() };
        assert(r.pending@.to_set() =~= Set::<u64>::empty());
        r
    }

    /// An engine endpoint was published.
    pub fn connect(&mut self)
        requires
            old(self).wf(),
        ensures
            final(self).wf(),
            final(self)@ == (CallTableView { connected: true, ..old(self)@ }),
    {
        self.connected = true;
    }

    pub fn is_connected(&self) -> (r: bool)
        ensures
            r == self@.connected,
    {
        self.connected
    }

    /// Where `id` stands among the outstanding requests.
    fn position(&self, id: u64) -> (r: Option<usize>)
        ensures
            r matches Some(i) ==> i < self.pending@.len() && self.pending@[i as int] == id,
            r is None ==> !self.pending@.contains(id),
    {
        let mut i: usize = 0;
        while i < self.pending.len()
            invariant
                i <= self.pending@.len(),
                forall|j: int| 0 <= j < i ==> self.pending@[j] != id,
            decreases self.pending@.len() - i,
        {
            if self.pending[i] == id {
                return Some(i);
            }
            i = i + 1;
        }
        None
    }

    /// Whether the request of this id awaits its response.
    pub fn is_pending(&self, id: u64) -> (r: bool)
        ensures
            r == self@.pending.contains(id),
    {
        match self.position(id) {
            Some(i) => {
                assert(self.pending@.contains(self.pending@[i as int]));
                true
            },
            None => false,
        }
    }

    /// Makes the request of `method` with a fresh id and records it as
    /// outstanding. Fails with `ProcessNotRunning` while no endpoint is
    /// published, and with `Serialization` once the ids are used up.
    pub fn begin_call(&mut self, method: String, params: serde_json::Value) -> (r: Result<RpcRequest, SidecarError>)
        requires
            old(self).wf(),
        ensures
            final(self).wf(),
            !old(self)@.connected ==> r matches Err(SidecarError::ProcessNotRunning(_)),
            old(self)@.connected && old(self)@.next_id == u64::MAX ==> r matches Err(SidecarError::Serialization(_)),
            old(self)@.admits_call() ==> (r matches Ok(q) && q.id == old(self)@.next_id && q.jsonrpc@
                == PROTOCOL_VERSION@ && q.method@ == method@ && q.params == params),
            r is Ok ==> final(self)@ == old(self)@.after_call(),
            r is Err ==> final(self)@ == old(self)@,
    {
        if !self.connected {
            return Err(SidecarError::ProcessNotRunning(String::from_str("engine endpoint is not available")));
        }
        if self.next_id == u64::MAX {
            return Err(SidecarError::Serialization(String::from_str("request ids are exhausted")));
        }
        let id = self.next_id;
        let ghost before = self.pending@;
        let ghost v = self@;
        self.pending.push(id);
        self.next_id = id + 1;
        proof {
            if before.contains(id) {
                assert(v.pending.contains(id));
            }
            assert(!before.contains(id));
            assert forall|x: u64| self.pending@.contains(x) <==> (before.contains(x) || x == id) by {
                if self.pending@.contains(x) {
                    let k = choose|k: int| 0 <= k < self.pending@.len() && self.pending@[k] == x;
                    if k < before.len() {
                        assert(before[k] == x);
                    }
                }
                if before.contains(x) {
                    let k = choose|k: int| 0 <= k < before.len() && before[k] == x;
                    assert(self.pending@[k] == x);
                }
                if x == id {
                    assert(self.pending@[before.len() as int] == x);
                }
            }
            assert(self.pending@.to_set() =~= before.to_set().insert(id));
            assert(self.pending@.no_duplicates()) by {
                assert forall|a: int, b: int|
                    0 <= a < self.pending@.len() && 0 <= b < self.pending@.len() && a != b implies
                    self.pending@[a] != self.pending@[b] by {
                    if a < before.len() && b < before.len() {
                    } else if a < before.len() {
                        assert(self.pending@[b] == id);
                        assert(before.contains(before[a]));
                    } else {
                        assert(self.pending@[a] == id);
                        assert(before.contains(before[b]));
                    }
                }
            }
            assert forall|x: u64| self@.pending.contains(x) implies x < self@.next_id by {
                if x != id {
                    assert(v.pending.contains(x));
                }
            }
        }
        Ok(RpcRequest { jsonrpc: String::from_str(PROTOCOL_VERSION), method, params, id })
    }

    /// Removes `id` from the outstanding requests; whether it was there.
    fn remove_pending(&mut self, id: u64) -> (found: bool)
        requires
            old(self).wf(),
        ensures
            final(self).wf(),
            found == old(self)@.pending.contains(id),
            final(self)@ == (CallTableView { pending: old(self)@.pending.remove(id), ..old(self)@ }),
    {
        match self.position(id) {
            Some(i) => {
                let ghost before = self.pending@;
                let ghost v = self@;
                self.pending.remove(i);
                proof {
                    assert(before.contains(before[i as int]));
                    assert forall|x: u64| self.pending@.contains(x) <==> (before.contains(x) && x != id) by {
                        if self.pending@.contains(x) {
                            let k = choose|k: int| 0 <= k < self.pending@.len() && self.pending@[k] == x;
                            if k < i {
                                assert(before[k] == x);
                            } else {
                                assert(before[k + 1] == x);
                            }
                        }
                        if before.contains(x) && x != id {
                            let k = choose|k: int| 0 <= k < before.len() && before[k] == x;
                            if k < i {
                                assert(self.pending@[k] == x);
                            } else {
                                assert(self.pending@[k - 1] == x);
                            }
                        }
                    }
                    assert(self.pending@.to_set() =~= before.to_set().remove(id));
                    assert forall|x: u64| self@.pending.contains(x) implies x < self@.next_id by {
                        assert(v.pending.contains(x));
                    }
                    assert(self.pending@.no_duplicates()) by {
                        assert forall|a: int, b: int|
                            0 <= a < self.pending@.len() && 0 <= b < self.pending@.len() && a != b implies
                            self.pending@[a] != self.pending@[b] by {
                            let a0 = if a < i { a } else { a + 1 };
                            let b0 = if b < i { b } else { b + 1 };
                            assert(self.pending@[a] == before[a0]);
                            assert(self.pending@[b] == before[b0]);
                        }
                    }
                }
                true
            },
            None => {
                assert(self.pending@.to_set().remove(id) =~= self.pending@.to_set());
                false
            },
        }
    }

    /// Takes a response: when it carries the protocol tag and answers an
    /// outstanding request, that request (and only it) is resolved and its id
    /// returned; any other response is rejected as `Serialization` and
    /// leaves the table unchanged.
    pub fn accept_response(&mut self, response: &RpcResponse) -> (r: Result<u64, SidecarError>)
        requires
            old(self).wf(),
        ensures
            final(self).wf(),
            final(self)@ == old(self)@.after_response(response.jsonrpc@, response.id),
            old(self)@.accepts(response.jsonrpc@, response.id) ==> r == Ok::<u64, SidecarError>(response.id),
            !old(self)@.accepts(response.jsonrpc@, response.id) ==> r matches Err(SidecarError::Serialization(_)),
    {
        if !str_eq(response.jsonrpc.as_str(), PROTOCOL_VERSION) {
            return Err(SidecarError::Serialization(String::from_str("unsupported protocol version")));
        }
        let ghost before = self@;
        if self.remove_pending(response.id) {
            Ok(response.id)
        } else {
            assert(before.pending.remove(response.id) =~= before.pending);
            Err(SidecarError::Serialization(String::from_str("response to an unknown request id")))
        }
    }

    /// Gives up waiting for the request of `id` (its timeout elapsed);
    /// whether it was still outstanding.
    pub fn abandon(&mut self, id: u64) -> (r: bool)
        requires
            old(self).wf(),
        ensures
            final(self).wf(),
            r == old(self)@.pending.contains(id),
            final(self)@ == (CallTableView { pending: old(self)@.pending.remove(id), ..old(self)@ }),
    {
        self.remove_pending(id)
    }

    /// Operations were cancelled: every outstanding request is returned, each
    /// once, to be failed with `Cancelled`; the endpoint stays as it was.
    pub fn cancel_all(&mut self) -> (r: Vec<u64>)
        requires
            old(self).wf(),
        ensures
            final(self).wf(),
            r@.to_set() == old(self)@.pending,
            r@.no_duplicates(),
            final(self)@ == (CallTableView { pending: Set::empty(), ..old(self)@ }),
    {
        let mut r: Vec<u64> = Vec::new();
        core::mem::swap(&mut r, &mut self.pending);
        assert(self.pending@.to_set() =~= Set::<u64>::empty());
        r
    }

    /// The endpoint is gone: every outstanding request is returned, each
    /// once, to be failed with `ProcessNotRunning`, and none stays behind.
    pub fn disconnect(&mut self) -> (r: Vec<u64>)
        requires
            old(self).wf(),
        ensures
            final(self).wf(),
            r@.to_set() == old(self)@.pending,
            r@.no_duplicates(),
            final(self)@ == old(self)@.after_disconnect(),
    {
        let mut r: Vec<u64> = Vec::new();
        core::mem::swap(&mut r, &mut self.pending);
        self.connected = false;
        assert(self.pending@.to_set() =~= Set::<u64>::empty());
        r
    }
}

/// A response is delivered to the one call whose id it carries: every other
/// outstanding call stays outstanding, and a response that answers no
/// outstanding call changes nothing.
pub proof fn law_response_matches_its_call(t: CallTableView, tag: Seq<char>, id: u64, other: u64)
    requires
        t.wf(),
        other != id,
    ensures
        t.after_response(tag, id).pending.contains(other) == t.pending.contains(other),
        t.accepts(tag, id) ==> !t.after_response(tag, id).pending.contains(id),
        !t.accepts(tag, id) ==> t.after_response(tag, id) == t,
        t.after_response(tag, id).wf(),
{
}

/// Losing the endpoint leaves no call outstanding and admits no new call
/// until an endpoint is published again.
pub proof fn law_disconnect_resolves_every_call(t: CallTableView, id: u64)
    requires
        t.wf(),
    ensures
        !t.after_disconnect().pending.contains(id),
        !t.after_disconnect().admits_call(),
        t.after_disconnect().wf(),
{
}

} // verus!

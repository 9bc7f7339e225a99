use vstd::prelude::*;

verus! {

/// A human's answer to a permission request.
#[derive(Debug, Clone, Copy, PartialEq, Eq, Structural)]
pub enum PermissionDecision {
    Approved,
    Denied,
}

/// How permission prompts are raised.
#[derive(Debug, Clone, Copy, PartialEq, Eq, Structural)]
pub struct PermissionDialogConfig {
    /// Whether a request equal to a pending one reuses it instead of raising a second prompt.
    pub deduplicate: bool,
    /// How long a caller waits for a decision before it counts as a denial.
    pub timeout_ms: u64,
}

impl Default for PermissionDialogConfig {
    fn default() -> (r: PermissionDialogConfig)
        ensures
            r.deduplicate,
            r.timeout_ms == 60000,
    {
        PermissionDialogConfig { deduplicate: true, timeout_ms: 60000 }
    }
}

/// A request awaiting a human decision.
#[derive(Debug, Clone)]
pub struct PermissionRequest {
    pub id: u64,
    /// What is asked for.
    pub capability: String,
    /// Who asks for it.
    pub source: String,
    /// When it was asked, in seconds since the epoch.
    pub created_at: u64,
}

pub struct PermissionRequestView {
    pub id: u64,
    pub capability: Seq<char>,
    pub source: Seq<char>,
    pub created_at: u64,
}

impl View for PermissionRequest {
    type V = PermissionRequestView;

    open spec fn view(&self) -> PermissionRequestView {
        PermissionRequestView {
            id: self.id,
            capability: self.capability@,
            source: self.source@,
            created_at: self.created_at,
        }
    }
}

#[derive(Debug, Clone, Copy, PartialEq, Eq, Structural)]
pub enum PermissionError {
    /// No pending request has this id.
    NotFound { id: u64 },
    /// Every request id has been handed out.
    IdsExhausted,
}

/// Pending permission requests and the decisions taken on earlier ones.
pub struct PermissionManager {
    config: PermissionDialogConfig,
    next_id: u64,
    pending: Vec<PermissionRequest>,
    resolved: Vec<(u64, PermissionDecision)>,
}

pub struct PermissionManagerView {
    pub deduplicate: bool,
    /// The id the next new request gets.
    pub next_id: u64,
    /// The requests awaiting a decision, oldest first.
    pub pending: Seq<PermissionRequestView>,
    /// The decisions taken, in the order they were taken.
    pub resolved: Seq<(u64, PermissionDecision)>,
}

pub open spec fn request_views(v: Seq<PermissionRequest>) -> Seq<PermissionRequestView> {
    v.map_values(|r: PermissionRequest| r@)
}

impl View for PermissionManager {
    type V = PermissionManagerView;

    closed spec fn view(&self) -> PermissionManagerView {
        PermissionManagerView {
            deduplicate: self.config.deduplicate,
            next_id: self.next_id,
            pending: request_views(self.pending@),
            resolved: self.resolved@,
        }
    }
}

/// The decision recorded for `id`, the first one if any.
pub open spec fn decision_in(resolved: Seq<(u64, PermissionDecision)>, id: u64) -> Option<PermissionDecision>
    decreases resolved.len(),
{
    if resolved.len() == 0 {
        None
    } else if resolved[0].0 == id {
        Some(resolved[0].1)
    } else {
        decision_in(resolved.drop_first(), id)
    }
}

impl PermissionManagerView {
    /// Pending ids are increasing (so distinct), and all were handed out.
    pub open spec fn wf(self) -> bool {
        &&& forall|i: int, j: int|
            0 <= i < j < self.pending.len() ==> self.pending[i].id < self.pending[j].id
        &&& forall|i: int| 0 <= i < self.pending.len() ==> self.pending[i].id < self.next_id
    }

    /// Whether the request of `id` awaits a decision.
    pub open spec fn is_pending(self, id: u64) -> bool {
        exists|i: int| 0 <= i < self.pending.len() && self.pending[i].id == id
    }

    /// Where the request of `id` stands among the pending ones.
    pub open spec fn index_of(self, id: u64) -> int {
        choose|i: int| 0 <= i < self.pending.len() && self.pending[i].id == id
    }

    /// Whether a pending request asks for `capability` on behalf of `source`.
    pub open spec fn has_equal(self, capability: Seq<char>, source: Seq<char>) -> bool {
        exists|i: int|
            0 <= i < self.pending.len() && self.pending[i].capability == capability
                && self.pending[i].source == source
    }

    /// The manager after a new request of id `next_id` was registered.
    pub open spec fn with_new(self, capability: Seq<char>, source: Seq<char>, now: u64) -> PermissionManagerView {
        PermissionManagerView {
            next_id: (self.next_id + 1) as u64,
            pending: self.pending.push(
                PermissionRequestView { id: self.next_id, capability, source, created_at: now },
            ),
            ..self
        }
    }

    /// The manager after the pending request of `id` was decided.
    pub open spec fn after_resolve(self, id: u64, decision: PermissionDecision) -> PermissionManagerView {
        PermissionManagerView {
            pending: self.pending.remove(self.index_of(id)),
            resolved: self.resolved.push((id, decision)),
            ..self
        }
    }
}

fn copy_request(r: &PermissionRequest) -> (c: PermissionRequest)
    ensures
        c@ == r@,
{
    PermissionRequest {
        id: r.id,
        capability: r.capability.clone(),
        source: r.source.clone(),
        created_at: r.created_at,
    }
}

impl PermissionManager {
    /// A well-formed manager.
    pub closed spec fn wf(&self) -> bool {
        self@.wf()
    }

    /// A manager with nothing pending and nothing decided.
    pub fn new(config: PermissionDialogConfig) -> (r: PermissionManager)
        ensures
            r.wf(),
            r@.deduplicate == config.deduplicate,
            r@.next_id == 1,
            r@.pending.len() == 0,
            r@.resolved.len() == 0,
    {
        let r = PermissionManager { config, next_id: 1, pending: Vec::new(), resolved: Vec::new() };
        assert(request_views(r.pending@) =~= Seq::<PermissionRequestView>::empty());
        r
    }

    pub fn config(&self) -> (r: PermissionDialogConfig)
        ensures
            r.deduplicate == self@.deduplicate,
    {
        self.config
    }

    fn position(&self, id: u64) -> (r: Option<usize>)
        ensures
            r matches Some(i) ==> i < self@.pending.len() && self@.pending[i as int].id == id,
            r is None ==> !self@.is_pending(id),
    {
        let mut i: usize = 0;
        while i < self.pending.len()
            invariant
                i <= self.pending@.len(),
                self@.pending.len() == self.pending@.len(),
                forall|j: int| 0 <= j < i ==> self@.pending[j].id != id,
            decreases self.pending@.len() - i,
        {
            if self.pending[i].id == id {
                return Some(i);
            }
            i = i + 1;
        }
        None
    }

    fn find_equal(&self, capability: &String, source: &String) -> (r: Option<usize>)
        ensures
            r matches Some(i) ==> i < self@.pending.len() && self@.pending[i as int].capability
                == capability@ && self@.pending[i as int].source == source@,
            r is None ==> !self@.has_equal(capability@, source@),
    {
        let mut i: usize = 0;
        while i < self.pending.len()
            invariant
                i <= self.pending@.len(),
                self@.pending.len() == self.pending@.len(),
                forall|j: int|
                    0 <= j < i ==> !(self@.pending[j].capability == capability@ && self@.pending[j].source
                        == source@),
            decreases self.pending@.len() - i,
        {
            if self.pending[i].capability == *capability && self.pending[i].source == *source {
                return Some(i);
            }
            i = i + 1;
        }
        None
    }

    /// Registers a request for `capability` on behalf of `source`, raised at
    /// `now`, and returns its id. With deduplication on, a request equal to a
    /// pending one returns that one's id and changes nothing.
    pub fn request(&mut self, capability: String, source: String, now: u64) -> (r: Result<u64, PermissionError>)
        requires
            old(self).wf(),
        ensures
            final(self).wf(),
            r matches Ok(id) ==> final(self)@.is_pending(id),
            old(self)@.deduplicate && old(self)@.has_equal(capability@, source@) ==> {
                &&& final(self)@ == old(self)@
                &&& r matches Ok(id) && exists|i: int|
                    0 <= i < old(self)@.pending.len() && old(self)@.pending[i].id == id
                        && old(self)@.pending[i].capability == capability@
                        && old(self)@.pending[i].source == source@
            },
            !(old(self)@.deduplicate && old(self)@.has_equal(capability@, source@)) ==> {
                if old(self)@.next_id == u64::MAX {
                    r == Err::<u64, PermissionError>(PermissionError::IdsExhausted) && final(self)@ == old(self)@
                } else {
                    r == Ok::<u64, PermissionError>(old(self)@.next_id) && final(self)@ == old(self)@.with_new(
                        capability@,
                        source@,
                        now,
                    )
                }
            },
    {
        if self.config.deduplicate {
            if let Some(i) = self.find_equal(&capability, &source) {
                assert(self@.pending[i as int].id == self.pending@[i as int].id);
                return Ok(self.pending[i].id);
            }
        }
        if self.next_id == u64::MAX {
            return Err(PermissionError::IdsExhausted);
        }
        let id = self.next_id;
        let ghost before = self@;
        self.pending.push(PermissionRequest { id, capability, source, created_at: now });
        self.next_id = id + 1;
        assert(self@.pending =~= before.pending.push(
            PermissionRequestView { id, capability: capability@, source: source@, created_at: now },
        ));
        assert(self@.pending[before.pending.len() as int].id == id);
        Ok(id)
    }

    /// The requests awaiting a decision, oldest first.
    pub fn list_pending(&self) -> (r: Vec<PermissionRequest>)
        ensures
            request_views(r@) == self@.pending,
    {
        let mut r: Vec<PermissionRequest> = Vec::new();
        let mut i: usize = 0;
        while i < self.pending.len()
            invariant
                i <= self.pending@.len(),
                r@.len() == i,
                forall|j: int| 0 <= j < i ==> #[trigger] r@[j]@ == self.pending@[j]@,
            decreases self.pending@.len() - i,
        {
            let c = copy_request(&self.pending[i]);
            r.push(c);
            i = i + 1;
        }
        assert(request_views(r@) =~= request_views(self.pending@));
        r
    }

    /// Whether the request of `id` awaits a decision.
    pub fn is_pending(&self, id: u64) -> (r: bool)
        ensures
            r == self@.is_pending(id),
    {
        self.position(id).is_some()
    }

    /// Decides the pending request of `id`. An id that is not pending (never
    /// requested, or already decided) gives `NotFound` and changes nothing.
    pub fn resolve(&mut self, id: u64, decision: PermissionDecision) -> (r: Result<(), PermissionError>)
        requires
            old(self).wf(),
        ensures
            final(self).wf(),
            old(self)@.is_pending(id) ==> r is Ok && final(self)@ == old(self)@.after_resolve(id, decision),
            !old(self)@.is_pending(id) ==> r == Err::<(), PermissionError>(PermissionError::NotFound { id })
                && final(self)@ == old(self)@,
    {
        match self.position(id) {
            Some(i) => {
                let ghost before = self@;
                proof {
                    let k = before.index_of(id);
                    assert(before.pending[k].id == id);
                    if k < i {
                        assert(before.pending[k].id < before.pending[i as int].id);
                    } else if k > i {
                        assert(before.pending[i as int].id < before.pending[k].id);
                    }
                }
                self.pending.remove(i);
                self.resolved.push((id, decision));
                assert(self@.pending =~= before.pending.remove(i as int));
                proof {
                    assert forall|a: int, b: int|
                        0 <= a < b < self@.pending.len() implies self@.pending[a].id < self@.pending[b].id by {
                        let a0 = if a < i { a } else { a + 1 };
                        let b0 = if b < i { b } else { b + 1 };
                        assert(self@.pending[a] == before.pending[a0]);
                        assert(self@.pending[b] == before.pending[b0]);
                    }
                    assert forall|a: int| 0 <= a < self@.pending.len() implies self@.pending[a].id < self@.next_id by {
                        let a0 = if a < i { a } else { a + 1 };
                        assert(self@.pending[a] == before.pending[a0]);
                    }
                }
                Ok(())
            },
            None => Err(PermissionError::NotFound { id }),
        }
    }

    /// The decision taken on `id`, if any.
    pub fn decision(&self, id: u64) -> (r: Option<PermissionDecision>)
        ensures
            r == decision_in(self@.resolved, id),
    {
        let mut i: usize = 0;
        assert(self.resolved@.subrange(0, self.resolved@.len() as int) =~= self.resolved@);
        while i < self.resolved.len()
            invariant
                i <= self.resolved@.len(),
                decision_in(self.resolved@.subrange(i as int, self.resolved@.len() as int), id)
                    == decision_in(self.resolved@, id),
            decreases self.resolved@.len() - i,
        {
            if self.resolved[i].0 == id {
                return Some(self.resolved[i].1);
            }
            assert(self.resolved@.subrange(i as int, self.resolved@.len() as int).drop_first()
                =~= self.resolved@.subrange(i + 1, self.resolved@.len() as int));
            i = i + 1;
        }
        None
    }

    /// The wait for a decision on `id` timed out: a request still pending is
    /// decided as denied. Returns the decision that stands: the one taken, or
    /// a denial when none was.
    pub fn expire(&mut self, id: u64) -> (r: PermissionDecision)
        requires
            old(self).wf(),
        ensures
            final(self).wf(),
            old(self)@.is_pending(id) ==> r == PermissionDecision::Denied && final(self)@
                == old(self)@.after_resolve(id, PermissionDecision::Denied),
            !old(self)@.is_pending(id) ==> final(self)@ == old(self)@ && r == match decision_in(
                old(self)@.resolved,
                id,
            ) {
                Some(d) => d,
                None => PermissionDecision::Denied,
            },
    {
        match self.resolve(id, PermissionDecision::Denied) {
            Ok(()) => PermissionDecision::Denied,
            Err(_) => match self.decision(id) {
                Some(d) => d,
                None => PermissionDecision::Denied,
            },
        }
    }
}

/// A fresh manager has nothing pending; a request made on it is pending
/// under the id it returned; once resolved it is pending no more, and
/// resolving it again reports it not found and changes nothing.
pub proof fn law_request_resolve_cycle(
    m: PermissionManagerView,
    capability: Seq<char>,
    source: Seq<char>,
    now: u64,
    decision: PermissionDecision,
)
    requires
        m.wf(),
        m.pending.len() == 0,
        m.next_id < u64::MAX,
    ensures
        !m.is_pending(m.next_id),
        !(m.deduplicate && m.has_equal(capability, source)),
        m.with_new(capability, source, now).wf(),
        m.with_new(capability, source, now).is_pending(m.next_id),
        !m.with_new(capability, source, now).after_resolve(m.next_id, decision).is_pending(m.next_id),
        m.with_new(capability, source, now).after_resolve(m.next_id, decision).wf(),
{
    let m1 = m.with_new(capability, source, now);
    assert(m1.pending[0].id == m.next_id);
    assert(m1.index_of(m.next_id) == 0);
    let m2 = m1.after_resolve(m.next_id, decision);
    assert(m2.pending.len() == 0);
}

} // verus!

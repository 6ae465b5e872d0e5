//! The control request registry: one pending entry per in-flight control request,
//! keyed by its id, holding the waiter's wake handle and the slot for its reply.
use crate::error::AgentError;
use crate::ids::{issued_with, request_id, request_id_text, lemma_issued_with_unique};
use vstd::prelude::*;

verus! {

/// What a control response frame carried for its request.
#[derive(Debug, Clone)]
pub enum ControlReply {
    /// The frame's `response` member.
    Success(serde_json::Value),
    /// The frame's `error` member, a message from the peer.
    Failure(String),
    /// The frame carried neither member.
    Empty,
}

/// The model of one pending entry.
pub struct PendingState<W> {
    pub subtype: Seq<char>,
    pub reply: Option<ControlReply>,
    pub waker: W,
}

pub struct PendingControlRequest<W> {
    id: String,
    subtype: String,
    serial: u64,
    waker: W,
    reply: Option<ControlReply>,
}

impl<W> PendingControlRequest<W> {
    pub closed spec fn state(&self) -> PendingState<W> {
        PendingState { subtype: self.subtype@, reply: self.reply, waker: self.waker }
    }
}

/// The text of the error returned when a request's reply arrived without either
/// member.
pub open spec fn no_result_text() -> Seq<char> {
    "No result found for control request"@
}

pub open spec fn timeout_text(subtype: Seq<char>) -> Seq<char> {
    "Control request timeout: "@ + subtype
}

/// `r` is what the waiter of a request receives for `reply`: the response value,
/// or a process error with the peer's message, or with [`no_result_text`].
pub open spec fn is_reply_outcome(r: Result<serde_json::Value, AgentError>, reply: ControlReply) -> bool {
    match reply {
        ControlReply::Success(v) => r == Ok::<serde_json::Value, AgentError>(v),
        ControlReply::Failure(m) => r is Err && r->Err_0 is ProcessError && r->Err_0.text() == m@,
        ControlReply::Empty => r is Err && r->Err_0 is ProcessError && r->Err_0.text() == no_result_text(),
    }
}

/// The pending map after a response for `id` carrying `reply` arrived: the entry
/// `id`, if pending, holds the reply (replacing any earlier one); a response for
/// no pending entry changes nothing.
pub open spec fn resolved<W>(m: Map<Seq<char>, PendingState<W>>, id: Seq<char>, reply: ControlReply) -> Map<Seq<char>, PendingState<W>> {
    if m.contains_key(id) {
        m.insert(id, PendingState { reply: Some(reply), ..m[id] })
    } else {
        m
    }
}

/// The pending map after the responses `rs` arrived, in that order.
pub open spec fn resolved_all<W>(m: Map<Seq<char>, PendingState<W>>, rs: Seq<(Seq<char>, ControlReply)>) -> Map<Seq<char>, PendingState<W>>
    decreases rs.len(),
{
    if rs.len() == 0 {
        m
    } else {
        resolved(resolved_all(m, rs.drop_last()), rs.last().0, rs.last().1)
    }
}

/// Responses to requests with distinct ids, arriving in any order, each land in
/// the entry whose id they name: afterwards every pending entry named by one of
/// them holds exactly that response's reply, with its subtype and wake handle
/// unchanged, and every other entry is untouched.
pub proof fn lemma_replies_reach_their_own_requests<W>(
    m: Map<Seq<char>, PendingState<W>>,
    rs: Seq<(Seq<char>, ControlReply)>,
)
    requires
        forall|i: int, j: int| 0 <= i < j < rs.len() ==> rs[i].0 != rs[j].0,
    ensures
        resolved_all(m, rs).dom() == m.dom(),
        forall|i: int|
            0 <= i < rs.len() && m.contains_key(#[trigger] rs[i].0) ==> resolved_all(m, rs)[rs[i].0]
                == (PendingState { reply: Some(rs[i].1), ..m[rs[i].0] }),
        forall|k: Seq<char>|
            m.contains_key(k) && (forall|i: int| 0 <= i < rs.len() ==> rs[i].0 != k)
                ==> #[trigger] resolved_all(m, rs)[k] == m[k],
    decreases rs.len(),
{
    if rs.len() > 0 {
        let init = rs.drop_last();
        lemma_replies_reach_their_own_requests(m, init);
        let prev = resolved_all(m, init);
        let (id, reply) = rs.last();
        assert(prev.dom() == m.dom());
        if prev.contains_key(id) {
            assert(resolved_all(m, rs).dom() =~= m.dom());
        }
        assert forall|i: int|
            0 <= i < rs.len() && m.contains_key(#[trigger] rs[i].0) implies resolved_all(m, rs)[rs[i].0]
                == (PendingState { reply: Some(rs[i].1), ..m[rs[i].0] }) by {
            if i < rs.len() - 1 {
                assert(init[i] == rs[i]);
                assert(rs[i].0 != id);
            } else {
                assert(forall|j: int| 0 <= j < init.len() ==> init[j].0 != id);
                assert(prev[id] == m[id]);
            }
        }
        assert forall|k: Seq<char>|
            m.contains_key(k) && (forall|i: int| 0 <= i < rs.len() ==> rs[i].0 != k)
                implies #[trigger] resolved_all(m, rs)[k] == m[k] by {
            assert(forall|i: int| 0 <= i < init.len() ==> init[i] == rs[i]);
            assert(prev[k] == m[k]);
            assert(rs[rs.len() - 1].0 != k);
        }
    }
}

/// Once a request's wait has run out and its entry was removed, a late response
/// for its id finds nothing: the pending map is left as it is, and the other
/// entries are those from before the timeout.
pub proof fn lemma_expired_request_drops_late_reply<W>(
    m: Map<Seq<char>, PendingState<W>>,
    id: Seq<char>,
    reply: ControlReply,
)
    ensures
        !m.remove(id).contains_key(id),
        resolved(m.remove(id), id, reply) == m.remove(id),
        forall|k: Seq<char>| k != id && m.contains_key(k) ==> #[trigger] m.remove(id)[k] == m[k],
{
}

pub struct ControlRegistry<W> {
    entries: Vec<PendingControlRequest<W>>,
    issued: u64,
    model: Ghost<Map<Seq<char>, PendingState<W>>>,
}

impl<W> ControlRegistry<W> {
    /// The pending requests, by id.
    pub closed spec fn pending(&self) -> Map<Seq<char>, PendingState<W>> {
        self.model@
    }

    /// How many ids have been issued so far.
    pub closed spec fn issued(&self) -> nat {
        self.issued as nat
    }

    pub closed spec fn wf(&self) -> bool {
        &&& forall|i: int, j: int|
            0 <= i < j < self.entries.len() ==> self.entries@[i].id@ != self.entries@[j].id@
        &&& forall|i: int|
            0 <= i < self.entries.len() ==> {
                &&& self.model@.contains_key(#[trigger] self.entries@[i].id@)
                &&& self.model@[self.entries@[i].id@] == self.entries@[i].state()
                &&& 1 <= self.entries@[i].serial <= self.issued
                &&& issued_with(self.entries@[i].id@, self.entries@[i].serial as nat)
            }
        &&& forall|k: Seq<char>|
            #[trigger] self.model@.contains_key(k) ==> exists|i: int|
                0 <= i < self.entries.len() && self.entries@[i].id@ == k
    }

    pub fn new() -> (r: Self)
        ensures
            r.wf(),
            r.pending() == Map::<Seq<char>, PendingState<W>>::empty(),
            r.issued() == 0,
    {
        ControlRegistry { entries: Vec::new(), issued: 0, model: Ghost(Map::empty()) }
    }

    fn find(&self, id: &String) -> (r: Option<usize>)
        requires
            self.wf(),
        ensures
            match r {
                Some(i) => i < self.entries.len() && self.entries@[i as int].id@ == id@,
                None => !self.pending().contains_key(id@),
            },
    {
        let mut i: usize = 0;
        while i < self.entries.len()
            invariant
                self.wf(),
                i <= self.entries.len(),
                forall|j: int| 0 <= j < i ==> self.entries@[j].id@ != id@,
            decreases self.entries.len() - i,
        {
            if self.entries[i].id == *id {
                return Some(i);
            }
            i = i + 1;
        }
        None
    }

    /// Issues a fresh id `req_<n>_<nonce>`, with `n` one more than the number of
    /// ids issued so far, and registers a pending entry for it with no reply yet.
    /// Fails only when the counter is exhausted.
    pub fn issue(&mut self, subtype: String, nonce: &str, waker: W) -> (r: Result<String, AgentError>)
        requires
            old(self).wf(),
        ensures
            final(self).wf(),
            match r {
                Ok(id) => {
                    &&& old(self).issued() < u64::MAX
                    &&& id@ == request_id_text(old(self).issued() + 1, nonce@)
                    &&& !old(self).pending().contains_key(id@)
                    &&& final(self).pending() == old(self).pending().insert(
                        id@,
                        PendingState { subtype: subtype@, reply: None, waker },
                    )
                    &&& final(self).issued() == old(self).issued() + 1
                },
                Err(e) => {
                    &&& old(self).issued() == u64::MAX
                    &&& e is ProcessError
                    &&& *final(self) == *old(self)
                },
            },
    {
        if self.issued == u64::MAX {
            return Err(AgentError::ProcessError("control request ids exhausted".to_string()));
        }
        let serial = self.issued + 1;
        let id = request_id(serial, nonce);
        proof {
            assert(issued_with(id@, serial as nat));
            if self.model@.contains_key(id@) {
                let i = choose|i: int| 0 <= i < self.entries.len() && self.entries@[i].id@ == id@;
                lemma_issued_with_unique(id@, serial as nat, self.entries@[i].serial as nat);
                assert(false);
            }
        }
        let entry = PendingControlRequest { id: id.clone(), subtype, serial, waker, reply: None };
        let ghost old_entries = self.entries@;
        let ghost old_model = self.model@;
        proof {
            self.model@ = self.model@.insert(id@, entry.state());
        }
        self.entries.push(entry);
        self.issued = serial;
        proof {
            let n = old_entries.len() as int;
            assert forall|k: Seq<char>| #[trigger] self.model@.contains_key(k) implies exists|i: int|
                0 <= i < self.entries.len() && self.entries@[i].id@ == k by {
                if k != id@ {
                    assert(old_model.contains_key(k));
                    let i = choose|i: int| 0 <= i < old_entries.len() && old_entries[i].id@ == k;
                    assert(self.entries@[i].id@ == k);
                } else {
                    assert(self.entries@[n].id@ == k);
                }
            }
        }
        Ok(id)
    }

    /// Stores the reply of a response frame in the entry `id`, replacing any earlier
    /// one. Returns whether such an entry was pending; when none is, the frame is
    /// dropped and nothing changes.
    pub fn resolve(&mut self, id: &String, reply: ControlReply) -> (r: bool)
        requires
            old(self).wf(),
        ensures
            final(self).wf(),
            r == old(self).pending().contains_key(id@),
            final(self).pending() == resolved(old(self).pending(), id@, reply),
            final(self).issued() == old(self).issued(),
    {
        match self.find(id) {
            None => false,
            Some(i) => {
                let ghost old_entries = self.entries@;
                let ghost old_model = self.model@;
                self.entries[i].reply = Some(reply);
                proof {
                    self.model@ = self.model@.insert(id@, self.entries@[i as int].state());
                    assert forall|j: int| 0 <= j < self.entries.len() && j != i implies #[trigger] self.entries@[j] == old_entries[j] by {}
                    assert forall|k: Seq<char>| #[trigger] self.model@.contains_key(k) implies exists|j: int|
                        0 <= j < self.entries.len() && self.entries@[j].id@ == k by {
                        if k != id@ {
                            assert(old_model.contains_key(k));
                            let j = choose|j: int| 0 <= j < old_entries.len() && old_entries[j].id@ == k;
                            assert(self.entries@[j].id@ == k);
                        } else {
                            assert(self.entries@[i as int].id@ == k);
                        }
                    }
                }
                true
            },
        }
    }

    /// Hands the waiter of `id` its reply and removes the entry, when a reply has
    /// arrived. Otherwise nothing changes and the result is `None`.
    pub fn take(&mut self, id: &String) -> (r: Option<Result<serde_json::Value, AgentError>>)
        requires
            old(self).wf(),
        ensures
            final(self).wf(),
            final(self).issued() == old(self).issued(),
            match r {
                Some(out) => {
                    &&& old(self).pending().contains_key(id@)
                    &&& old(self).pending()[id@].reply matches Some(reply)
                    &&& is_reply_outcome(out, reply)
                    &&& final(self).pending() == old(self).pending().remove(id@)
                },
                None => {
                    &&& !(old(self).pending().contains_key(id@) && old(self).pending()[id@].reply is Some)
                    &&& final(self).pending() == old(self).pending()
                },
            },
    {
        match self.find(id) {
            None => None,
            Some(i) => {
                if self.entries[i].reply.is_none() {
                    return None;
                }
                let entry = self.remove_at(i);
                match entry.reply {
                    Some(ControlReply::Success(v)) => Some(Ok(v)),
                    Some(ControlReply::Failure(m)) => Some(Err(AgentError::ProcessError(m))),
                    _ => {
                        proof {
                            reveal_strlit("No result found for control request");
                        }
                        Some(Err(AgentError::ProcessError("No result found for control request".to_string())))
                    },
                }
            },
        }
    }

    /// Gives up on `id` after its wait ran out: removes the entry, so that a late
    /// response finds nothing to resolve, and returns the timeout error naming the
    /// request's subtype (`unknown` when no entry was pending).
    pub fn expire(&mut self, id: &String) -> (r: AgentError)
        requires
            old(self).wf(),
        ensures
            final(self).wf(),
            final(self).issued() == old(self).issued(),
            final(self).pending() == old(self).pending().remove(id@),
            r is ProcessError,
            old(self).pending().contains_key(id@) ==> r.text() == timeout_text(
                old(self).pending()[id@].subtype,
            ),
            !old(self).pending().contains_key(id@) ==> r.text() == timeout_text("unknown"@),
    {
        proof {
            reveal_strlit("Control request timeout: ");
            reveal_strlit("unknown");
        }
        match self.find(id) {
            None => {
                assert(self.model@.remove(id@) =~= self.model@);
                AgentError::ProcessError("Control request timeout: ".to_string().concat("unknown"))
            },
            Some(i) => {
                let entry = self.remove_at(i);
                AgentError::ProcessError("Control request timeout: ".to_string().concat(entry.subtype.as_str()))
            },
        }
    }

    /// The wake handle of the entry `id`, when one is pending.
    pub fn waker(&self, id: &String) -> (r: Option<&W>)
        requires
            self.wf(),
        ensures
            match r {
                Some(w) => self.pending().contains_key(id@) && *w == self.pending()[id@].waker,
                None => !self.pending().contains_key(id@),
            },
    {
        match self.find(id) {
            None => None,
            Some(i) => Some(&self.entries[i].waker),
        }
    }

    fn remove_at(&mut self, i: usize) -> (r: PendingControlRequest<W>)
        requires
            old(self).wf(),
            i < old(self).entries.len(),
        ensures
            final(self).wf(),
            final(self).issued == old(self).issued,
            r.id@ == old(self).entries@[i as int].id@,
            r.state() == old(self).pending()[r.id@],
            final(self).pending() == old(self).pending().remove(r.id@),
    {
        let entry = self.entries.remove(i);
        proof {
            self.model@ = self.model@.remove(entry.id@);
            assert forall|k: Seq<char>| #[trigger] self.model@.contains_key(k) implies exists|j: int|
                0 <= j < self.entries.len() && self.entries@[j].id@ == k by {
                let j = choose|j: int| 0 <= j < old(self).entries.len() && old(self).entries@[j].id@ == k;
                if j < i {
                    assert(self.entries@[j].id@ == k);
                } else {
                    assert(j != i);
                    assert(self.entries@[j - 1].id@ == k);
                }
            }
        }
        entry
    }
}

} // verus!

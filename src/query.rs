//! The query session: its lifecycle (created, initialized when streaming, closed),
//! the control requests it issues and correlates, the permission gate and the hook
//! dispatch. It performs no I/O: each operation returns what is to be sent or
//! invoked, and the frames that arrive are handed to it one at a time.
use crate::error::AgentError;
use crate::frames::InboundFrame;
use crate::hooks::{
    count_hooks, event_configs, event_hooks, registered_all, HookEventConfig, HookMatcher,
    HookRegistry,
};
use crate::ids::issued_with;
use crate::permissions::{
    permission_update_kind, update_kind_of, PermissionResult, PermissionResultAllow,
    PermissionRuleValue, PermissionUpdate, PermissionUpdateKind, ToolPermissionContext,
};
use crate::table::NameTable;
use crate::registry::{is_reply_outcome, resolved, timeout_text, ControlRegistry, PendingState};
use crate::types::Message;
use std::collections::HashMap;
use vstd::prelude::*;

verus! {

/// How long a control request waits for its response, in seconds.
pub const CONTROL_REQUEST_TIMEOUT_SECS: u64 = 60;

/// The body of an outbound control request; its subtype names the operation.
#[derive(Debug, Clone)]
pub enum ControlRequest {
    Initialize { hooks: Option<Vec<HookEventConfig>> },
    Interrupt,
    SetPermissionMode { mode: String },
    SetModel { model: Option<String> },
}

impl ControlRequest {
    pub open spec fn subtype_text(&self) -> Seq<char> {
        match self {
            ControlRequest::Initialize { .. } => "initialize"@,
            ControlRequest::Interrupt => "interrupt"@,
            ControlRequest::SetPermissionMode { .. } => "set_permission_mode"@,
            ControlRequest::SetModel { .. } => "set_model"@,
        }
    }

    pub fn subtype(&self) -> (r: String)
        ensures
            r@ == self.subtype_text(),
    {
        proof {
            reveal_strlit("initialize");
            reveal_strlit("interrupt");
            reveal_strlit("set_permission_mode");
            reveal_strlit("set_model");
        }
        match self {
            ControlRequest::Initialize { .. } => "initialize".to_string(),
            ControlRequest::Interrupt => "interrupt".to_string(),
            ControlRequest::SetPermissionMode { .. } => "set_permission_mode".to_string(),
            ControlRequest::SetModel { .. } => "set_model".to_string(),
        }
    }
}

/// An outbound control request: `{"type": "control_request", "request_id": ..,
/// "request": {"subtype": .., ..}}` on the wire.
#[derive(Debug, Clone)]
pub struct ControlEnvelope {
    pub request_id: String,
    pub request: ControlRequest,
}

/// An outbound query: `{"type": "query", "messages": .., "tools": .., "system":
/// .., "stream": ..}` on the wire.
#[derive(Debug, Clone)]
pub struct QueryEnvelope {
    pub messages: Vec<Message>,
    pub tools: Option<Vec<serde_json::Value>>,
    pub system: Option<serde_json::Value>,
    pub stream: bool,
}

/// The outcome of asking the permission gate about a tool use.
#[derive(Debug)]
pub enum ToolUseStep {
    /// Decided without a predicate.
    Decided(PermissionResult),
    /// The configured predicate is to be asked with these arguments, and what it
    /// returns is the answer.
    AskPredicate { tool_name: String, tool_input: HashMap<String, serde_json::Value>, context: ToolPermissionContext },
}

/// What a permission update asks of its caller.
#[derive(Debug)]
pub enum PermissionUpdateStep {
    /// A change to the rule set, applied by the permission store.
    Rules { kind: PermissionUpdateKind, rules: Option<Vec<PermissionRuleValue>> },
    /// A change to the allowed directories, applied by the permission store.
    Directories { kind: PermissionUpdateKind, directories: Option<Vec<String>> },
    /// A `set_permission_mode` control request, already registered, to be sent.
    SetMode(ControlEnvelope),
    /// A mode change that named no mode: nothing to do.
    Unchanged,
}

/// What became of an inbound frame.
#[derive(Debug, Clone, PartialEq, Eq)]
pub enum FrameOutcome {
    /// A conversation message was added to the collected ones; `terminal` when
    /// it ends the exchange.
    Delivered { terminal: bool },
    /// The reply was stored for the pending request with this id, whose waiter is
    /// to be woken.
    Resolved(String),
    /// Nothing to do: a response for no pending request, or a frame of neither
    /// shape.
    Dropped,
}

pub open spec fn closed_text() -> Seq<char> {
    "Query is closed"@
}

pub open spec fn not_streaming_text() -> Seq<char> {
    "Control requests require streaming mode"@
}

pub open spec fn not_initialized_text() -> Seq<char> {
    "Query is not initialized"@
}

pub open spec fn too_many_hooks_text() -> Seq<char> {
    "Too many hook callbacks"@
}

pub open spec fn unknown_update_text(kind: Seq<char>) -> Seq<char> {
    "Unknown permission update type: "@ + kind
}

pub open spec fn hook_not_found_text(id: Seq<char>) -> Seq<char> {
    "Hook callback not found: "@ + id
}

/// A control session. `P` is the caller's permission predicate, `H` a hook
/// callback, `W` the wake handle of a waiting control request.
pub struct Query<P, H, W> {
    is_streaming_mode: bool,
    can_use_tool: Option<P>,
    hooks: Option<Vec<(String, Vec<HookMatcher<H>>)>>,
    sdk_mcp_servers: Option<NameTable<String>>,
    registry: ControlRegistry<W>,
    hook_callbacks: HookRegistry<H>,
    message_queue: Vec<Message>,
    initialized: bool,
    closed: bool,
}

impl<P, H, W> Query<P, H, W> {
    pub closed spec fn streaming(&self) -> bool {
        self.is_streaming_mode
    }

    pub closed spec fn is_initialized(&self) -> bool {
        self.initialized
    }

    pub closed spec fn is_closed_state(&self) -> bool {
        self.closed
    }

    pub closed spec fn predicate(&self) -> Option<P> {
        self.can_use_tool
    }

    /// The hooks declared at construction and not yet announced.
    pub closed spec fn declared_hooks(&self) -> Option<Seq<(String, Vec<HookMatcher<H>>)>> {
        match self.hooks {
            Some(v) => Some(v@),
            None => None,
        }
    }

    /// The MCP servers, by name: their uris.
    pub closed spec fn mcp_servers(&self) -> Option<Map<Seq<char>, String>> {
        match self.sdk_mcp_servers {
            Some(t) => Some(t.map()),
            None => None,
        }
    }

    /// The pending control requests, by id.
    pub closed spec fn pending(&self) -> Map<Seq<char>, PendingState<W>> {
        self.registry.pending()
    }

    /// How many control request ids have been issued.
    pub closed spec fn issued(&self) -> nat {
        self.registry.issued()
    }

    /// The registered hook callbacks, by id.
    pub closed spec fn callbacks(&self) -> Map<Seq<char>, H> {
        self.hook_callbacks.callbacks()
    }

    /// The number from which the next hook id is made.
    pub closed spec fn next_hook_id(&self) -> nat {
        self.hook_callbacks.next_id()
    }

    /// The conversation messages queued by the message handler.
    pub closed spec fn queue(&self) -> Seq<Message> {
        self.message_queue@
    }

    pub closed spec fn wf(&self) -> bool {
        &&& self.registry.wf()
        &&& self.hook_callbacks.wf()
        &&& self.sdk_mcp_servers matches Some(t) ==> t.wf()
    }

    /// The configuration, the hooks and the control requests are as in `o`.
    pub open spec fn same_setup(&self, o: &Self) -> bool {
        &&& self.streaming() == o.streaming()
        &&& self.predicate() == o.predicate()
        &&& self.declared_hooks() == o.declared_hooks()
        &&& self.callbacks() == o.callbacks()
        &&& self.next_hook_id() == o.next_hook_id()
        &&& self.pending() == o.pending()
        &&& self.issued() == o.issued()
    }

    /// The lifecycle flags are as in `o`.
    pub open spec fn same_lifecycle(&self, o: &Self) -> bool {
        self.is_initialized() == o.is_initialized() && self.is_closed_state() == o.is_closed_state()
    }

    /// Everything but the pending control requests is as in `o`.
    pub open spec fn same_but_requests(&self, o: &Self) -> bool {
        &&& self.streaming() == o.streaming()
        &&& self.is_initialized() == o.is_initialized()
        &&& self.is_closed_state() == o.is_closed_state()
        &&& self.predicate() == o.predicate()
        &&& self.declared_hooks() == o.declared_hooks()
        &&& self.callbacks() == o.callbacks()
        &&& self.next_hook_id() == o.next_hook_id()
        &&& self.queue() == o.queue()
        &&& self.mcp_servers() == o.mcp_servers()
    }

    /// Why a control request may not be sent now, if it may not: the session is
    /// not in streaming mode, or closed, or (for anything but `initialize`) not
    /// yet initialized.
    pub open spec fn refusal(&self, is_initialize: bool) -> Option<Seq<char>> {
        if !self.streaming() {
            Some(not_streaming_text())
        } else if self.is_closed_state() {
            Some(closed_text())
        } else if !is_initialize && !self.is_initialized() {
            Some(not_initialized_text())
        } else {
            None
        }
    }

    /// `r` is the outcome of starting the control request `request` with wake
    /// handle `waker` from state `pre`, leading to state `post`: either a fresh id
    /// is registered as pending and the envelope to send is returned, or the
    /// request is refused and nothing changes.
    pub open spec fn control_begun(
        pre: &Self,
        post: &Self,
        request: ControlRequest,
        waker: W,
        r: Result<ControlEnvelope, AgentError>,
    ) -> bool {
        match r {
            Ok(env) => {
                &&& pre.refusal(request is Initialize) is None
                &&& pre.issued() < u64::MAX
                &&& env.request == request
                &&& issued_with(env.request_id@, pre.issued() + 1)
                &&& !pre.pending().contains_key(env.request_id@)
                &&& post.pending() == pre.pending().insert(
                    env.request_id@,
                    PendingState { subtype: request.subtype_text(), reply: None, waker },
                )
                &&& post.issued() == pre.issued() + 1
                &&& post.same_but_requests(pre)
            },
            Err(e) => {
                &&& e is ProcessError
                &&& *post == *pre
                &&& match pre.refusal(request is Initialize) {
                    Some(t) => e.text() == t,
                    None => pre.issued() == u64::MAX,
                }
            },
        }
    }

    pub fn new(
        is_streaming_mode: bool,
        can_use_tool: Option<P>,
        hooks: Option<Vec<(String, Vec<HookMatcher<H>>)>>,
        sdk_mcp_servers: Option<NameTable<String>>,
    ) -> (r: Self)
        requires
            sdk_mcp_servers matches Some(t) ==> t.wf(),
        ensures
            r.wf(),
            r.streaming() == is_streaming_mode,
            !r.is_initialized(),
            !r.is_closed_state(),
            r.predicate() == can_use_tool,
            r.declared_hooks() == (match hooks {
                Some(v) => Some(v@),
                None => None::<Seq<(String, Vec<HookMatcher<H>>)>>,
            }),
            r.pending() == Map::<Seq<char>, PendingState<W>>::empty(),
            r.issued() == 0,
            r.callbacks() == Map::<Seq<char>, H>::empty(),
            r.next_hook_id() == 0,
            r.queue() == Seq::<Message>::empty(),
            r.mcp_servers() == (match sdk_mcp_servers {
                Some(t) => Some(t.map()),
                None => None::<Map<Seq<char>, String>>,
            }),
    {
        Query {
            is_streaming_mode,
            can_use_tool,
            hooks,
            sdk_mcp_servers,
            registry: ControlRegistry::new(),
            hook_callbacks: HookRegistry::new(),
            message_queue: Vec::new(),
            initialized: false,
            closed: false,
        }
    }

    fn check_control(&self, is_initialize: bool) -> (r: Result<(), AgentError>)
        ensures
            match self.refusal(is_initialize) {
                Some(t) => r is Err && r->Err_0 is ProcessError && r->Err_0.text() == t,
                None => r is Ok,
            },
    {
        proof {
            reveal_strlit("Query is closed");
            reveal_strlit("Control requests require streaming mode");
            reveal_strlit("Query is not initialized");
        }
        if !self.is_streaming_mode {
            Err(AgentError::ProcessError("Control requests require streaming mode".to_string()))
        } else if self.closed {
            Err(AgentError::ProcessError("Query is closed".to_string()))
        } else if !is_initialize && !self.initialized {
            Err(AgentError::ProcessError("Query is not initialized".to_string()))
        } else {
            Ok(())
        }
    }

    /// Starts a control request whose id carries the given nonce: checks that the
    /// session may send it, registers a pending entry under a fresh id, and
    /// returns the envelope to send.
    pub fn begin_control_request_with_nonce(&mut self, request: ControlRequest, nonce: &str, waker: W) -> (r: Result<ControlEnvelope, AgentError>)
        requires
            old(self).wf(),
        ensures
            final(self).wf(),
            Self::control_begun(old(self), final(self), request, waker, r),
            r matches Ok(env) ==> env.request_id@ == crate::ids::request_id_text(old(self).issued() + 1, nonce@),
    {
        let is_initialize = match &request {
            ControlRequest::Initialize { .. } => true,
            _ => false,
        };
        match self.check_control(is_initialize) {
            Err(e) => Err(e),
            Ok(()) => {
                let subtype = request.subtype();
                match self.registry.issue(subtype, nonce, waker) {
                    Err(e) => Err(e),
                    Ok(request_id) => {
                        proof {
                            assert(issued_with(request_id@, old(self).issued() + 1));
                        }
                        Ok(ControlEnvelope { request_id, request })
                    },
                }
            },
        }
    }

    /// Starts a control request under a fresh id with a random nonce.
    pub fn begin_control_request(&mut self, request: ControlRequest, waker: W) -> (r: Result<ControlEnvelope, AgentError>)
        requires
            old(self).wf(),
        ensures
            final(self).wf(),
            Self::control_begun(old(self), final(self), request, waker, r),
    {
        let nonce = fresh_nonce();
        self.begin_control_request_with_nonce(request, nonce.as_str(), waker)
    }

    /// Starts an `interrupt` control request.
    pub fn interrupt(&mut self, waker: W) -> (r: Result<ControlEnvelope, AgentError>)
        requires
            old(self).wf(),
        ensures
            final(self).wf(),
            Self::control_begun(old(self), final(self), ControlRequest::Interrupt, waker, r),
    {
        self.begin_control_request(ControlRequest::Interrupt, waker)
    }

    /// Starts a `set_permission_mode` control request.
    pub fn set_permission_mode(&mut self, mode: &str, waker: W) -> (r: Result<ControlEnvelope, AgentError>)
        requires
            old(self).wf(),
        ensures
            final(self).wf(),
            r matches Ok(env) ==> env.request matches ControlRequest::SetPermissionMode { mode: m } && m@ == mode@,
            exists|m: String| m@ == mode@ && Self::control_begun(old(self), final(self), ControlRequest::SetPermissionMode { mode: m }, waker, r),
    {
        let m = mode.to_string();
        let ghost request = ControlRequest::SetPermissionMode { mode: m };
        let r = self.begin_control_request(ControlRequest::SetPermissionMode { mode: m }, waker);
        proof {
            assert(Self::control_begun(old(self), final(self), request, waker, r));
        }
        r
    }

    /// Starts a `set_model` control request.
    pub fn set_model(&mut self, model: Option<&str>, waker: W) -> (r: Result<ControlEnvelope, AgentError>)
        requires
            old(self).wf(),
        ensures
            final(self).wf(),
            r matches Ok(env) ==> env.request matches ControlRequest::SetModel { model: m } && opt_str_view(m) == opt_ref_view(model),
            exists|m: Option<String>| opt_str_view(m) == opt_ref_view(model) && Self::control_begun(old(self), final(self), ControlRequest::SetModel { model: m }, waker, r),
    {
        let m = match model {
            Some(s) => {
                let t = s.to_string();
                assert(t@ == s@);
                Some(t)
            },
            None => None,
        };
        assert(opt_str_view(m) == opt_ref_view(model));
        let ghost request = ControlRequest::SetModel { model: m };
        let r = self.begin_control_request(ControlRequest::SetModel { model: m }, waker);
        proof {
            assert(Self::control_begun(old(self), final(self), request, waker, r));
        }
        r
    }

    /// Hands the waiter of control request `id` its outcome once the reply has
    /// arrived, removing the entry; `None` while no reply has arrived.
    pub fn complete_control_request(&mut self, id: &String) -> (r: Option<Result<serde_json::Value, AgentError>>)
        requires
            old(self).wf(),
        ensures
            final(self).wf(),
            final(self).issued() == old(self).issued(),
            final(self).same_but_requests(old(self)),
            match r {
                Some(out) => {
                    &&& old(self).pending().contains_key(id@)
                    &&& old(self).pending()[id@].reply matches Some(reply)
                    &&& is_reply_outcome(out, reply)
                    &&& final(self).pending() == old(self).pending().remove(id@)
                },
                None => {
                    &&& !(old(self).pending().contains_key(id@) && old(self).pending()[id@].reply is Some)
                    &&& final(self).pending() == old(self).pending()
                },
            },
    {
        self.registry.take(id)
    }

    /// Gives up on control request `id` when its wait ran out: the entry is
    /// removed, so a late response is dropped, and the timeout error names the
    /// request's subtype.
    pub fn expire_control_request(&mut self, id: &String) -> (r: AgentError)
        requires
            old(self).wf(),
        ensures
            final(self).wf(),
            final(self).issued() == old(self).issued(),
            final(self).same_but_requests(old(self)),
            final(self).pending() == old(self).pending().remove(id@),
            r is ProcessError,
            old(self).pending().contains_key(id@) ==> r.text() == timeout_text(old(self).pending()[id@].subtype),
            !old(self).pending().contains_key(id@) ==> r.text() == timeout_text("unknown"@),
    {
        self.registry.expire(id)
    }

    /// The wake handle of pending control request `id`.
    pub fn control_waker(&self, id: &String) -> (r: Option<&W>)
        requires
            self.wf(),
        ensures
            match r {
                Some(w) => self.pending().contains_key(id@) && *w == self.pending()[id@].waker,
                None => !self.pending().contains_key(id@),
            },
    {
        self.registry.waker(id)
    }

    /// Handles one inbound frame of a streaming exchange: a conversation message
    /// is appended to `collected`; a control response resolves the pending request
    /// it names, if any; anything else is dropped.
    pub fn process_frame(&mut self, frame: InboundFrame, collected: &mut Vec<Message>) -> (r: FrameOutcome)
        requires
            old(self).wf(),
        ensures
            final(self).wf(),
            final(self).issued() == old(self).issued(),
            final(self).same_but_requests(old(self)),
            match frame {
                InboundFrame::Conversation(m) => {
                    &&& final(collected)@ == old(collected)@.push(m)
                    &&& r == (FrameOutcome::Delivered { terminal: m is Result })
                    &&& final(self).pending() == old(self).pending()
                },
                InboundFrame::ControlResponse { request_id, reply } => {
                    &&& final(collected)@ == old(collected)@
                    &&& final(self).pending() == resolved(old(self).pending(), request_id@, reply)
                    &&& old(self).pending().contains_key(request_id@) ==> r == FrameOutcome::Resolved(request_id)
                    &&& !old(self).pending().contains_key(request_id@) ==> r == FrameOutcome::Dropped
                },
                InboundFrame::Other(_) => {
                    &&& final(collected)@ == old(collected)@
                    &&& final(self).pending() == old(self).pending()
                    &&& r == FrameOutcome::Dropped
                },
            },
    {
        match frame {
            InboundFrame::Conversation(m) => {
                let terminal = m.is_terminal();
                collected.push(m);
                FrameOutcome::Delivered { terminal }
            },
            InboundFrame::ControlResponse { request_id, reply } => {
                if self.registry.resolve(&request_id, reply) {
                    FrameOutcome::Resolved(request_id)
                } else {
                    FrameOutcome::Dropped
                }
            },
            InboundFrame::Other(_) => FrameOutcome::Dropped,
        }
    }

    /// The hooks that initialization announces: the declared ones, or none.
    pub open spec fn hooks_to_announce(&self) -> Seq<(String, Vec<HookMatcher<H>>)> {
        match self.declared_hooks() {
            Some(hs) => hs,
            None => Seq::empty(),
        }
    }

    /// Starts the session's handshake. Outside streaming mode there is none: the
    /// result is `Ok(None)`, nothing is to be sent and nothing changes. In
    /// streaming mode each declared hook function gets the next fresh id
    /// `hook_<n>` and is registered under it, and the returned `initialize`
    /// control request announces them (`hooks` is `None` when no event has a
    /// matcher). The session is initialized once its response arrives, see
    /// [`Query::finish_initialize`].
    pub fn initialize(&mut self, waker: W) -> (r: Result<Option<ControlEnvelope>, AgentError>)
        requires
            old(self).wf(),
        ensures
            final(self).wf(),
            !old(self).streaming() ==> r == Ok::<Option<ControlEnvelope>, AgentError>(None) && *final(self) == *old(self),
            old(self).streaming() && old(self).refusal(true) is Some ==> {
                &&& r is Err && r->Err_0 is ProcessError
                &&& r->Err_0.text() == old(self).refusal(true)->Some_0
                &&& *final(self) == *old(self)
            },
            old(self).streaming() && old(self).refusal(true) is None && old(self).next_hook_id()
                + event_hooks(old(self).hooks_to_announce()).len() > u64::MAX ==> {
                &&& r is Err && r->Err_0 is ProcessError && r->Err_0.text() == too_many_hooks_text()
                &&& *final(self) == *old(self)
            },
            old(self).streaming() && old(self).refusal(true) is None && old(self).next_hook_id()
                + event_hooks(old(self).hooks_to_announce()).len() <= u64::MAX ==> {
                let hs = old(self).hooks_to_announce();
                let n = old(self).next_hook_id();
                &&& final(self).callbacks() == registered_all(old(self).callbacks(), n, event_hooks(hs))
                &&& final(self).next_hook_id() == n + event_hooks(hs).len()
                &&& final(self).declared_hooks() is None
                &&& final(self).streaming() == old(self).streaming()
                &&& final(self).is_initialized() == old(self).is_initialized()
                &&& final(self).is_closed_state() == old(self).is_closed_state()
                &&& final(self).predicate() == old(self).predicate()
                &&& final(self).queue() == old(self).queue()
                &&& final(self).mcp_servers() == old(self).mcp_servers()
                &&& match r {
                    Ok(Some(env)) => {
                        &&& env.request matches ControlRequest::Initialize { hooks }
                        &&& announces(hooks, event_configs(hs, n))
                        &&& issued_with(env.request_id@, old(self).issued() + 1)
                        &&& !old(self).pending().contains_key(env.request_id@)
                        &&& final(self).pending() == old(self).pending().insert(
                            env.request_id@,
                            PendingState { subtype: "initialize"@, reply: None, waker },
                        )
                        &&& final(self).issued() == old(self).issued() + 1
                    },
                    Ok(None) => false,
                    Err(e) => {
                        &&& e is ProcessError
                        &&& old(self).issued() == u64::MAX
                        &&& final(self).pending() == old(self).pending()
                        &&& final(self).issued() == old(self).issued()
                    },
                }
            },
    {
        if !self.is_streaming_mode {
            return Ok(None);
        }
        match self.check_control(true) {
            Err(e) => {
                return Err(e);
            },
            Ok(()) => {},
        }
        let total = match &self.hooks {
            Some(hs) => count_hooks(hs),
            None => {
                proof {
                    assert(event_hooks(Seq::<(String, Vec<HookMatcher<H>>)>::empty()) =~= Seq::<H>::empty());
                }
                Some(0)
            },
        };
        let fits = match total {
            Some(t) => self.hook_callbacks.fits(t),
            None => false,
        };
        if !fits {
            proof {
                reveal_strlit("Too many hook callbacks");
            }
            return Err(AgentError::ProcessError("Too many hook callbacks".to_string()));
        }
        let hs = match self.hooks.take() {
            Some(hs) => hs,
            None => Vec::new(),
        };
        let config = self.hook_callbacks.hooks_config(hs);
        let hooks = if config.len() == 0 {
            None
        } else {
            Some(config)
        };
        let request = ControlRequest::Initialize { hooks };
        match self.begin_control_request(request, waker) {
            Ok(env) => Ok(Some(env)),
            Err(e) => Err(e),
        }
    }

    /// Completes the handshake with the outcome of the `initialize` request: on
    /// success the session is initialized and the peer's response is returned.
    pub fn finish_initialize(&mut self, outcome: Result<serde_json::Value, AgentError>) -> (r: Result<Option<serde_json::Value>, AgentError>)
        requires
            old(self).wf(),
        ensures
            final(self).wf(),
            final(self).pending() == old(self).pending(),
            final(self).issued() == old(self).issued(),
            match outcome {
                Ok(v) => {
                    &&& r == Ok::<Option<serde_json::Value>, AgentError>(Some(v))
                    &&& final(self).is_initialized()
                    &&& final(self).is_closed_state() == old(self).is_closed_state()
                    &&& final(self).same_setup(old(self))
                    &&& final(self).queue() == old(self).queue()
                    &&& final(self).mcp_servers() == old(self).mcp_servers()
                },
                Err(e) => r == Err::<Option<serde_json::Value>, AgentError>(e) && *final(self) == *old(self),
            },
    {
        match outcome {
            Ok(v) => {
                self.initialized = true;
                Ok(Some(v))
            },
            Err(e) => Err(e),
        }
    }

    /// The permission gate. With no predicate configured every tool use is
    /// allowed with its input as given; otherwise the predicate is to be asked,
    /// with an empty context.
    pub fn handle_tool_use(&self, tool_name: String, tool_input: HashMap<String, serde_json::Value>) -> (r: ToolUseStep)
        ensures
            self.predicate() is None ==> (r matches ToolUseStep::Decided(PermissionResult::Allow(a)) && {
                &&& a.behavior@ == "allow"@
                &&& a.updated_input is None
                &&& a.updated_permissions is None
            }),
            self.predicate() is Some ==> (r matches ToolUseStep::AskPredicate { tool_name: n, tool_input: i, context: c } && {
                &&& n == tool_name
                &&& i == tool_input
                &&& c.signal is None
                &&& c.suggestions@.len() == 0
            }),
    {
        match &self.can_use_tool {
            None => {
                proof {
                    reveal_strlit("allow");
                }
                ToolUseStep::Decided(PermissionResult::Allow(PermissionResultAllow {
                    behavior: "allow".to_string(),
                    updated_input: None,
                    updated_permissions: None,
                }))
            },
            Some(_) => ToolUseStep::AskPredicate {
                tool_name,
                tool_input,
                context: ToolPermissionContext { signal: None, suggestions: Vec::new() },
            },
        }
    }

    /// The configured permission predicate, which [`ToolUseStep::AskPredicate`]
    /// asks the caller to invoke.
    pub fn permission_predicate(&self) -> (r: Option<&P>)
        ensures
            match r {
                Some(p) => self.predicate() == Some(*p),
                None => self.predicate() is None,
            },
    {
        match &self.can_use_tool {
            Some(p) => Some(p),
            None => None,
        }
    }

    /// Dispatches a permission update on its kind. Rule and directory changes are
    /// handed back for the permission store; `setMode` starts a
    /// `set_permission_mode` request when a mode is given. Any other kind is an
    /// error and changes nothing.
    pub fn handle_permission_update(&mut self, update: PermissionUpdate, waker: W) -> (r: Result<PermissionUpdateStep, AgentError>)
        requires
            old(self).wf(),
        ensures
            final(self).wf(),
            match update_kind_of(update.kind@) {
                None => {
                    &&& r is Err && r->Err_0 is ProcessError
                    &&& r->Err_0.text() == unknown_update_text(update.kind@)
                    &&& *final(self) == *old(self)
                },
                Some(PermissionUpdateKind::SetMode) => match update.mode {
                    None => r matches Ok(PermissionUpdateStep::Unchanged) && *final(self) == *old(self),
                    Some(m) => {
                        let request = ControlRequest::SetPermissionMode { mode: m };
                        match r {
                            Ok(PermissionUpdateStep::SetMode(env)) => Self::control_begun(old(self), final(self), request, waker, Ok(env)),
                            Err(e) => Self::control_begun(old(self), final(self), request, waker, Err(e)),
                            _ => false,
                        }
                    },
                },
                Some(k) => {
                    &&& *final(self) == *old(self)
                    &&& (k == PermissionUpdateKind::AddRules || k == PermissionUpdateKind::ReplaceRules
                        || k == PermissionUpdateKind::RemoveRules) ==> (r matches Ok(
                        PermissionUpdateStep::Rules { kind, rules },
                    ) && kind == k && rules == update.rules)
                    &&& (k == PermissionUpdateKind::AddDirectories || k == PermissionUpdateKind::RemoveDirectories)
                        ==> (r matches Ok(PermissionUpdateStep::Directories { kind, directories }) && kind == k
                        && directories == update.directories)
                },
            },
    {
        match permission_update_kind(&update.kind) {
            None => {
                proof {
                    reveal_strlit("Unknown permission update type: ");
                }
                Err(AgentError::ProcessError("Unknown permission update type: ".to_string().concat(update.kind.as_str())))
            },
            Some(PermissionUpdateKind::SetMode) => match update.mode {
                None => Ok(PermissionUpdateStep::Unchanged),
                Some(m) => match self.begin_control_request(ControlRequest::SetPermissionMode { mode: m }, waker) {
                    Ok(env) => Ok(PermissionUpdateStep::SetMode(env)),
                    Err(e) => Err(e),
                },
            },
            Some(PermissionUpdateKind::AddDirectories) => Ok(PermissionUpdateStep::Directories { kind: PermissionUpdateKind::AddDirectories, directories: update.directories }),
            Some(PermissionUpdateKind::RemoveDirectories) => Ok(PermissionUpdateStep::Directories { kind: PermissionUpdateKind::RemoveDirectories, directories: update.directories }),
            Some(k) => Ok(PermissionUpdateStep::Rules { kind: k, rules: update.rules }),
        }
    }

    /// Registers `callback` under `callback_id`, replacing any callback there.
    pub fn register_hook_callback(&mut self, callback_id: String, callback: H)
        requires
            old(self).wf(),
        ensures
            final(self).wf(),
            final(self).callbacks() == old(self).callbacks().insert(callback_id@, callback),
            final(self).next_hook_id() == old(self).next_hook_id(),
            final(self).pending() == old(self).pending(),
            final(self).issued() == old(self).issued(),
            final(self).streaming() == old(self).streaming(),
            final(self).predicate() == old(self).predicate(),
            final(self).declared_hooks() == old(self).declared_hooks(),
            final(self).same_lifecycle(old(self)),
            final(self).queue() == old(self).queue(),
            final(self).mcp_servers() == old(self).mcp_servers(),
    {
        self.hook_callbacks.register(callback_id, callback);
    }

    /// The callback that executing hook `callback_id` invokes, or a process error
    /// when no callback is registered under that id.
    pub fn execute_hook(&self, callback_id: &String) -> (r: Result<&H, AgentError>)
        requires
            self.wf(),
        ensures
            match r {
                Ok(h) => self.callbacks().contains_key(callback_id@) && *h == self.callbacks()[callback_id@],
                Err(e) => {
                    &&& !self.callbacks().contains_key(callback_id@)
                    &&& e is ProcessError
                    &&& e.text() == hook_not_found_text(callback_id@)
                },
            },
    {
        match self.hook_callbacks.lookup(callback_id) {
            Some(h) => Ok(h),
            None => {
                proof {
                    reveal_strlit("Hook callback not found: ");
                }
                Err(AgentError::ProcessError("Hook callback not found: ".to_string().concat(callback_id.as_str())))
            },
        }
    }

    /// Queues a conversation message for [`Query::get_messages`].
    pub fn handle_message(&mut self, message: Message)
        requires
            old(self).wf(),
        ensures
            final(self).wf(),
            final(self).queue() == old(self).queue().push(message),
            final(self).same_setup(old(self)),
            final(self).same_lifecycle(old(self)),
            final(self).mcp_servers() == old(self).mcp_servers(),
    {
        self.message_queue.push(message);
    }

    /// Takes the queued messages, in arrival order, leaving the queue empty.
    pub fn get_messages(&mut self) -> (r: Vec<Message>)
        requires
            old(self).wf(),
        ensures
            final(self).wf(),
            r@ == old(self).queue(),
            final(self).queue() == Seq::<Message>::empty(),
            final(self).same_setup(old(self)),
            final(self).same_lifecycle(old(self)),
            final(self).mcp_servers() == old(self).mcp_servers(),
    {
        let mut out: Vec<Message> = Vec::new();
        std::mem::swap(&mut out, &mut self.message_queue);
        out
    }

    fn query_envelope(&self, messages: Vec<Message>, tools: Option<Vec<serde_json::Value>>, system: Option<serde_json::Value>, stream: bool) -> (r: Result<QueryEnvelope, AgentError>)
        ensures
            self.is_closed_state() ==> r is Err && r->Err_0 is ProcessError && r->Err_0.text() == closed_text(),
            !self.is_closed_state() ==> (r matches Ok(q) && q.messages == messages && q.tools == tools && q.system == system && q.stream == stream),
    {
        if self.closed {
            proof {
                reveal_strlit("Query is closed");
            }
            Err(AgentError::ProcessError("Query is closed".to_string()))
        } else {
            Ok(QueryEnvelope { messages, tools, system, stream })
        }
    }

    /// The one-shot query to send; its answer is the next frame, verbatim.
    pub fn execute_query(&self, messages: Vec<Message>, tools: Option<Vec<serde_json::Value>>, system: Option<serde_json::Value>) -> (r: Result<QueryEnvelope, AgentError>)
        ensures
            self.is_closed_state() ==> r is Err && r->Err_0 is ProcessError && r->Err_0.text() == closed_text(),
            !self.is_closed_state() ==> (r matches Ok(q) && q.messages == messages && q.tools == tools && q.system == system && !q.stream),
    {
        self.query_envelope(messages, tools, system, false)
    }

    /// The streaming query to send; its answer is gathered with
    /// [`Query::process_frame`] until a `Result` message.
    pub fn execute_query_streaming(&self, messages: Vec<Message>, tools: Option<Vec<serde_json::Value>>, system: Option<serde_json::Value>) -> (r: Result<QueryEnvelope, AgentError>)
        ensures
            self.is_closed_state() ==> r is Err && r->Err_0 is ProcessError && r->Err_0.text() == closed_text(),
            !self.is_closed_state() ==> (r matches Ok(q) && q.messages == messages && q.tools == tools && q.system == system && q.stream),
    {
        self.query_envelope(messages, tools, system, true)
    }

    /// Adds the MCP server `name` at `uri`, replacing any uri under that name.
    pub fn add_mcp_server(&mut self, name: String, uri: String)
        requires
            old(self).wf(),
        ensures
            final(self).wf(),
            final(self).mcp_servers() == Some(
                match old(self).mcp_servers() {
                    Some(m) => m,
                    None => Map::<Seq<char>, String>::empty(),
                }.insert(name@, uri),
            ),
            final(self).same_setup(old(self)),
            final(self).same_lifecycle(old(self)),
            final(self).queue() == old(self).queue(),
    {
        match &mut self.sdk_mcp_servers {
            Some(servers) => {
                servers.insert(name, uri);
            },
            None => {
                let mut servers = NameTable::new();
                servers.insert(name, uri);
                self.sdk_mcp_servers = Some(servers);
            },
        }
    }

    /// The MCP servers, if any were given or added.
    pub fn list_mcp_servers(&self) -> (r: Option<&NameTable<String>>)
        requires
            self.wf(),
        ensures
            match r {
                Some(t) => t.wf() && self.mcp_servers() == Some(t.map()),
                None => self.mcp_servers() is None,
            },
    {
        match &self.sdk_mcp_servers {
            Some(servers) => Some(servers),
            None => None,
        }
    }

    pub fn close(&mut self)
        requires
            old(self).wf(),
        ensures
            final(self).wf(),
            final(self).is_closed_state(),
            final(self).is_initialized() == old(self).is_initialized(),
            final(self).same_setup(old(self)),
            final(self).queue() == old(self).queue(),
            final(self).mcp_servers() == old(self).mcp_servers(),
    {
        self.closed = true;
    }

    pub fn is_closed(&self) -> (r: bool)
        ensures
            r == self.is_closed_state(),
    {
        self.closed
    }
}

/// `hooks` announces the configuration `c`: absent when `c` is empty.
pub open spec fn announces(hooks: Option<Vec<HookEventConfig>>, c: Seq<(Seq<char>, Seq<(Option<Seq<char>>, Seq<Seq<char>>)>)>) -> bool {
    match hooks {
        None => c.len() == 0,
        Some(v) => c.len() > 0 && v@.map_values(|e: HookEventConfig| e@) == c,
    }
}

pub open spec fn opt_str_view(o: Option<String>) -> Option<Seq<char>> {
    match o {
        Some(s) => Some(s@),
        None => None,
    }
}

pub open spec fn opt_ref_view(o: Option<&str>) -> Option<Seq<char>> {
    match o {
        Some(s) => Some(s@),
        None => None,
    }
}

/// Relies on `uuid::Uuid::new_v4`, a random version-4 UUID, in its hyphenated
/// text form; nothing is assumed of its value.
#[verifier::external_body]
fn fresh_nonce() -> (r: String) {
    uuid::Uuid::new_v4().to_string()
}

} // verus!

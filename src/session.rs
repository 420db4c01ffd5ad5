use vstd::prelude::*;

use crate::control::{dec, push_decimal};
use crate::message::opt_str;

verus! {

/// Where a session stands.
#[derive(PartialEq, Eq, Structural, Clone, Copy, Debug)]
pub enum AgentState {
    Idle,
    Thinking,
    ExecutingTool,
    WaitingPermission,
    Interrupting,
    Closed,
}

/// What happened, as the session actor sees it.
pub enum SessionEvent {
    /// The peer sent a user message or a query.
    UserQuery,
    /// The CLI sent assistant output; `has_tool_use` when it holds a tool use.
    AssistantOutput { has_tool_use: bool },
    /// The CLI asked whether it may use a tool.
    PermissionAsked { request_id: String },
    /// The pending permission round trip ended: the peer decided, or its
    /// deadline passed, or its channel closed.
    PermissionDecided,
    /// The peer asked to interrupt or cancel.
    Interrupt,
    /// The CLI sent the result that ends a turn.
    TurnResult,
    /// No result came within the interrupt deadline.
    InterruptTimedOut,
    /// The peer went away.
    Disconnect,
    /// The CLI's output ended.
    TransportEof,
}

/// What the actor must do in answer to an event.
#[derive(PartialEq, Eq, Structural, Clone, Copy, Debug)]
pub enum SessionAction {
    /// Send the user message to the engine under a fresh cancellation token.
    StartTurn,
    /// A turn is already in flight: tell the peer the message was refused.
    RejectQuery,
    /// Pass the message on to the peer.
    Forward,
    /// Ask the peer about the tool use.
    AskPeer,
    /// Another permission is pending, or no turn is running: deny at once.
    RefusePermission,
    /// Hand the peer's decision back to the CLI.
    ForwardDecision,
    /// Fire the turn's cancellation token, deny any pending permission, and
    /// send the `interrupt` control request.
    CancelAndInterrupt,
    /// The turn ended: drop its token and pass the result on.
    EndTurn,
    /// The interrupt went unanswered: report a protocol error; the turn ends.
    ReportInterruptTimeout,
    /// Cancel everything, disconnect the engine, and close.
    Close,
    /// Report a fatal error to the peer, then close.
    CloseWithError,
    /// Nothing to do.
    Ignore,
}

pub struct SessionV {
    pub status: AgentState,
    pub resume_to: AgentState,
    pub pending_permission: Option<Seq<char>>,
    pub turn_active: bool,
}

pub enum SessionEventV {
    UserQuery,
    AssistantOutput { has_tool_use: bool },
    PermissionAsked { request_id: Seq<char> },
    PermissionDecided,
    Interrupt,
    TurnResult,
    InterruptTimedOut,
    Disconnect,
    TransportEof,
}

impl SessionEvent {
    pub open spec fn view(&self) -> SessionEventV {
        match self {
            SessionEvent::UserQuery => SessionEventV::UserQuery,
            SessionEvent::AssistantOutput { has_tool_use } => SessionEventV::AssistantOutput {
                has_tool_use: *has_tool_use,
            },
            SessionEvent::PermissionAsked { request_id } => SessionEventV::PermissionAsked {
                request_id: request_id@,
            },
            SessionEvent::PermissionDecided => SessionEventV::PermissionDecided,
            SessionEvent::Interrupt => SessionEventV::Interrupt,
            SessionEvent::TurnResult => SessionEventV::TurnResult,
            SessionEvent::InterruptTimedOut => SessionEventV::InterruptTimedOut,
            SessionEvent::Disconnect => SessionEventV::Disconnect,
            SessionEvent::TransportEof => SessionEventV::TransportEof,
        }
    }
}

/// The states in which a turn is in flight.
pub open spec fn in_turn(s: AgentState) -> bool {
    s == AgentState::Thinking || s == AgentState::ExecutingTool || s == AgentState::WaitingPermission
        || s == AgentState::Interrupting
}

pub open spec fn running(s: AgentState) -> bool {
    s == AgentState::Thinking || s == AgentState::ExecutingTool
}

/// The state invariant: a turn is in flight exactly in the turn states, a
/// permission is pending exactly while waiting for it, and waiting returns
/// to a running state.
pub open spec fn session_wf(s: SessionV) -> bool {
    &&& s.turn_active <==> in_turn(s.status)
    &&& s.pending_permission is Some <==> s.status == AgentState::WaitingPermission
    &&& s.status == AgentState::WaitingPermission ==> running(s.resume_to)
}

pub open spec fn with_status(s: SessionV, st: AgentState) -> SessionV {
    SessionV { status: st, ..s }
}

pub open spec fn idle() -> SessionV {
    SessionV {
        status: AgentState::Idle,
        resume_to: AgentState::Idle,
        pending_permission: None,
        turn_active: false,
    }
}

/// One step of the session actor. A user message while a turn is in flight
/// is refused (not queued); a permission request while another is pending,
/// or outside a running turn, is denied.
pub open spec fn step_spec(s: SessionV, e: SessionEventV) -> (SessionV, SessionAction) {
    if s.status == AgentState::Closed {
        (s, SessionAction::Ignore)
    } else {
        match e {
            SessionEventV::UserQuery => if s.turn_active {
                (s, SessionAction::RejectQuery)
            } else {
                (
                    SessionV { status: AgentState::Thinking, turn_active: true, ..s },
                    SessionAction::StartTurn,
                )
            },
            SessionEventV::AssistantOutput { has_tool_use } => if running(s.status) {
                (
                    with_status(
                        s,
                        if has_tool_use {
                            AgentState::ExecutingTool
                        } else {
                            AgentState::Thinking
                        },
                    ),
                    SessionAction::Forward,
                )
            } else {
                (s, SessionAction::Forward)
            },
            SessionEventV::PermissionAsked { request_id } => if running(s.status) {
                (
                    SessionV {
                        status: AgentState::WaitingPermission,
                        resume_to: s.status,
                        pending_permission: Some(request_id),
                        ..s
                    },
                    SessionAction::AskPeer,
                )
            } else {
                (s, SessionAction::RefusePermission)
            },
            SessionEventV::PermissionDecided => if s.status == AgentState::WaitingPermission {
                (
                    SessionV { status: s.resume_to, pending_permission: None, ..s },
                    SessionAction::ForwardDecision,
                )
            } else {
                (s, SessionAction::Ignore)
            },
            SessionEventV::Interrupt => if s.turn_active && s.status != AgentState::Interrupting {
                (
                    SessionV { status: AgentState::Interrupting, pending_permission: None, ..s },
                    SessionAction::CancelAndInterrupt,
                )
            } else {
                (s, SessionAction::Ignore)
            },
            SessionEventV::TurnResult => if s.turn_active {
                (idle(), SessionAction::EndTurn)
            } else {
                (s, SessionAction::Forward)
            },
            SessionEventV::InterruptTimedOut => if s.status == AgentState::Interrupting {
                (idle(), SessionAction::ReportInterruptTimeout)
            } else {
                (s, SessionAction::Ignore)
            },
            SessionEventV::Disconnect => (
                SessionV { status: AgentState::Closed, pending_permission: None, turn_active: false, ..s },
                SessionAction::Close,
            ),
            SessionEventV::TransportEof => (
                SessionV { status: AgentState::Closed, pending_permission: None, turn_active: false, ..s },
                SessionAction::CloseWithError,
            ),
        }
    }
}

/// Every step keeps the state invariant.
pub proof fn lemma_step_keeps_wf(s: SessionV, e: SessionEventV)
    requires
        session_wf(s),
    ensures
        session_wf(step_spec(s, e).0),
{
}

/// At most one turn is in flight: a user message that arrives while a turn
/// runs is refused and leaves the state as it was.
pub proof fn lemma_single_turn(s: SessionV)
    requires
        session_wf(s),
        s.turn_active,
    ensures
        step_spec(s, SessionEventV::UserQuery) == (s, SessionAction::RejectQuery),
{
}

/// At most one permission is pending: while one waits, a second request is
/// denied and the pending one is kept.
pub proof fn lemma_single_permission(s: SessionV, id: Seq<char>)
    requires
        session_wf(s),
        s.pending_permission is Some,
    ensures
        step_spec(s, SessionEventV::PermissionAsked { request_id: id }) == (
            s,
            SessionAction::RefusePermission,
        ),
{
}

/// After an interrupt the turn is `Interrupting`; whatever output still
/// arrives keeps it there, and its result, the interrupt deadline, or a
/// disconnect ends the turn.
pub proof fn lemma_interrupt_ends_turn(s: SessionV, e: SessionEventV)
    requires
        session_wf(s),
        s.turn_active,
        s.status != AgentState::Interrupting,
    ensures
        step_spec(s, SessionEventV::Interrupt).0.status == AgentState::Interrupting,
        step_spec(s, SessionEventV::Interrupt).0.pending_permission is None,
        ({
            let t = step_spec(s, SessionEventV::Interrupt).0;
            match e {
                SessionEventV::TurnResult | SessionEventV::InterruptTimedOut | SessionEventV::Disconnect
                | SessionEventV::TransportEof => !step_spec(t, e).0.turn_active,
                _ => step_spec(t, e).0.status == AgentState::Interrupting,
            }
        }),
{
}

/// The state of one peer's session.
pub struct SessionState {
    session_id: String,
    status: AgentState,
    resume_to: AgentState,
    pending_permission: Option<String>,
    turn_active: bool,
    message_id_counter: u64,
}

impl SessionState {
    pub closed spec fn view(&self) -> SessionV {
        SessionV {
            status: self.status,
            resume_to: self.resume_to,
            pending_permission: opt_str(self.pending_permission),
            turn_active: self.turn_active,
        }
    }

    /// The session identifier.
    pub closed spec fn sid(&self) -> Seq<char> {
        self.session_id@
    }

    pub fn session_id(&self) -> (r: &String)
        ensures
            r@ == self.sid(),
    {
        &self.session_id
    }

    pub closed spec fn message_count(&self) -> nat {
        self.message_id_counter as nat
    }

    pub fn new(session_id: String) -> (r: Self)
        ensures
            r@ == idle(),
            session_wf(r@),
            r.sid() == session_id@,
            r.message_count() == 0,
    {
        SessionState {
            session_id,
            status: AgentState::Idle,
            resume_to: AgentState::Idle,
            pending_permission: None,
            turn_active: false,
            message_id_counter: 0,
        }
    }

    pub fn status(&self) -> (r: AgentState)
        ensures
            r == self@.status,
    {
        self.status
    }

    /// The request identifier of the pending permission, if any.
    pub fn pending_permission(&self) -> (r: Option<String>)
        ensures
            opt_str(r) == self@.pending_permission,
    {
        match &self.pending_permission {
            Some(id) => Some(id.clone()),
            None => None,
        }
    }

    /// Adopts the session identifier the CLI reported.
    pub fn set_session_id(&mut self, id: String)
        ensures
            final(self).sid() == id@,
            final(self)@ == old(self)@,
            final(self).message_count() == old(self).message_count(),
    {
        self.session_id = id;
    }

    /// The next message identifier: `msg-0`, `msg-1`, ...
    pub fn next_message_id(&mut self) -> (r: String)
        requires
            old(self).message_count() < u64::MAX,
        ensures
            r@ == "msg-"@ + dec(old(self).message_count()),
            final(self).message_count() == old(self).message_count() + 1,
            final(self)@ == old(self)@,
            final(self).sid() == old(self).sid(),
    {
        let mut s = String::from_str("msg-");
        push_decimal(&mut s, self.message_id_counter);
        self.message_id_counter = self.message_id_counter + 1;
        s
    }

    /// Takes one event and says what to do about it.
    pub fn step(&mut self, e: SessionEvent) -> (r: SessionAction)
        requires
            session_wf(old(self)@),
        ensures
            (final(self)@, r) == step_spec(old(self)@, e@),
            session_wf(final(self)@),
            final(self).sid() == old(self).sid(),
            final(self).message_count() == old(self).message_count(),
    {
        proof {
            lemma_step_keeps_wf(self@, e@);
        }
        if self.status == AgentState::Closed {
            return SessionAction::Ignore;
        }
        match e {
            SessionEvent::UserQuery => {
                if self.turn_active {
                    SessionAction::RejectQuery
                } else {
                    self.status = AgentState::Thinking;
                    self.turn_active = true;
                    SessionAction::StartTurn
                }
            },
            SessionEvent::AssistantOutput { has_tool_use } => {
                if self.status == AgentState::Thinking || self.status == AgentState::ExecutingTool {
                    self.status = if has_tool_use {
                        AgentState::ExecutingTool
                    } else {
                        AgentState::Thinking
                    };
                }
                SessionAction::Forward
            },
            SessionEvent::PermissionAsked { request_id } => {
                if self.status == AgentState::Thinking || self.status == AgentState::ExecutingTool {
                    self.resume_to = self.status;
                    self.status = AgentState::WaitingPermission;
                    self.pending_permission = Some(request_id);
                    SessionAction::AskPeer
                } else {
                    SessionAction::RefusePermission
                }
            },
            SessionEvent::PermissionDecided => {
                if self.status == AgentState::WaitingPermission {
                    self.status = self.resume_to;
                    self.pending_permission = None;
                    SessionAction::ForwardDecision
                } else {
                    SessionAction::Ignore
                }
            },
            SessionEvent::Interrupt => {
                if self.turn_active && self.status != AgentState::Interrupting {
                    self.status = AgentState::Interrupting;
                    self.pending_permission = None;
                    SessionAction::CancelAndInterrupt
                } else {
                    SessionAction::Ignore
                }
            },
            SessionEvent::TurnResult => {
                if self.turn_active {
                    self.become_idle();
                    SessionAction::EndTurn
                } else {
                    SessionAction::Forward
                }
            },
            SessionEvent::InterruptTimedOut => {
                if self.status == AgentState::Interrupting {
                    self.become_idle();
                    SessionAction::ReportInterruptTimeout
                } else {
                    SessionAction::Ignore
                }
            },
            SessionEvent::Disconnect => {
                self.close();
                SessionAction::Close
            },
            SessionEvent::TransportEof => {
                self.close();
                SessionAction::CloseWithError
            },
        }
    }

    fn become_idle(&mut self)
        ensures
            final(self)@ == idle(),
            final(self).sid() == old(self).sid(),
            final(self).message_count() == old(self).message_count(),
    {
        self.status = AgentState::Idle;
        self.resume_to = AgentState::Idle;
        self.pending_permission = None;
        self.turn_active = false;
    }

    fn close(&mut self)
        ensures
            final(self)@ == (SessionV {
                status: AgentState::Closed,
                pending_permission: None,
                turn_active: false,
                ..old(self)@
            }),
            final(self).sid() == old(self).sid(),
            final(self).message_count() == old(self).message_count(),
    {
        self.status = AgentState::Closed;
        self.pending_permission = None;
        self.turn_active = false;
    }
}

} // verus!

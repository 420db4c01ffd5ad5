use vstd::prelude::*;

use crate::json::{
    Json, JsonV, obj_spec, view_fields, field, field_str, field_int, field_bool, text, view_items,
    lemma_view_items, opt_view,
};
use crate::message::{str_v, opt_str, strings_view, key_sig};
use crate::protocol::{Decision, PermissionMode, decision_named, permission_mode_named};

verus! {

/// What a peer asks for when it opens a session.
pub struct InitRequest {
    /// Whether it came as `workspace_init` (else `user_session_init`).
    pub is_workspace_init: bool,
    pub cwd: String,
    pub model: Option<String>,
    pub permission_mode: Option<PermissionMode>,
    pub max_turns: Option<i64>,
    pub max_budget_usd: Option<Json>,
    pub user: Option<String>,
    pub disallowed_tools: Option<Vec<String>>,
    pub max_thinking_tokens: Option<i64>,
    pub resume: Option<String>,
    pub dangerously_skip_permissions: Option<bool>,
}

/// A message of the peer.
pub enum PeerMessage {
    Init(InitRequest),
    UserMessage { content: String, session_id: Option<String>, parent_tool_use_id: Option<String> },
    Query { prompt: String },
    PermissionResponse { decision: Decision },
    Interrupt,
    Cancel,
    SetPermissionMode { mode: PermissionMode },
    /// A message the bridge does not act on.
    Other,
}

pub open spec fn mode_of(j: JsonV, key: Seq<char>) -> Option<PermissionMode> {
    match field_str(j, key) {
        Some(s) => permission_mode_named(s),
        None => None,
    }
}

/// The strings of an array under `key`, when every item is a string.
pub open spec fn all_strings(j: JsonV, key: Seq<char>) -> Option<Seq<Seq<char>>> {
    match field(j, key) {
        Some(JsonV::Array(items)) => if forall|i: int| 0 <= i < items.len() ==> (#[trigger] items[i]) is Str {
            Some(Seq::new(items.len(), |i: int| items[i]->Str_0))
        } else {
            None
        },
        _ => None,
    }
}

pub open spec fn opt_strings(o: Option<Vec<String>>) -> Option<Seq<Seq<char>>> {
    match o {
        Some(v) => Some(strings_view(v@)),
        None => None,
    }
}

/// What `parse_init_fields` reads from the object `o`, with the key names
/// of the message kind: `camel` for `workspace_init`'s options.
pub open spec fn init_matches(r: InitRequest, o: JsonV, camel: bool) -> bool {
    &&& r.is_workspace_init == camel
    &&& field_str(o, "cwd"@) == Some(r.cwd@)
    &&& opt_str(r.model) == field_str(o, "model"@)
    &&& r.permission_mode == mode_of(o, if camel { "permissionMode"@ } else { "permission_mode"@ })
    &&& opt_strings(r.disallowed_tools) == all_strings(o, if camel { "disallowedTools"@ } else { "disallowed_tools"@ })
    &&& (match r.max_thinking_tokens {
        Some(n) => field_int(o, if camel { "maxThinkingTokens"@ } else { "max_thinking_tokens"@ }) == Some(n as int),
        None => field_int(o, if camel { "maxThinkingTokens"@ } else { "max_thinking_tokens"@ }) is None,
    })
    &&& opt_str(r.resume) == field_str(o, "resume"@)
    &&& r.dangerously_skip_permissions == field_bool(o, "dangerouslySkipPermissions"@)
    &&& (camel ==> r.max_turns is None && r.max_budget_usd is None && r.user is None)
    &&& (!camel ==> (match r.max_turns {
        Some(n) => field_int(o, "max_turns"@) == Some(n as int),
        None => field_int(o, "max_turns"@) is None,
    }) && opt_view(r.max_budget_usd) == field(o, "max_budget_usd"@) && opt_str(r.user) == field_str(o, "user"@))
}

fn strings_at(o: &Json, key: &str) -> (r: Option<Vec<String>>)
    ensures
        opt_strings(r) == all_strings(o@, key@),
{
    match o.get(key) {
        Some(Json::Array(items)) => {
            proof {
                lemma_view_items(items@);
            }
            let ghost vi = view_items(items@);
            let mut out: Vec<String> = Vec::new();
            let mut i: usize = 0;
            while i < items.len()
                invariant
                    0 <= i <= items.len(),
                    vi == view_items(items@),
                    field(o@, key@) == Some(JsonV::Array(vi)),
                    vi.len() == items@.len(),
                    forall|m: int| 0 <= m < items@.len() ==> #[trigger] vi[m] == items@[m]@,
                    out@.len() == i,
                    forall|m: int| 0 <= m < i ==> (#[trigger] vi[m]) == JsonV::Str(out@[m]@),
                decreases items.len() - i,
            {
                match &items[i] {
                    Json::Str(x) => out.push(x.clone()),
                    _ => {
                        assert(!(vi[i as int] is Str));
                        return None;
                    },
                }
                i = i + 1;
            }
            assert(forall|m: int| 0 <= m < vi.len() ==> (#[trigger] vi[m]) is Str);
            assert(strings_view(out@) =~= Seq::new(vi.len(), |m: int| vi[m]->Str_0));
            Some(out)
        },
        _ => None,
    }
}

fn mode_at(o: &Json, key: &str) -> (r: Option<PermissionMode>)
    ensures
        r == mode_of(o@, key@),
{
    match o.get_str(key) {
        Some(s) => PermissionMode::from_name(&s),
        None => None,
    }
}

fn parse_init_fields(o: &Json, camel: bool) -> (r: Option<InitRequest>)
    ensures
        match r {
            Some(req) => init_matches(req, o@, camel),
            None => field_str(o@, "cwd"@) is None,
        },
{
    let cwd = match o.get_str("cwd") {
        Some(c) => c,
        None => return None,
    };
    let (mode_key, tools_key, thinking_key) = if camel {
        ("permissionMode", "disallowedTools", "maxThinkingTokens")
    } else {
        ("permission_mode", "disallowed_tools", "max_thinking_tokens")
    };
    let (max_turns, max_budget_usd, user) = if camel {
        (None, None, None)
    } else {
        (
            o.get_int("max_turns"),
            match o.get("max_budget_usd") {
                Some(b) => Some(b.deep_clone()),
                None => None,
            },
            o.get_str("user"),
        )
    };
    Some(InitRequest {
        is_workspace_init: camel,
        cwd,
        model: o.get_str("model"),
        permission_mode: mode_at(o, mode_key),
        max_turns,
        max_budget_usd,
        user,
        disallowed_tools: strings_at(o, tools_key),
        max_thinking_tokens: o.get_int(thinking_key),
        resume: o.get_str("resume"),
        dangerously_skip_permissions: o.get_bool("dangerouslySkipPermissions"),
    })
}

/// Whether `j` is a peer message the bridge acts on: a known `type` with the
/// fields that kind needs.
pub open spec fn acted_on(j: JsonV) -> bool {
    match field_str(j, "type"@) {
        Some(t) => {
            ||| t == "user_session_init"@ && field_str(j, "cwd"@) is Some
            ||| t == "workspace_init"@ && (field(j, "options"@) matches Some(o) && field_str(o, "cwd"@) is Some)
            ||| t == "user_message"@ && field_str(j, "content"@) is Some
            ||| t == "query"@ && field_str(j, "prompt"@) is Some
            ||| t == "permission_response"@ && (field_str(j, "decision"@) matches Some(d)
                && decision_named(d) is Some)
            ||| t == "control_request"@ && field_str(j, "subtype"@) == Some("interrupt"@)
            ||| t == "cancel"@
            ||| t == "set_permission_mode"@ && mode_of(j, "mode"@) is Some
        },
        None => false,
    }
}

proof fn lemma_peer_literals()
    ensures
        key_sig("user_session_init"@) == (17int, 'u', 't'),
        key_sig("workspace_init"@) == (14int, 'w', 't'),
        key_sig("user_message"@) == (12int, 'u', 'e'),
        key_sig("query"@) == (5int, 'q', 'y'),
        key_sig("permission_response"@) == (19int, 'p', 'e'),
        key_sig("control_request"@) == (15int, 'c', 't'),
        key_sig("cancel"@) == (6int, 'c', 'l'),
        key_sig("set_permission_mode"@) == (19int, 's', 'e'),
{
    reveal_strlit("user_session_init");
    reveal_strlit("workspace_init");
    reveal_strlit("user_message");
    reveal_strlit("query");
    reveal_strlit("permission_response");
    reveal_strlit("control_request");
    reveal_strlit("cancel");
    reveal_strlit("set_permission_mode");
}

/// Reads a peer message, dispatched on its `type`. An init message without a
/// working directory, or a known message without its required field, reads
/// as `Other`, as does any unknown type.
pub fn parse_peer_message(j: &Json) -> (r: PeerMessage)
    ensures
        match r {
            PeerMessage::Init(req) => {
                ||| field_str(j@, "type"@) == Some("user_session_init"@) && init_matches(req, j@, false)
                ||| field_str(j@, "type"@) == Some("workspace_init"@) && (field(j@, "options"@) matches Some(o)
                    && init_matches(req, o, true))
            },
            PeerMessage::UserMessage { content, session_id, parent_tool_use_id } => {
                &&& field_str(j@, "type"@) == Some("user_message"@)
                &&& field_str(j@, "content"@) == Some(content@)
                &&& opt_str(session_id) == field_str(j@, "session_id"@)
                &&& opt_str(parent_tool_use_id) == field_str(j@, "parent_tool_use_id"@)
            },
            PeerMessage::Query { prompt } => field_str(j@, "type"@) == Some("query"@) && field_str(
                j@,
                "prompt"@,
            ) == Some(prompt@),
            PeerMessage::PermissionResponse { decision } => field_str(j@, "type"@) == Some(
                "permission_response"@,
            ) && (field_str(j@, "decision"@) matches Some(d) && decision_named(d) == Some(decision)),
            PeerMessage::Interrupt => field_str(j@, "type"@) == Some("control_request"@) && field_str(
                j@,
                "subtype"@,
            ) == Some("interrupt"@),
            PeerMessage::Cancel => field_str(j@, "type"@) == Some("cancel"@),
            PeerMessage::SetPermissionMode { mode } => field_str(j@, "type"@) == Some(
                "set_permission_mode"@,
            ) && mode_of(j@, "mode"@) == Some(mode),
            PeerMessage::Other => !acted_on(j@),
        },
{
    proof {
        lemma_peer_literals();
    }
    let t = match j.get_str("type") {
        Some(t) => t,
        None => return PeerMessage::Other,
    };
    if t == text("user_session_init") {
        match parse_init_fields(j, false) {
            Some(req) => PeerMessage::Init(req),
            None => PeerMessage::Other,
        }
    } else if t == text("workspace_init") {
        match j.get("options") {
            Some(o) => match parse_init_fields(o, true) {
                Some(req) => PeerMessage::Init(req),
                None => PeerMessage::Other,
            },
            None => PeerMessage::Other,
        }
    } else if t == text("user_message") {
        match j.get_str("content") {
            Some(content) => PeerMessage::UserMessage {
                content,
                session_id: j.get_str("session_id"),
                parent_tool_use_id: j.get_str("parent_tool_use_id"),
            },
            None => PeerMessage::Other,
        }
    } else if t == text("query") {
        match j.get_str("prompt") {
            Some(prompt) => PeerMessage::Query { prompt },
            None => PeerMessage::Other,
        }
    } else if t == text("permission_response") {
        match j.get_str("decision") {
            Some(d) => match Decision::from_name(&d) {
                Some(decision) => PeerMessage::PermissionResponse { decision },
                None => PeerMessage::Other,
            },
            None => PeerMessage::Other,
        }
    } else if t == text("control_request") {
        match j.get_str("subtype") {
            Some(st) => if st == text("interrupt") {
                PeerMessage::Interrupt
            } else {
                PeerMessage::Other
            },
            None => PeerMessage::Other,
        }
    } else if t == text("cancel") {
        PeerMessage::Cancel
    } else if t == text("set_permission_mode") {
        match mode_at(j, "mode") {
            Some(mode) => PeerMessage::SetPermissionMode { mode },
            None => PeerMessage::Other,
        }
    } else {
        PeerMessage::Other
    }
}

/// Why a session could not start.
pub enum SessionError {
    InitTimeout,
    UnexpectedMessage(String),
    ConnectionClosed,
    WebSocketError(String),
    ClientInitFailed(String),
    ParseError(String),
}

/// The first message must open the session; any other is a protocol error.
pub fn expect_init(m: PeerMessage) -> (r: Result<InitRequest, SessionError>)
    ensures
        match m {
            PeerMessage::Init(req) => r matches Ok(x) && x == req,
            _ => r matches Err(SessionError::UnexpectedMessage(_)),
        },
{
    match m {
        PeerMessage::Init(req) => Ok(req),
        _ => Err(SessionError::UnexpectedMessage(text("expected user_session_init or workspace_init"))),
    }
}

// ---------------------------------------------------------------------------
// Outbound events
// ---------------------------------------------------------------------------

pub open spec fn envelope_fields(agent_type: Seq<char>, session_id: Seq<char>, data: JsonV) -> Seq<(Seq<char>, Option<JsonV>)> {
    seq![
        ("id"@, str_v(session_id)),
        ("type"@, str_v("message"@)),
        ("agentType"@, str_v(agent_type)),
        ("data"@, Some(data)),
    ]
}

/// Wraps one protocol message of the CLI for the peer:
/// `{id, type:"message", agentType, data}`.
pub fn wrap_message(agent_type: &String, session_id: &String, data: Json) -> (r: Json)
    ensures
        r@ == JsonV::Object(obj_spec(envelope_fields(agent_type@, session_id@, data@))),
{
    let fields = vec![
        (text("id"), Some(Json::Str(session_id.clone()))),
        (text("type"), Some(Json::Str(text("message")))),
        (text("agentType"), Some(Json::Str(agent_type.clone()))),
        (text("data"), Some(data)),
    ];
    assert(view_fields(fields@) =~= envelope_fields(agent_type@, session_id@, data@));
    Json::object_of(fields)
}

pub open spec fn error_fields(agent_type: Seq<char>, session_id: Seq<char>, error: Seq<char>) -> Seq<(Seq<char>, Option<JsonV>)> {
    seq![
        ("id"@, str_v(session_id)),
        ("type"@, str_v("error"@)),
        ("agentType"@, str_v(agent_type)),
        ("error"@, str_v(error)),
    ]
}

/// A protocol error for the peer: `{id, type:"error", agentType, error}`.
pub fn error_event(agent_type: &String, session_id: &String, error: &String) -> (r: Json)
    ensures
        r@ == JsonV::Object(obj_spec(error_fields(agent_type@, session_id@, error@))),
{
    let fields = vec![
        (text("id"), Some(Json::Str(session_id.clone()))),
        (text("type"), Some(Json::Str(text("error")))),
        (text("agentType"), Some(Json::Str(agent_type.clone()))),
        (text("error"), Some(Json::Str(error.clone()))),
    ];
    assert(view_fields(fields@) =~= error_fields(agent_type@, session_id@, error@));
    Json::object_of(fields)
}

pub open spec fn fatal_fields(session_id: Seq<char>, message: Seq<char>) -> Seq<(Seq<char>, Option<JsonV>)> {
    seq![
        ("type"@, str_v("error"@)),
        ("session_id"@, str_v(session_id)),
        ("message"@, str_v(message)),
        ("is_fatal"@, Some(JsonV::Bool(true))),
    ]
}

/// The fatal error event sent before a session closes.
pub fn fatal_error_event(session_id: &String, message: &String) -> (r: Json)
    ensures
        r@ == JsonV::Object(obj_spec(fatal_fields(session_id@, message@))),
{
    let fields = vec![
        (text("type"), Some(Json::Str(text("error")))),
        (text("session_id"), Some(Json::Str(session_id.clone()))),
        (text("message"), Some(Json::Str(message.clone()))),
        (text("is_fatal"), Some(Json::Bool(true))),
    ];
    assert(view_fields(fields@) =~= fatal_fields(session_id@, message@));
    Json::object_of(fields)
}

} // verus!

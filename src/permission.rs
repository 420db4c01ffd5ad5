use vstd::prelude::*;

use crate::error::Error;
use crate::json::{Json, JsonV, obj_spec, view_fields, field, field_str, text, view_items, lemma_view_items};
use crate::message::{SDKControlRequest, str_v, opt_str, opt_str_v};
use crate::protocol::Decision;

verus! {

/// The peer's answer, as the session hands it to the engine.
#[derive(PartialEq, Eq, Structural, Clone, Copy, Debug)]
pub enum PermissionResponse {
    Allow,
    Deny,
    AllowAlways,
}

impl PermissionResponse {
    pub fn from_decision(d: Decision) -> (r: PermissionResponse)
        ensures
            r == match d {
                Decision::Allow => PermissionResponse::Allow,
                Decision::Deny => PermissionResponse::Deny,
                Decision::AllowAlways => PermissionResponse::AllowAlways,
            },
    {
        match d {
            Decision::Allow => PermissionResponse::Allow,
            Decision::Deny => PermissionResponse::Deny,
            Decision::AllowAlways => PermissionResponse::AllowAlways,
        }
    }
}

/// The rule that lets the CLI use `tool_name` for the rest of the session.
pub open spec fn session_rule(tool_name: Seq<char>) -> JsonV {
    JsonV::Object(obj_spec(session_rule_fields(tool_name)))
}

pub open spec fn session_rule_fields(tool_name: Seq<char>) -> Seq<(Seq<char>, Option<JsonV>)> {
    seq![
        ("tool_name"@, str_v(tool_name)),
        ("behavior"@, str_v("allow"@)),
        ("destination"@, str_v("session"@)),
    ]
}

pub open spec fn deny_message(answer: Option<PermissionResponse>) -> Seq<char> {
    match answer {
        Some(_) => "Permission denied by user"@,
        None => "Permission request timed out or was abandoned"@,
    }
}

pub open spec fn reply_fields(
    answer: Option<PermissionResponse>,
    tool_name: Seq<char>,
    input: JsonV,
) -> Seq<(Seq<char>, Option<JsonV>)> {
    match answer {
        Some(PermissionResponse::Allow) => seq![
            ("behavior"@, str_v("allow"@)),
            ("updatedInput"@, Some(input)),
            ("updatedPermissions"@, Some(JsonV::Array(Seq::empty()))),
        ],
        Some(PermissionResponse::AllowAlways) => seq![
            ("behavior"@, str_v("allow"@)),
            ("updatedInput"@, Some(input)),
            ("updatedPermissions"@, Some(JsonV::Array(seq![session_rule(tool_name)]))),
        ],
        _ => seq![
            ("behavior"@, str_v("deny"@)),
            ("message"@, str_v(deny_message(answer))),
            ("interrupt"@, Some(JsonV::Bool(false))),
        ],
    }
}

/// The reply to a tool-permission request: the peer's answer, where
/// no answer (a timeout, a closed channel) denies.
pub open spec fn permission_reply_spec(
    answer: Option<PermissionResponse>,
    tool_name: Seq<char>,
    input: JsonV,
) -> JsonV {
    JsonV::Object(obj_spec(reply_fields(answer, tool_name, input)))
}

/// Builds the reply to the CLI's tool-permission request.
pub fn permission_reply(answer: Option<PermissionResponse>, tool_name: &String, input: &Json) -> (r: Json)
    ensures
        r@ == permission_reply_spec(answer, tool_name@, input@),
{
    let fields = match answer {
        Some(PermissionResponse::Allow) => {
            let none: Vec<Json> = Vec::new();
            proof {
                lemma_view_items(none@);
                assert(view_items(none@) =~= Seq::<JsonV>::empty());
            }
            vec![
                (text("behavior"), Some(Json::Str(text("allow")))),
                (text("updatedInput"), Some(input.deep_clone())),
                (text("updatedPermissions"), Some(Json::Array(none))),
            ]
        },
        Some(PermissionResponse::AllowAlways) => {
            let rule_fields = vec![
                (text("tool_name"), Some(Json::Str(tool_name.clone()))),
                (text("behavior"), Some(Json::Str(text("allow")))),
                (text("destination"), Some(Json::Str(text("session")))),
            ];
            assert(view_fields(rule_fields@) =~= session_rule_fields(tool_name@));
            let rule = Json::object_of(rule_fields);
            let rules = vec![rule];
            proof {
                lemma_view_items(rules@);
                assert(view_items(rules@) =~= seq![session_rule(tool_name@)]);
            }
            vec![
                (text("behavior"), Some(Json::Str(text("allow")))),
                (text("updatedInput"), Some(input.deep_clone())),
                (text("updatedPermissions"), Some(Json::Array(rules))),
            ]
        },
        Some(PermissionResponse::Deny) => vec![
            (text("behavior"), Some(Json::Str(text("deny")))),
            (text("message"), Some(Json::Str(text("Permission denied by user")))),
            (text("interrupt"), Some(Json::Bool(false))),
        ],
        None => vec![
            (text("behavior"), Some(Json::Str(text("deny")))),
            (text("message"), Some(Json::Str(text("Permission request timed out or was abandoned")))),
            (text("interrupt"), Some(Json::Bool(false))),
        ],
    };
    assert(view_fields(fields@) =~= reply_fields(answer, tool_name@, input@));
    Json::object_of(fields)
}

pub open spec fn request_event_fields(
    agent_type: Seq<char>,
    session_id: Seq<char>,
    tool_name: Seq<char>,
    tool_use_id: Option<Seq<char>>,
    input: JsonV,
) -> Seq<(Seq<char>, Option<JsonV>)> {
    seq![
        ("type"@, str_v("permission_request"@)),
        ("id"@, str_v(session_id)),
        ("agentType"@, str_v(agent_type)),
        ("toolName"@, str_v(tool_name)),
        ("toolUseId"@, opt_str_v(tool_use_id)),
        ("input"@, Some(input)),
        ("context"@, Some(JsonV::Object(obj_spec(context_fields())))),
    ]
}

/// The context shown with every permission request.
pub open spec fn context_fields() -> Seq<(Seq<char>, Option<JsonV>)> {
    seq![
        ("description"@, str_v("Tool permission request"@)),
        ("risk_level"@, str_v("medium"@)),
    ]
}

/// The `permission_request` event that asks the peer about a tool use.
pub fn permission_request_event(
    agent_type: &String,
    session_id: &String,
    tool_name: &String,
    tool_use_id: &Option<String>,
    input: &Json,
) -> (r: Json)
    ensures
        r@ == JsonV::Object(obj_spec(request_event_fields(agent_type@, session_id@, tool_name@, opt_str(*tool_use_id), input@))),
{
    let ctx = vec![
        (text("description"), Some(Json::Str(text("Tool permission request")))),
        (text("risk_level"), Some(Json::Str(text("medium")))),
    ];
    assert(view_fields(ctx@) =~= context_fields());
    let fields = vec![
        (text("type"), Some(Json::Str(text("permission_request")))),
        (text("id"), Some(Json::Str(session_id.clone()))),
        (text("agentType"), Some(Json::Str(agent_type.clone()))),
        (text("toolName"), Some(Json::Str(tool_name.clone()))),
        (text("toolUseId"), match tool_use_id {
            Some(t) => Some(Json::Str(t.clone())),
            None => None,
        }),
        (text("input"), Some(input.deep_clone())),
        (text("context"), Some(Json::object_of(ctx))),
    ];
    assert(view_fields(fields@) =~= request_event_fields(agent_type@, session_id@, tool_name@, opt_str(*tool_use_id), input@));
    Json::object_of(fields)
}

/// A request of the CLI that a handler of the session answers.
pub enum InboundRequest {
    CanUseTool {
        request_id: String,
        tool_name: String,
        input: Json,
        tool_use_id: Option<String>,
        blocked_path: Option<String>,
    },
    HookCallback { request_id: String, callback_id: String, input: Json, tool_use_id: Option<String> },
}

/// Reads the CLI's control request for its handler: `can_use_tool` needs a
/// tool name and an input, `hook_callback` a callback identifier and an
/// input; every other subtype is refused.
pub fn classify_request(req: &SDKControlRequest) -> (r: Result<InboundRequest, Error>)
    ensures
        match r {
            Ok(InboundRequest::CanUseTool { request_id, tool_name, input, tool_use_id, blocked_path }) => {
                &&& req.subtype@ == "can_use_tool"@
                &&& request_id@ == req.request_id@
                &&& field_str(req.request@, "tool_name"@) == Some(tool_name@)
                &&& field(req.request@, "input"@) == Some(input@)
                &&& opt_str(tool_use_id) == field_str(req.request@, "tool_use_id"@)
                &&& opt_str(blocked_path) == field_str(req.request@, "blocked_path"@)
            },
            Ok(InboundRequest::HookCallback { request_id, callback_id, input, tool_use_id }) => {
                &&& req.subtype@ == "hook_callback"@
                &&& request_id@ == req.request_id@
                &&& field_str(req.request@, "callback_id"@) == Some(callback_id@)
                &&& field(req.request@, "input"@) == Some(input@)
                &&& opt_str(tool_use_id) == field_str(req.request@, "tool_use_id"@)
            },
            Err(e) => {
                &&& e is ControlProtocol
                &&& (req.subtype@ == "can_use_tool"@ ==> field_str(req.request@, "tool_name"@) is None
                    || field(req.request@, "input"@) is None)
                &&& (req.subtype@ == "hook_callback"@ ==> field_str(req.request@, "callback_id"@)
                    is None || field(req.request@, "input"@) is None)
            },
        },
{
    let q = &req.request;
    proof {
        reveal_strlit("can_use_tool");
        reveal_strlit("hook_callback");
        assert("can_use_tool"@.len() != "hook_callback"@.len());
    }
    if req.subtype == text("can_use_tool") {
        let tool_name = match q.get_str("tool_name") {
            Some(t) => t,
            None => return Err(Error::ControlProtocol(text("Missing tool_name"))),
        };
        let input = match q.get("input") {
            Some(i) => i.deep_clone(),
            None => return Err(Error::ControlProtocol(text("Missing input"))),
        };
        Ok(InboundRequest::CanUseTool {
            request_id: req.request_id.clone(),
            tool_name,
            input,
            tool_use_id: q.get_str("tool_use_id"),
            blocked_path: q.get_str("blocked_path"),
        })
    } else if req.subtype == text("hook_callback") {
        let callback_id = match q.get_str("callback_id") {
            Some(t) => t,
            None => return Err(Error::ControlProtocol(text("Missing callback_id"))),
        };
        let input = match q.get("input") {
            Some(i) => i.deep_clone(),
            None => return Err(Error::ControlProtocol(text("Missing input"))),
        };
        Ok(InboundRequest::HookCallback {
            request_id: req.request_id.clone(),
            callback_id,
            input,
            tool_use_id: q.get_str("tool_use_id"),
        })
    } else {
        Err(Error::ControlProtocol(text("Unsupported subtype")))
    }
}

} // verus!

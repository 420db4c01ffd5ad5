use cli_bridge::control::{control_response_json, Command, ControlEngine, Dispatch, SDKControlRequestType};
use cli_bridge::init::{init_progress, InitProgress};
use cli_bridge::json::Json;
use cli_bridge::message::{parse_message, Message};
use cli_bridge::peer::{
    error_event, expect_init, fatal_error_event, parse_peer_message, wrap_message, PeerMessage, SessionError,
};
use cli_bridge::permission::{classify_request, permission_reply, permission_request_event, InboundRequest, PermissionResponse};
use cli_bridge::protocol::Decision;
use cli_bridge::session::{AgentState, SessionAction, SessionEvent, SessionState};

fn from_value(v: &serde_json::Value) -> Json {
    match v {
        serde_json::Value::Null => Json::Null,
        serde_json::Value::Bool(b) => Json::Bool(*b),
        serde_json::Value::Number(n) => match n.as_i64() {
            Some(i) => Json::Int(i),
            None => Json::Num(n.to_string()),
        },
        serde_json::Value::String(s) => Json::Str(s.clone()),
        serde_json::Value::Array(a) => Json::Array(a.iter().map(from_value).collect()),
        serde_json::Value::Object(m) => {
            Json::Object(m.iter().map(|(k, x)| (k.clone(), from_value(x))).collect())
        }
    }
}

fn to_value(j: &Json) -> serde_json::Value {
    match j {
        Json::Null => serde_json::Value::Null,
        Json::Bool(b) => serde_json::Value::Bool(*b),
        Json::Int(i) => serde_json::Value::from(*i),
        Json::Num(s) => serde_json::from_str(s).unwrap(),
        Json::Str(s) => serde_json::Value::String(s.clone()),
        Json::Array(a) => serde_json::Value::Array(a.iter().map(to_value).collect()),
        Json::Object(es) => {
            let mut m = serde_json::Map::new();
            for (k, x) in es {
                m.insert(k.clone(), to_value(x));
            }
            serde_json::Value::Object(m)
        }
    }
}

fn json(text: &str) -> Json {
    from_value(&serde_json::from_str(text).unwrap())
}

fn value(text: &str) -> serde_json::Value {
    serde_json::from_str(text).unwrap()
}

#[test]
fn test_session_state_creation() {
    let state = SessionState::new("test-session".to_string());
    assert_eq!(state.session_id(), "test-session");
    assert_eq!(state.status(), AgentState::Idle);
}

#[test]
fn test_message_id_generation() {
    let mut state = SessionState::new("test-session".to_string());
    assert_eq!(state.next_message_id(), "msg-0");
    assert_eq!(state.next_message_id(), "msg-1");
    assert_eq!(state.next_message_id(), "msg-2");
}

#[test]
fn user_message_during_a_turn_is_rejected() {
    let mut s = SessionState::new("S".to_string());
    assert_eq!(s.step(SessionEvent::UserQuery), SessionAction::StartTurn);
    assert_eq!(s.status(), AgentState::Thinking);
    assert_eq!(s.step(SessionEvent::UserQuery), SessionAction::RejectQuery);
    assert_eq!(s.step(SessionEvent::AssistantOutput { has_tool_use: true }), SessionAction::Forward);
    assert_eq!(s.status(), AgentState::ExecutingTool);
    assert_eq!(s.step(SessionEvent::UserQuery), SessionAction::RejectQuery);
    assert_eq!(s.step(SessionEvent::TurnResult), SessionAction::EndTurn);
    assert_eq!(s.status(), AgentState::Idle);
    assert_eq!(s.step(SessionEvent::UserQuery), SessionAction::StartTurn);
}

#[test]
fn second_permission_request_is_refused() {
    let mut s = SessionState::new("S".to_string());
    s.step(SessionEvent::UserQuery);
    assert_eq!(s.step(SessionEvent::PermissionAsked { request_id: "R1".to_string() }), SessionAction::AskPeer);
    assert_eq!(s.status(), AgentState::WaitingPermission);
    assert_eq!(s.step(SessionEvent::PermissionAsked { request_id: "R2".to_string() }), SessionAction::RefusePermission);
    assert_eq!(s.pending_permission(), Some("R1".to_string()));
    assert_eq!(s.step(SessionEvent::PermissionDecided), SessionAction::ForwardDecision);
    assert_eq!(s.status(), AgentState::Thinking);
    assert_eq!(s.pending_permission(), None);
}

#[test]
fn permission_outside_a_turn_is_refused() {
    let mut s = SessionState::new("S".to_string());
    assert_eq!(s.step(SessionEvent::PermissionAsked { request_id: "R1".to_string() }), SessionAction::RefusePermission);
    assert_eq!(s.status(), AgentState::Idle);
}

#[test]
fn interrupt_ends_the_turn() {
    let mut s = SessionState::new("S".to_string());
    s.step(SessionEvent::UserQuery);
    s.step(SessionEvent::PermissionAsked { request_id: "R1".to_string() });
    assert_eq!(s.step(SessionEvent::Interrupt), SessionAction::CancelAndInterrupt);
    assert_eq!(s.status(), AgentState::Interrupting);
    assert_eq!(s.pending_permission(), None);
    assert_eq!(s.step(SessionEvent::AssistantOutput { has_tool_use: false }), SessionAction::Forward);
    assert_eq!(s.status(), AgentState::Interrupting);
    assert_eq!(s.step(SessionEvent::Interrupt), SessionAction::Ignore);
    assert_eq!(s.step(SessionEvent::TurnResult), SessionAction::EndTurn);
    assert_eq!(s.status(), AgentState::Idle);
}

#[test]
fn unanswered_interrupt_times_out_to_idle() {
    let mut s = SessionState::new("S".to_string());
    s.step(SessionEvent::UserQuery);
    s.step(SessionEvent::Interrupt);
    assert_eq!(s.step(SessionEvent::InterruptTimedOut), SessionAction::ReportInterruptTimeout);
    assert_eq!(s.status(), AgentState::Idle);
    assert_eq!(s.step(SessionEvent::InterruptTimedOut), SessionAction::Ignore);
}

#[test]
fn cli_crash_closes_the_session() {
    let mut s = SessionState::new("S".to_string());
    s.step(SessionEvent::UserQuery);
    assert_eq!(s.step(SessionEvent::TransportEof), SessionAction::CloseWithError);
    assert_eq!(s.status(), AgentState::Closed);
    assert_eq!(s.step(SessionEvent::UserQuery), SessionAction::Ignore);
    let e = to_value(&fatal_error_event(&"S1".to_string(), &"CLI exited".to_string()));
    assert_eq!(e, value(r#"{"type":"error","session_id":"S1","message":"CLI exited","is_fatal":true}"#));
}

#[test]
fn disconnect_closes_the_session() {
    let mut s = SessionState::new("S".to_string());
    assert_eq!(s.step(SessionEvent::Disconnect), SessionAction::Close);
    assert_eq!(s.status(), AgentState::Closed);
}

#[test]
fn happy_turn() {
    match parse_peer_message(&json(r#"{"type":"user_session_init","cwd":"/tmp"}"#)) {
        PeerMessage::Init(req) => {
            assert_eq!(req.cwd, "/tmp");
            assert!(!req.is_workspace_init);
        }
        _ => panic!("Expected init"),
    }
    let init = parse_message(&json(r#"{"type":"system","subtype":"init","session_id":"S1","tools":["Bash","Edit"]}"#)).ok().unwrap();
    match init_progress(&init, &"fallback".to_string(), "acme_code_version") {
        InitProgress::Ready { session_id, data } => {
            assert_eq!(session_id, "S1");
            assert_eq!(data.tools, vec!["Bash".to_string(), "Edit".to_string()]);
        }
        _ => panic!("Expected ready"),
    }
    let mut s = SessionState::new("S1".to_string());
    assert!(matches!(parse_peer_message(&json(r#"{"type":"user_message","content":"hi"}"#)), PeerMessage::UserMessage { .. }));
    assert_eq!(s.step(SessionEvent::UserQuery), SessionAction::StartTurn);
    let a = r#"{"type":"assistant","message":{"model":"M","content":[{"type":"text","text":"hello"}]}}"#;
    let r = r#"{"type":"result","subtype":"success","duration_ms":10,"duration_api_ms":5,"is_error":false,"num_turns":1,"session_id":"S1"}"#;
    let ma = parse_message(&json(a)).ok().unwrap();
    let mr = parse_message(&json(r)).ok().unwrap();
    assert_eq!(s.step(SessionEvent::AssistantOutput { has_tool_use: false }), SessionAction::Forward);
    let out1 = to_value(&wrap_message(&"acme".to_string(), &"S1".to_string(), ma.to_json()));
    assert_eq!(s.step(SessionEvent::TurnResult), SessionAction::EndTurn);
    let out2 = to_value(&wrap_message(&"acme".to_string(), &"S1".to_string(), mr.to_json()));
    assert_eq!(out1["type"], "message");
    assert_eq!(out1["agentType"], "acme");
    assert_eq!(out1["id"], "S1");
    assert_eq!(out1["data"]["message"]["content"][0]["text"], "hello");
    assert_eq!(out2["data"], value(r));
}

fn can_use_tool_request() -> InboundRequest {
    let mut e: ControlEngine<u8> = ControlEngine::new();
    let line = r#"{"type":"control_request","request_id":"R1","request":{"subtype":"can_use_tool","tool_name":"Bash","input":{"cmd":"ls"}}}"#;
    match e.dispatch(parse_message(&json(line)).ok().unwrap()) {
        Dispatch::Handle(req) => classify_request(&req).ok().unwrap(),
        _ => panic!("Expected a handler dispatch"),
    }
}

#[test]
fn permission_allow() {
    match can_use_tool_request() {
        InboundRequest::CanUseTool { request_id, tool_name, input, .. } => {
            let ev = to_value(&permission_request_event(&"acme".to_string(), &"S1".to_string(), &tool_name, &None, &input));
            assert_eq!(ev["type"], "permission_request");
            assert_eq!(ev["id"], "S1");
            assert_eq!(ev["toolName"], "Bash");
            assert_eq!(ev["input"], value(r#"{"cmd":"ls"}"#));
            assert_eq!(ev["context"], value(r#"{"description":"Tool permission request","risk_level":"medium"}"#));
            let answer = match parse_peer_message(&json(r#"{"type":"permission_response","decision":"allow"}"#)) {
                PeerMessage::PermissionResponse { decision } => PermissionResponse::from_decision(decision),
                _ => panic!("Expected a decision"),
            };
            let reply = permission_reply(Some(answer), &tool_name, &input);
            let line = to_value(&control_response_json(&request_id, Ok(reply)));
            assert_eq!(
                line,
                value(r#"{"type":"control_response","response":{"subtype":"success","request_id":"R1","response":{"behavior":"allow","updatedInput":{"cmd":"ls"},"updatedPermissions":[]}}}"#)
            );
        }
        _ => panic!("Expected can_use_tool"),
    }
}

#[test]
fn permission_allow_always() {
    match can_use_tool_request() {
        InboundRequest::CanUseTool { tool_name, input, .. } => {
            let reply = to_value(&permission_reply(Some(PermissionResponse::AllowAlways), &tool_name, &input));
            assert_eq!(
                reply["updatedPermissions"],
                value(r#"[{"tool_name":"Bash","behavior":"allow","destination":"session"}]"#)
            );
            assert_eq!(reply["behavior"], "allow");
        }
        _ => panic!("Expected can_use_tool"),
    }
}

#[test]
fn permission_deny_and_timeout() {
    let input = json(r#"{"cmd":"rm"}"#);
    let deny = to_value(&permission_reply(Some(PermissionResponse::Deny), &"Bash".to_string(), &input));
    assert_eq!(deny["behavior"], "deny");
    assert_eq!(deny["interrupt"], false);
    assert_eq!(deny["message"], "Permission denied by user");
    let late = to_value(&permission_reply(None, &"Bash".to_string(), &input));
    assert_eq!(late["behavior"], "deny");
    assert_eq!(late["interrupt"], false);
    assert_ne!(late["message"], deny["message"]);
}

#[test]
fn interrupt_scenario() {
    assert!(matches!(parse_peer_message(&json(r#"{"type":"control_request","subtype":"interrupt"}"#)), PeerMessage::Interrupt));
    assert!(matches!(parse_peer_message(&json(r#"{"type":"cancel","id":"S1","agentType":"acme"}"#)), PeerMessage::Cancel));
    let mut s = SessionState::new("S1".to_string());
    s.step(SessionEvent::UserQuery);
    assert_eq!(s.step(SessionEvent::Interrupt), SessionAction::CancelAndInterrupt);
    let mut e: ControlEngine<u8> = ControlEngine::new();
    e.submit(Command::Request { request: SDKControlRequestType::Interrupt, suffix: "x".to_string(), sink: 0 });
    let line = to_value(&e.take_outbox()[0]);
    assert_eq!(line["type"], "control_request");
    assert_eq!(line["request"], value(r#"{"subtype":"interrupt"}"#));
    let resp = r#"{"type":"control_response","response":{"subtype":"success","request_id":"req_1_x"}}"#;
    assert!(matches!(e.dispatch(parse_message(&json(resp)).ok().unwrap()), Dispatch::Deliver { .. }));
    let res = r#"{"type":"result","subtype":"interrupted","duration_ms":1,"duration_api_ms":1,"is_error":false,"num_turns":1,"session_id":"S1"}"#;
    assert!(matches!(parse_message(&json(res)).ok().unwrap(), Message::Result(_)));
    assert_eq!(s.step(SessionEvent::TurnResult), SessionAction::EndTurn);
    assert_eq!(s.status(), AgentState::Idle);
}

#[test]
fn non_init_first_message_is_a_protocol_error() {
    let m = parse_peer_message(&json(r#"{"type":"user_message","content":"hi"}"#));
    assert!(matches!(expect_init(m), Err(SessionError::UnexpectedMessage(_))));
    let m = parse_peer_message(&json(r#"{"type":"workspace_init","id":"x","agentType":"acme","options":{"cwd":"/w","permissionMode":"plan","disallowedTools":["Bash"],"maxThinkingTokens":100}}"#));
    match expect_init(m) {
        Ok(req) => {
            assert!(req.is_workspace_init);
            assert_eq!(req.cwd, "/w");
            assert_eq!(req.disallowed_tools, Some(vec!["Bash".to_string()]));
            assert_eq!(req.max_thinking_tokens, Some(100));
            assert!(req.permission_mode.is_some());
        }
        Err(_) => panic!("Expected init"),
    }
}

#[test]
fn error_event_shape() {
    let e = to_value(&error_event(&"acme".to_string(), &"S1".to_string(), &"bad".to_string()));
    assert_eq!(e, value(r#"{"id":"S1","type":"error","agentType":"acme","error":"bad"}"#));
}

#[test]
fn test_permission_response_deserialization() {
    let m = parse_peer_message(&json(
        r#"{"type":"permission_response","id":"resp-1","session_id":"session-123","request_id":"req-1","decision":"allow"}"#,
    ));
    match m {
        PeerMessage::PermissionResponse { decision } => assert_eq!(decision, Decision::Allow),
        _ => panic!("Expected PermissionResponse"),
    }
}

#[test]
fn unknown_or_incomplete_peer_messages_are_ignored() {
    assert!(matches!(parse_peer_message(&json(r#"{"type":"dance"}"#)), PeerMessage::Other));
    assert!(matches!(parse_peer_message(&json(r#"{"type":"user_message"}"#)), PeerMessage::Other));
    assert!(matches!(parse_peer_message(&json(r#"{"type":"user_session_init"}"#)), PeerMessage::Other));
    assert!(matches!(parse_peer_message(&json(r#"{"type":"permission_response","decision":"maybe"}"#)), PeerMessage::Other));
    assert!(matches!(parse_peer_message(&json(r#"{"type":"control_request","subtype":"resume"}"#)), PeerMessage::Other));
    assert!(matches!(parse_peer_message(&json(r#"{"content":"hi"}"#)), PeerMessage::Other));
    assert!(matches!(
        parse_peer_message(&json(r#"{"type":"set_permission_mode","mode":"acceptEdits"}"#)),
        PeerMessage::SetPermissionMode { .. }
    ));
    assert!(matches!(parse_peer_message(&json(r#"{"type":"query","prompt":"go"}"#)), PeerMessage::Query { .. }));
}

use cli_bridge::control::{
    control_response_json, request_command, request_id, user_message_json, Command, ControlEngine,
    Dispatch, PendingRequests, SDKControlRequestType, request_envelope_json, timeout_error,
};
use cli_bridge::error::Error;
use cli_bridge::json::Json;
use cli_bridge::message::{parse_message, Message};

fn from_value(v: &serde_json::Value) -> Json {
    match v {
        serde_json::Value::Null => Json::Null,
        serde_json::Value::Bool(b) => Json::Bool(*b),
        serde_json::Value::Number(n) => match n.as_i64() {
            Some(i) => Json::Int(i),
            None => Json::Num(n.to_string()),
        },
        serde_json::Value::String(s) => Json::Str(s.clone()),
        serde_json::Value::Array(a) => Json::Array(a.iter().map(from_value).collect()),
        serde_json::Value::Object(m) => {
            Json::Object(m.iter().map(|(k, x)| (k.clone(), from_value(x))).collect())
        }
    }
}

fn to_value(j: &Json) -> serde_json::Value {
    match j {
        Json::Null => serde_json::Value::Null,
        Json::Bool(b) => serde_json::Value::Bool(*b),
        Json::Int(i) => serde_json::Value::from(*i),
        Json::Num(s) => serde_json::from_str(s).unwrap(),
        Json::Str(s) => serde_json::Value::String(s.clone()),
        Json::Array(a) => serde_json::Value::Array(a.iter().map(to_value).collect()),
        Json::Object(es) => {
            let mut m = serde_json::Map::new();
            for (k, x) in es {
                m.insert(k.clone(), to_value(x));
            }
            serde_json::Value::Object(m)
        }
    }
}

fn json(text: &str) -> Json {
    from_value(&serde_json::from_str(text).unwrap())
}

fn value(text: &str) -> serde_json::Value {
    serde_json::from_str(text).unwrap()
}

fn envelope(id: &str, request: SDKControlRequestType) -> serde_json::Value {
    to_value(&request_envelope_json(&id.to_string(), request.to_json()))
}

#[test]
fn test_interrupt_request_serialization() {
    let j = envelope("req-123", SDKControlRequestType::Interrupt);
    assert_eq!(j["type"], "control_request");
    assert_eq!(j["request_id"], "req-123");
    assert_eq!(j["request"]["subtype"], "interrupt");
}

#[test]
fn test_initialize_request_serialization() {
    let j = envelope("req-789", SDKControlRequestType::Initialize { hooks: json(r#"{"PreToolUse":{"test":"data"}}"#) });
    assert_eq!(j["request"]["subtype"], "initialize");
    assert!(j["request"]["hooks"].is_object());
}

#[test]
fn test_set_permission_mode_request_serialization() {
    let j = envelope("req-101", SDKControlRequestType::SetPermissionMode { mode: "plan".to_string() });
    assert_eq!(j["request"]["subtype"], "set_permission_mode");
    assert_eq!(j["request"]["mode"], "plan");
}

#[test]
fn test_hook_callback_request_serialization() {
    let j = envelope(
        "req-202",
        SDKControlRequestType::HookCallback {
            callback_id: "hook-123".to_string(),
            input: json(r#"{"data":"test"}"#),
            tool_use_id: Some("tool-456".to_string()),
        },
    );
    assert_eq!(j["request"]["subtype"], "hook_callback");
    assert_eq!(j["request"]["callback_id"], "hook-123");
    assert_eq!(j["request"]["tool_use_id"], "tool-456");
}

#[test]
fn test_mcp_message_request_serialization() {
    let j = envelope(
        "req-303",
        SDKControlRequestType::McpMessage { server_name: "test-server".to_string(), message: json(r#"{"method":"test"}"#) },
    );
    assert_eq!(j["request"]["subtype"], "mcp_message");
    assert_eq!(j["request"]["server_name"], "test-server");
}

#[test]
fn test_rewind_files_request_serialization() {
    let j = envelope("req-404", SDKControlRequestType::RewindFiles { user_message_id: "msg-789".to_string() });
    assert_eq!(j["request"]["subtype"], "rewind_files");
    assert_eq!(j["request"]["user_message_id"], "msg-789");
}

#[test]
fn set_model_writes_null_without_a_model() {
    let j = envelope("r", SDKControlRequestType::SetModel { model: None });
    assert_eq!(j["request"], value(r#"{"subtype":"set_model","model":null}"#));
    let j = envelope("r", SDKControlRequestType::SetModel { model: Some("m".to_string()) });
    assert_eq!(j["request"], value(r#"{"subtype":"set_model","model":"m"}"#));
}

#[test]
fn test_success_response_serialization() {
    let j = to_value(&control_response_json(&"req-123".to_string(), Ok(json(r#"{"result":"ok"}"#))));
    assert_eq!(j["type"], "control_response");
    assert_eq!(j["response"]["subtype"], "success");
    assert_eq!(j["response"]["request_id"], "req-123");
    assert_eq!(j["response"]["response"]["result"], "ok");
}

#[test]
fn test_error_response_serialization() {
    let j = to_value(&control_response_json(&"req-456".to_string(), Err("Something went wrong".to_string())));
    assert_eq!(j["type"], "control_response");
    assert_eq!(j["response"]["subtype"], "error");
    assert_eq!(j["response"]["request_id"], "req-456");
    assert_eq!(j["response"]["error"], "Something went wrong");
}

#[test]
fn request_ids_carry_the_counter() {
    assert_eq!(request_id(0, "x"), "req_0_x");
    assert_eq!(request_id(42, "abc"), "req_42_abc");
    assert_eq!(request_id(18446744073709551615, "s"), "req_18446744073709551615_s");
}

#[test]
fn user_line_matches_the_wire_format() {
    let j = to_value(&user_message_json(&"hi".to_string(), &"S1".to_string(), &None));
    assert_eq!(
        j,
        value(r#"{"type":"user","message":{"role":"user","content":"hi"},"parent_tool_use_id":null,"session_id":"S1"}"#)
    );
}

#[test]
fn pending_sink_is_taken_at_most_once() {
    let mut t: PendingRequests<u32> = PendingRequests::new();
    assert!(t.register("a".to_string(), 1).is_ok());
    assert!(t.register("b".to_string(), 2).is_ok());
    assert_eq!(t.register("a".to_string(), 3), Err(3));
    assert!(t.contains("a"));
    assert_eq!(t.take("a"), Some(1));
    assert_eq!(t.take("a"), None);
    assert!(!t.contains("a"));
    assert_eq!(t.len(), 1);
    assert_eq!(t.drain(), vec![2]);
    assert_eq!(t.len(), 0);
    assert_eq!(t.take("b"), None);
}

#[test]
fn commands_are_written_in_order() {
    let mut e: ControlEngine<u32> = ControlEngine::new();
    let cmds = vec![
        Command::SendUserMessage { content: "one".to_string(), session_id: "S".to_string(), parent_tool_use_id: None },
        Command::Request { request: SDKControlRequestType::Interrupt, suffix: "x".to_string(), sink: 7 },
        Command::SendInputMessage(json(r#"{"type":"user","n":3}"#)),
        Command::Request {
            request: SDKControlRequestType::SetPermissionMode { mode: "plan".to_string() },
            suffix: "y".to_string(),
            sink: 8,
        },
    ];
    let ids = e.submit_all(cmds);
    assert_eq!(ids, vec![None, Some("req_1_x".to_string()), None, Some("req_2_y".to_string())]);
    assert_eq!(e.counter_value(), 2);
    let lines: Vec<serde_json::Value> = e.take_outbox().iter().map(to_value).collect();
    assert_eq!(lines.len(), 4);
    assert_eq!(lines[0]["message"]["content"], "one");
    assert_eq!(lines[1]["request_id"], "req_1_x");
    assert_eq!(lines[1]["request"]["subtype"], "interrupt");
    assert_eq!(lines[2]["n"], 3);
    assert_eq!(lines[3]["request_id"], "req_2_y");
    assert!(e.take_outbox().is_empty());
    assert!(e.is_pending("req_1_x"));
}

#[test]
fn response_completes_its_request_once() {
    let mut e: ControlEngine<u32> = ControlEngine::new();
    let id = e.submit(Command::Request { request: SDKControlRequestType::Interrupt, suffix: "s".to_string(), sink: 5 }).unwrap();
    assert_eq!(id, "req_1_s");
    let line = r#"{"type":"control_response","response":{"subtype":"success","request_id":"req_1_s","response":{"ok":1}}}"#;
    match e.dispatch(parse_message(&json(line)).ok().unwrap()) {
        Dispatch::Deliver { sink, result: Ok(v) } => {
            assert_eq!(sink, 5);
            assert_eq!(to_value(&v), value(r#"{"ok":1}"#));
        }
        _ => panic!("Expected a delivery"),
    }
    match e.dispatch(parse_message(&json(line)).ok().unwrap()) {
        Dispatch::Unmatched { request_id } => assert_eq!(request_id, "req_1_s"),
        _ => panic!("Expected no second delivery"),
    }
}

#[test]
fn error_response_surfaces_control_protocol_error() {
    let mut e: ControlEngine<u32> = ControlEngine::new();
    e.submit(Command::Request { request: SDKControlRequestType::Interrupt, suffix: "s".to_string(), sink: 1 });
    let line = r#"{"type":"control_response","response":{"subtype":"error","request_id":"req_1_s","error":"boom"}}"#;
    match e.dispatch(parse_message(&json(line)).ok().unwrap()) {
        Dispatch::Deliver { result: Err(Error::ControlProtocol(m)), .. } => assert_eq!(m, "boom"),
        _ => panic!("Expected an error delivery"),
    }
    e.submit(Command::Request { request: SDKControlRequestType::Interrupt, suffix: "t".to_string(), sink: 2 });
    let line = r#"{"type":"control_response","response":{"subtype":"success","request_id":"req_2_t"}}"#;
    match e.dispatch(parse_message(&json(line)).ok().unwrap()) {
        Dispatch::Deliver { result: Ok(v), .. } => assert_eq!(to_value(&v), value("{}")),
        _ => panic!("Expected an empty success"),
    }
    e.submit(Command::Request { request: SDKControlRequestType::Interrupt, suffix: "u".to_string(), sink: 3 });
    let line = r#"{"type":"control_response","response":{"subtype":"error","request_id":"req_3_u"}}"#;
    match e.dispatch(parse_message(&json(line)).ok().unwrap()) {
        Dispatch::Deliver { result: Err(Error::ControlProtocol(m)), .. } => assert_eq!(m, "Unknown error"),
        _ => panic!("Expected an error delivery"),
    }
}

#[test]
fn timeout_and_shutdown_release_sinks_once() {
    let mut e: ControlEngine<u32> = ControlEngine::new();
    e.submit(Command::Request { request: SDKControlRequestType::Interrupt, suffix: "a".to_string(), sink: 1 });
    e.submit(Command::Request { request: SDKControlRequestType::Interrupt, suffix: "b".to_string(), sink: 2 });
    e.submit(Command::Request { request: SDKControlRequestType::Interrupt, suffix: "c".to_string(), sink: 3 });
    assert_eq!(e.expire("req_2_b"), Some(2));
    assert_eq!(e.expire("req_2_b"), None);
    assert_eq!(e.shutdown(), vec![1, 3]);
    assert_eq!(e.shutdown(), Vec::<u32>::new());
    match timeout_error("interrupt") {
        Error::Timeout(s) => assert_eq!(s, "interrupt"),
        _ => panic!("Expected timeout"),
    }
}

#[test]
fn requests_and_other_messages_are_routed() {
    let mut e: ControlEngine<u32> = ControlEngine::new();
    let req = r#"{"type":"control_request","request_id":"R1","request":{"subtype":"can_use_tool","tool_name":"Bash","input":{"cmd":"ls"}}}"#;
    match e.dispatch(parse_message(&json(req)).ok().unwrap()) {
        Dispatch::Handle(r) => {
            assert_eq!(r.request_id, "R1");
            assert_eq!(r.subtype, "can_use_tool");
        }
        _ => panic!("Expected a handler dispatch"),
    }
    let other = r#"{"type":"assistant","message":{"model":"M","content":[]}}"#;
    assert!(matches!(e.dispatch(parse_message(&json(other)).ok().unwrap()), Dispatch::Publish(Message::Assistant(_))));
}

#[test]
fn request_command_uses_a_random_suffix() {
    let a: Command<u8> = request_command(SDKControlRequestType::Interrupt, 1);
    let b: Command<u8> = request_command(SDKControlRequestType::Interrupt, 2);
    match (a, b) {
        (Command::Request { suffix: x, sink: 1, .. }, Command::Request { suffix: y, sink: 2, .. }) => {
            assert_eq!(x.len(), 36);
            assert_ne!(x, y);
        }
        _ => panic!("Expected requests"),
    }
}

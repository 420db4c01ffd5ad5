use cli_bridge::json::Json;
use cli_bridge::message::{
    parse_message, parse_content_block, AssistantMessageError, ContentBlock, ControlOutcome,
    Message, MessageContent, ResultMessage, StreamEvent, SDKControlResponse, UserMessage,
};

fn from_value(v: &serde_json::Value) -> Json {
    match v {
        serde_json::Value::Null => Json::Null,
        serde_json::Value::Bool(b) => Json::Bool(*b),
        serde_json::Value::Number(n) => match n.as_i64() {
            Some(i) => Json::Int(i),
            None => Json::Num(n.to_string()),
        },
        serde_json::Value::String(s) => Json::Str(s.clone()),
        serde_json::Value::Array(a) => Json::Array(a.iter().map(from_value).collect()),
        serde_json::Value::Object(m) => {
            Json::Object(m.iter().map(|(k, x)| (k.clone(), from_value(x))).collect())
        }
    }
}

fn to_value(j: &Json) -> serde_json::Value {
    match j {
        Json::Null => serde_json::Value::Null,
        Json::Bool(b) => serde_json::Value::Bool(*b),
        Json::Int(i) => serde_json::Value::from(*i),
        Json::Num(s) => serde_json::from_str(s).unwrap(),
        Json::Str(s) => serde_json::Value::String(s.clone()),
        Json::Array(a) => serde_json::Value::Array(a.iter().map(to_value).collect()),
        Json::Object(es) => {
            let mut m = serde_json::Map::new();
            for (k, x) in es {
                m.insert(k.clone(), to_value(x));
            }
            serde_json::Value::Object(m)
        }
    }
}

fn json(text: &str) -> Json {
    from_value(&serde_json::from_str(text).unwrap())
}

fn value(text: &str) -> serde_json::Value {
    serde_json::from_str(text).unwrap()
}

#[test]
fn test_parse_text_message() {
    let message = parse_message(&json(r#"{"type":"user","message":{"content":"Hello"}}"#)).ok().unwrap();
    match message {
        Message::User(user_msg) => match user_msg.content {
            MessageContent::String(s) => assert_eq!(s, "Hello"),
            _ => panic!("Expected string content"),
        },
        _ => panic!("Expected user message"),
    }
}

#[test]
fn test_parse_assistant_message() {
    let message = parse_message(&json(
        r#"{"type":"assistant","message":{"model":"sonnet-3","content":[{"type":"text","text":"Hello!"}]}}"#,
    ))
    .ok()
    .unwrap();
    match message {
        Message::Assistant(assistant_msg) => {
            assert_eq!(assistant_msg.model, "sonnet-3");
            assert_eq!(assistant_msg.content.len(), 1);
        }
        _ => panic!("Expected assistant message"),
    }
}

#[test]
fn test_parse_result_message() {
    let message = parse_message(&json(
        r#"{"type":"result","subtype":"success","duration_ms":1000,"duration_api_ms":800,"is_error":false,"num_turns":1,"session_id":"test-123"}"#,
    ))
    .ok()
    .unwrap();
    match message {
        Message::Result(result_msg) => {
            assert_eq!(result_msg.subtype, "success");
            assert_eq!(result_msg.session_id, "test-123");
        }
        _ => panic!("Expected result message"),
    }
}

#[test]
fn test_content_block_text_serialization() {
    let block = ContentBlock::Text { text: "Hello".to_string() };
    let j = to_value(&block.to_json());
    assert_eq!(j["type"], "text");
    assert_eq!(j["text"], "Hello");
}

#[test]
fn test_content_block_tool_use_serialization() {
    let block = ContentBlock::ToolUse {
        id: "123".to_string(),
        name: "Bash".to_string(),
        input: json(r#"{"command":"ls"}"#),
    };
    let j = to_value(&block.to_json());
    assert_eq!(j["type"], "tool_use");
    assert_eq!(j["name"], "Bash");
}

#[test]
fn test_message_content_string() {
    let m = Message::User(UserMessage {
        content: MessageContent::String("Hello".to_string()),
        session_id: None,
        uuid: None,
        parent_tool_use_id: None,
    });
    let j = to_value(&m.to_json());
    assert_eq!(j["message"]["content"], "Hello");
}

#[test]
fn test_assistant_message_error() {
    assert_eq!(AssistantMessageError::RateLimit.name(), "rate_limit");
    assert_eq!(
        AssistantMessageError::from_name(&"rate_limit".to_string()),
        Some(AssistantMessageError::RateLimit)
    );
    assert_eq!(AssistantMessageError::from_name(&"nope".to_string()), None);
}

#[test]
fn unknown_type_is_a_parse_error() {
    assert!(parse_message(&json(r#"{"type":"bogus"}"#)).is_err());
    assert!(parse_message(&json(r#"{"subtype":"x"}"#)).is_err());
    assert!(parse_message(&json(r#"[1,2]"#)).is_err());
}

#[test]
fn unknown_block_type_fails_the_message() {
    let r = parse_message(&json(
        r#"{"type":"assistant","message":{"model":"M","content":[{"type":"text","text":"a"},{"type":"image"}]}}"#,
    ));
    assert!(r.is_err());
    assert!(parse_content_block(&json(r#"{"type":"image"}"#)).is_err());
}

#[test]
fn missing_required_result_field_is_an_error() {
    let r = parse_message(&json(
        r#"{"type":"result","subtype":"success","duration_ms":10,"duration_api_ms":5,"is_error":false,"session_id":"S1"}"#,
    ));
    assert!(r.is_err());
}

#[test]
fn system_message_keeps_unknown_keys() {
    let text = r#"{"type":"system","subtype":"init","session_id":"S1","tools":["Bash","Edit"],"extra_key":{"a":1}}"#;
    let m = parse_message(&json(text)).ok().unwrap();
    match &m {
        Message::System(s) => assert_eq!(s.subtype, "init"),
        _ => panic!("Expected system message"),
    }
    assert_eq!(to_value(&m.to_json()), value(text));
}

fn round_trips(text: &str) {
    let m = parse_message(&json(text)).ok().unwrap();
    let again = to_value(&m.to_json());
    assert_eq!(again, value(text));
    let m2 = parse_message(&m.to_json()).ok().unwrap();
    assert_eq!(to_value(&m2.to_json()), again);
}

#[test]
fn every_variant_round_trips() {
    round_trips(r#"{"type":"user","message":{"role":"user","content":"hi"},"session_id":"S1","uuid":"u1"}"#);
    round_trips(r#"{"type":"user","message":{"role":"user","content":[{"type":"tool_result","tool_use_id":"t1","content":"out","is_error":false}]},"parent_tool_use_id":"p"}"#);
    round_trips(r#"{"type":"assistant","message":{"model":"M","content":[{"type":"text","text":"hello"},{"type":"thinking","thinking":"hmm","signature":"sig"},{"type":"tool_use","id":"t","name":"Bash","input":{"cmd":"ls"}}],"error":"rate_limit"}}"#);
    round_trips(r#"{"type":"result","subtype":"success","duration_ms":10,"duration_api_ms":5,"is_error":false,"num_turns":1,"session_id":"S1","total_cost_usd":0.25,"usage":{"input_tokens":3},"result":"done","errors":["a","b"]}"#);
    round_trips(r#"{"type":"stream_event","uuid":"u","session_id":"S1","event":{"delta":"x"}}"#);
    round_trips(r#"{"type":"control_request","request_id":"R1","request":{"subtype":"can_use_tool","tool_name":"Bash","input":{"cmd":"ls"}}}"#);
    round_trips(r#"{"type":"control_response","response":{"subtype":"success","request_id":"R2","response":{"ok":true}}}"#);
    round_trips(r#"{"type":"control_response","response":{"subtype":"error","request_id":"R3","error":"bad"}}"#);
}

#[test]
fn control_response_success_without_payload() {
    let m = parse_message(&json(
        r#"{"type":"control_response","response":{"subtype":"success","request_id":"R2"}}"#,
    ))
    .ok()
    .unwrap();
    match m {
        Message::ControlResponse(SDKControlResponse { request_id, outcome: ControlOutcome::Success(None) }) => {
            assert_eq!(request_id, "R2")
        }
        _ => panic!("Expected an empty success"),
    }
}

#[test]
fn result_errors_and_optional_fields() {
    let m = parse_message(&json(
        r#"{"type":"result","subtype":"error_during_execution","duration_ms":1,"duration_api_ms":1,"is_error":true,"num_turns":0,"session_id":"S","errors":["x","y"],"usage":null}"#,
    ))
    .ok()
    .unwrap();
    match m {
        Message::Result(ResultMessage { errors, usage, is_error, .. }) => {
            assert_eq!(errors, vec!["x".to_string(), "y".to_string()]);
            assert!(usage.is_none());
            assert!(is_error);
        }
        _ => panic!("Expected result"),
    }
}

#[test]
fn stream_event_requires_event() {
    assert!(parse_message(&json(r#"{"type":"stream_event","uuid":"u","session_id":"S"}"#)).is_err());
    let m = parse_message(&json(r#"{"type":"stream_event","uuid":"u","session_id":"S","event":null}"#)).ok().unwrap();
    assert!(matches!(m, Message::Stream(StreamEvent { .. })));
}

use cli_bridge::config::{
    protocol_to_sdk_input, AgentPoolConfig, ClientAction, HandlerConfig, SdkInput, WorkspaceInitResponse, WsQuery,
};
use cli_bridge::error::Error;
use cli_bridge::identity::CliIdentity;
use cli_bridge::init::{init_data_from_system, init_failure, init_progress, InitProgress};
use cli_bridge::json::Json;
use cli_bridge::message::{parse_message, Message};
use cli_bridge::options::{cli_candidates, join, permission_prompt_tool, AgentOptions, InternalClient, PromptInput, SdkPluginConfig, SystemPromptConfig, ToolsConfig};
use cli_bridge::peer::parse_peer_message;
use cli_bridge::protocol::{
    convert_permission_mode, default_true, ContextWarningLevel, ContextWindowState, Decision, PermissionMode, RiskLevel,
};

fn from_value(v: &serde_json::Value) -> Json {
    match v {
        serde_json::Value::Null => Json::Null,
        serde_json::Value::Bool(b) => Json::Bool(*b),
        serde_json::Value::Number(n) => match n.as_i64() {
            Some(i) => Json::Int(i),
            None => Json::Num(n.to_string()),
        },
        serde_json::Value::String(s) => Json::Str(s.clone()),
        serde_json::Value::Array(a) => Json::Array(a.iter().map(from_value).collect()),
        serde_json::Value::Object(m) => {
            Json::Object(m.iter().map(|(k, x)| (k.clone(), from_value(x))).collect())
        }
    }
}

fn to_value(j: &Json) -> serde_json::Value {
    match j {
        Json::Null => serde_json::Value::Null,
        Json::Bool(b) => serde_json::Value::Bool(*b),
        Json::Int(i) => serde_json::Value::from(*i),
        Json::Num(s) => serde_json::from_str(s).unwrap(),
        Json::Str(s) => serde_json::Value::String(s.clone()),
        Json::Array(a) => serde_json::Value::Array(a.iter().map(to_value).collect()),
        Json::Object(es) => {
            let mut m = serde_json::Map::new();
            for (k, x) in es {
                m.insert(k.clone(), to_value(x));
            }
            serde_json::Value::Object(m)
        }
    }
}

fn json(text: &str) -> Json {
    from_value(&serde_json::from_str(text).unwrap())
}

fn value(text: &str) -> serde_json::Value {
    serde_json::from_str(text).unwrap()
}

fn options() -> AgentOptions {
    AgentOptions {
        cli_path: "/usr/bin/acme".to_string(),
        known_preset: "acme_code".to_string(),
        system_prompt: None,
        tools: None,
        allowed_tools: vec![],
        max_turns: None,
        max_budget_usd: None,
        disallowed_tools: vec![],
        model: None,
        fallback_model: None,
        betas: vec![],
        permission_prompt_tool_name: None,
        permission_mode: None,
        continue_conversation: false,
        resume: None,
        settings: None,
        add_dirs: vec![],
        mcp_config: None,
        include_partial_messages: false,
        fork_session: false,
        agents: None,
        setting_sources: None,
        plugins: vec![],
        extra_args: vec![],
        max_thinking_tokens: None,
        json_schema: None,
    }
}

#[test]
fn client_test_client_creation() {
    let client = InternalClient::new();
    let _ = client;
}

#[test]
fn test_query_creation() {
    let e: cli_bridge::control::ControlEngine<u8> = cli_bridge::control::ControlEngine::new();
    assert_eq!(e.counter_value(), 0);
}

#[test]
fn test_pool_config_defaults() {
    let config = AgentPoolConfig::default();
    assert_eq!(config.core_size, 2);
    assert_eq!(config.max_size, 20);
    assert_eq!(std::time::Duration::from_secs(config.idle_timeout_secs), std::time::Duration::from_secs(300));
    assert_eq!(std::time::Duration::from_secs(config.acquire_timeout_secs), std::time::Duration::from_secs(30));
}

#[test]
fn test_handler_config_default() {
    let config = HandlerConfig::default();
    assert_eq!(config.send_timeout_secs, 5);
}

#[test]
fn test_build_command() {
    let cmd = options().build_command(&PromptInput::String("test".to_string()));
    assert!(cmd.contains(&"--output-format".to_string()));
    assert!(cmd.contains(&"stream-json".to_string()));
    assert_eq!(
        cmd,
        vec!["/usr/bin/acme", "--output-format", "stream-json", "--verbose", "--system-prompt", "", "--print", "--", "test"]
            .into_iter()
            .map(String::from)
            .collect::<Vec<_>>()
    );
}

#[test]
fn test_build_command_with_options() {
    let mut o = options();
    o.model = Some("opus-4".to_string());
    o.max_turns = Some(10);
    o.max_budget_usd = Some("1.5".to_string());
    let cmd = o.build_command(&PromptInput::String("test".to_string()));
    assert!(cmd.contains(&"--model".to_string()));
    assert!(cmd.contains(&"opus-4".to_string()));
    assert!(cmd.contains(&"--max-turns".to_string()));
    assert!(cmd.contains(&"10".to_string()));
    assert!(cmd.contains(&"--max-budget-usd".to_string()));
    assert!(cmd.contains(&"1.5".to_string()));
}

#[test]
fn test_build_command_with_stream_input() {
    let cmd = options().build_command(&PromptInput::Stream);
    assert!(cmd.contains(&"--input-format".to_string()));
    assert!(cmd.contains(&"stream-json".to_string()));
    assert!(!cmd.contains(&"--print".to_string()));
}

#[test]
fn build_command_orders_every_flag() {
    let mut o = options();
    o.system_prompt = Some(SystemPromptConfig::Preset { preset: "acme_code".to_string(), append: Some("be brief".to_string()) });
    o.tools = Some(ToolsConfig::List(vec!["Bash".to_string(), "Edit".to_string()]));
    o.allowed_tools = vec!["Read".to_string()];
    o.disallowed_tools = vec!["Write".to_string(), "Edit".to_string()];
    o.permission_mode = Some(PermissionMode::AcceptEdits);
    o.continue_conversation = true;
    o.resume = Some("S0".to_string());
    o.add_dirs = vec!["/a".to_string(), "/b".to_string()];
    o.plugins = vec![
        SdkPluginConfig { type_: "local".to_string(), path: "/p".to_string() },
        SdkPluginConfig { type_: "remote".to_string(), path: "/q".to_string() },
    ];
    o.extra_args = vec![("debug".to_string(), None), ("level".to_string(), Some("3".to_string()))];
    o.max_thinking_tokens = Some(-5);
    o.setting_sources = Some(vec!["user".to_string(), "project".to_string()]);
    let cmd = o.build_command(&PromptInput::Stream);
    let expected: Vec<String> = vec![
        "/usr/bin/acme", "--output-format", "stream-json", "--verbose",
        "--append-system-prompt", "be brief",
        "--tools", "Bash,Edit",
        "--allowedTools", "Read",
        "--disallowedTools", "Write,Edit",
        "--permission-mode", "acceptEdits",
        "--continue",
        "--resume", "S0",
        "--add-dir", "/a", "--add-dir", "/b",
        "--setting-sources", "user,project",
        "--plugin-dir", "/p",
        "--debug", "--level", "3",
        "--max-thinking-tokens", "-5",
        "--input-format", "stream-json",
    ]
    .into_iter()
    .map(String::from)
    .collect();
    assert_eq!(cmd, expected);
}

#[test]
fn empty_tool_list_passes_an_empty_value() {
    let mut o = options();
    o.tools = Some(ToolsConfig::List(vec![]));
    o.system_prompt = Some(SystemPromptConfig::Custom { content: "sys".to_string() });
    let cmd = o.build_command(&PromptInput::Stream);
    assert_eq!(&cmd[4..8], &["--system-prompt".to_string(), "sys".to_string(), "--tools".to_string(), String::new()]);
}

#[test]
fn join_uses_the_separator() {
    assert_eq!(join(&vec![], ","), "");
    assert_eq!(join(&vec!["a".to_string()], ","), "a");
    assert_eq!(join(&vec!["a".to_string(), "b".to_string(), "c".to_string()], "; "), "a; b; c");
}

#[test]
fn cli_is_searched_in_order() {
    assert_eq!(
        cli_candidates("/home/u", "acme"),
        vec![
            "/home/u/.npm-global/bin/acme",
            "/usr/local/bin/acme",
            "/home/u/.local/bin/acme",
            "/home/u/node_modules/.bin/acme",
            "/home/u/.yarn/bin/acme",
            "/home/u/.acme/local/acme",
        ]
        .into_iter()
        .map(String::from)
        .collect::<Vec<_>>()
    );
}

#[test]
fn permission_callback_needs_streaming() {
    assert!(matches!(permission_prompt_tool(true, false, None), Err(Error::InvalidConfig(_))));
    assert!(matches!(permission_prompt_tool(true, true, Some("mcp".to_string())), Err(Error::InvalidConfig(_))));
    assert!(matches!(permission_prompt_tool(true, true, None), Ok(Some(ref s)) if s == "stdio"));
    assert!(matches!(permission_prompt_tool(false, false, Some("mcp".to_string())), Ok(Some(ref s)) if s == "mcp"));
    assert!(matches!(permission_prompt_tool(false, true, None), Ok(None)));
}

#[test]
fn test_decision_serialization() {
    assert_eq!(Decision::Allow.name(), "allow");
    assert_eq!(Decision::Deny.name(), "deny");
    assert_eq!(Decision::AllowAlways.name(), "allow_always");
}

#[test]
fn test_permission_mode_serialization() {
    assert_eq!(PermissionMode::Default.name(), "default");
    assert_eq!(PermissionMode::AcceptEdits.name(), "acceptEdits");
    assert_eq!(PermissionMode::BypassPermissions.name(), "bypassPermissions");
    assert_eq!(PermissionMode::Plan.name(), "plan");
    assert_eq!(PermissionMode::Delegate.name(), "delegate");
    assert_eq!(PermissionMode::DontAsk.name(), "dontAsk");
}

#[test]
fn test_permission_mode_deserialization() {
    assert_eq!(PermissionMode::from_name(&"default".to_string()), Some(PermissionMode::Default));
    assert_eq!(PermissionMode::from_name(&"acceptEdits".to_string()), Some(PermissionMode::AcceptEdits));
    assert_eq!(PermissionMode::from_name(&"bypassPermissions".to_string()), Some(PermissionMode::BypassPermissions));
    assert_eq!(PermissionMode::from_name(&"plan".to_string()), Some(PermissionMode::Plan));
    assert_eq!(PermissionMode::from_name(&"delegate".to_string()), Some(PermissionMode::Delegate));
    assert_eq!(PermissionMode::from_name(&"dontAsk".to_string()), Some(PermissionMode::DontAsk));
    assert_eq!(PermissionMode::from_name(&"manual".to_string()), None);
}

#[test]
fn test_risk_level_serialization() {
    assert_eq!(RiskLevel::Low.name(), "low");
    assert_eq!(RiskLevel::Medium.name(), "medium");
    assert_eq!(RiskLevel::High.name(), "high");
    assert_eq!(RiskLevel::default(), RiskLevel::Medium);
}

#[test]
fn permission_mode_defaults() {
    assert_eq!(convert_permission_mode(None), PermissionMode::Default);
    assert_eq!(convert_permission_mode(Some(PermissionMode::Plan)), PermissionMode::Plan);
    assert_eq!(PermissionMode::default(), PermissionMode::Default);
    assert!(default_true());
}

#[test]
fn test_context_window_state() {
    let mut state = ContextWindowState { current_tokens: 180000, max_tokens: 200000, has_compacted: false, compaction_count: 0 };
    assert_eq!(state.warning_level(), ContextWarningLevel::High);
    state.current_tokens = 195000;
    assert_eq!(state.warning_level(), ContextWarningLevel::Critical);
    state.current_tokens = 160000;
    assert_eq!(state.warning_level(), ContextWarningLevel::Medium);
    state.current_tokens = 159999;
    assert_eq!(state.warning_level(), ContextWarningLevel::Normal);
    state.max_tokens = 0;
    assert_eq!(state.warning_level(), ContextWarningLevel::Normal);
}

#[test]
fn test_client_action_parsing() {
    let action = ClientAction::from_message(&"echo".to_string(), &json(r#"{"message":"test"}"#));
    match action {
        Ok(ClientAction::Echo { message }) => assert_eq!(message, "test"),
        _ => panic!("Expected Echo action"),
    }
    assert!(matches!(ClientAction::from_message(&"get_connections".to_string(), &json("{}")), Ok(ClientAction::GetConnections)));
    assert_eq!(ClientAction::from_message(&"fly".to_string(), &json("{}")).err(), Some("Unknown action: fly".to_string()));
    match ClientAction::from_message(&"broadcast".to_string(), &json("{}")) {
        Ok(ClientAction::Broadcast { message }) => assert_eq!(message, ""),
        _ => panic!("Expected Broadcast action"),
    }
}

#[test]
fn peer_input_for_the_agent() {
    match protocol_to_sdk_input(&parse_peer_message(&json(r#"{"type":"user_message","content":"hi","parent_tool_use_id":"p"}"#))) {
        Some(SdkInput::Query { content, parent_tool_use_id }) => {
            assert_eq!(content, "hi");
            assert_eq!(parent_tool_use_id, Some("p".to_string()));
        }
        _ => panic!("Expected query"),
    }
    assert!(matches!(
        protocol_to_sdk_input(&parse_peer_message(&json(r#"{"type":"permission_response","decision":"allow_always"}"#))),
        Some(SdkInput::PermissionDecision { allow: true })
    ));
    assert!(matches!(
        protocol_to_sdk_input(&parse_peer_message(&json(r#"{"type":"permission_response","decision":"deny"}"#))),
        Some(SdkInput::PermissionDecision { allow: false })
    ));
    assert!(protocol_to_sdk_input(&parse_peer_message(&json(r#"{"type":"cancel"}"#))).is_none());
}

#[test]
fn init_data_is_read_from_the_init_message() {
    let data = init_data_from_system(&json(
        r#"{"type":"system","subtype":"init","session_id":"S1","cwd":"/w","model":"M","tools":["Bash",3,"Edit"],"plugins":[{"name":"p","path":"/p"},{"name":"q"}],"permissionMode":"plan","slash_commands":["/help"],"acme_code_version":"2.1"}"#,
    ), "acme_code_version");
    assert_eq!(data.cwd, Some("/w".to_string()));
    assert_eq!(data.model, Some("M".to_string()));
    assert_eq!(data.tools, vec!["Bash".to_string(), "Edit".to_string()]);
    assert_eq!(data.plugins.len(), 1);
    assert_eq!(data.plugins[0].name, "p");
    assert_eq!(data.permission_mode, Some("plan".to_string()));
    assert!(data.agents.is_empty());
    assert_eq!(data.cli_version, Some("2.1".to_string()));
    let w = WorkspaceInitResponse::ready(&"S1".to_string(), &data);
    assert_eq!(w.tools, Some(vec!["Bash".to_string(), "Edit".to_string()]));
    assert_eq!(w.plugins, Some(vec!["p".to_string()]));
    assert!(w.agents.is_none());
    assert_eq!(w.slash_commands.as_ref().map(|c| c[0].name.clone()), Some("/help".to_string()));
    let f = WorkspaceInitResponse::failed(&"S1".to_string(), &"boom".to_string());
    assert_eq!(f.error, Some("boom".to_string()));
    assert!(f.tools.is_none());
}

#[test]
fn init_waits_and_fails_on_error_results() {
    let other = parse_message(&json(r#"{"type":"system","subtype":"status"}"#)).ok().unwrap();
    assert!(matches!(init_progress(&other, &"F".to_string(), "acme_code_version"), InitProgress::Waiting));
    let init = parse_message(&json(r#"{"type":"system","subtype":"init"}"#)).ok().unwrap();
    match init_progress(&init, &"F".to_string(), "acme_code_version") {
        InitProgress::Ready { session_id, .. } => assert_eq!(session_id, "F"),
        _ => panic!("Expected ready"),
    }
    let bad = parse_message(&json(
        r#"{"type":"result","subtype":"error","duration_ms":1,"duration_api_ms":1,"is_error":true,"num_turns":0,"session_id":"S","errors":["a","b"],"result":"r"}"#,
    ))
    .ok()
    .unwrap();
    match init_progress(&bad, &"F".to_string(), "acme_code_version") {
        InitProgress::Failed(why) => assert_eq!(why, "a; b"),
        _ => panic!("Expected failure"),
    }
    let only_result = parse_message(&json(
        r#"{"type":"result","subtype":"error","duration_ms":1,"duration_api_ms":1,"is_error":true,"num_turns":0,"session_id":"S","result":"r"}"#,
    ))
    .ok()
    .unwrap();
    match &only_result {
        Message::Result(r) => assert_eq!(init_failure(r), "r"),
        _ => panic!("Expected result"),
    }
    let nothing = parse_message(&json(
        r#"{"type":"result","subtype":"error","duration_ms":1,"duration_api_ms":1,"is_error":true,"num_turns":0,"session_id":"S"}"#,
    ))
    .ok()
    .unwrap();
    match &nothing {
        Message::Result(r) => assert_eq!(init_failure(r), "Unknown error"),
        _ => panic!("Expected result"),
    }
}

#[test]
fn ws_query_session_id() {
    assert_eq!(WsQuery { session_id: Some("a".to_string()) }.session_id_or("b".to_string()), "a");
    assert_eq!(WsQuery { session_id: None }.session_id_or("b".to_string()), "b");
}

#[test]
fn identity_names_derive_from_the_product() {
    let id = CliIdentity::named("acme");
    assert_eq!(id.agent_type, "acme");
    assert_eq!(id.binary, "acme");
    assert_eq!(id.preset, "acme_code");
    assert_eq!(id.version_key, "acme_code_version");
    assert_eq!(id.version_field, "acmeCodeVersion");
}

#[test]
fn other_presets_are_not_passed_on() {
    let mut o = options();
    o.system_prompt = Some(SystemPromptConfig::Preset { preset: "other".to_string(), append: Some("x".to_string()) });
    o.tools = Some(ToolsConfig::Preset { preset: "acme_code".to_string() });
    let cmd = o.build_command(&PromptInput::Stream);
    assert!(!cmd.contains(&"--append-system-prompt".to_string()));
    assert_eq!(&cmd[4..6], &["--tools".to_string(), "default".to_string()]);
}

#[test]
fn session_options_follow_the_init_request() {
    let init = match parse_peer_message(&json(
        r#"{"type":"user_session_init","cwd":"/tmp","model":"m1","permission_mode":"plan","max_turns":4,"max_budget_usd":2.5,"disallowed_tools":["Bash"],"resume":"S0","dangerouslySkipPermissions":true}"#,
    )) {
        cli_bridge::peer::PeerMessage::Init(i) => i,
        _ => panic!("Expected init"),
    };
    let o = AgentOptions::for_session("/usr/bin/acme".to_string(), "acme_code".to_string(), &init);
    assert_eq!(o.model, Some("m1".to_string()));
    assert_eq!(o.permission_mode, Some(PermissionMode::Plan));
    assert_eq!(o.max_turns, Some(4));
    assert_eq!(o.max_budget_usd, Some("2.5".to_string()));
    assert_eq!(o.disallowed_tools, vec!["Bash".to_string()]);
    assert_eq!(o.resume, Some("S0".to_string()));
    assert_eq!(o.permission_prompt_tool_name, Some("stdio".to_string()));
    let cmd = o.build_command(&PromptInput::Stream);
    assert!(cmd.contains(&"--dangerously-skip-permissions".to_string()));
    assert!(cmd.windows(2).any(|w| w[0] == "--max-budget-usd" && w[1] == "2.5"));
    assert!(cmd.windows(2).any(|w| w[0] == "--permission-prompt-tool" && w[1] == "stdio"));
}

#[test]
fn lines_get_exactly_one_newline() {
    assert_eq!(cli_bridge::options::frame_line(r#"{"a":1}"#), Some("{\"a\":1}\n".to_string()));
    assert_eq!(cli_bridge::options::frame_line("a\nb"), None);
    assert_eq!(cli_bridge::options::frame_line(""), Some("\n".to_string()));
}

#[test]
fn pool_hands_out_idle_workers_in_order() {
    let mut pool: cli_bridge::pool::AgentPool<u32> = cli_bridge::pool::AgentPool::new(AgentPoolConfig::default());
    assert_eq!(pool.missing_core(), 2);
    pool.add_created(10);
    pool.add_created(11);
    assert_eq!(pool.missing_core(), 0);
    let s = pool.stats();
    assert_eq!((s.total_count, s.idle_count, s.active_count), (2, 2, 0));
    assert_eq!(pool.acquire(), Some(10));
    assert_eq!(pool.acquire(), Some(11));
    assert_eq!(pool.acquire(), None);
    let s = pool.stats();
    assert_eq!((s.total_count, s.idle_count, s.active_count), (2, 0, 2));
    assert_eq!(pool.release(11), Ok(()));
    assert_eq!(pool.release(10), Ok(()));
    assert_eq!(pool.release(99), Err(99));
    assert_eq!(pool.acquire(), Some(11));
    assert_eq!(pool.drain_idle(), vec![10]);
    assert_eq!(pool.stats().total_count, 0);
}

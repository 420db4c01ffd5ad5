use vstd::prelude::*;

use crate::json::{Json, JsonV, field_str, text};
use crate::message::{opt_str, strings_view};
use crate::peer::PeerMessage;
use crate::protocol::{Decision, PermissionMode};
use crate::init::SessionInitData;

verus! {

/// Settings of a session's writer towards the peer.
pub struct HandlerConfig {
    /// How long one send to the peer may take, in seconds.
    pub send_timeout_secs: u64,
}

impl Default for HandlerConfig {
    fn default() -> (r: HandlerConfig)
        ensures
            r.send_timeout_secs == 5,
    {
        HandlerConfig { send_timeout_secs: 5 }
    }
}

/// Sizing of the pool of CLI workers; durations in seconds.
pub struct AgentPoolConfig {
    pub core_size: usize,
    pub max_size: usize,
    pub idle_timeout_secs: u64,
    pub acquire_timeout_secs: u64,
}

impl Default for AgentPoolConfig {
    fn default() -> (r: AgentPoolConfig)
        ensures
            r.core_size == 2,
            r.max_size == 20,
            r.idle_timeout_secs == 300,
            r.acquire_timeout_secs == 30,
    {
        AgentPoolConfig { core_size: 2, max_size: 20, idle_timeout_secs: 300, acquire_timeout_secs: 30 }
    }
}

/// How many workers the pool holds.
pub struct PoolStats {
    pub total_count: usize,
    pub idle_count: usize,
    pub active_count: usize,
}

/// The query string of a socket connection.
pub struct WsQuery {
    pub session_id: Option<String>,
}

impl WsQuery {
    /// The session identifier the peer asked for, else `fresh`.
    pub fn session_id_or(&self, fresh: String) -> (r: String)
        ensures
            r@ == match self.session_id {
                Some(s) => s@,
                None => fresh@,
            },
    {
        match &self.session_id {
            Some(s) => s.clone(),
            None => fresh,
        }
    }
}

/// A session's configuration as the peer gives it.
pub struct SessionConfig {
    pub permission_mode: PermissionMode,
    pub max_turns: Option<i64>,
    pub metadata: Vec<(String, String)>,
}

/// Token counts of a turn.
pub struct TokenUsage {
    pub input_tokens: i64,
    pub output_tokens: i64,
    pub cached_tokens: i64,
    pub total_tokens: i64,
}

/// Token counts as the CLI reports them in a result's `usage`.
pub struct SdkUsage {
    pub input_tokens: i64,
    pub output_tokens: i64,
    pub cache_read_input_tokens: i64,
    pub cache_creation_input_tokens: i64,
}

/// A question the agent asks the user.
pub struct UserQuestion {
    pub header: String,
    pub question: String,
    pub options: Vec<QuestionOption>,
    pub multi_select: bool,
}

pub struct QuestionOption {
    pub label: String,
    pub description: String,
}

pub struct QuestionAnswer {
    pub question_index: usize,
    pub selected: Vec<String>,
}

/// What the agent runtime takes from a peer message.
pub enum SdkInput {
    Query { content: String, parent_tool_use_id: Option<String> },
    PermissionDecision { allow: bool },
}

/// A user message becomes a query; a permission answer becomes allow (for
/// `allow` and `allow_always`) or deny; nothing else is input.
pub fn protocol_to_sdk_input(m: &PeerMessage) -> (r: Option<SdkInput>)
    ensures
        match m {
            PeerMessage::UserMessage { content, parent_tool_use_id, .. } => r matches Some(
                SdkInput::Query { content: c, parent_tool_use_id: p },
            ) && c@ == content@ && opt_str(p) == opt_str(*parent_tool_use_id),
            PeerMessage::PermissionResponse { decision } => r matches Some(
                SdkInput::PermissionDecision { allow },
            ) && allow == (*decision != Decision::Deny),
            _ => r is None,
        },
{
    match m {
        PeerMessage::UserMessage { content, parent_tool_use_id, .. } => Some(
            SdkInput::Query {
                content: content.clone(),
                parent_tool_use_id: match parent_tool_use_id {
                    Some(p) => Some(p.clone()),
                    None => None,
                },
            },
        ),
        PeerMessage::PermissionResponse { decision } => Some(
            SdkInput::PermissionDecision { allow: *decision != Decision::Deny },
        ),
        _ => None,
    }
}

/// A slash command the CLI offers.
pub struct SlashCommandInfo {
    pub name: String,
    pub description: Option<String>,
}

/// The answer to `workspace_init`.
pub struct WorkspaceInitResponse {
    pub id: String,
    pub slash_commands: Option<Vec<SlashCommandInfo>>,
    pub mcp_servers: Option<Vec<String>>,
    pub tools: Option<Vec<String>>,
    pub agents: Option<Vec<String>>,
    pub skills: Option<Vec<String>>,
    pub plugins: Option<Vec<String>>,
    pub model: Option<String>,
    pub cwd: Option<String>,
    pub cli_version: Option<String>,
    pub error: Option<String>,
}

pub open spec fn nonempty(v: Seq<Seq<char>>) -> Option<Seq<Seq<char>>> {
    if v.len() == 0 {
        None
    } else {
        Some(v)
    }
}

pub open spec fn opt_strings_view(o: Option<Vec<String>>) -> Option<Seq<Seq<char>>> {
    match o {
        Some(v) => Some(strings_view(v@)),
        None => None,
    }
}

fn copy_strings(v: &Vec<String>) -> (r: Vec<String>)
    ensures
        strings_view(r@) == strings_view(v@),
{
    let mut out: Vec<String> = Vec::new();
    let mut i: usize = 0;
    while i < v.len()
        invariant
            0 <= i <= v@.len(),
            out@.len() == i,
            forall|k: int| 0 <= k < i ==> #[trigger] out@[k]@ == v@[k]@,
        decreases v.len() - i,
    {
        out.push(v[i].clone());
        i = i + 1;
    }
    assert(strings_view(out@) =~= strings_view(v@));
    out
}

fn nonempty_copy(v: &Vec<String>) -> (r: Option<Vec<String>>)
    ensures
        opt_strings_view(r) == nonempty(strings_view(v@)),
{
    if v.len() == 0 {
        None
    } else {
        Some(copy_strings(v))
    }
}

impl WorkspaceInitResponse {
    /// The successful answer: each list present only when it is not empty;
    /// slash commands carry no description, plugins are named.
    pub fn ready(id: &String, data: &SessionInitData) -> (r: WorkspaceInitResponse)
        ensures
            r.id@ == id@,
            r.error is None,
            opt_strings_view(r.mcp_servers) == nonempty(strings_view(data.mcp_servers@)),
            opt_strings_view(r.tools) == nonempty(strings_view(data.tools@)),
            opt_strings_view(r.agents) == nonempty(strings_view(data.agents@)),
            opt_strings_view(r.skills) == nonempty(strings_view(data.skills@)),
            opt_str(r.model) == opt_str(data.model),
            opt_str(r.cwd) == opt_str(data.cwd),
            opt_str(r.cli_version) == opt_str(data.cli_version),
            match r.slash_commands {
                Some(cs) => data.slash_commands@.len() > 0 && cs@.len() == data.slash_commands@.len()
                    && forall|i: int| 0 <= i < cs@.len() ==> (#[trigger] cs@[i]).name@
                        == data.slash_commands@[i]@ && cs@[i].description is None,
                None => data.slash_commands@.len() == 0,
            },
            match r.plugins {
                Some(ps) => data.plugins@.len() > 0 && ps@.len() == data.plugins@.len()
                    && forall|i: int| 0 <= i < ps@.len() ==> (#[trigger] ps@[i])@ == data.plugins@[i].name@,
                None => data.plugins@.len() == 0,
            },
    {
        let slash_commands = if data.slash_commands.len() == 0 {
            None
        } else {
            let mut cs: Vec<SlashCommandInfo> = Vec::new();
            let mut i: usize = 0;
            while i < data.slash_commands.len()
                invariant
                    0 <= i <= data.slash_commands@.len(),
                    cs@.len() == i,
                    forall|k: int| 0 <= k < i ==> (#[trigger] cs@[k]).name@ == data.slash_commands@[k]@
                        && cs@[k].description is None,
                decreases data.slash_commands.len() - i,
            {
                cs.push(SlashCommandInfo { name: data.slash_commands[i].clone(), description: None });
                i = i + 1;
            }
            Some(cs)
        };
        let plugins = if data.plugins.len() == 0 {
            None
        } else {
            let mut ps: Vec<String> = Vec::new();
            let mut i: usize = 0;
            while i < data.plugins.len()
                invariant
                    0 <= i <= data.plugins@.len(),
                    ps@.len() == i,
                    forall|k: int| 0 <= k < i ==> (#[trigger] ps@[k])@ == data.plugins@[k].name@,
                decreases data.plugins.len() - i,
            {
                ps.push(data.plugins[i].name.clone());
                i = i + 1;
            }
            Some(ps)
        };
        WorkspaceInitResponse {
            id: id.clone(),
            slash_commands,
            mcp_servers: nonempty_copy(&data.mcp_servers),
            tools: nonempty_copy(&data.tools),
            agents: nonempty_copy(&data.agents),
            skills: nonempty_copy(&data.skills),
            plugins,
            model: match &data.model {
                Some(m) => Some(m.clone()),
                None => None,
            },
            cwd: match &data.cwd {
                Some(c) => Some(c.clone()),
                None => None,
            },
            cli_version: match &data.cli_version {
                Some(v) => Some(v.clone()),
                None => None,
            },
            error: None,
        }
    }

    /// The failed answer: only the identifier and the error.
    pub fn failed(id: &String, error: &String) -> (r: WorkspaceInitResponse)
        ensures
            r.id@ == id@,
            r.error matches Some(e) && e@ == error@,
            r.slash_commands is None && r.mcp_servers is None && r.tools is None && r.agents is None
                && r.skills is None && r.plugins is None && r.model is None && r.cwd is None
                && r.cli_version is None,
    {
        WorkspaceInitResponse {
            id: id.clone(),
            slash_commands: None,
            mcp_servers: None,
            tools: None,
            agents: None,
            skills: None,
            plugins: None,
            model: None,
            cwd: None,
            cli_version: None,
            error: Some(error.clone()),
        }
    }
}

/// What the echo endpoint does with a request.
pub enum ClientAction {
    Echo { message: String },
    Broadcast { message: String },
    GetConnections,
}

/// The kinds of message the echo endpoint sends.
#[derive(PartialEq, Eq, Structural, Clone, Copy, Debug)]
pub enum ServerMessageType {
    Response,
    Error,
    Notification,
}

/// The payload's `message` string, empty when there is none.
pub open spec fn payload_message(payload: JsonV) -> Seq<char> {
    match field_str(payload, "message"@) {
        Some(m) => m,
        None => Seq::empty(),
    }
}

impl ClientAction {
    /// The action named `action`; echo and broadcast carry the payload's
    /// `message` string (empty when there is none). An unknown action is an
    /// error.
    pub fn from_message(action: &String, payload: &Json) -> (r: Result<ClientAction, String>)
        ensures
            action@ == "echo"@ ==> (r matches Ok(ClientAction::Echo { message }) && message@
                == payload_message(payload@)),
            action@ == "broadcast"@ ==> (r matches Ok(ClientAction::Broadcast { message }) && message@
                == payload_message(payload@)),
            action@ == "get_connections"@ ==> r matches Ok(ClientAction::GetConnections),
            action@ != "echo"@ && action@ != "broadcast"@ && action@ != "get_connections"@ ==> (r matches Err(e)
                && e@ == "Unknown action: "@ + action@),
    {
        proof {
            reveal_strlit("echo");
            reveal_strlit("broadcast");
            reveal_strlit("get_connections");
            assert("echo"@.len() == 4 && "broadcast"@.len() == 9 && "get_connections"@.len() == 15);
        }
        if *action == text("echo") {
            let message = match payload.get_str("message") {
                Some(m) => m,
                None => String::new(),
            };
            Ok(ClientAction::Echo { message })
        } else if *action == text("broadcast") {
            let message = match payload.get_str("message") {
                Some(m) => m,
                None => String::new(),
            };
            Ok(ClientAction::Broadcast { message })
        } else if *action == text("get_connections") {
            Ok(ClientAction::GetConnections)
        } else {
            let mut e = String::from_str("Unknown action: ");
            e.append(action.as_str());
            Err(e)
        }
    }
}

} // verus!

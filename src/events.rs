use vstd::prelude::*;

use crate::config::TokenUsage;
use crate::init::{init_data_from_system, init_data_matches, SessionInitData};
use crate::json::{Json, JsonV, field, field_str, text, opt_view};
use crate::message::{
    AssistantMessage, ContentBlock, ContentBlockV, Message, MessageContent, MessageV, MessageContentV, blocks_view,
    opt_str,
};
use crate::init::failure_text;

verus! {

/// An event of the agent runtime, as the event-stream peers see it.
pub enum AgentEvent {
    TurnStarted { session_id: String },
    TurnCompleted {
        session_id: String,
        usage: TokenUsage,
        duration_ms: i64,
        duration_api_ms: i64,
        num_turns: i64,
        total_cost_usd: Option<Json>,
    },
    TurnFailed { session_id: String, error: String },
    AssistantMessage { session_id: String, text: String, is_final: bool },
    AssistantReasoning { session_id: String, text: String },
    ToolStarted {
        session_id: String,
        tool_name: String,
        tool_id: String,
        arguments: Json,
        parent_tool_use_id: Option<String>,
    },
    /// `result` on success, `error` otherwise: the tool result's content.
    ToolCompleted {
        session_id: String,
        tool_id: String,
        success: bool,
        result: Option<Json>,
        error: Option<Json>,
        parent_tool_use_id: Option<String>,
    },
    SessionInit { session_id: String, data: SessionInitData },
}

/// The shape of an event, without the session identifier, which every event
/// carries.
pub enum EventV {
    TurnStarted,
    TurnCompleted {
        usage: (int, int, int, int),
        duration_ms: int,
        duration_api_ms: int,
        num_turns: int,
        total_cost_usd: Option<JsonV>,
    },
    TurnFailed { error: Seq<char> },
    AssistantMessage { text: Seq<char>, is_final: bool },
    AssistantReasoning { text: Seq<char> },
    ToolStarted { tool_name: Seq<char>, tool_id: Seq<char>, arguments: JsonV, parent: Option<Seq<char>> },
    ToolCompleted {
        tool_id: Seq<char>,
        success: bool,
        result: Option<JsonV>,
        error: Option<JsonV>,
        parent: Option<Seq<char>>,
    },
    SessionInit { session_id: Seq<char> },
}

pub open spec fn usage_view(u: TokenUsage) -> (int, int, int, int) {
    (u.input_tokens as int, u.output_tokens as int, u.cached_tokens as int, u.total_tokens as int)
}

impl AgentEvent {
    pub open spec fn view(&self) -> EventV {
        match self {
            AgentEvent::TurnStarted { .. } => EventV::TurnStarted,
            AgentEvent::TurnCompleted { usage, duration_ms, duration_api_ms, num_turns, total_cost_usd, .. } => EventV::TurnCompleted {
                usage: usage_view(*usage),
                duration_ms: *duration_ms as int,
                duration_api_ms: *duration_api_ms as int,
                num_turns: *num_turns as int,
                total_cost_usd: opt_view(*total_cost_usd),
            },
            AgentEvent::TurnFailed { error, .. } => EventV::TurnFailed { error: error@ },
            AgentEvent::AssistantMessage { text, is_final, .. } => EventV::AssistantMessage { text: text@, is_final: *is_final },
            AgentEvent::AssistantReasoning { text, .. } => EventV::AssistantReasoning { text: text@ },
            AgentEvent::ToolStarted { tool_name, tool_id, arguments, parent_tool_use_id, .. } => EventV::ToolStarted {
                tool_name: tool_name@,
                tool_id: tool_id@,
                arguments: arguments@,
                parent: opt_str(*parent_tool_use_id),
            },
            AgentEvent::ToolCompleted { tool_id, success, result, error, parent_tool_use_id, .. } => EventV::ToolCompleted {
                tool_id: tool_id@,
                success: *success,
                result: opt_view(*result),
                error: opt_view(*error),
                parent: opt_str(*parent_tool_use_id),
            },
            AgentEvent::SessionInit { session_id, .. } => EventV::SessionInit { session_id: session_id@ },
        }
    }

    pub open spec fn sid(&self) -> Seq<char> {
        match self {
            AgentEvent::TurnStarted { session_id } => session_id@,
            AgentEvent::TurnCompleted { session_id, .. } => session_id@,
            AgentEvent::TurnFailed { session_id, .. } => session_id@,
            AgentEvent::AssistantMessage { session_id, .. } => session_id@,
            AgentEvent::AssistantReasoning { session_id, .. } => session_id@,
            AgentEvent::ToolStarted { session_id, .. } => session_id@,
            AgentEvent::ToolCompleted { session_id, .. } => session_id@,
            AgentEvent::SessionInit { session_id, .. } => session_id@,
        }
    }
}

pub open spec fn events_view(es: Seq<AgentEvent>) -> Seq<EventV> {
    Seq::new(es.len(), |i: int| es[i]@)
}

/// The event of one assistant block; tool results give none.
pub open spec fn block_event(b: ContentBlockV, parent: Option<Seq<char>>) -> Seq<EventV> {
    match b {
        ContentBlockV::Text { text } => seq![EventV::AssistantMessage { text: text, is_final: false }],
        ContentBlockV::ToolUse { id, name, input } => seq![
            EventV::ToolStarted { tool_name: name, tool_id: id, arguments: input, parent: parent },
        ],
        ContentBlockV::Thinking { thinking, .. } => seq![EventV::AssistantReasoning { text: thinking }],
        ContentBlockV::ToolResult { .. } => Seq::empty(),
    }
}

pub open spec fn blocks_events(bs: Seq<ContentBlockV>, parent: Option<Seq<char>>) -> Seq<EventV>
    decreases bs.len(),
{
    if bs.len() == 0 {
        Seq::empty()
    } else {
        blocks_events(bs.drop_last(), parent) + block_event(bs.last(), parent)
    }
}

/// The last event marked final when it is assistant text.
pub open spec fn mark_final(es: Seq<EventV>) -> Seq<EventV> {
    if es.len() > 0 && es.last() is AssistantMessage {
        es.update(es.len() - 1, EventV::AssistantMessage { text: es.last()->AssistantMessage_text, is_final: true })
    } else {
        es
    }
}

/// The event of one tool result of a user message.
pub open spec fn result_event(b: ContentBlockV, parent: Option<Seq<char>>) -> Seq<EventV> {
    match b {
        ContentBlockV::ToolResult { tool_use_id, content, is_error } => {
            let success = !(is_error == Some(true));
            seq![
                EventV::ToolCompleted {
                    tool_id: tool_use_id,
                    success: success,
                    result: if success { content } else { None },
                    error: if success { None } else { content },
                    parent: parent,
                },
            ]
        },
        _ => Seq::empty(),
    }
}

pub open spec fn results_events(bs: Seq<ContentBlockV>, parent: Option<Seq<char>>) -> Seq<EventV>
    decreases bs.len(),
{
    if bs.len() == 0 {
        Seq::empty()
    } else {
        results_events(bs.drop_last(), parent) + result_event(bs.last(), parent)
    }
}

/// An integer usage count: a missing key counts 0, anything but an integer
/// spoils the whole record.
pub open spec fn count_of(u: JsonV, key: Seq<char>) -> Option<int> {
    match field(u, key) {
        None => Some(0),
        Some(JsonV::Int(n)) => Some(n),
        _ => None,
    }
}

pub open spec fn clamp(n: int) -> int {
    if n > i64::MAX { i64::MAX as int } else if n < i64::MIN { i64::MIN as int } else { n }
}

/// Token usage out of a result's `usage`: input, output, cache reads, and
/// their total (input plus output); all zero when the record does not read.
pub open spec fn usage_of(u: Option<JsonV>) -> (int, int, int, int) {
    match u {
        Some(v) => if v is Object {
            match (
                count_of(v, "input_tokens"@),
                count_of(v, "output_tokens"@),
                count_of(v, "cache_read_input_tokens"@),
                count_of(v, "cache_creation_input_tokens"@),
            ) {
                (Some(i), Some(o), Some(c), Some(_)) => (i, o, c, clamp(i + o)),
                _ => (0, 0, 0, 0),
            }
        } else {
            (0, 0, 0, 0)
        },
        None => (0, 0, 0, 0),
    }
}

/// The events of one protocol message.
pub open spec fn events_of(m: MessageV, session_id: Seq<char>) -> Seq<EventV> {
    match m {
        MessageV::Assistant { content, parent_tool_use_id, .. } => mark_final(
            blocks_events(content, parent_tool_use_id),
        ),
        MessageV::Result(r) => if r.is_error {
            seq![EventV::TurnFailed { error: failure_text(r.errors, r.result) }]
        } else {
            seq![
                EventV::TurnCompleted {
                    usage: usage_of(r.usage),
                    duration_ms: r.duration_ms,
                    duration_api_ms: r.duration_api_ms,
                    num_turns: r.num_turns,
                    total_cost_usd: r.total_cost_usd,
                },
            ]
        },
        MessageV::System { subtype, data } => if subtype == "init"@ {
            seq![EventV::SessionInit {
                session_id: match field_str(data, "session_id"@) {
                    Some(s) => s,
                    None => session_id,
                },
            }]
        } else {
            Seq::empty()
        },
        MessageV::User { content, parent_tool_use_id, .. } => match content {
            MessageContentV::Blocks(bs) => results_events(bs, parent_tool_use_id),
            MessageContentV::String(_) => Seq::empty(),
        },
        MessageV::Stream { event, .. } => if field_str(event, "type"@) == Some("turn_started"@) {
            seq![EventV::TurnStarted]
        } else {
            Seq::empty()
        },
        _ => Seq::empty(),
    }
}

fn count_at(u: &Json, key: &str) -> (r: Option<i64>)
    ensures
        match r {
            Some(n) => count_of(u@, key@) == Some(n as int),
            None => count_of(u@, key@) is None,
        },
{
    match u.get(key) {
        None => Some(0),
        Some(Json::Int(n)) => Some(*n),
        _ => None,
    }
}

/// Reads the token usage of a result.
pub fn token_usage(u: &Option<Json>) -> (r: TokenUsage)
    ensures
        usage_view(r) == usage_of(opt_view(*u)),
{
    let zero = TokenUsage { input_tokens: 0, output_tokens: 0, cached_tokens: 0, total_tokens: 0 };
    let v = match u {
        Some(v) => v,
        None => return zero,
    };
    match v {
        Json::Object(_) => {},
        _ => return zero,
    }
    match (
        count_at(v, "input_tokens"),
        count_at(v, "output_tokens"),
        count_at(v, "cache_read_input_tokens"),
        count_at(v, "cache_creation_input_tokens"),
    ) {
        (Some(i), Some(o), Some(c), Some(_)) => {
            let sum: i128 = i as i128 + o as i128;
            let total: i64 = if sum > i64::MAX as i128 {
                i64::MAX
            } else if sum < i64::MIN as i128 {
                i64::MIN
            } else {
                sum as i64
            };
            TokenUsage { input_tokens: i, output_tokens: o, cached_tokens: c, total_tokens: total }
        },
        _ => zero,
    }
}

fn copy_opt(o: &Option<String>) -> (r: Option<String>)
    ensures
        opt_str(r) == opt_str(*o),
{
    match o {
        Some(s) => Some(s.clone()),
        None => None,
    }
}

/// The events of an assistant message, its tool starts attributed to
/// `parent`.
fn assistant_events(a: &AssistantMessage, session_id: &String, parent_id: &Option<String>) -> (out: Vec<AgentEvent>)
    ensures
        events_view(out@) == mark_final(blocks_events(blocks_view(a.content@), opt_str(*parent_id))),
        forall|k: int| 0 <= k < out@.len() ==> (#[trigger] out@[k]).sid() == session_id@,
        forall|k: int| 0 <= k < out@.len() ==> !((#[trigger] out@[k]) is SessionInit),
{
    let mut out: Vec<AgentEvent> = Vec::new();
    let ghost bs = blocks_view(a.content@);
    let ghost parent = opt_str(*parent_id);
    let mut i: usize = 0;
    proof {
        assert(bs.take(0) =~= Seq::<ContentBlockV>::empty());
        assert(events_view(out@) =~= Seq::<EventV>::empty());
    }
    while i < a.content.len()
        invariant
            0 <= i <= a.content@.len(),
            bs == blocks_view(a.content@),
            parent == opt_str(*parent_id),
            events_view(out@) == blocks_events(bs.take(i as int), parent),
            forall|k: int| 0 <= k < out@.len() ==> (#[trigger] out@[k]).sid() == session_id@,
            forall|k: int| 0 <= k < out@.len() ==> !((#[trigger] out@[k]) is SessionInit),
        decreases a.content.len() - i,
    {
        proof {
            assert(bs.take(i + 1).drop_last() =~= bs.take(i as int));
            assert(bs.take(i + 1).last() == a.content@[i as int]@);
        }
        let ghost before = events_view(out@);
        match &a.content[i] {
            ContentBlock::Text { text: t } => {
                out.push(AgentEvent::AssistantMessage { session_id: session_id.clone(), text: t.clone(), is_final: false });
            },
            ContentBlock::ToolUse { id, name, input } => {
                out.push(AgentEvent::ToolStarted {
                    session_id: session_id.clone(),
                    tool_name: name.clone(),
                    tool_id: id.clone(),
                    arguments: input.deep_clone(),
                    parent_tool_use_id: copy_opt(parent_id),
                });
            },
            ContentBlock::Thinking { thinking, .. } => {
                out.push(AgentEvent::AssistantReasoning { session_id: session_id.clone(), text: thinking.clone() });
            },
            ContentBlock::ToolResult { .. } => {},
        }
        assert(events_view(out@) =~= before + block_event(a.content@[i as int]@, parent));
        i = i + 1;
    }
    assert(bs.take(a.content@.len() as int) =~= bs);
    let n = out.len();
    if n > 0 {
        let last = out.pop().unwrap();
        match last {
            AgentEvent::AssistantMessage { session_id: s, text: t, .. } => {
                out.push(AgentEvent::AssistantMessage { session_id: s, text: t, is_final: true });
            },
            other => out.push(other),
        }
        assert(events_view(out@) =~= mark_final(blocks_events(bs, parent)));
    }
    out
}

/// As `sdk_to_events`, but an assistant message without a parent tool use
/// of its own has its tool starts attributed to `parent`.
pub fn sdk_to_events_with_parent(
    m: &Message,
    session_id: &String,
    parent: &Option<String>,
    version_key: &str,
) -> (r: Vec<AgentEvent>)
    ensures
        events_view(r@) == match m@ {
            MessageV::Assistant { content, parent_tool_use_id, .. } => mark_final(
                blocks_events(
                    content,
                    match parent_tool_use_id {
                        Some(p) => Some(p),
                        None => opt_str(*parent),
                    },
                ),
            ),
            _ => events_of(m@, session_id@),
        },
{
    match m {
        Message::Assistant(a) => {
            let effective = match &a.parent_tool_use_id {
                Some(p) => Some(p.clone()),
                None => copy_opt(parent),
            };
            assistant_events(a, session_id, &effective)
        },
        _ => sdk_to_events(m, session_id, version_key),
    }
}

/// Converts one protocol message into the events the event-stream peers see:
/// assistant blocks become text, reasoning and tool-start events (the last
/// text final), tool results become completions, a result ends the turn,
/// the `init` system message starts the session.
/// The capabilities of an `init` are read with `version_key` as in
/// `init_data_from_system`.
pub fn sdk_to_events(m: &Message, session_id: &String, version_key: &str) -> (r: Vec<AgentEvent>)
    ensures
        events_view(r@) == events_of(m@, session_id@),
        forall|i: int| 0 <= i < r@.len() && !(r@[i] is SessionInit) ==> (#[trigger] r@[i]).sid() == session_id@,
        forall|i: int| 0 <= i < r@.len() ==> (#[trigger] r@[i] matches AgentEvent::SessionInit { data, .. }
            ==> (m@ matches MessageV::System { data: j, .. } && init_data_matches(data, j, version_key@))),
{
    let mut out: Vec<AgentEvent> = Vec::new();
    proof {
        assert(events_view(out@) =~= Seq::<EventV>::empty());
    }
    match m {
        Message::Assistant(a) => assistant_events(a, session_id, &a.parent_tool_use_id),
        Message::Result(r) => {
            if r.is_error {
                out.push(AgentEvent::TurnFailed { session_id: session_id.clone(), error: crate::init::init_failure(r) });
            } else {
                out.push(AgentEvent::TurnCompleted {
                    session_id: session_id.clone(),
                    usage: token_usage(&r.usage),
                    duration_ms: r.duration_ms,
                    duration_api_ms: r.duration_api_ms,
                    num_turns: r.num_turns,
                    total_cost_usd: match &r.total_cost_usd {
                        Some(c) => Some(c.deep_clone()),
                        None => None,
                    },
                });
            }
            assert(events_view(out@) =~= events_of(m@, session_id@));
            out
        },
        Message::System(s) => {
            if s.subtype == text("init") {
                let sid = match s.data.get_str("session_id") {
                    Some(x) => x,
                    None => session_id.clone(),
                };
                let data = init_data_from_system(&s.data, version_key);
                out.push(AgentEvent::SessionInit { session_id: sid, data });
                assert(events_view(out@) =~= events_of(m@, session_id@));
            }
            out
        },
        Message::User(u) => {
            match &u.content {
                MessageContent::Blocks(blocks) => {
                    let ghost bs = blocks_view(blocks@);
                    let ghost parent = opt_str(u.parent_tool_use_id);
                    let mut i: usize = 0;
                    proof {
                        assert(bs.take(0) =~= Seq::<ContentBlockV>::empty());
                    }
                    while i < blocks.len()
                        invariant
                            0 <= i <= blocks@.len(),
                            bs == blocks_view(blocks@),
                            parent == opt_str(u.parent_tool_use_id),
                            events_view(out@) == results_events(bs.take(i as int), parent),
                            forall|k: int| 0 <= k < out@.len() ==> (#[trigger] out@[k]).sid() == session_id@,
                            forall|k: int| 0 <= k < out@.len() ==> !((#[trigger] out@[k]) is SessionInit),
                    forall|k: int| 0 <= k < out@.len() ==> !((#[trigger] out@[k]) is SessionInit),
                        decreases blocks.len() - i,
                    {
                        proof {
                            assert(bs.take(i + 1).drop_last() =~= bs.take(i as int));
                            assert(bs.take(i + 1).last() == blocks@[i as int]@);
                        }
                        let ghost before = events_view(out@);
                        match &blocks[i] {
                            ContentBlock::ToolResult { tool_use_id, content, is_error } => {
                                let success = !(*is_error == Some(true));
                                let c = match content {
                                    Some(c) => Some(c.deep_clone()),
                                    None => None,
                                };
                                let (result, error) = if success { (c, None) } else { (None, c) };
                                out.push(AgentEvent::ToolCompleted {
                                    session_id: session_id.clone(),
                                    tool_id: tool_use_id.clone(),
                                    success,
                                    result,
                                    error,
                                    parent_tool_use_id: copy_opt(&u.parent_tool_use_id),
                                });
                            },
                            _ => {},
                        }
                        assert(events_view(out@) =~= before + result_event(blocks@[i as int]@, parent));
                        i = i + 1;
                    }
                    assert(bs.take(blocks@.len() as int) =~= bs);
                    out
                },
                MessageContent::String(_) => out,
            }
        },
        Message::Stream(e) => {
            match e.event.get_str("type") {
                Some(t) => {
                    if t == text("turn_started") {
                        out.push(AgentEvent::TurnStarted { session_id: session_id.clone() });
                        assert(events_view(out@) =~= seq![EventV::TurnStarted]);
                    }
                },
                None => {},
            }
            out
        },
        _ => out,
    }
}

} // verus!

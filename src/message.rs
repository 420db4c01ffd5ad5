use vstd::prelude::*;

use crate::json::{
    Json, JsonV, field, field_str, field_int, field_bool, field_present, is_object, obj_spec,
    distinct_keys, lemma_obj_spec_field, view_fields, opt_view, text, view_items,
    lemma_view_items,
};

verus! {

/// Why the CLI could not answer an assistant turn.
#[derive(PartialEq, Eq, Structural, Clone, Copy, Debug)]
pub enum AssistantMessageError {
    AuthenticationFailed,
    BillingError,
    RateLimit,
    InvalidRequest,
    ServerError,
    Unknown,
}

pub open spec fn error_name(e: AssistantMessageError) -> Seq<char> {
    match e {
        AssistantMessageError::AuthenticationFailed => "authentication_failed"@,
        AssistantMessageError::BillingError => "billing_error"@,
        AssistantMessageError::RateLimit => "rate_limit"@,
        AssistantMessageError::InvalidRequest => "invalid_request"@,
        AssistantMessageError::ServerError => "server_error"@,
        AssistantMessageError::Unknown => "unknown"@,
    }
}

pub open spec fn error_named(s: Seq<char>) -> Option<AssistantMessageError> {
    if s == "authentication_failed"@ {
        Some(AssistantMessageError::AuthenticationFailed)
    } else if s == "billing_error"@ {
        Some(AssistantMessageError::BillingError)
    } else if s == "rate_limit"@ {
        Some(AssistantMessageError::RateLimit)
    } else if s == "invalid_request"@ {
        Some(AssistantMessageError::InvalidRequest)
    } else if s == "server_error"@ {
        Some(AssistantMessageError::ServerError)
    } else if s == "unknown"@ {
        Some(AssistantMessageError::Unknown)
    } else {
        None
    }
}

/// Length, first and last character: enough to tell the literals of this
/// module apart.
pub open spec fn key_sig(s: Seq<char>) -> (int, char, char) {
    (s.len() as int, s[0], s[s.len() - 1])
}

proof fn lemma_block_literals()
    ensures
        key_sig("type"@) == (4int, 't', 'e'),
        key_sig("text"@) == (4int, 't', 't'),
        key_sig("thinking"@) == (8int, 't', 'g'),
        key_sig("signature"@) == (9int, 's', 'e'),
        key_sig("tool_use"@) == (8int, 't', 'e'),
        key_sig("id"@) == (2int, 'i', 'd'),
        key_sig("name"@) == (4int, 'n', 'e'),
        key_sig("input"@) == (5int, 'i', 't'),
        key_sig("tool_result"@) == (11int, 't', 't'),
        key_sig("tool_use_id"@) == (11int, 't', 'd'),
        key_sig("content"@) == (7int, 'c', 't'),
        key_sig("is_error"@) == (8int, 'i', 'r'),
        key_sig("authentication_failed"@) == (21int, 'a', 'd'),
        key_sig("billing_error"@) == (13int, 'b', 'r'),
        key_sig("rate_limit"@) == (10int, 'r', 't'),
        key_sig("invalid_request"@) == (15int, 'i', 't'),
        key_sig("server_error"@) == (12int, 's', 'r'),
        key_sig("unknown"@) == (7int, 'u', 'n'),
{
    reveal_strlit("type");
    reveal_strlit("text");
    reveal_strlit("thinking");
    reveal_strlit("signature");
    reveal_strlit("tool_use");
    reveal_strlit("id");
    reveal_strlit("name");
    reveal_strlit("input");
    reveal_strlit("tool_result");
    reveal_strlit("tool_use_id");
    reveal_strlit("content");
    reveal_strlit("is_error");
    reveal_strlit("authentication_failed");
    reveal_strlit("billing_error");
    reveal_strlit("rate_limit");
    reveal_strlit("invalid_request");
    reveal_strlit("server_error");
    reveal_strlit("unknown");
}

pub proof fn lemma_error_name_round_trip(e: AssistantMessageError)
    ensures
        error_named(error_name(e)) == Some(e),
{
    lemma_block_literals();
}

impl AssistantMessageError {
    /// The wire name (`"rate_limit"`, ...).
    pub fn name(&self) -> (r: String)
        ensures
            r@ == error_name(*self),
    {
        match self {
            AssistantMessageError::AuthenticationFailed => text("authentication_failed"),
            AssistantMessageError::BillingError => text("billing_error"),
            AssistantMessageError::RateLimit => text("rate_limit"),
            AssistantMessageError::InvalidRequest => text("invalid_request"),
            AssistantMessageError::ServerError => text("server_error"),
            AssistantMessageError::Unknown => text("unknown"),
        }
    }

    /// The error with the given wire name, if there is one.
    pub fn from_name(s: &String) -> (r: Option<AssistantMessageError>)
        ensures
            r == error_named(s@),
    {
        if *s == text("authentication_failed") {
            Some(AssistantMessageError::AuthenticationFailed)
        } else if *s == text("billing_error") {
            Some(AssistantMessageError::BillingError)
        } else if *s == text("rate_limit") {
            Some(AssistantMessageError::RateLimit)
        } else if *s == text("invalid_request") {
            Some(AssistantMessageError::InvalidRequest)
        } else if *s == text("server_error") {
            Some(AssistantMessageError::ServerError)
        } else if *s == text("unknown") {
            Some(AssistantMessageError::Unknown)
        } else {
            None
        }
    }
}

/// One block of message content.
pub enum ContentBlock {
    Text { text: String },
    Thinking { thinking: String, signature: String },
    ToolUse { id: String, name: String, input: Json },
    /// `content` is a string or an array when present.
    ToolResult { tool_use_id: String, content: Option<Json>, is_error: Option<bool> },
}

pub enum ContentBlockV {
    Text { text: Seq<char> },
    Thinking { thinking: Seq<char>, signature: Seq<char> },
    ToolUse { id: Seq<char>, name: Seq<char>, input: JsonV },
    ToolResult { tool_use_id: Seq<char>, content: Option<JsonV>, is_error: Option<bool> },
}

impl ContentBlock {
    pub open spec fn view(&self) -> ContentBlockV {
        match self {
            ContentBlock::Text { text } => ContentBlockV::Text { text: text@ },
            ContentBlock::Thinking { thinking, signature } => ContentBlockV::Thinking {
                thinking: thinking@,
                signature: signature@,
            },
            ContentBlock::ToolUse { id, name, input } => ContentBlockV::ToolUse {
                id: id@,
                name: name@,
                input: input@,
            },
            ContentBlock::ToolResult { tool_use_id, content, is_error } => ContentBlockV::ToolResult {
                tool_use_id: tool_use_id@,
                content: opt_view(*content),
                is_error: *is_error,
            },
        }
    }
}

pub open spec fn blocks_view(v: Seq<ContentBlock>) -> Seq<ContentBlockV> {
    Seq::new(v.len(), |i: int| v[i]@)
}

pub open spec fn opt_str(o: Option<String>) -> Option<Seq<char>> {
    match o {
        Some(s) => Some(s@),
        None => None,
    }
}

pub open spec fn str_v(s: Seq<char>) -> Option<JsonV> {
    Some(JsonV::Str(s))
}

pub open spec fn opt_str_v(o: Option<Seq<char>>) -> Option<JsonV> {
    match o {
        Some(s) => Some(JsonV::Str(s)),
        None => None,
    }
}

pub open spec fn opt_bool_v(o: Option<bool>) -> Option<JsonV> {
    match o {
        Some(b) => Some(JsonV::Bool(b)),
        None => None,
    }
}

/// A string or an array: what a tool result's content may be.
pub open spec fn is_str_or_array(j: JsonV) -> bool {
    j is Str || j is Array
}

/// A content block decoded from its JSON object.
pub open spec fn block_of(j: JsonV) -> Option<ContentBlockV> {
    if !is_object(j) {
        None
    } else {
        match field_str(j, "type"@) {
            None => None,
            Some(t) => if t == "text"@ {
                match field_str(j, "text"@) {
                    Some(x) => Some(ContentBlockV::Text { text: x }),
                    None => None,
                }
            } else if t == "thinking"@ {
                match (field_str(j, "thinking"@), field_str(j, "signature"@)) {
                    (Some(x), Some(s)) => Some(ContentBlockV::Thinking { thinking: x, signature: s }),
                    _ => None,
                }
            } else if t == "tool_use"@ {
                match (field_str(j, "id"@), field_str(j, "name"@), field(j, "input"@)) {
                    (Some(id), Some(n), Some(inp)) => Some(
                        ContentBlockV::ToolUse { id: id, name: n, input: inp },
                    ),
                    _ => None,
                }
            } else if t == "tool_result"@ {
                match field_str(j, "tool_use_id"@) {
                    Some(id) => Some(
                        ContentBlockV::ToolResult {
                            tool_use_id: id,
                            content: match field(j, "content"@) {
                                Some(c) => if is_str_or_array(c) {
                                    Some(c)
                                } else {
                                    None
                                },
                                None => None,
                            },
                            is_error: field_bool(j, "is_error"@),
                        },
                    ),
                    None => None,
                }
            } else {
                None
            },
        }
    }
}

pub open spec fn block_fields(b: ContentBlockV) -> Seq<(Seq<char>, Option<JsonV>)> {
    match b {
        ContentBlockV::Text { text } => seq![("type"@, str_v("text"@)), ("text"@, str_v(text))],
        ContentBlockV::Thinking { thinking, signature } => seq![
            ("type"@, str_v("thinking"@)),
            ("thinking"@, str_v(thinking)),
            ("signature"@, str_v(signature)),
        ],
        ContentBlockV::ToolUse { id, name, input } => seq![
            ("type"@, str_v("tool_use"@)),
            ("id"@, str_v(id)),
            ("name"@, str_v(name)),
            ("input"@, Some(input)),
        ],
        ContentBlockV::ToolResult { tool_use_id, content, is_error } => seq![
            ("type"@, str_v("tool_result"@)),
            ("tool_use_id"@, str_v(tool_use_id)),
            ("content"@, content),
            ("is_error"@, opt_bool_v(is_error)),
        ],
    }
}

/// The JSON object of a content block; absent optional fields are omitted.
pub open spec fn block_json(b: ContentBlockV) -> JsonV {
    JsonV::Object(obj_spec(block_fields(b)))
}

/// A block is canonical when a tool result's content is a string or an array.
pub open spec fn block_wf(b: ContentBlockV) -> bool {
    match b {
        ContentBlockV::ToolResult { content, .. } => match content {
            Some(c) => is_str_or_array(c),
            None => true,
        },
        _ => true,
    }
}

/// Every canonical content block reads back as itself from its JSON.
pub proof fn lemma_block_round_trip(b: ContentBlockV)
    requires
        block_wf(b),
    ensures
        block_of(block_json(b)) == Some(b),
{
    lemma_block_literals();
    let fs = block_fields(b);
    assert(distinct_keys(fs));
    let n = fs.len() as int;
    assert forall|k: int| 0 <= k < n implies #[trigger] field(block_json(b), fs[k].0) == fs[k].1 by {
        lemma_obj_spec_field(fs, k);
    }
    assert(fs[0].0 == "type"@);
    match b {
        ContentBlockV::Text { text } => {
            assert(fs[1].0 == "text"@);
        },
        ContentBlockV::Thinking { .. } => {
            assert(fs[1].0 == "thinking"@);
            assert(fs[2].0 == "signature"@);
        },
        ContentBlockV::ToolUse { .. } => {
            assert(fs[1].0 == "id"@);
            assert(fs[2].0 == "name"@);
            assert(fs[3].0 == "input"@);
        },
        ContentBlockV::ToolResult { .. } => {
            assert(fs[1].0 == "tool_use_id"@);
            assert(fs[2].0 == "content"@);
            assert(fs[3].0 == "is_error"@);
        },
    }
}

/// The content blocks decoded from an array: every item must decode.
pub open spec fn blocks_of(items: Seq<JsonV>) -> Option<Seq<ContentBlockV>> {
    if forall|i: int| 0 <= i < items.len() ==> (#[trigger] block_of(items[i])) is Some {
        Some(Seq::new(items.len(), |i: int| block_of(items[i])->0))
    } else {
        None
    }
}

pub open spec fn blocks_json(bs: Seq<ContentBlockV>) -> JsonV {
    JsonV::Array(Seq::new(bs.len(), |i: int| block_json(bs[i])))
}

pub open spec fn blocks_wf(bs: Seq<ContentBlockV>) -> bool {
    forall|i: int| 0 <= i < bs.len() ==> #[trigger] block_wf(bs[i])
}

/// A sequence of canonical content blocks reads back as itself.
pub proof fn lemma_blocks_round_trip(bs: Seq<ContentBlockV>)
    requires
        blocks_wf(bs),
    ensures
        blocks_json(bs) matches JsonV::Array(items) && blocks_of(items) == Some(bs),
{
    let items = Seq::new(bs.len(), |i: int| block_json(bs[i]));
    assert forall|i: int| 0 <= i < items.len() implies (#[trigger] block_of(items[i])) == Some(bs[i]) by {
        lemma_block_round_trip(bs[i]);
    }
    assert(Seq::new(items.len(), |i: int| block_of(items[i])->0) =~= bs);
}

/// A line or value that does not decode as a protocol message.
pub struct ParseError {
    pub message: String,
}

fn parse_error(m: &str) -> (r: ParseError) {
    ParseError { message: text(m) }
}

/// Decodes one content block.
pub fn parse_content_block(j: &Json) -> (r: Result<ContentBlock, ParseError>)
    ensures
        match r {
            Ok(b) => block_of(j@) == Some(b@),
            Err(_) => block_of(j@) is None,
        },
{
    match j {
        Json::Object(_) => {},
        _ => return Err(parse_error("Content block must be an object")),
    }
    let t = match j.get_str("type") {
        Some(t) => t,
        None => return Err(parse_error("Missing 'type' in content block")),
    };
    if t == text("text") {
        match j.get_str("text") {
            Some(x) => Ok(ContentBlock::Text { text: x }),
            None => Err(parse_error("Missing 'text' field")),
        }
    } else if t == text("thinking") {
        match (j.get_str("thinking"), j.get_str("signature")) {
            (Some(x), Some(sig)) => Ok(ContentBlock::Thinking { thinking: x, signature: sig }),
            _ => Err(parse_error("Missing 'thinking' or 'signature' field")),
        }
    } else if t == text("tool_use") {
        match (j.get_str("id"), j.get_str("name"), j.get("input")) {
            (Some(id), Some(n), Some(inp)) => Ok(
                ContentBlock::ToolUse { id: id, name: n, input: inp.deep_clone() },
            ),
            _ => Err(parse_error("Missing 'id', 'name' or 'input' field")),
        }
    } else if t == text("tool_result") {
        match j.get_str("tool_use_id") {
            Some(id) => {
                let content = match j.get("content") {
                    Some(c) => match c {
                        Json::Str(_) => Some(c.deep_clone()),
                        Json::Array(_) => Some(c.deep_clone()),
                        _ => None,
                    },
                    None => None,
                };
                Ok(
                    ContentBlock::ToolResult {
                        tool_use_id: id,
                        content: content,
                        is_error: j.get_bool("is_error"),
                    },
                )
            },
            None => Err(parse_error("Missing 'tool_use_id' field")),
        }
    } else {
        Err(parse_error("Unknown content block type"))
    }
}

/// Decodes an array of content blocks; one block that does not decode fails
/// the whole array.
pub fn parse_content_blocks(items: &Vec<Json>) -> (r: Result<Vec<ContentBlock>, ParseError>)
    ensures
        match r {
            Ok(bs) => blocks_of(view_items(items@)) == Some(blocks_view(bs@)),
            Err(_) => blocks_of(view_items(items@)) is None,
        },
{
    proof {
        lemma_view_items(items@);
    }
    let ghost vi = view_items(items@);
    let mut out: Vec<ContentBlock> = Vec::new();
    let mut i: usize = 0;
    while i < items.len()
        invariant
            0 <= i <= items.len(),
            vi == view_items(items@),
            vi.len() == items@.len(),
            forall|m: int| 0 <= m < items@.len() ==> #[trigger] vi[m] == items@[m]@,
            out@.len() == i,
            forall|m: int| 0 <= m < i ==> block_of(#[trigger] vi[m]) == Some(out@[m]@),
        decreases items.len() - i,
    {
        match parse_content_block(&items[i]) {
            Ok(b) => out.push(b),
            Err(e) => {
                assert(block_of(vi[i as int]) is None);
                return Err(e);
            },
        }
        i = i + 1;
    }
    assert(forall|m: int| 0 <= m < vi.len() ==> (#[trigger] block_of(vi[m])) is Some);
    assert(Seq::new(vi.len(), |m: int| block_of(vi[m])->0) =~= blocks_view(out@));
    Ok(out)
}

fn str_json(s: &str) -> (r: Option<Json>)
    ensures
        opt_view(r) == str_v(s@),
{
    Some(Json::Str(text(s)))
}

fn string_json(s: &String) -> (r: Option<Json>)
    ensures
        opt_view(r) == str_v(s@),
{
    Some(Json::Str(s.clone()))
}

fn opt_string_json(o: &Option<String>) -> (r: Option<Json>)
    ensures
        opt_view(r) == opt_str_v(opt_str(*o)),
{
    match o {
        Some(s) => Some(Json::Str(s.clone())),
        None => None,
    }
}

fn opt_json(o: &Option<Json>) -> (r: Option<Json>)
    ensures
        opt_view(r) == opt_view(*o),
{
    match o {
        Some(j) => Some(j.deep_clone()),
        None => None,
    }
}

impl ContentBlock {
    /// The JSON object of this block.
    pub fn to_json(&self) -> (r: Json)
        ensures
            r@ == block_json(self@),
    {
        let fields = match self {
            ContentBlock::Text { text: t } => vec![
                (text("type"), str_json("text")),
                (text("text"), string_json(t)),
            ],
            ContentBlock::Thinking { thinking, signature } => vec![
                (text("type"), str_json("thinking")),
                (text("thinking"), string_json(thinking)),
                (text("signature"), string_json(signature)),
            ],
            ContentBlock::ToolUse { id, name, input } => vec![
                (text("type"), str_json("tool_use")),
                (text("id"), string_json(id)),
                (text("name"), string_json(name)),
                (text("input"), Some(input.deep_clone())),
            ],
            ContentBlock::ToolResult { tool_use_id, content, is_error } => vec![
                (text("type"), str_json("tool_result")),
                (text("tool_use_id"), string_json(tool_use_id)),
                (text("content"), opt_json(content)),
                (text("is_error"), match is_error {
                    Some(b) => Some(Json::Bool(*b)),
                    None => None,
                }),
            ],
        };
        assert(view_fields(fields@) =~= block_fields(self@));
        Json::object_of(fields)
    }
}

/// The JSON array of a sequence of blocks.
pub fn blocks_to_json(bs: &Vec<ContentBlock>) -> (r: Json)
    ensures
        r@ == blocks_json(blocks_view(bs@)),
{
    let mut out: Vec<Json> = Vec::new();
    let mut i: usize = 0;
    while i < bs.len()
        invariant
            0 <= i <= bs.len(),
            out@.len() == i,
            forall|m: int| 0 <= m < i ==> #[trigger] out@[m]@ == block_json(bs@[m]@),
        decreases bs.len() - i,
    {
        out.push(bs[i].to_json());
        i = i + 1;
    }
    proof {
        lemma_view_items(out@);
        assert(view_items(out@) =~= Seq::new(bs@.len(), |m: int| block_json(blocks_view(bs@)[m])));
    }
    Json::Array(out)
}

/// Message content: a plain string or a sequence of blocks.
pub enum MessageContent {
    String(String),
    Blocks(Vec<ContentBlock>),
}

pub enum MessageContentV {
    String(Seq<char>),
    Blocks(Seq<ContentBlockV>),
}

pub struct UserMessage {
    pub content: MessageContent,
    pub session_id: Option<String>,
    pub uuid: Option<String>,
    pub parent_tool_use_id: Option<String>,
}

pub struct AssistantMessage {
    pub content: Vec<ContentBlock>,
    pub model: String,
    pub parent_tool_use_id: Option<String>,
    pub error: Option<AssistantMessageError>,
}

/// A system message; `data` is the whole object, so that keys the library
/// does not name are kept.
pub struct SystemMessage {
    pub subtype: String,
    pub data: Json,
}

pub struct ResultMessage {
    pub subtype: String,
    pub duration_ms: i64,
    pub duration_api_ms: i64,
    pub is_error: bool,
    pub num_turns: i64,
    pub session_id: String,
    pub total_cost_usd: Option<Json>,
    pub usage: Option<Json>,
    pub result: Option<String>,
    pub structured_output: Option<Json>,
    pub errors: Vec<String>,
}

pub struct StreamEvent {
    pub uuid: String,
    pub session_id: String,
    pub event: Json,
    pub parent_tool_use_id: Option<String>,
}

/// A control request that the CLI sent; `request` is the whole request
/// object, whose `subtype` is `subtype`.
pub struct SDKControlRequest {
    pub request_id: String,
    pub subtype: String,
    pub request: Json,
}

/// How a control request was answered.
pub enum ControlOutcome {
    Success(Option<Json>),
    Error(Option<String>),
}

pub struct SDKControlResponse {
    pub request_id: String,
    pub outcome: ControlOutcome,
}

/// A message of the line protocol.
pub enum Message {
    User(UserMessage),
    Assistant(AssistantMessage),
    System(SystemMessage),
    Result(ResultMessage),
    Stream(StreamEvent),
    ControlRequest(SDKControlRequest),
    ControlResponse(SDKControlResponse),
}

pub enum ControlOutcomeV {
    Success(Option<JsonV>),
    Error(Option<Seq<char>>),
}

pub struct ResultV {
    pub subtype: Seq<char>,
    pub duration_ms: int,
    pub duration_api_ms: int,
    pub is_error: bool,
    pub num_turns: int,
    pub session_id: Seq<char>,
    pub total_cost_usd: Option<JsonV>,
    pub usage: Option<JsonV>,
    pub result: Option<Seq<char>>,
    pub structured_output: Option<JsonV>,
    pub errors: Seq<Seq<char>>,
}

#[allow(inconsistent_fields)]
pub enum MessageV {
    User {
        content: MessageContentV,
        session_id: Option<Seq<char>>,
        uuid: Option<Seq<char>>,
        parent_tool_use_id: Option<Seq<char>>,
    },
    Assistant {
        content: Seq<ContentBlockV>,
        model: Seq<char>,
        parent_tool_use_id: Option<Seq<char>>,
        error: Option<AssistantMessageError>,
    },
    System { subtype: Seq<char>, data: JsonV },
    Result(ResultV),
    Stream {
        uuid: Seq<char>,
        session_id: Seq<char>,
        event: JsonV,
        parent_tool_use_id: Option<Seq<char>>,
    },
    ControlRequest { request_id: Seq<char>, subtype: Seq<char>, request: JsonV },
    ControlResponse { request_id: Seq<char>, outcome: ControlOutcomeV },
}

pub open spec fn strings_view(v: Seq<String>) -> Seq<Seq<char>> {
    Seq::new(v.len(), |i: int| v[i]@)
}

impl MessageContent {
    pub open spec fn view(&self) -> MessageContentV {
        match self {
            MessageContent::String(s) => MessageContentV::String(s@),
            MessageContent::Blocks(b) => MessageContentV::Blocks(blocks_view(b@)),
        }
    }
}

impl ControlOutcome {
    pub open spec fn view(&self) -> ControlOutcomeV {
        match self {
            ControlOutcome::Success(p) => ControlOutcomeV::Success(opt_view(*p)),
            ControlOutcome::Error(e) => ControlOutcomeV::Error(opt_str(*e)),
        }
    }
}

impl ResultMessage {
    pub open spec fn view(&self) -> ResultV {
        ResultV {
            subtype: self.subtype@,
            duration_ms: self.duration_ms as int,
            duration_api_ms: self.duration_api_ms as int,
            is_error: self.is_error,
            num_turns: self.num_turns as int,
            session_id: self.session_id@,
            total_cost_usd: opt_view(self.total_cost_usd),
            usage: opt_view(self.usage),
            result: opt_str(self.result),
            structured_output: opt_view(self.structured_output),
            errors: strings_view(self.errors@),
        }
    }
}

impl Message {
    pub open spec fn view(&self) -> MessageV {
        match self {
            Message::User(u) => MessageV::User {
                content: u.content@,
                session_id: opt_str(u.session_id),
                uuid: opt_str(u.uuid),
                parent_tool_use_id: opt_str(u.parent_tool_use_id),
            },
            Message::Assistant(a) => MessageV::Assistant {
                content: blocks_view(a.content@),
                model: a.model@,
                parent_tool_use_id: opt_str(a.parent_tool_use_id),
                error: a.error,
            },
            Message::System(m) => MessageV::System { subtype: m.subtype@, data: m.data@ },
            Message::Result(r) => MessageV::Result(r@),
            Message::Stream(e) => MessageV::Stream {
                uuid: e.uuid@,
                session_id: e.session_id@,
                event: e.event@,
                parent_tool_use_id: opt_str(e.parent_tool_use_id),
            },
            Message::ControlRequest(c) => MessageV::ControlRequest {
                request_id: c.request_id@,
                subtype: c.subtype@,
                request: c.request@,
            },
            Message::ControlResponse(c) => MessageV::ControlResponse {
                request_id: c.request_id@,
                outcome: c.outcome@,
            },
        }
    }
}

/// The strings of an `errors` array; anything else reads as no errors.
pub open spec fn strings_of(j: Option<JsonV>) -> Seq<Seq<char>> {
    match j {
        Some(JsonV::Array(items)) => if forall|i: int| 0 <= i < items.len() ==> (#[trigger] items[i]) is Str {
            Seq::new(items.len(), |i: int| items[i]->Str_0)
        } else {
            Seq::empty()
        },
        _ => Seq::empty(),
    }
}

pub open spec fn user_of(j: JsonV) -> Option<MessageV> {
    match field(j, "message"@) {
        Some(m) => if !is_object(m) {
            None
        } else {
            let content = match field(m, "content"@) {
                Some(JsonV::Str(s)) => Some(MessageContentV::String(s)),
                Some(JsonV::Array(items)) => match blocks_of(items) {
                    Some(bs) => Some(MessageContentV::Blocks(bs)),
                    None => None,
                },
                _ => None,
            };
            match content {
                Some(c) => Some(
                    MessageV::User {
                        content: c,
                        session_id: field_str(j, "session_id"@),
                        uuid: field_str(j, "uuid"@),
                        parent_tool_use_id: field_str(j, "parent_tool_use_id"@),
                    },
                ),
                None => None,
            }
        },
        None => None,
    }
}

pub open spec fn assistant_of(j: JsonV) -> Option<MessageV> {
    match field(j, "message"@) {
        Some(m) => if !is_object(m) {
            None
        } else {
            match (field_str(m, "model"@), field(m, "content"@)) {
                (Some(model), Some(JsonV::Array(items))) => match blocks_of(items) {
                    Some(bs) => Some(
                        MessageV::Assistant {
                            content: bs,
                            model: model,
                            parent_tool_use_id: field_str(j, "parent_tool_use_id"@),
                            error: match field_str(m, "error"@) {
                                Some(e) => error_named(e),
                                None => None,
                            },
                        },
                    ),
                    None => None,
                },
                _ => None,
            }
        },
        None => None,
    }
}

pub open spec fn result_of(j: JsonV) -> Option<MessageV> {
    match (
        field_str(j, "subtype"@),
        field_int(j, "duration_ms"@),
        field_int(j, "duration_api_ms"@),
        field_bool(j, "is_error"@),
        field_int(j, "num_turns"@),
        field_str(j, "session_id"@),
    ) {
        (Some(st), Some(d), Some(da), Some(e), Some(n), Some(sid)) => Some(
            MessageV::Result(
                ResultV {
                    subtype: st,
                    duration_ms: d,
                    duration_api_ms: da,
                    is_error: e,
                    num_turns: n,
                    session_id: sid,
                    total_cost_usd: field_present(j, "total_cost_usd"@),
                    usage: field_present(j, "usage"@),
                    result: field_str(j, "result"@),
                    structured_output: field_present(j, "structured_output"@),
                    errors: strings_of(field(j, "errors"@)),
                },
            ),
        ),
        _ => None,
    }
}

pub open spec fn stream_of(j: JsonV) -> Option<MessageV> {
    match (field_str(j, "uuid"@), field_str(j, "session_id"@), field(j, "event"@)) {
        (Some(u), Some(sid), Some(ev)) => Some(
            MessageV::Stream {
                uuid: u,
                session_id: sid,
                event: ev,
                parent_tool_use_id: field_str(j, "parent_tool_use_id"@),
            },
        ),
        _ => None,
    }
}

pub open spec fn control_request_of(j: JsonV) -> Option<MessageV> {
    match (field_str(j, "request_id"@), field(j, "request"@)) {
        (Some(id), Some(req)) => match field_str(req, "subtype"@) {
            Some(st) => Some(MessageV::ControlRequest { request_id: id, subtype: st, request: req }),
            None => None,
        },
        _ => None,
    }
}

pub open spec fn control_response_of(j: JsonV) -> Option<MessageV> {
    match field(j, "response"@) {
        Some(resp) => match (field_str(resp, "subtype"@), field_str(resp, "request_id"@)) {
            (Some(st), Some(id)) => if st == "success"@ {
                Some(
                    MessageV::ControlResponse {
                        request_id: id,
                        outcome: ControlOutcomeV::Success(field_present(resp, "response"@)),
                    },
                )
            } else if st == "error"@ {
                Some(
                    MessageV::ControlResponse {
                        request_id: id,
                        outcome: ControlOutcomeV::Error(field_str(resp, "error"@)),
                    },
                )
            } else {
                None
            },
            _ => None,
        },
        None => None,
    }
}

/// A protocol message decoded from its JSON object, dispatched on `type`.
pub open spec fn message_of(j: JsonV) -> Option<MessageV> {
    if !is_object(j) {
        None
    } else {
        match field_str(j, "type"@) {
            None => None,
            Some(t) => if t == "user"@ {
                user_of(j)
            } else if t == "assistant"@ {
                assistant_of(j)
            } else if t == "system"@ {
                match field_str(j, "subtype"@) {
                    Some(st) => Some(MessageV::System { subtype: st, data: j }),
                    None => None,
                }
            } else if t == "result"@ {
                result_of(j)
            } else if t == "stream_event"@ {
                stream_of(j)
            } else if t == "control_request"@ {
                control_request_of(j)
            } else if t == "control_response"@ {
                control_response_of(j)
            } else {
                None
            },
        }
    }
}

proof fn lemma_message_literals()
    ensures
        key_sig("user"@) == (4int, 'u', 'r'),
        key_sig("assistant"@) == (9int, 'a', 't'),
        key_sig("system"@) == (6int, 's', 'm'),
        key_sig("result"@) == (6int, 'r', 't'),
        key_sig("stream_event"@) == (12int, 's', 't'),
        key_sig("control_request"@) == (15int, 'c', 't'),
        key_sig("control_response"@) == (16int, 'c', 'e'),
        key_sig("message"@) == (7int, 'm', 'e'),
        key_sig("role"@) == (4int, 'r', 'e'),
        key_sig("content"@) == (7int, 'c', 't'),
        key_sig("session_id"@) == (10int, 's', 'd'),
        key_sig("parent_tool_use_id"@) == (18int, 'p', 'd'),
        key_sig("uuid"@) == (4int, 'u', 'd'),
        key_sig("model"@) == (5int, 'm', 'l'),
        key_sig("error"@) == (5int, 'e', 'r'),
        key_sig("subtype"@) == (7int, 's', 'e'),
        key_sig("duration_ms"@) == (11int, 'd', 's'),
        key_sig("duration_api_ms"@) == (15int, 'd', 's'),
        key_sig("is_error"@) == (8int, 'i', 'r'),
        key_sig("num_turns"@) == (9int, 'n', 's'),
        key_sig("total_cost_usd"@) == (14int, 't', 'd'),
        key_sig("usage"@) == (5int, 'u', 'e'),
        key_sig("structured_output"@) == (17int, 's', 't'),
        key_sig("errors"@) == (6int, 'e', 's'),
        key_sig("event"@) == (5int, 'e', 't'),
        key_sig("request_id"@) == (10int, 'r', 'd'),
        key_sig("request"@) == (7int, 'r', 't'),
        key_sig("response"@) == (8int, 'r', 'e'),
        key_sig("success"@) == (7int, 's', 's'),
        key_sig("type"@) == (4int, 't', 'e'),
{
    reveal_strlit("user");
    reveal_strlit("assistant");
    reveal_strlit("system");
    reveal_strlit("result");
    reveal_strlit("stream_event");
    reveal_strlit("control_request");
    reveal_strlit("control_response");
    reveal_strlit("message");
    reveal_strlit("role");
    reveal_strlit("content");
    reveal_strlit("session_id");
    reveal_strlit("parent_tool_use_id");
    reveal_strlit("uuid");
    reveal_strlit("model");
    reveal_strlit("error");
    reveal_strlit("subtype");
    reveal_strlit("duration_ms");
    reveal_strlit("duration_api_ms");
    reveal_strlit("is_error");
    reveal_strlit("num_turns");
    reveal_strlit("total_cost_usd");
    reveal_strlit("usage");
    reveal_strlit("structured_output");
    reveal_strlit("errors");
    reveal_strlit("event");
    reveal_strlit("request_id");
    reveal_strlit("request");
    reveal_strlit("response");
    reveal_strlit("success");
    reveal_strlit("type");
}

pub open spec fn content_json(c: MessageContentV) -> JsonV {
    match c {
        MessageContentV::String(s) => JsonV::Str(s),
        MessageContentV::Blocks(bs) => blocks_json(bs),
    }
}

pub open spec fn opt_error_v(e: Option<AssistantMessageError>) -> Option<JsonV> {
    match e {
        Some(x) => Some(JsonV::Str(error_name(x))),
        None => None,
    }
}

/// An `errors` entry: omitted when there are none.
pub open spec fn errors_v(es: Seq<Seq<char>>) -> Option<JsonV> {
    if es.len() == 0 {
        None
    } else {
        Some(JsonV::Array(Seq::new(es.len(), |i: int| JsonV::Str(es[i]))))
    }
}

pub open spec fn user_body(c: MessageContentV) -> Seq<(Seq<char>, Option<JsonV>)> {
    seq![("role"@, str_v("user"@)), ("content"@, Some(content_json(c)))]
}

pub open spec fn assistant_body(
    content: Seq<ContentBlockV>,
    model: Seq<char>,
    error: Option<AssistantMessageError>,
) -> Seq<(Seq<char>, Option<JsonV>)> {
    seq![
        ("model"@, str_v(model)),
        ("content"@, Some(blocks_json(content))),
        ("error"@, opt_error_v(error)),
    ]
}

pub open spec fn response_body(id: Seq<char>, outcome: ControlOutcomeV) -> Seq<(Seq<char>, Option<JsonV>)> {
    match outcome {
        ControlOutcomeV::Success(p) => seq![
            ("subtype"@, str_v("success"@)),
            ("request_id"@, str_v(id)),
            ("response"@, p),
        ],
        ControlOutcomeV::Error(e) => seq![
            ("subtype"@, str_v("error"@)),
            ("request_id"@, str_v(id)),
            ("error"@, opt_str_v(e)),
        ],
    }
}

/// The top-level `(key, value)` pairs of a message other than a system one.
pub open spec fn message_fields(m: MessageV) -> Seq<(Seq<char>, Option<JsonV>)> {
    match m {
        MessageV::User { content, session_id, uuid, parent_tool_use_id } => seq![
            ("type"@, str_v("user"@)),
            ("message"@, Some(JsonV::Object(obj_spec(user_body(content))))),
            ("session_id"@, opt_str_v(session_id)),
            ("parent_tool_use_id"@, opt_str_v(parent_tool_use_id)),
            ("uuid"@, opt_str_v(uuid)),
        ],
        MessageV::Assistant { content, model, parent_tool_use_id, error } => seq![
            ("type"@, str_v("assistant"@)),
            ("message"@, Some(JsonV::Object(obj_spec(assistant_body(content, model, error))))),
            ("parent_tool_use_id"@, opt_str_v(parent_tool_use_id)),
        ],
        MessageV::Result(r) => seq![
            ("type"@, str_v("result"@)),
            ("subtype"@, str_v(r.subtype)),
            ("duration_ms"@, Some(JsonV::Int(r.duration_ms))),
            ("duration_api_ms"@, Some(JsonV::Int(r.duration_api_ms))),
            ("is_error"@, Some(JsonV::Bool(r.is_error))),
            ("num_turns"@, Some(JsonV::Int(r.num_turns))),
            ("session_id"@, str_v(r.session_id)),
            ("total_cost_usd"@, r.total_cost_usd),
            ("usage"@, r.usage),
            ("result"@, opt_str_v(r.result)),
            ("structured_output"@, r.structured_output),
            ("errors"@, errors_v(r.errors)),
        ],
        MessageV::Stream { uuid, session_id, event, parent_tool_use_id } => seq![
            ("type"@, str_v("stream_event"@)),
            ("uuid"@, str_v(uuid)),
            ("session_id"@, str_v(session_id)),
            ("event"@, Some(event)),
            ("parent_tool_use_id"@, opt_str_v(parent_tool_use_id)),
        ],
        MessageV::ControlRequest { request_id, subtype, request } => seq![
            ("type"@, str_v("control_request"@)),
            ("request_id"@, str_v(request_id)),
            ("request"@, Some(request)),
        ],
        MessageV::ControlResponse { request_id, outcome } => seq![
            ("type"@, str_v("control_response"@)),
            ("response"@, Some(JsonV::Object(obj_spec(response_body(request_id, outcome))))),
        ],
        MessageV::System { .. } => Seq::empty(),
    }
}

/// The JSON object of a message: optional fields are omitted when absent,
/// and a system message is its whole object.
pub open spec fn message_json(m: MessageV) -> JsonV {
    match m {
        MessageV::System { data, .. } => data,
        _ => JsonV::Object(obj_spec(message_fields(m))),
    }
}

pub open spec fn not_null(o: Option<JsonV>) -> bool {
    !(o matches Some(JsonV::Null))
}

/// A message is canonical when its JSON says no more and no less than it:
/// a system message's or a control request's object carries its subtype,
/// optional values are not `null`, tool-result contents are strings or arrays.
pub open spec fn message_wf(m: MessageV) -> bool {
    match m {
        MessageV::User { content, .. } => match content {
            MessageContentV::Blocks(bs) => blocks_wf(bs),
            MessageContentV::String(_) => true,
        },
        MessageV::Assistant { content, .. } => blocks_wf(content),
        MessageV::System { subtype, data } => is_object(data) && field_str(data, "type"@) == Some(
            "system"@,
        ) && field_str(data, "subtype"@) == Some(subtype),
        MessageV::Result(r) => not_null(r.total_cost_usd) && not_null(r.usage) && not_null(
            r.structured_output,
        ),
        MessageV::Stream { .. } => true,
        MessageV::ControlRequest { subtype, request, .. } => is_object(request) && field_str(
            request,
            "subtype"@,
        ) == Some(subtype),
        MessageV::ControlResponse { outcome, .. } => match outcome {
            ControlOutcomeV::Success(p) => not_null(p),
            ControlOutcomeV::Error(_) => true,
        },
    }
}

proof fn lemma_fields(fs: Seq<(Seq<char>, Option<JsonV>)>)
    requires
        distinct_keys(fs),
    ensures
        forall|k: int|
            0 <= k < fs.len() ==> #[trigger] field(JsonV::Object(obj_spec(fs)), fs[k].0) == fs[k].1,
{
    assert forall|k: int| 0 <= k < fs.len() implies #[trigger] field(
        JsonV::Object(obj_spec(fs)),
        fs[k].0,
    ) == fs[k].1 by {
        lemma_obj_spec_field(fs, k);
    }
}

/// Every canonical message reads back as itself from the JSON it is written
/// as: decoding after encoding is the identity.
pub proof fn lemma_message_round_trip(m: MessageV)
    requires
        message_wf(m),
    ensures
        message_of(message_json(m)) == Some(m),
{
    lemma_message_literals();
    let fs = message_fields(m);
    match m {
        MessageV::System { .. } => {},
        _ => {
            assert(distinct_keys(fs));
            lemma_fields(fs);
            assert(fs[0].0 == "type"@);
        },
    }
    match m {
        MessageV::User { content, .. } => {
            let b = user_body(content);
            assert(distinct_keys(b));
            lemma_fields(b);
            assert(b[0].0 == "role"@);
            assert(b[1].0 == "content"@);
            assert(fs[1].0 == "message"@);
            assert(fs[2].0 == "session_id"@);
            assert(fs[3].0 == "parent_tool_use_id"@);
            assert(fs[4].0 == "uuid"@);
            match content {
                MessageContentV::Blocks(bs) => {
                    lemma_blocks_round_trip(bs);
                },
                _ => {},
            }
        },
        MessageV::Assistant { content, model, error, .. } => {
            let b = assistant_body(content, model, error);
            assert(distinct_keys(b));
            lemma_fields(b);
            assert(b[0].0 == "model"@);
            assert(b[1].0 == "content"@);
            assert(b[2].0 == "error"@);
            assert(fs[1].0 == "message"@);
            assert(fs[2].0 == "parent_tool_use_id"@);
            lemma_blocks_round_trip(content);
            match error {
                Some(e) => lemma_error_name_round_trip(e),
                None => {},
            }
        },
        MessageV::Result(r) => {
            assert(fs[1].0 == "subtype"@);
            assert(fs[2].0 == "duration_ms"@);
            assert(fs[3].0 == "duration_api_ms"@);
            assert(fs[4].0 == "is_error"@);
            assert(fs[5].0 == "num_turns"@);
            assert(fs[6].0 == "session_id"@);
            assert(fs[7].0 == "total_cost_usd"@);
            assert(fs[8].0 == "usage"@);
            assert(fs[9].0 == "result"@);
            assert(fs[10].0 == "structured_output"@);
            assert(fs[11].0 == "errors"@);
            let j = message_json(m);
            if r.errors.len() > 0 {
                let items = Seq::new(r.errors.len(), |i: int| JsonV::Str(r.errors[i]));
                assert(forall|i: int| 0 <= i < items.len() ==> (#[trigger] items[i]) is Str);
                assert(Seq::new(items.len(), |i: int| items[i]->Str_0) =~= r.errors);
            } else {
                assert(r.errors =~= Seq::<Seq<char>>::empty());
            }
            assert(strings_of(field(j, "errors"@)) == r.errors);
        },
        MessageV::Stream { .. } => {
            assert(fs[1].0 == "uuid"@);
            assert(fs[2].0 == "session_id"@);
            assert(fs[3].0 == "event"@);
            assert(fs[4].0 == "parent_tool_use_id"@);
        },
        MessageV::ControlRequest { .. } => {
            assert(fs[1].0 == "request_id"@);
            assert(fs[2].0 == "request"@);
        },
        MessageV::ControlResponse { request_id, outcome } => {
            let b = response_body(request_id, outcome);
            assert(distinct_keys(b));
            lemma_fields(b);
            assert(b[0].0 == "subtype"@);
            assert(b[1].0 == "request_id"@);
            assert(b[2].0 == "response"@ || b[2].0 == "error"@);
            assert(fs[1].0 == "response"@);
        },
        MessageV::System { .. } => {},
    }
}

fn parse_errors(j: &Json) -> (r: Vec<String>)
    ensures
        strings_view(r@) == strings_of(field(j@, "errors"@)),
{
    let mut out: Vec<String> = Vec::new();
    match j.get("errors") {
        Some(Json::Array(items)) => {
            proof {
                lemma_view_items(items@);
            }
            let ghost vi = view_items(items@);
            let mut i: usize = 0;
            while i < items.len()
                invariant
                    0 <= i <= items.len(),
                    vi == view_items(items@),
                    field(j@, "errors"@) == Some(JsonV::Array(vi)),
                    vi.len() == items@.len(),
                    forall|m: int| 0 <= m < items@.len() ==> #[trigger] vi[m] == items@[m]@,
                    out@.len() == i,
                    forall|m: int| 0 <= m < i ==> (#[trigger] vi[m]) == JsonV::Str(out@[m]@),
                decreases items.len() - i,
            {
                match &items[i] {
                    Json::Str(x) => out.push(x.clone()),
                    _ => {
                        assert(!(vi[i as int] is Str));
                        let none: Vec<String> = Vec::new();
                        assert(strings_view(none@) =~= Seq::<Seq<char>>::empty());
                        return none;
                    },
                }
                i = i + 1;
            }
            assert(forall|m: int| 0 <= m < vi.len() ==> (#[trigger] vi[m]) is Str);
            assert(strings_view(out@) =~= Seq::new(vi.len(), |m: int| vi[m]->Str_0));
            out
        },
        _ => {
            assert(strings_view(out@) =~= Seq::<Seq<char>>::empty());
            out
        },
    }
}

/// Decodes a `user` message.
pub fn parse_user_message(j: &Json) -> (r: Result<Message, ParseError>)
    ensures
        match r {
            Ok(m) => user_of(j@) == Some(m@),
            Err(_) => user_of(j@) is None,
        },
{
    let m = match j.get("message") {
        Some(m) => m,
        None => return Err(parse_error("Missing 'message' field")),
    };
    match m {
        Json::Object(_) => {},
        _ => return Err(parse_error("Missing 'message' field")),
    }
    let content = match m.get("content") {
        Some(Json::Str(s)) => MessageContent::String(s.clone()),
        Some(Json::Array(items)) => match parse_content_blocks(items) {
            Ok(bs) => MessageContent::Blocks(bs),
            Err(e) => return Err(e),
        },
        _ => return Err(parse_error("Invalid content format")),
    };
    Ok(
        Message::User(
            UserMessage {
                content,
                session_id: j.get_str("session_id"),
                uuid: j.get_str("uuid"),
                parent_tool_use_id: j.get_str("parent_tool_use_id"),
            },
        ),
    )
}

/// Decodes an `assistant` message.
pub fn parse_assistant_message(j: &Json) -> (r: Result<Message, ParseError>)
    ensures
        match r {
            Ok(m) => assistant_of(j@) == Some(m@),
            Err(_) => assistant_of(j@) is None,
        },
{
    let m = match j.get("message") {
        Some(m) => m,
        None => return Err(parse_error("Missing 'message' field")),
    };
    match m {
        Json::Object(_) => {},
        _ => return Err(parse_error("Missing 'message' field")),
    }
    let model = match m.get_str("model") {
        Some(x) => x,
        None => return Err(parse_error("Missing 'model' field")),
    };
    let content = match m.get("content") {
        Some(Json::Array(items)) => match parse_content_blocks(items) {
            Ok(bs) => bs,
            Err(e) => return Err(e),
        },
        _ => return Err(parse_error("Missing 'content' array")),
    };
    let error = match m.get_str("error") {
        Some(e) => AssistantMessageError::from_name(&e),
        None => None,
    };
    Ok(
        Message::Assistant(
            AssistantMessage {
                content,
                model,
                parent_tool_use_id: j.get_str("parent_tool_use_id"),
                error,
            },
        ),
    )
}

/// Decodes a `system` message; the whole object is kept.
pub fn parse_system_message(j: &Json) -> (r: Result<Message, ParseError>)
    ensures
        match r {
            Ok(m) => field_str(j@, "subtype"@) matches Some(st) && m@ == (MessageV::System {
                subtype: st,
                data: j@,
            }),
            Err(_) => field_str(j@, "subtype"@) is None,
        },
{
    match j.get_str("subtype") {
        Some(st) => Ok(Message::System(SystemMessage { subtype: st, data: j.deep_clone() })),
        None => Err(parse_error("Missing 'subtype' field")),
    }
}

/// Decodes a `result` message.
pub fn parse_result_message(j: &Json) -> (r: Result<Message, ParseError>)
    ensures
        match r {
            Ok(m) => result_of(j@) == Some(m@),
            Err(_) => result_of(j@) is None,
        },
{
    let subtype = match j.get_str("subtype") {
        Some(x) => x,
        None => return Err(parse_error("Missing 'subtype' field")),
    };
    let duration_ms = match j.get_int("duration_ms") {
        Some(x) => x,
        None => return Err(parse_error("Missing 'duration_ms' field")),
    };
    let duration_api_ms = match j.get_int("duration_api_ms") {
        Some(x) => x,
        None => return Err(parse_error("Missing 'duration_api_ms' field")),
    };
    let is_error = match j.get_bool("is_error") {
        Some(x) => x,
        None => return Err(parse_error("Missing 'is_error' field")),
    };
    let num_turns = match j.get_int("num_turns") {
        Some(x) => x,
        None => return Err(parse_error("Missing 'num_turns' field")),
    };
    let session_id = match j.get_str("session_id") {
        Some(x) => x,
        None => return Err(parse_error("Missing 'session_id' field")),
    };
    let r = ResultMessage {
        subtype,
        duration_ms,
        duration_api_ms,
        is_error,
        num_turns,
        session_id,
        total_cost_usd: j.get_present("total_cost_usd"),
        usage: j.get_present("usage"),
        result: j.get_str("result"),
        structured_output: j.get_present("structured_output"),
        errors: parse_errors(j),
    };
    Ok(Message::Result(r))
}

/// Decodes a `stream_event` message.
pub fn parse_stream_event(j: &Json) -> (r: Result<Message, ParseError>)
    ensures
        match r {
            Ok(m) => stream_of(j@) == Some(m@),
            Err(_) => stream_of(j@) is None,
        },
{
    match (j.get_str("uuid"), j.get_str("session_id"), j.get("event")) {
        (Some(u), Some(sid), Some(ev)) => Ok(
            Message::Stream(
                StreamEvent {
                    uuid: u,
                    session_id: sid,
                    event: ev.deep_clone(),
                    parent_tool_use_id: j.get_str("parent_tool_use_id"),
                },
            ),
        ),
        _ => Err(parse_error("Missing 'uuid', 'session_id' or 'event' field")),
    }
}

/// Decodes a `control_request` message.
pub fn parse_control_request(j: &Json) -> (r: Result<Message, ParseError>)
    ensures
        match r {
            Ok(m) => control_request_of(j@) == Some(m@),
            Err(_) => control_request_of(j@) is None,
        },
{
    match (j.get_str("request_id"), j.get("request")) {
        (Some(id), Some(req)) => match req.get_str("subtype") {
            Some(st) => Ok(
                Message::ControlRequest(
                    SDKControlRequest { request_id: id, subtype: st, request: req.deep_clone() },
                ),
            ),
            None => Err(parse_error("Missing subtype")),
        },
        _ => Err(parse_error("Missing request_id or request data")),
    }
}

/// Decodes a `control_response` message.
pub fn parse_control_response(j: &Json) -> (r: Result<Message, ParseError>)
    ensures
        match r {
            Ok(m) => control_response_of(j@) == Some(m@),
            Err(_) => control_response_of(j@) is None,
        },
{
    let resp = match j.get("response") {
        Some(x) => x,
        None => return Err(parse_error("Missing 'response' field")),
    };
    match (resp.get_str("subtype"), resp.get_str("request_id")) {
        (Some(st), Some(id)) => {
            if st == text("success") {
                Ok(
                    Message::ControlResponse(
                        SDKControlResponse {
                            request_id: id,
                            outcome: ControlOutcome::Success(resp.get_present("response")),
                        },
                    ),
                )
            } else if st == text("error") {
                Ok(
                    Message::ControlResponse(
                        SDKControlResponse {
                            request_id: id,
                            outcome: ControlOutcome::Error(resp.get_str("error")),
                        },
                    ),
                )
            } else {
                Err(parse_error("Unknown control response subtype"))
            }
        },
        _ => Err(parse_error("Missing subtype or request_id")),
    }
}

/// Decodes one protocol message from its JSON object.
pub fn parse_message(j: &Json) -> (r: Result<Message, ParseError>)
    ensures
        match r {
            Ok(m) => message_of(j@) == Some(m@),
            Err(_) => message_of(j@) is None,
        },
{
    match j {
        Json::Object(_) => {},
        _ => return Err(parse_error("Expected JSON object")),
    }
    let t = match j.get_str("type") {
        Some(t) => t,
        None => return Err(parse_error("Missing 'type' field")),
    };
    if t == text("user") {
        parse_user_message(j)
    } else if t == text("assistant") {
        parse_assistant_message(j)
    } else if t == text("system") {
        parse_system_message(j)
    } else if t == text("result") {
        parse_result_message(j)
    } else if t == text("stream_event") {
        parse_stream_event(j)
    } else if t == text("control_request") {
        parse_control_request(j)
    } else if t == text("control_response") {
        parse_control_response(j)
    } else {
        Err(parse_error("Unknown message type"))
    }
}

fn content_to_json(c: &MessageContent) -> (r: Json)
    ensures
        r@ == content_json(c@),
{
    match c {
        MessageContent::String(s) => Json::Str(s.clone()),
        MessageContent::Blocks(bs) => blocks_to_json(bs),
    }
}

fn errors_to_json(es: &Vec<String>) -> (r: Option<Json>)
    ensures
        opt_view(r) == errors_v(strings_view(es@)),
{
    if es.len() == 0 {
        return None;
    }
    let mut out: Vec<Json> = Vec::new();
    let mut i: usize = 0;
    while i < es.len()
        invariant
            0 <= i <= es.len(),
            out@.len() == i,
            forall|m: int| 0 <= m < i ==> #[trigger] out@[m]@ == JsonV::Str(es@[m]@),
        decreases es.len() - i,
    {
        out.push(Json::Str(es[i].clone()));
        i = i + 1;
    }
    proof {
        lemma_view_items(out@);
        assert(view_items(out@) =~= Seq::new(es@.len(), |m: int| JsonV::Str(strings_view(es@)[m])));
    }
    Some(Json::Array(out))
}

impl Message {
    /// The JSON object this message is written as.
    pub fn to_json(&self) -> (r: Json)
        ensures
            r@ == message_json(self@),
    {
        let fields = match self {
            Message::System(m) => return m.data.deep_clone(),
            Message::User(u) => {
                let body = vec![
                    (text("role"), str_json("user")),
                    (text("content"), Some(content_to_json(&u.content))),
                ];
                assert(view_fields(body@) =~= user_body(u.content@));
                vec![
                    (text("type"), str_json("user")),
                    (text("message"), Some(Json::object_of(body))),
                    (text("session_id"), opt_string_json(&u.session_id)),
                    (text("parent_tool_use_id"), opt_string_json(&u.parent_tool_use_id)),
                    (text("uuid"), opt_string_json(&u.uuid)),
                ]
            },
            Message::Assistant(a) => {
                let body = vec![
                    (text("model"), string_json(&a.model)),
                    (text("content"), Some(blocks_to_json(&a.content))),
                    (text("error"), match a.error {
                        Some(e) => Some(Json::Str(e.name())),
                        None => None,
                    }),
                ];
                assert(view_fields(body@) =~= assistant_body(blocks_view(a.content@), a.model@, a.error));
                vec![
                    (text("type"), str_json("assistant")),
                    (text("message"), Some(Json::object_of(body))),
                    (text("parent_tool_use_id"), opt_string_json(&a.parent_tool_use_id)),
                ]
            },
            Message::Result(r) => vec![
                (text("type"), str_json("result")),
                (text("subtype"), string_json(&r.subtype)),
                (text("duration_ms"), Some(Json::Int(r.duration_ms))),
                (text("duration_api_ms"), Some(Json::Int(r.duration_api_ms))),
                (text("is_error"), Some(Json::Bool(r.is_error))),
                (text("num_turns"), Some(Json::Int(r.num_turns))),
                (text("session_id"), string_json(&r.session_id)),
                (text("total_cost_usd"), opt_json(&r.total_cost_usd)),
                (text("usage"), opt_json(&r.usage)),
                (text("result"), opt_string_json(&r.result)),
                (text("structured_output"), opt_json(&r.structured_output)),
                (text("errors"), errors_to_json(&r.errors)),
            ],
            Message::Stream(e) => vec![
                (text("type"), str_json("stream_event")),
                (text("uuid"), string_json(&e.uuid)),
                (text("session_id"), string_json(&e.session_id)),
                (text("event"), Some(e.event.deep_clone())),
                (text("parent_tool_use_id"), opt_string_json(&e.parent_tool_use_id)),
            ],
            Message::ControlRequest(c) => vec![
                (text("type"), str_json("control_request")),
                (text("request_id"), string_json(&c.request_id)),
                (text("request"), Some(c.request.deep_clone())),
            ],
            Message::ControlResponse(c) => {
                let body = match &c.outcome {
                    ControlOutcome::Success(p) => vec![
                        (text("subtype"), str_json("success")),
                        (text("request_id"), string_json(&c.request_id)),
                        (text("response"), opt_json(p)),
                    ],
                    ControlOutcome::Error(e) => vec![
                        (text("subtype"), str_json("error")),
                        (text("request_id"), string_json(&c.request_id)),
                        (text("error"), opt_string_json(e)),
                    ],
                };
                assert(view_fields(body@) =~= response_body(c.request_id@, c.outcome@));
                vec![
                    (text("type"), str_json("control_response")),
                    (text("response"), Some(Json::object_of(body))),
                ]
            },
        };
        assert(view_fields(fields@) =~= message_fields(self@));
        Json::object_of(fields)
    }
}

proof fn lemma_block_of_wf(j: JsonV)
    requires
        block_of(j) is Some,
    ensures
        block_wf(block_of(j)->0),
{
}

proof fn lemma_blocks_of_wf(items: Seq<JsonV>)
    requires
        blocks_of(items) is Some,
    ensures
        blocks_wf(blocks_of(items)->0),
{
    let bs = blocks_of(items)->0;
    assert forall|i: int| 0 <= i < bs.len() implies #[trigger] block_wf(bs[i]) by {
        assert(block_of(items[i]) is Some);
        lemma_block_of_wf(items[i]);
    }
}

/// What decoding gives is canonical.
pub proof fn lemma_decoded_wf(j: JsonV)
    requires
        message_of(j) is Some,
    ensures
        message_wf(message_of(j)->0),
{
    let m = message_of(j)->0;
    match m {
        MessageV::User { content, .. } => {
            match field(j, "message"@) {
                Some(b) => match field(b, "content"@) {
                    Some(JsonV::Array(items)) => {
                        if blocks_of(items) is Some {
                            lemma_blocks_of_wf(items);
                        }
                    },
                    _ => {},
                },
                None => {},
            }
        },
        MessageV::Assistant { .. } => {
            match field(j, "message"@) {
                Some(b) => match field(b, "content"@) {
                    Some(JsonV::Array(items)) => {
                        if blocks_of(items) is Some {
                            lemma_blocks_of_wf(items);
                        }
                    },
                    _ => {},
                },
                None => {},
            }
        },
        _ => {},
    }
}

/// Encoding what was decoded loses nothing that decoding reads: decoding
/// the re-encoded message gives the same message again.
pub proof fn lemma_reencode_keeps_fields(j: JsonV)
    requires
        message_of(j) is Some,
    ensures
        message_of(message_json(message_of(j)->0)) == message_of(j),
{
    lemma_decoded_wf(j);
    lemma_message_round_trip(message_of(j)->0);
}

} // verus!

use vstd::prelude::*;

use crate::error::Error;
use crate::json::{
    Json, JsonV, obj_spec, view_fields, view_items, lemma_view_items, opt_view, text,
};
use crate::message::{
    ControlOutcome, ControlOutcomeV, Message, MessageV, SDKControlRequest, SDKControlResponse,
    opt_str, opt_str_v, str_v,
};

verus! {

// ---------------------------------------------------------------------------
// Request identifiers
// ---------------------------------------------------------------------------

pub open spec fn digit_char(d: nat) -> char {
    if d == 0 { '0' }
    else if d == 1 { '1' }
    else if d == 2 { '2' }
    else if d == 3 { '3' }
    else if d == 4 { '4' }
    else if d == 5 { '5' }
    else if d == 6 { '6' }
    else if d == 7 { '7' }
    else if d == 8 { '8' }
    else { '9' }
}

/// The decimal digits of `n`, most significant first, without leading zeros.
pub open spec fn dec(n: nat) -> Seq<char>
    decreases n,
{
    if n < 10 {
        seq![digit_char(n)]
    } else {
        dec(n / 10).push(digit_char(n % 10))
    }
}

pub open spec fn is_digit(c: char) -> bool {
    '0' <= c <= '9'
}

proof fn lemma_digit_char(d: nat)
    requires
        d < 10,
    ensures
        is_digit(digit_char(d)),
        forall|e: nat| e < 10 && digit_char(e) == digit_char(d) ==> e == d,
{
}

proof fn lemma_dec_digits(n: nat)
    ensures
        dec(n).len() >= 1,
        forall|i: int| 0 <= i < dec(n).len() ==> is_digit(#[trigger] dec(n)[i]),
    decreases n,
{
    lemma_digit_char(n % 10);
    if n >= 10 {
        lemma_dec_digits(n / 10);
    }
}

/// Distinct numbers have distinct decimal forms.
pub proof fn lemma_dec_injective(a: nat, b: nat)
    requires
        dec(a) == dec(b),
    ensures
        a == b,
    decreases a,
{
    lemma_dec_digits(a);
    lemma_dec_digits(b);
    lemma_digit_char(a % 10);
    lemma_digit_char(b % 10);
    if a < 10 && b < 10 {
        assert(dec(a)[0] == digit_char(a));
        assert(dec(b)[0] == digit_char(b));
        assert(dec(a)[0] == dec(b)[0]);
        assert(a % 10 == a && b % 10 == b);
    } else if a >= 10 && b >= 10 {
        lemma_dec_digits(a / 10);
        lemma_dec_digits(b / 10);
        let la = dec(a).len() - 1;
        assert(dec(a)[la] == digit_char(a % 10));
        assert(dec(b)[la] == digit_char(b % 10));
        assert(a % 10 == b % 10);
        assert(dec(a / 10) =~= dec(a).subrange(0, la));
        assert(dec(b / 10) =~= dec(b).subrange(0, la));
        lemma_dec_injective(a / 10, b / 10);
        assert(a == 10 * (a / 10) + a % 10);
        assert(b == 10 * (b / 10) + b % 10);
    } else if a < 10 {
        lemma_dec_digits(b / 10);
        assert(dec(a).len() != dec(b).len());
    } else {
        lemma_dec_digits(a / 10);
        assert(dec(a).len() != dec(b).len());
    }
}

fn digit_text(d: u64) -> (r: &'static str)
    requires
        d < 10,
    ensures
        r@ == seq![digit_char(d as nat)],
{
    proof {
        reveal_strlit("0");
        reveal_strlit("1");
        reveal_strlit("2");
        reveal_strlit("3");
        reveal_strlit("4");
        reveal_strlit("5");
        reveal_strlit("6");
        reveal_strlit("7");
        reveal_strlit("8");
        reveal_strlit("9");
    }
    let r = if d == 0 { "0" }
    else if d == 1 { "1" }
    else if d == 2 { "2" }
    else if d == 3 { "3" }
    else if d == 4 { "4" }
    else if d == 5 { "5" }
    else if d == 6 { "6" }
    else if d == 7 { "7" }
    else if d == 8 { "8" }
    else { "9" };
    assert(r@ =~= seq![digit_char(d as nat)]);
    r
}

/// Appends the decimal form of `n` to `out`.
pub fn push_decimal(out: &mut String, n: u64)
    ensures
        final(out)@ == old(out)@ + dec(n as nat),
    decreases n,
{
    if n >= 10 {
        push_decimal(out, n / 10);
    }
    out.append(digit_text(n % 10));
    proof {
        if n >= 10 {
            assert(dec(n as nat) == dec((n / 10) as nat).push(digit_char((n % 10) as nat)));
        }
    }
    assert(out@ =~= old(out)@ + dec(n as nat));
}

/// The identifier of the `n`-th control request: `req_<n>_<suffix>`.
pub open spec fn request_id_spec(n: nat, suffix: Seq<char>) -> Seq<char> {
    "req_"@ + dec(n) + "_"@ + suffix
}

pub fn request_id(n: u64, suffix: &str) -> (r: String)
    ensures
        r@ == request_id_spec(n as nat, suffix@),
{
    let mut s = String::from_str("req_");
    push_decimal(&mut s, n);
    s.append("_");
    s.append(suffix);
    assert(s@ =~= request_id_spec(n as nat, suffix@));
    s
}

/// Identifiers made from distinct counters differ, whatever their suffixes.
pub proof fn lemma_request_ids_distinct(a: nat, b: nat, x: Seq<char>, y: Seq<char>)
    requires
        a != b,
    ensures
        request_id_spec(a, x) != request_id_spec(b, y),
{
    reveal_strlit("req_");
    reveal_strlit("_");
    lemma_dec_digits(a);
    lemma_dec_digits(b);
    let s = request_id_spec(a, x);
    let t = request_id_spec(b, y);
    let la = dec(a).len() as int;
    let lb = dec(b).len() as int;
    if s == t {
        if la == lb {
            assert(dec(a) =~= s.subrange(4, 4 + la));
            assert(dec(b) =~= t.subrange(4, 4 + lb));
            lemma_dec_injective(a, b);
        } else if la < lb {
            assert(s[4 + la] == '_');
            assert(t[4 + la] == dec(b)[la]);
        } else {
            assert(t[4 + lb] == '_');
            assert(s[4 + lb] == dec(a)[lb]);
        }
    }
}

// ---------------------------------------------------------------------------
// Pending-request table
// ---------------------------------------------------------------------------

/// The requests still waiting for their response: each identifier with the
/// single-use sink that its response completes.
pub struct PendingRequests<T> {
    entries: Vec<(String, T)>,
}

/// The first index at or after `i` whose identifier is `id`, or -1.
pub open spec fn find_from<T>(s: Seq<(Seq<char>, T)>, id: Seq<char>, i: int) -> int
    decreases s.len() - i,
{
    if i < 0 || i >= s.len() {
        -1
    } else if s[i].0 == id {
        i
    } else {
        find_from(s, id, i + 1)
    }
}

pub open spec fn has_id<T>(s: Seq<(Seq<char>, T)>, id: Seq<char>) -> bool {
    exists|i: int| 0 <= i < s.len() && s[i].0 == id
}

pub open spec fn ids_distinct<T>(s: Seq<(Seq<char>, T)>) -> bool {
    forall|i: int, j: int| 0 <= i < s.len() && 0 <= j < s.len() && i != j ==> s[i].0 != s[j].0
}

/// Taking `id` out of a table: the table without its entry, and its sink;
/// the table unchanged and nothing when `id` is not pending.
pub open spec fn take_spec<T>(s: Seq<(Seq<char>, T)>, id: Seq<char>) -> (Seq<(Seq<char>, T)>, Option<T>) {
    let i = find_from(s, id, 0);
    if i < 0 {
        (s, None)
    } else {
        (s.remove(i), Some(s[i].1))
    }
}

proof fn lemma_find<T>(s: Seq<(Seq<char>, T)>, id: Seq<char>, i: int)
    requires
        0 <= i <= s.len(),
    ensures
        find_from(s, id, i) == -1 || (i <= find_from(s, id, i) < s.len() && s[find_from(s, id, i)].0
            == id && forall|k: int| i <= k < find_from(s, id, i) ==> s[k].0 != id),
        find_from(s, id, i) == -1 <==> forall|k: int| i <= k < s.len() ==> s[k].0 != id,
    decreases s.len() - i,
{
    if i < s.len() {
        lemma_find(s, id, i + 1);
    }
}

pub proof fn lemma_take_spec<T>(s: Seq<(Seq<char>, T)>, id: Seq<char>)
    requires
        ids_distinct(s),
    ensures
        take_spec(s, id).1 is Some <==> has_id(s, id),
        !has_id(take_spec(s, id).0, id),
        ids_distinct(take_spec(s, id).0),
        forall|x: Seq<char>| x != id ==> (has_id(take_spec(s, id).0, x) <==> has_id(s, x)),
{
    lemma_find(s, id, 0);
    let i = find_from(s, id, 0);
    if i >= 0 {
        let r = s.remove(i);
        assert forall|k: int| 0 <= k < r.len() implies r[k].0 != id by {
            if k < i {
                assert(r[k] == s[k]);
            } else {
                assert(r[k] == s[k + 1]);
            }
        }
        assert forall|x: Seq<char>| x != id && has_id(s, x) implies has_id(r, x) by {
            let k = choose|k: int| 0 <= k < s.len() && s[k].0 == x;
            if k < i {
                assert(r[k] == s[k]);
            } else {
                assert(k != i);
                assert(r[k - 1] == s[k]);
            }
        }
        assert forall|x: Seq<char>| has_id(r, x) implies has_id(s, x) by {
            let k = choose|k: int| 0 <= k < r.len() && r[k].0 == x;
            if k < i {
                assert(r[k] == s[k]);
            } else {
                assert(r[k] == s[k + 1]);
            }
        }
        assert forall|a: int, b: int| 0 <= a < r.len() && 0 <= b < r.len() && a != b implies r[a].0 != r[b].0 by {
            let sa = if a < i { a } else { a + 1 };
            let sb = if b < i { b } else { b + 1 };
            assert(r[a] == s[sa]);
            assert(r[b] == s[sb]);
        }
    }
}

/// However a pending request ends (its response, its timeout, or the engine
/// shutting down), its sink is handed out at most once: after it was taken,
/// taking the same identifier again yields nothing.
pub proof fn lemma_sink_taken_at_most_once<T>(s: Seq<(Seq<char>, T)>, id: Seq<char>)
    requires
        ids_distinct(s),
    ensures
        take_spec(take_spec(s, id).0, id).1 is None,
{
    lemma_take_spec(s, id);
    lemma_take_spec(take_spec(s, id).0, id);
}

impl<T> PendingRequests<T> {
    pub closed spec fn view(&self) -> Seq<(Seq<char>, T)> {
        Seq::new(self.entries@.len(), |i: int| (self.entries@[i].0@, self.entries@[i].1))
    }

    /// No identifier is pending twice.
    pub open spec fn wf(&self) -> bool {
        ids_distinct(self@)
    }

    pub fn new() -> (r: Self)
        ensures
            r@ == Seq::<(Seq<char>, T)>::empty(),
            r.wf(),
    {
        let r = PendingRequests { entries: Vec::new() };
        assert(r@ =~= Seq::<(Seq<char>, T)>::empty());
        r
    }

    pub fn len(&self) -> (r: usize)
        ensures
            r == self@.len(),
    {
        self.entries.len()
    }

    fn index_of(&self, id: &str) -> (r: Option<usize>)
        ensures
            match r {
                Some(i) => find_from(self@, id@, 0) == i as int,
                None => find_from(self@, id@, 0) == -1,
            },
    {
        let k = String::from_str(id);
        let mut i: usize = 0;
        while i < self.entries.len()
            invariant
                0 <= i <= self.entries@.len(),
                k@ == id@,
                find_from(self@, id@, 0) == find_from(self@, id@, i as int),
            decreases self.entries.len() - i,
        {
            if self.entries[i].0 == k {
                assert(self@[i as int].0 == id@);
                return Some(i);
            }
            assert(self@[i as int].0 != id@);
            i = i + 1;
        }
        None
    }

    /// Whether `id` is pending.
    pub fn contains(&self, id: &str) -> (r: bool)
        ensures
            r == has_id(self@, id@),
    {
        proof {
            lemma_find(self@, id@, 0);
        }
        self.index_of(id).is_some()
    }

    /// Records `sink` under `id`; a pending `id` is refused and the sink
    /// handed back.
    pub fn register(&mut self, id: String, sink: T) -> (r: Result<(), T>)
        requires
            old(self).wf(),
        ensures
            final(self).wf(),
            match r {
                Ok(()) => !has_id(old(self)@, id@) && final(self)@ == old(self)@.push((id@, sink)),
                Err(s) => has_id(old(self)@, id@) && s == sink && final(self)@ == old(self)@,
            },
    {
        if self.contains(id.as_str()) {
            return Err(sink);
        }
        let ghost before = self@;
        let ghost idv = id@;
        self.entries.push((id, sink));
        assert(self@ =~= before.push((idv, sink)));
        Ok(())
    }

    /// Takes the sink pending under `id` out of the table.
    pub fn take(&mut self, id: &str) -> (r: Option<T>)
        requires
            old(self).wf(),
        ensures
            final(self).wf(),
            (final(self)@, r) == take_spec(old(self)@, id@),
            r is Some <==> has_id(old(self)@, id@),
            !has_id(final(self)@, id@),
    {
        proof {
            lemma_take_spec(self@, id@);
            lemma_find(self@, id@, 0);
        }
        match self.index_of(id) {
            Some(i) => {
                let ghost before = self@;
                let (_, sink) = self.entries.remove(i);
                assert(self@ =~= before.remove(i as int));
                Some(sink)
            },
            None => None,
        }
    }

    /// Empties the table, handing out every pending sink in order of
    /// registration.
    pub fn drain(&mut self) -> (r: Vec<T>)
        ensures
            final(self)@ == Seq::<(Seq<char>, T)>::empty(),
            final(self).wf(),
            r@ == Seq::new(old(self)@.len(), |i: int| old(self)@[i].1),
    {
        let ghost before = self@;
        let mut out: Vec<T> = Vec::new();
        while self.entries.len() > 0
            invariant
                out@.len() <= before.len(),
                self@ == before.subrange(out@.len() as int, before.len() as int),
                forall|i: int| 0 <= i < out@.len() ==> #[trigger] out@[i] == before[i].1,
            decreases self.entries.len(),
        {
            let ghost cur = self@;
            let (_, sink) = self.entries.remove(0);
            assert(sink == cur[0].1);
            assert(self@ =~= cur.subrange(1, cur.len() as int));
            out.push(sink);
        }
        assert(self@ =~= Seq::<(Seq<char>, T)>::empty());
        assert(out@ =~= Seq::new(before.len(), |i: int| before[i].1));
        out
    }
}

// ---------------------------------------------------------------------------
// Outbound lines
// ---------------------------------------------------------------------------

/// A control request the bridge sends to the CLI.
pub enum SDKControlRequestType {
    Interrupt,
    Initialize { hooks: Json },
    SetPermissionMode { mode: String },
    SetModel { model: Option<String> },
    RewindFiles { user_message_id: String },
    HookCallback { callback_id: String, input: Json, tool_use_id: Option<String> },
    McpMessage { server_name: String, message: Json },
}

/// The `(key, value)` pairs of a request object; `set_model` writes `null`
/// for no model.
pub open spec fn request_fields(r: SDKControlRequestType) -> Seq<(Seq<char>, Option<JsonV>)> {
    match r {
        SDKControlRequestType::Interrupt => seq![("subtype"@, str_v("interrupt"@))],
        SDKControlRequestType::Initialize { hooks } => seq![
            ("subtype"@, str_v("initialize"@)),
            ("hooks"@, Some(hooks@)),
        ],
        SDKControlRequestType::SetPermissionMode { mode } => seq![
            ("subtype"@, str_v("set_permission_mode"@)),
            ("mode"@, str_v(mode@)),
        ],
        SDKControlRequestType::SetModel { model } => seq![
            ("subtype"@, str_v("set_model"@)),
            ("model"@, match model {
                Some(m) => str_v(m@),
                None => Some(JsonV::Null),
            }),
        ],
        SDKControlRequestType::RewindFiles { user_message_id } => seq![
            ("subtype"@, str_v("rewind_files"@)),
            ("user_message_id"@, str_v(user_message_id@)),
        ],
        SDKControlRequestType::HookCallback { callback_id, input, tool_use_id } => seq![
            ("subtype"@, str_v("hook_callback"@)),
            ("callback_id"@, str_v(callback_id@)),
            ("input"@, Some(input@)),
            ("tool_use_id"@, opt_str_v(opt_str(tool_use_id))),
        ],
        SDKControlRequestType::McpMessage { server_name, message } => seq![
            ("subtype"@, str_v("mcp_message"@)),
            ("server_name"@, str_v(server_name@)),
            ("message"@, Some(message@)),
        ],
    }
}

pub open spec fn request_body(r: SDKControlRequestType) -> JsonV {
    JsonV::Object(obj_spec(request_fields(r)))
}

/// `{"type":"control_request","request_id":id,"request":body}`.
pub open spec fn request_envelope(id: Seq<char>, body: JsonV) -> JsonV {
    JsonV::Object(
        obj_spec(
            seq![
                ("type"@, str_v("control_request"@)),
                ("request_id"@, str_v(id)),
                ("request"@, Some(body)),
            ],
        ),
    )
}

/// `{"type":"user","message":{"role":"user","content":content},
/// "parent_tool_use_id":parent or null,"session_id":session}`.
pub open spec fn user_line(content: Seq<char>, session_id: Seq<char>, parent: Option<Seq<char>>) -> JsonV {
    JsonV::Object(obj_spec(user_line_fields(content, session_id, parent)))
}

pub open spec fn user_body_fields(content: Seq<char>) -> Seq<(Seq<char>, Option<JsonV>)> {
    seq![("role"@, str_v("user"@)), ("content"@, str_v(content))]
}

pub open spec fn user_line_fields(content: Seq<char>, session_id: Seq<char>, parent: Option<Seq<char>>) -> Seq<(Seq<char>, Option<JsonV>)> {
    seq![
        ("type"@, str_v("user"@)),
        ("message"@, Some(JsonV::Object(obj_spec(user_body_fields(content))))),
        ("parent_tool_use_id"@, match parent {
            Some(p) => str_v(p),
            None => Some(JsonV::Null),
        }),
        ("session_id"@, str_v(session_id)),
    ]
}

/// The reply to a control request of the CLI: a success carrying the
/// handler's value, or an error carrying its message.
pub open spec fn response_line(id: Seq<char>, reply: Result<JsonV, Seq<char>>) -> JsonV {
    let body = match reply {
        Ok(v) => seq![
            ("subtype"@, str_v("success"@)),
            ("request_id"@, str_v(id)),
            ("response"@, Some(v)),
        ],
        Err(e) => seq![
            ("subtype"@, str_v("error"@)),
            ("request_id"@, str_v(id)),
            ("error"@, str_v(e)),
        ],
    };
    JsonV::Object(
        obj_spec(
            seq![("type"@, str_v("control_response"@)), ("response"@, Some(JsonV::Object(obj_spec(body))))],
        ),
    )
}

fn str_entry(k: &str, v: &str) -> (r: (String, Option<Json>))
    ensures
        r.0@ == k@,
        opt_view(r.1) == str_v(v@),
{
    (text(k), Some(Json::Str(text(v))))
}

fn string_entry(k: &str, v: &String) -> (r: (String, Option<Json>))
    ensures
        r.0@ == k@,
        opt_view(r.1) == str_v(v@),
{
    (text(k), Some(Json::Str(v.clone())))
}

impl SDKControlRequestType {
    /// The request object.
    pub fn to_json(&self) -> (r: Json)
        ensures
            r@ == request_body(*self),
    {
        let fields = match self {
            SDKControlRequestType::Interrupt => vec![str_entry("subtype", "interrupt")],
            SDKControlRequestType::Initialize { hooks } => vec![
                str_entry("subtype", "initialize"),
                (text("hooks"), Some(hooks.deep_clone())),
            ],
            SDKControlRequestType::SetPermissionMode { mode } => vec![
                str_entry("subtype", "set_permission_mode"),
                string_entry("mode", mode),
            ],
            SDKControlRequestType::SetModel { model } => vec![
                str_entry("subtype", "set_model"),
                match model {
                    Some(m) => string_entry("model", m),
                    None => (text("model"), Some(Json::Null)),
                },
            ],
            SDKControlRequestType::RewindFiles { user_message_id } => vec![
                str_entry("subtype", "rewind_files"),
                string_entry("user_message_id", user_message_id),
            ],
            SDKControlRequestType::HookCallback { callback_id, input, tool_use_id } => vec![
                str_entry("subtype", "hook_callback"),
                string_entry("callback_id", callback_id),
                (text("input"), Some(input.deep_clone())),
                match tool_use_id {
                    Some(t) => string_entry("tool_use_id", t),
                    None => (text("tool_use_id"), None),
                },
            ],
            SDKControlRequestType::McpMessage { server_name, message } => vec![
                str_entry("subtype", "mcp_message"),
                string_entry("server_name", server_name),
                (text("message"), Some(message.deep_clone())),
            ],
        };
        assert(view_fields(fields@) =~= request_fields(*self));
        Json::object_of(fields)
    }
}

/// The envelope of a control request.
pub fn request_envelope_json(id: &String, body: Json) -> (r: Json)
    ensures
        r@ == request_envelope(id@, body@),
{
    let fields = vec![
        str_entry("type", "control_request"),
        string_entry("request_id", id),
        (text("request"), Some(body)),
    ];
    assert(view_fields(fields@) =~= seq![
        ("type"@, str_v("control_request"@)),
        ("request_id"@, str_v(id@)),
        ("request"@, Some(body@)),
    ]);
    Json::object_of(fields)
}

/// The line that carries a user message to the CLI.
pub fn user_message_json(content: &String, session_id: &String, parent: &Option<String>) -> (r: Json)
    ensures
        r@ == user_line(content@, session_id@, opt_str(*parent)),
{
    let body = vec![str_entry("role", "user"), string_entry("content", content)];
    assert(view_fields(body@) =~= user_body_fields(content@));
    let fields = vec![
        str_entry("type", "user"),
        (text("message"), Some(Json::object_of(body))),
        match parent {
            Some(p) => string_entry("parent_tool_use_id", p),
            None => (text("parent_tool_use_id"), Some(Json::Null)),
        },
        string_entry("session_id", session_id),
    ];
    assert(view_fields(fields@) =~= user_line_fields(content@, session_id@, opt_str(*parent)));
    let r = Json::object_of(fields);
    assert(r@ == user_line(content@, session_id@, opt_str(*parent)));
    r
}

pub open spec fn reply_view(reply: Result<Json, String>) -> Result<JsonV, Seq<char>> {
    match reply {
        Ok(v) => Ok(v@),
        Err(e) => Err(e@),
    }
}

/// The reply line to the CLI's control request `id`.
pub fn control_response_json(id: &String, reply: Result<Json, String>) -> (r: Json)
    ensures
        r@ == response_line(id@, reply_view(reply)),
{
    let ghost rv = reply_view(reply);
    let body = match reply {
        Ok(v) => vec![
            str_entry("subtype", "success"),
            string_entry("request_id", id),
            (text("response"), Some(v)),
        ],
        Err(e) => vec![
            str_entry("subtype", "error"),
            string_entry("request_id", id),
            string_entry("error", &e),
        ],
    };
    let ghost bv = match rv {
        Ok(v) => seq![
            ("subtype"@, str_v("success"@)),
            ("request_id"@, str_v(id@)),
            ("response"@, Some(v)),
        ],
        Err(e) => seq![
            ("subtype"@, str_v("error"@)),
            ("request_id"@, str_v(id@)),
            ("error"@, str_v(e)),
        ],
    };
    assert(view_fields(body@) =~= bv);
    let fields = vec![
        str_entry("type", "control_response"),
        (text("response"), Some(Json::object_of(body))),
    ];
    assert(view_fields(fields@) =~= seq![
        ("type"@, str_v("control_response"@)),
        ("response"@, Some(JsonV::Object(obj_spec(bv)))),
    ]);
    Json::object_of(fields)
}

// ---------------------------------------------------------------------------
// The engine
// ---------------------------------------------------------------------------

/// A command for the engine, in the order the session issues them.
pub enum Command<T> {
    /// A line given whole.
    SendInputMessage(Json),
    /// A user turn.
    SendUserMessage { content: String, session_id: String, parent_tool_use_id: Option<String> },
    /// A control request; `suffix` makes its identifier unique across
    /// processes, `sink` receives its response.
    Request { request: SDKControlRequestType, suffix: String, sink: T },
}

impl<T> Command<T> {
    /// The line this command writes when the engine's counter is `counter`.
    pub open spec fn line(&self, counter: nat) -> JsonV {
        match self {
            Command::SendInputMessage(j) => j@,
            Command::SendUserMessage { content, session_id, parent_tool_use_id } => user_line(
                content@,
                session_id@,
                opt_str(*parent_tool_use_id),
            ),
            Command::Request { request, suffix, .. } => request_envelope(
                request_id_spec(counter + 1, suffix@),
                request_body(*request),
            ),
        }
    }

    /// How far this command moves the request counter.
    pub open spec fn bump(&self) -> nat {
        if self is Request {
            1
        } else {
            0
        }
    }
}

pub open spec fn bumps<T>(cs: Seq<Command<T>>) -> nat
    decreases cs.len(),
{
    if cs.len() == 0 {
        0
    } else {
        bumps(cs.drop_last()) + cs.last().bump()
    }
}

/// The lines that `cs` write, in order, from counter `counter`.
pub open spec fn lines<T>(cs: Seq<Command<T>>, counter: nat) -> Seq<JsonV>
    decreases cs.len(),
{
    if cs.len() == 0 {
        Seq::empty()
    } else {
        lines(cs.drop_last(), counter).push(cs.last().line(counter + bumps(cs.drop_last())))
    }
}

proof fn lemma_bumps_bound<T>(cs: Seq<Command<T>>)
    ensures
        bumps(cs) <= cs.len(),
    decreases cs.len(),
{
    if cs.len() > 0 {
        lemma_bumps_bound(cs.drop_last());
    }
}

/// Every pending identifier was made from a counter value already used.
pub open spec fn ids_issued<T>(s: Seq<(Seq<char>, T)>, counter: nat) -> bool {
    forall|i: int|
        0 <= i < s.len() ==> exists|c: nat, x: Seq<char>|
            1 <= c <= counter && #[trigger] s[i].0 == request_id_spec(c, x)
}

proof fn lemma_take_keeps_issued<T>(s: Seq<(Seq<char>, T)>, id: Seq<char>, counter: nat)
    requires
        ids_issued(s, counter),
    ensures
        ids_issued(take_spec(s, id).0, counter),
{
    lemma_find(s, id, 0);
    let i = find_from(s, id, 0);
    if i >= 0 {
        let r = s.remove(i);
        assert forall|k: int| 0 <= k < r.len() implies exists|c: nat, x: Seq<char>|
            1 <= c <= counter && #[trigger] r[k].0 == request_id_spec(c, x) by {
            let sk = if k < i { k } else { k + 1 };
            assert(r[k] == s[sk]);
            let (c, x) = choose|c: nat, x: Seq<char>|
                1 <= c <= counter && #[trigger] s[sk].0 == request_id_spec(c, x);
            assert(r[k].0 == request_id_spec(c, x));
        }
    }
}

/// What the engine does with one inbound message.
pub enum Dispatch<T> {
    /// A response to a pending request: its sink and what it resolves to.
    Deliver { sink: T, result: Result<Json, Error> },
    /// A response that matches no pending request.
    Unmatched { request_id: String },
    /// A request of the CLI, for a registered handler.
    Handle(SDKControlRequest),
    /// Any other message, for the subscribers.
    Publish(Message),
}

/// What a response resolves its request to: the payload (an empty object
/// when there is none), or the error it carries.
pub open spec fn outcome_result(o: ControlOutcomeV) -> Result<JsonV, Seq<char>> {
    match o {
        ControlOutcomeV::Success(Some(p)) => Ok(p),
        ControlOutcomeV::Success(None) => Ok(JsonV::Object(Seq::empty())),
        ControlOutcomeV::Error(Some(e)) => Err(e),
        ControlOutcomeV::Error(None) => Err("Unknown error"@),
    }
}

pub open spec fn result_view(r: Result<Json, Error>) -> Result<JsonV, Seq<char>> {
    match r {
        Ok(v) => Ok(v@),
        Err(Error::ControlProtocol(m)) => Err(m@),
        Err(_) => Err(Seq::empty()),
    }
}

/// Turns a response outcome into what its caller receives.
pub fn resolve_outcome(o: ControlOutcome) -> (r: Result<Json, Error>)
    ensures
        result_view(r) == outcome_result(o@),
        r is Err ==> r matches Err(Error::ControlProtocol(_)),
{
    match o {
        ControlOutcome::Success(Some(p)) => Ok(p),
        ControlOutcome::Success(None) => {
            let empty: Vec<(String, Json)> = Vec::new();
            let r = Json::Object(empty);
            proof {
                crate::json::lemma_view_entries(empty@);
                assert(r@ == JsonV::Object(Seq::empty()));
            }
            Ok(r)
        },
        ControlOutcome::Error(Some(e)) => Err(Error::ControlProtocol(e)),
        ControlOutcome::Error(None) => Err(Error::ControlProtocol(text("Unknown error"))),
    }
}

/// The control engine: the one writer towards the CLI, and the table of
/// requests waiting for their response.
pub struct ControlEngine<T> {
    counter: u64,
    pending: PendingRequests<T>,
    outbox: Vec<Json>,
}

impl<T> ControlEngine<T> {
    /// How many control requests were issued.
    pub closed spec fn counter(&self) -> nat {
        self.counter as nat
    }

    /// The pending requests, oldest first.
    pub closed spec fn pending(&self) -> Seq<(Seq<char>, T)> {
        self.pending@
    }

    /// The lines written and not yet handed to the transport, oldest first.
    pub closed spec fn outbox(&self) -> Seq<JsonV> {
        view_items(self.outbox@)
    }

    pub closed spec fn wf(&self) -> bool {
        &&& self.pending.wf()
        &&& ids_issued(self.pending@, self.counter as nat)
    }

    pub fn new() -> (r: Self)
        ensures
            r.wf(),
            r.counter() == 0,
            r.pending() == Seq::<(Seq<char>, T)>::empty(),
            r.outbox() == Seq::<JsonV>::empty(),
    {
        let r = ControlEngine { counter: 0, pending: PendingRequests::new(), outbox: Vec::new() };
        proof {
            lemma_view_items(r.outbox@);
            assert(view_items(r.outbox@) =~= Seq::<JsonV>::empty());
        }
        r
    }

    pub fn counter_value(&self) -> (r: u64)
        ensures
            r as nat == self.counter(),
    {
        self.counter
    }

    /// Whether a request with this identifier is waiting for its response.
    pub fn is_pending(&self, id: &str) -> (r: bool)
        ensures
            r == has_id(self.pending(), id@),
    {
        self.pending.contains(id)
    }

    /// Writes the line of one command. A control request gets the next
    /// identifier and its sink is recorded under it.
    pub fn submit(&mut self, cmd: Command<T>) -> (r: Option<String>)
        requires
            old(self).wf(),
            old(self).counter() < u64::MAX,
        ensures
            final(self).wf(),
            final(self).outbox() == old(self).outbox().push(cmd.line(old(self).counter())),
            final(self).counter() == old(self).counter() + cmd.bump(),
            match cmd {
                Command::Request { suffix, sink, .. } => r matches Some(id) && id@ == request_id_spec(
                    old(self).counter() + 1,
                    suffix@,
                ) && final(self).pending() == old(self).pending().push((id@, sink)),
                _ => r is None && final(self).pending() == old(self).pending(),
            },
    {
        let ghost old_outbox = self.outbox@;
        let ghost c0 = self.counter as nat;
        let ghost line = cmd.line(c0);
        proof {
            lemma_view_items(old_outbox);
        }
        let r = match cmd {
            Command::SendInputMessage(j) => {
                self.outbox.push(j);
                None
            },
            Command::SendUserMessage { content, session_id, parent_tool_use_id } => {
                self.outbox.push(user_message_json(&content, &session_id, &parent_tool_use_id));
                None
            },
            Command::Request { request, suffix, sink } => {
                let n = self.counter + 1;
                let id = request_id(n, suffix.as_str());
                let ghost before = self.pending@;
                proof {
                    assert forall|i: int| 0 <= i < before.len() implies before[i].0 != id@ by {
                        let (c, x) = choose|c: nat, x: Seq<char>|
                            1 <= c <= c0 && #[trigger] before[i].0 == request_id_spec(c, x);
                        lemma_request_ids_distinct(c, n as nat, x, suffix@);
                    }
                }
                match self.pending.register(id.clone(), sink) {
                    Ok(()) => {},
                    Err(_) => {
                        proof {
                            assert(false);
                        }
                    },
                }
                self.counter = n;
                let body = request.to_json();
                self.outbox.push(request_envelope_json(&id, body));
                proof {
                    let after = self.pending@;
                    assert forall|i: int| 0 <= i < after.len() implies exists|c: nat, x: Seq<char>|
                        1 <= c <= n && #[trigger] after[i].0 == request_id_spec(c, x) by {
                        if i < before.len() {
                            assert(after[i] == before[i]);
                            let (c, x) = choose|c: nat, x: Seq<char>|
                                1 <= c <= c0 && #[trigger] before[i].0 == request_id_spec(c, x);
                            assert(after[i].0 == request_id_spec(c, x));
                        } else {
                            assert(after[i].0 == request_id_spec(n as nat, suffix@));
                        }
                    }
                }
                Some(id)
            },
        };
        proof {
            lemma_view_items(self.outbox@);
            assert(view_items(self.outbox@) =~= view_items(old_outbox).push(line));
        }
        r
    }

    /// Writes the lines of `cmds` in their order: the outbox grows by exactly
    /// those lines, in the order the commands were given.
    pub fn submit_all(&mut self, cmds: Vec<Command<T>>) -> (r: Vec<Option<String>>)
        requires
            old(self).wf(),
            old(self).counter() + cmds@.len() <= u64::MAX,
        ensures
            final(self).wf(),
            final(self).outbox() == old(self).outbox() + lines(cmds@, old(self).counter()),
            final(self).counter() == old(self).counter() + bumps(cmds@),
            r@.len() == cmds@.len(),
    {
        let ghost all = cmds@;
        let ghost c0 = self.counter();
        let ghost o0 = self.outbox();
        let mut rest = cmds;
        let mut ids: Vec<Option<String>> = Vec::new();
        proof {
            assert(all.take(0) =~= Seq::<Command<T>>::empty());
            assert(o0 + lines(all.take(0), c0) =~= o0);
        }
        while rest.len() > 0
            invariant
                self.wf(),
                ids@.len() + rest@.len() == all.len(),
                rest@ == all.skip(ids@.len() as int),
                self.outbox() == o0 + lines(all.take(ids@.len() as int), c0),
                self.counter() == c0 + bumps(all.take(ids@.len() as int)),
                c0 + all.len() <= u64::MAX,
            decreases rest.len(),
        {
            let ghost i = ids@.len() as int;
            proof {
                lemma_bumps_bound(all.take(i));
            }
            let cmd = rest.remove(0);
            let ghost cur = self.counter();
            proof {
                assert(cmd == all[i]);
                assert(all.take(i + 1).drop_last() =~= all.take(i));
                assert(all.take(i + 1).last() == all[i]);
                assert(rest@ =~= all.skip(i + 1));
            }
            let id = self.submit(cmd);
            ids.push(id);
            proof {
                assert(self.outbox() =~= o0 + lines(all.take(i + 1), c0));
            }
        }
        proof {
            assert(all.take(all.len() as int) =~= all);
        }
        ids
    }

    /// Hands the written lines to the transport, oldest first.
    pub fn take_outbox(&mut self) -> (r: Vec<Json>)
        requires
            old(self).wf(),
        ensures
            final(self).wf(),
            view_items(r@) == old(self).outbox(),
            final(self).outbox() == Seq::<JsonV>::empty(),
            final(self).counter() == old(self).counter(),
            final(self).pending() == old(self).pending(),
    {
        let mut out: Vec<Json> = Vec::new();
        std::mem::swap(&mut out, &mut self.outbox);
        proof {
            lemma_view_items(self.outbox@);
            assert(view_items(self.outbox@) =~= Seq::<JsonV>::empty());
        }
        out
    }

    /// Routes one inbound message: a response completes its pending request
    /// (taking it out of the table), a request of the CLI goes to a handler,
    /// anything else to the subscribers.
    pub fn dispatch(&mut self, msg: Message) -> (r: Dispatch<T>)
        requires
            old(self).wf(),
        ensures
            final(self).wf(),
            final(self).outbox() == old(self).outbox(),
            final(self).counter() == old(self).counter(),
            match msg@ {
                MessageV::ControlResponse { request_id, outcome } => {
                    &&& final(self).pending() == take_spec(old(self).pending(), request_id).0
                    &&& match take_spec(old(self).pending(), request_id).1 {
                        Some(s) => r matches Dispatch::Deliver { sink, result } && sink == s
                            && result_view(result) == outcome_result(outcome),
                        None => r matches Dispatch::Unmatched { request_id: id } && id@ == request_id,
                    }
                },
                MessageV::ControlRequest { .. } => r matches Dispatch::Handle(req) && (
                Message::ControlRequest(req))@ == msg@ && final(self).pending() == old(self).pending(),
                _ => (r matches Dispatch::Publish(m) && m@ == msg@) && final(self).pending() == old(self).pending(),
            },
    {
        match msg {
            Message::ControlResponse(c) => {
                let SDKControlResponse { request_id, outcome } = c;
                proof {
                    lemma_take_keeps_issued(self.pending@, request_id@, self.counter as nat);
                }
                match self.pending.take(request_id.as_str()) {
                    Some(sink) => Dispatch::Deliver { sink, result: resolve_outcome(outcome) },
                    None => Dispatch::Unmatched { request_id },
                }
            },
            Message::ControlRequest(req) => Dispatch::Handle(req),
            other => Dispatch::Publish(other),
        }
    }

    /// A request whose deadline passed: its sink is taken out of the table.
    pub fn expire(&mut self, id: &str) -> (r: Option<T>)
        requires
            old(self).wf(),
        ensures
            final(self).wf(),
            (final(self).pending(), r) == take_spec(old(self).pending(), id@),
            final(self).outbox() == old(self).outbox(),
            final(self).counter() == old(self).counter(),
    {
        proof {
            lemma_take_keeps_issued(self.pending@, id@, self.counter as nat);
        }
        self.pending.take(id)
    }

    /// Shutting down: every pending sink is handed out, once, and the table
    /// is left empty.
    pub fn shutdown(&mut self) -> (r: Vec<T>)
        requires
            old(self).wf(),
        ensures
            final(self).wf(),
            final(self).pending() == Seq::<(Seq<char>, T)>::empty(),
            r@ == Seq::new(old(self).pending().len(), |i: int| old(self).pending()[i].1),
            final(self).outbox() == old(self).outbox(),
            final(self).counter() == old(self).counter(),
    {
        self.pending.drain()
    }
}

/// The error a request surfaces when its deadline passes.
pub fn timeout_error(subtype: &str) -> (r: Error)
    ensures
        r matches Error::Timeout(m) && m@ == subtype@,
{
    Error::Timeout(text(subtype))
}

/// Relies on `uuid::Uuid::new_v4` (with its hyphenated `Display`): a random
/// identifier, used as the part of a request identifier that differs
/// between processes. Nothing is promised of its value.
#[verifier::external_body]
fn fresh_suffix() -> (r: String) {
    uuid::Uuid::new_v4().to_string()
}

/// A control-request command with a fresh random suffix.
pub fn request_command<T>(request: SDKControlRequestType, sink: T) -> (r: Command<T>)
    ensures
        r matches Command::Request { request: q, sink: s, .. } && q == request && s == sink,
{
    Command::Request { request, suffix: fresh_suffix(), sink }
}

} // verus!

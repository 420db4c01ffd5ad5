use vstd::prelude::*;

use crate::json::{
    Json, JsonV, field, field_str, text, view_items, lemma_view_items,
};
use crate::message::{opt_str, strings_view, Message, MessageV, ResultMessage};
use crate::options::{join, joined};

verus! {

/// A plugin the CLI loaded.
pub struct PluginInfo {
    pub name: String,
    pub path: String,
}

/// What the CLI reported about itself when the session started.
pub struct SessionInitData {
    pub cwd: Option<String>,
    pub model: Option<String>,
    pub tools: Vec<String>,
    pub mcp_servers: Vec<String>,
    pub permission_mode: Option<String>,
    pub slash_commands: Vec<String>,
    pub api_key_source: Option<String>,
    /// The CLI's version, reported under the key the CLI's identity names.
    pub cli_version: Option<String>,
    pub output_style: Option<String>,
    pub agents: Vec<String>,
    pub skills: Vec<String>,
    pub plugins: Vec<PluginInfo>,
    pub uuid: Option<String>,
}

/// The string items of an array, in order; other items are skipped.
pub open spec fn str_items(items: Seq<JsonV>) -> Seq<Seq<char>>
    decreases items.len(),
{
    if items.len() == 0 {
        Seq::empty()
    } else {
        let rest = str_items(items.drop_last());
        match items.last() {
            JsonV::Str(s) => rest.push(s),
            _ => rest,
        }
    }
}

/// The string items of the array under `key`; nothing when there is no array.
pub open spec fn string_list(j: JsonV, key: Seq<char>) -> Seq<Seq<char>> {
    match field(j, key) {
        Some(JsonV::Array(items)) => str_items(items),
        _ => Seq::empty(),
    }
}

/// The plugins of an array: each object with a string `name` and `path`.
pub open spec fn plugin_items(items: Seq<JsonV>) -> Seq<(Seq<char>, Seq<char>)>
    decreases items.len(),
{
    if items.len() == 0 {
        Seq::empty()
    } else {
        let rest = plugin_items(items.drop_last());
        match (field_str(items.last(), "name"@), field_str(items.last(), "path"@)) {
            (Some(n), Some(p)) => rest.push((n, p)),
            _ => rest,
        }
    }
}

pub open spec fn plugins_view(v: Seq<PluginInfo>) -> Seq<(Seq<char>, Seq<char>)> {
    Seq::new(v.len(), |i: int| (v[i].name@, v[i].path@))
}

fn string_items(j: &Json, key: &str) -> (r: Vec<String>)
    ensures
        strings_view(r@) == string_list(j@, key@),
{
    let mut out: Vec<String> = Vec::new();
    match j.get(key) {
        Some(Json::Array(items)) => {
            proof {
                lemma_view_items(items@);
                assert(items@.take(0) =~= Seq::<Json>::empty());
                assert(view_items(items@).take(0) =~= Seq::<JsonV>::empty());
                assert(strings_view(out@) =~= Seq::<Seq<char>>::empty());
            }
            let ghost vi = view_items(items@);
            let mut i: usize = 0;
            while i < items.len()
                invariant
                    0 <= i <= items.len(),
                    vi == view_items(items@),
                    field(j@, key@) == Some(JsonV::Array(vi)),
                    vi.len() == items@.len(),
                    forall|m: int| 0 <= m < items@.len() ==> #[trigger] vi[m] == items@[m]@,
                    strings_view(out@) == str_items(vi.take(i as int)),
                decreases items.len() - i,
            {
                proof {
                    assert(vi.take(i + 1).drop_last() =~= vi.take(i as int));
                    assert(vi.take(i + 1).last() == vi[i as int]);
                }
                match &items[i] {
                    Json::Str(x) => {
                        let ghost before = out@;
                        out.push(x.clone());
                        assert(strings_view(out@) =~= strings_view(before).push(x@));
                    },
                    _ => {},
                }
                i = i + 1;
            }
            assert(vi.take(vi.len() as int) =~= vi);
            out
        },
        _ => {
            assert(strings_view(out@) =~= Seq::<Seq<char>>::empty());
            out
        },
    }
}

fn plugin_list(j: &Json) -> (r: Vec<PluginInfo>)
    ensures
        plugins_view(r@) == match field(j@, "plugins"@) {
            Some(JsonV::Array(items)) => plugin_items(items),
            _ => Seq::empty(),
        },
{
    let mut out: Vec<PluginInfo> = Vec::new();
    match j.get("plugins") {
        Some(Json::Array(items)) => {
            proof {
                lemma_view_items(items@);
                assert(view_items(items@).take(0) =~= Seq::<JsonV>::empty());
                assert(plugins_view(out@) =~= Seq::<(Seq<char>, Seq<char>)>::empty());
            }
            let ghost vi = view_items(items@);
            let mut i: usize = 0;
            while i < items.len()
                invariant
                    0 <= i <= items.len(),
                    vi == view_items(items@),
                    field(j@, "plugins"@) == Some(JsonV::Array(vi)),
                    vi.len() == items@.len(),
                    forall|m: int| 0 <= m < items@.len() ==> #[trigger] vi[m] == items@[m]@,
                    plugins_view(out@) == plugin_items(vi.take(i as int)),
                decreases items.len() - i,
            {
                proof {
                    assert(vi.take(i + 1).drop_last() =~= vi.take(i as int));
                    assert(vi.take(i + 1).last() == vi[i as int]);
                }
                match (items[i].get_str("name"), items[i].get_str("path")) {
                    (Some(name), Some(path)) => {
                        let ghost before = out@;
                        let ghost nv = name@;
                        let ghost pv = path@;
                        out.push(PluginInfo { name, path });
                        assert(plugins_view(out@) =~= plugins_view(before).push((nv, pv)));
                    },
                    _ => {},
                }
                i = i + 1;
            }
            assert(vi.take(vi.len() as int) =~= vi);
            out
        },
        _ => {
            assert(plugins_view(out@) =~= Seq::<(Seq<char>, Seq<char>)>::empty());
            out
        },
    }
}

/// The capabilities an `init` message reports: each named key read as a
/// string or a list of strings, plugins with their name and path, the
/// version under `version_key`.
pub open spec fn init_data_matches(r: SessionInitData, data: JsonV, version_key: Seq<char>) -> bool {
    &&& opt_str(r.cwd) == field_str(data, "cwd"@)
    &&& opt_str(r.model) == field_str(data, "model"@)
    &&& strings_view(r.tools@) == string_list(data, "tools"@)
    &&& strings_view(r.mcp_servers@) == string_list(data, "mcp_servers"@)
    &&& opt_str(r.permission_mode) == field_str(data, "permissionMode"@)
    &&& strings_view(r.slash_commands@) == string_list(data, "slash_commands"@)
    &&& opt_str(r.api_key_source) == field_str(data, "apiKeySource"@)
    &&& opt_str(r.cli_version) == field_str(data, version_key)
    &&& opt_str(r.output_style) == field_str(data, "output_style"@)
    &&& strings_view(r.agents@) == string_list(data, "agents"@)
    &&& strings_view(r.skills@) == string_list(data, "skills"@)
    &&& plugins_view(r.plugins@) == match field(data, "plugins"@) {
        Some(JsonV::Array(items)) => plugin_items(items),
        _ => Seq::empty(),
    }
    &&& opt_str(r.uuid) == field_str(data, "uuid"@)
}

/// Reads the capabilities out of the CLI's `system`/`init` message; the
/// version is read under `version_key`.
pub fn init_data_from_system(data: &Json, version_key: &str) -> (r: SessionInitData)
    ensures
        init_data_matches(r, data@, version_key@),
{
    SessionInitData {
        cwd: data.get_str("cwd"),
        model: data.get_str("model"),
        tools: string_items(data, "tools"),
        mcp_servers: string_items(data, "mcp_servers"),
        permission_mode: data.get_str("permissionMode"),
        slash_commands: string_items(data, "slash_commands"),
        api_key_source: data.get_str("apiKeySource"),
        cli_version: data.get_str(version_key),
        output_style: data.get_str("output_style"),
        agents: string_items(data, "agents"),
        skills: string_items(data, "skills"),
        plugins: plugin_list(data),
        uuid: data.get_str("uuid"),
    }
}

/// Empty capabilities, used when a session is resumed.
pub fn empty_init_data() -> (r: SessionInitData)
    ensures
        r.cwd is None && r.model is None && r.tools@.len() == 0 && r.mcp_servers@.len() == 0
            && r.permission_mode is None && r.slash_commands@.len() == 0 && r.api_key_source is None
            && r.cli_version is None && r.output_style is None && r.agents@.len() == 0
            && r.skills@.len() == 0 && r.plugins@.len() == 0 && r.uuid is None,
{
    SessionInitData {
        cwd: None,
        model: None,
        tools: Vec::new(),
        mcp_servers: Vec::new(),
        permission_mode: None,
        slash_commands: Vec::new(),
        api_key_source: None,
        cli_version: None,
        output_style: None,
        agents: Vec::new(),
        skills: Vec::new(),
        plugins: Vec::new(),
        uuid: None,
    }
}

/// How waiting for the CLI's `init` goes on after one message.
pub enum InitProgress {
    /// The `init` came: the session identifier to adopt, and the capabilities.
    Ready { session_id: String, data: SessionInitData },
    /// An error result came first: why starting failed.
    Failed(String),
    /// Anything else: keep waiting.
    Waiting,
}

/// Why a failed result says starting failed: its errors joined with
/// `"; "` when there are any, else its `result`, else `"Unknown error"`.
pub open spec fn failure_text(errors: Seq<Seq<char>>, result: Option<Seq<char>>) -> Seq<char> {
    if errors.len() > 0 {
        joined(errors, "; "@)
    } else {
        match result {
            Some(r) => r,
            None => "Unknown error"@,
        }
    }
}

pub fn init_failure(r: &ResultMessage) -> (s: String)
    ensures
        s@ == failure_text(strings_view(r.errors@), opt_str(r.result)),
{
    if r.errors.len() > 0 {
        join(&r.errors, "; ")
    } else {
        match &r.result {
            Some(x) => x.clone(),
            None => text("Unknown error"),
        }
    }
}

/// One step of waiting for the CLI's `init`: a `system`/`init` message
/// gives the session identifier it carries (else `fallback`) and its
/// capabilities; an error result ends the wait with its reason.
pub fn init_progress(m: &Message, fallback: &String, version_key: &str) -> (r: InitProgress)
    ensures
        match m@ {
            MessageV::System { subtype, data } => if subtype == "init"@ {
                r matches InitProgress::Ready { session_id, data: d } && session_id@ == match field_str(data, "session_id"@) {
                    Some(s) => s,
                    None => fallback@,
                } && init_data_matches(d, data, version_key@)
            } else {
                r is Waiting
            },
            MessageV::Result(res) => if res.is_error {
                r matches InitProgress::Failed(why) && why@ == failure_text(res.errors, res.result)
            } else {
                r is Waiting
            },
            _ => r is Waiting,
        },
{
    match m {
        Message::System(s) => {
            if s.subtype == text("init") {
                let session_id = match s.data.get_str("session_id") {
                    Some(x) => x,
                    None => fallback.clone(),
                };
                InitProgress::Ready { session_id, data: init_data_from_system(&s.data, version_key) }
            } else {
                InitProgress::Waiting
            }
        },
        Message::Result(res) => {
            if res.is_error {
                InitProgress::Failed(init_failure(res))
            } else {
                InitProgress::Waiting
            }
        },
        _ => InitProgress::Waiting,
    }
}

} // verus!

use vstd::prelude::*;

use crate::control::{dec, push_decimal};
use crate::error::Error;
use crate::json::text;
use crate::message::{opt_str, strings_view};
use crate::protocol::{PermissionMode, permission_mode_name};
use crate::json::{Json, JsonV, opt_view};
use crate::peer::InitRequest;
use vstd::string::StringSliceAdditionalSpecFns;

verus! {

/// The system prompt to run the CLI with.
pub enum SystemPromptConfig {
    /// A preset; only the CLI's own preset is passed on, with its append text.
    Preset { preset: String, append: Option<String> },
    Custom { content: String },
}

/// The tools the CLI may offer.
pub enum ToolsConfig {
    Preset { preset: String },
    List(Vec<String>),
}

/// A plugin to load; only `local` ones are passed on.
pub struct SdkPluginConfig {
    pub type_: String,
    pub path: String,
}

/// How the prompt reaches the CLI.
pub enum PromptInput {
    /// One prompt, given on the command line.
    String(String),
    /// Messages streamed on the CLI's standard input.
    Stream,
}

/// What the CLI is started with. Values that are JSON documents (the MCP
/// servers, the agents, the output schema) are held as their text.
pub struct AgentOptions {
    pub cli_path: String,
    /// The name of the CLI's own preset (see `CliIdentity::preset`).
    pub known_preset: String,
    pub system_prompt: Option<SystemPromptConfig>,
    pub tools: Option<ToolsConfig>,
    pub allowed_tools: Vec<String>,
    pub max_turns: Option<i64>,
    pub max_budget_usd: Option<String>,
    pub disallowed_tools: Vec<String>,
    pub model: Option<String>,
    pub fallback_model: Option<String>,
    pub betas: Vec<String>,
    pub permission_prompt_tool_name: Option<String>,
    pub permission_mode: Option<PermissionMode>,
    pub continue_conversation: bool,
    pub resume: Option<String>,
    pub settings: Option<String>,
    pub add_dirs: Vec<String>,
    pub mcp_config: Option<String>,
    pub include_partial_messages: bool,
    pub fork_session: bool,
    pub agents: Option<String>,
    pub setting_sources: Option<Vec<String>>,
    pub plugins: Vec<SdkPluginConfig>,
    pub extra_args: Vec<(String, Option<String>)>,
    pub max_thinking_tokens: Option<i64>,
    pub json_schema: Option<String>,
}

/// `es` joined with `sep` between items.
pub open spec fn joined(es: Seq<Seq<char>>, sep: Seq<char>) -> Seq<char>
    decreases es.len(),
{
    if es.len() == 0 {
        Seq::empty()
    } else if es.len() == 1 {
        es[0]
    } else {
        joined(es.drop_last(), sep) + sep + es.last()
    }
}

/// Joins `v` with `sep` between items.
pub fn join(v: &Vec<String>, sep: &str) -> (r: String)
    ensures
        r@ == joined(strings_view(v@), sep@),
{
    let ghost es = strings_view(v@);
    if v.len() == 0 {
        return String::new();
    }
    let mut out = v[0].clone();
    let mut i: usize = 1;
    proof {
        assert(es.take(1).len() == 1);
    }
    while i < v.len()
        invariant
            1 <= i <= v@.len(),
            es == strings_view(v@),
            out@ == joined(es.take(i as int), sep@),
        decreases v.len() - i,
    {
        proof {
            assert(es.take(i + 1).drop_last() =~= es.take(i as int));
            assert(es.take(i + 1).last() == es[i as int]);
        }
        out.append(sep);
        out.append(v[i].as_str());
        i = i + 1;
    }
    assert(es.take(v@.len() as int) =~= es);
    out
}

/// The decimal form of a signed number.
pub open spec fn signed_dec(n: int) -> Seq<char> {
    if n < 0 {
        "-"@ + dec((-n) as nat)
    } else {
        dec(n as nat)
    }
}

pub fn signed_decimal(n: i64) -> (r: String)
    ensures
        r@ == signed_dec(n as int),
{
    let mut s = String::new();
    if n < 0 {
        s.append("-");
        let m: u64 = (0i128 - (n as i128)) as u64;
        push_decimal(&mut s, m);
    } else {
        push_decimal(&mut s, n as u64);
    }
    assert(s@ =~= signed_dec(n as int));
    s
}

pub open spec fn pair(flag: Seq<char>, value: Seq<char>) -> Seq<Seq<char>> {
    seq![flag, value]
}

/// A flag with its value when the value is there.
pub open spec fn opt_pair(flag: Seq<char>, value: Option<Seq<char>>) -> Seq<Seq<char>> {
    match value {
        Some(v) => pair(flag, v),
        None => Seq::empty(),
    }
}

/// A flag with the comma-joined list, when the list is not empty.
pub open spec fn list_pair(flag: Seq<char>, items: Seq<Seq<char>>) -> Seq<Seq<char>> {
    if items.len() == 0 {
        Seq::empty()
    } else {
        pair(flag, joined(items, ","@))
    }
}

pub open spec fn switch(flag: Seq<char>, on: bool) -> Seq<Seq<char>> {
    if on {
        seq![flag]
    } else {
        Seq::empty()
    }
}

pub open spec fn system_prompt_args(c: Option<SystemPromptConfig>, known: Seq<char>) -> Seq<Seq<char>> {
    match c {
        None => pair("--system-prompt"@, Seq::empty()),
        Some(SystemPromptConfig::Custom { content }) => pair("--system-prompt"@, content@),
        Some(SystemPromptConfig::Preset { preset, append }) => if preset@ == known {
            opt_pair("--append-system-prompt"@, opt_str(append))
        } else {
            Seq::empty()
        },
    }
}

pub open spec fn tools_args(c: Option<ToolsConfig>, known: Seq<char>) -> Seq<Seq<char>> {
    match c {
        None => Seq::empty(),
        Some(ToolsConfig::Preset { preset }) => if preset@ == known {
            pair("--tools"@, "default"@)
        } else {
            Seq::empty()
        },
        Some(ToolsConfig::List(v)) => pair("--tools"@, joined(strings_view(v@), ","@)),
    }
}

pub open spec fn opt_num_pair(flag: Seq<char>, n: Option<i64>) -> Seq<Seq<char>> {
    match n {
        Some(x) => pair(flag, signed_dec(x as int)),
        None => Seq::empty(),
    }
}

pub open spec fn mode_args(m: Option<PermissionMode>) -> Seq<Seq<char>> {
    match m {
        Some(x) => pair("--permission-mode"@, permission_mode_name(x)),
        None => Seq::empty(),
    }
}

/// Each directory as `--add-dir <dir>`.
pub open spec fn dir_args(dirs: Seq<Seq<char>>) -> Seq<Seq<char>>
    decreases dirs.len(),
{
    if dirs.len() == 0 {
        Seq::empty()
    } else {
        dir_args(dirs.drop_last()) + pair("--add-dir"@, dirs.last())
    }
}

pub open spec fn sources_args(s: Option<Vec<String>>) -> Seq<Seq<char>> {
    match s {
        Some(v) => pair("--setting-sources"@, joined(strings_view(v@), ","@)),
        None => Seq::empty(),
    }
}

/// Each local plugin as `--plugin-dir <path>`.
pub open spec fn plugin_args(ps: Seq<SdkPluginConfig>) -> Seq<Seq<char>>
    decreases ps.len(),
{
    if ps.len() == 0 {
        Seq::empty()
    } else {
        plugin_args(ps.drop_last()) + if ps.last().type_@ == "local"@ {
            pair("--plugin-dir"@, ps.last().path@)
        } else {
            Seq::empty()
        }
    }
}

/// Each extra argument as `--<flag>`, followed by its value when it has one.
pub open spec fn extra_args_of(es: Seq<(String, Option<String>)>) -> Seq<Seq<char>>
    decreases es.len(),
{
    if es.len() == 0 {
        Seq::empty()
    } else {
        extra_args_of(es.drop_last()) + match es.last().1 {
            Some(v) => pair("--"@ + es.last().0@, v@),
            None => seq!["--"@ + es.last().0@],
        }
    }
}

pub open spec fn prompt_args(p: PromptInput) -> Seq<Seq<char>> {
    match p {
        PromptInput::Stream => pair("--input-format"@, "stream-json"@),
        PromptInput::String(s) => seq!["--print"@, "--"@, s@],
    }
}

/// The CLI's command line: the binary, then each option's flags in a fixed
/// order, then how the prompt is given.
pub open spec fn command_args(o: AgentOptions, p: PromptInput) -> Seq<Seq<char>> {
    seq![o.cli_path@, "--output-format"@, "stream-json"@, "--verbose"@]
        + system_prompt_args(o.system_prompt, o.known_preset@)
        + tools_args(o.tools, o.known_preset@)
        + list_pair("--allowedTools"@, strings_view(o.allowed_tools@))
        + opt_num_pair("--max-turns"@, o.max_turns)
        + opt_pair("--max-budget-usd"@, opt_str(o.max_budget_usd))
        + list_pair("--disallowedTools"@, strings_view(o.disallowed_tools@))
        + opt_pair("--model"@, opt_str(o.model))
        + opt_pair("--fallback-model"@, opt_str(o.fallback_model))
        + list_pair("--betas"@, strings_view(o.betas@))
        + opt_pair("--permission-prompt-tool"@, opt_str(o.permission_prompt_tool_name))
        + mode_args(o.permission_mode)
        + switch("--continue"@, o.continue_conversation)
        + opt_pair("--resume"@, opt_str(o.resume))
        + opt_pair("--settings"@, opt_str(o.settings))
        + dir_args(strings_view(o.add_dirs@))
        + opt_pair("--mcp-config"@, opt_str(o.mcp_config))
        + switch("--include-partial-messages"@, o.include_partial_messages)
        + switch("--fork-session"@, o.fork_session)
        + opt_pair("--agents"@, opt_str(o.agents))
        + sources_args(o.setting_sources)
        + plugin_args(o.plugins@)
        + extra_args_of(o.extra_args@)
        + opt_num_pair("--max-thinking-tokens"@, o.max_thinking_tokens)
        + opt_pair("--json-schema"@, opt_str(o.json_schema))
        + prompt_args(p)
}

fn push_pair(args: &mut Vec<String>, flag: &str, value: String)
    ensures
        strings_view(final(args)@) == strings_view(old(args)@) + pair(flag@, value@),
{
    let ghost before = strings_view(args@);
    args.push(text(flag));
    args.push(value);
    assert(strings_view(args@) =~= before + pair(flag@, value@));
}

fn push_opt(args: &mut Vec<String>, flag: &str, value: &Option<String>)
    ensures
        strings_view(final(args)@) == strings_view(old(args)@) + opt_pair(flag@, opt_str(*value)),
{
    match value {
        Some(v) => push_pair(args, flag, v.clone()),
        None => {
            assert(strings_view(args@) =~= strings_view(args@) + Seq::<Seq<char>>::empty());
        },
    }
}

fn push_list(args: &mut Vec<String>, flag: &str, items: &Vec<String>)
    ensures
        strings_view(final(args)@) == strings_view(old(args)@) + list_pair(flag@, strings_view(items@)),
{
    if items.len() == 0 {
        assert(strings_view(args@) =~= strings_view(args@) + Seq::<Seq<char>>::empty());
    } else {
        push_pair(args, flag, join(items, ","));
    }
}

fn push_switch(args: &mut Vec<String>, flag: &str, on: bool)
    ensures
        strings_view(final(args)@) == strings_view(old(args)@) + switch(flag@, on),
{
    let ghost before = strings_view(args@);
    if on {
        args.push(text(flag));
        assert(strings_view(args@) =~= before + seq![flag@]);
    } else {
        assert(strings_view(args@) =~= before + Seq::<Seq<char>>::empty());
    }
}

fn push_num(args: &mut Vec<String>, flag: &str, n: Option<i64>)
    ensures
        strings_view(final(args)@) == strings_view(old(args)@) + opt_num_pair(flag@, n),
{
    match n {
        Some(x) => push_pair(args, flag, signed_decimal(x)),
        None => {
            assert(strings_view(args@) =~= strings_view(args@) + Seq::<Seq<char>>::empty());
        },
    }
}

impl AgentOptions {
    /// The CLI's command line for these options and this prompt.
    pub fn build_command(&self, prompt: &PromptInput) -> (r: Vec<String>)
        ensures
            strings_view(r@) == command_args(*self, *prompt),
    {
        let mut cmd: Vec<String> = Vec::new();
        cmd.push(self.cli_path.clone());
        cmd.push(text("--output-format"));
        cmd.push(text("stream-json"));
        cmd.push(text("--verbose"));
        let ghost a0 = seq![self.cli_path@, "--output-format"@, "stream-json"@, "--verbose"@];
        assert(strings_view(cmd@) =~= a0);

        match &self.system_prompt {
            None => push_pair(&mut cmd, "--system-prompt", String::new()),
            Some(SystemPromptConfig::Custom { content }) => push_pair(&mut cmd, "--system-prompt", content.clone()),
            Some(SystemPromptConfig::Preset { preset, append }) => {
                if *preset == self.known_preset {
                    push_opt(&mut cmd, "--append-system-prompt", append);
                } else {
                    assert(strings_view(cmd@) =~= strings_view(cmd@) + Seq::<Seq<char>>::empty());
                }
            },
        }
        let ghost a1 = a0 + system_prompt_args(self.system_prompt, self.known_preset@);
        assert(strings_view(cmd@) =~= a1);

        match &self.tools {
            None => {
                assert(strings_view(cmd@) =~= strings_view(cmd@) + Seq::<Seq<char>>::empty());
            },
            Some(ToolsConfig::Preset { preset }) => {
                if *preset == self.known_preset {
                    push_pair(&mut cmd, "--tools", text("default"));
                } else {
                    assert(strings_view(cmd@) =~= strings_view(cmd@) + Seq::<Seq<char>>::empty());
                }
            },
            Some(ToolsConfig::List(v)) => push_pair(&mut cmd, "--tools", join(v, ",")),
        }
        let ghost a2 = a1 + tools_args(self.tools, self.known_preset@);
        assert(strings_view(cmd@) =~= a2);

        push_list(&mut cmd, "--allowedTools", &self.allowed_tools);
        push_num(&mut cmd, "--max-turns", self.max_turns);
        push_opt(&mut cmd, "--max-budget-usd", &self.max_budget_usd);
        push_list(&mut cmd, "--disallowedTools", &self.disallowed_tools);
        push_opt(&mut cmd, "--model", &self.model);
        push_opt(&mut cmd, "--fallback-model", &self.fallback_model);
        push_list(&mut cmd, "--betas", &self.betas);
        push_opt(&mut cmd, "--permission-prompt-tool", &self.permission_prompt_tool_name);
        let ghost a3 = a2
            + list_pair("--allowedTools"@, strings_view(self.allowed_tools@))
            + opt_num_pair("--max-turns"@, self.max_turns)
            + opt_pair("--max-budget-usd"@, opt_str(self.max_budget_usd))
            + list_pair("--disallowedTools"@, strings_view(self.disallowed_tools@))
            + opt_pair("--model"@, opt_str(self.model))
            + opt_pair("--fallback-model"@, opt_str(self.fallback_model))
            + list_pair("--betas"@, strings_view(self.betas@))
            + opt_pair("--permission-prompt-tool"@, opt_str(self.permission_prompt_tool_name));
        assert(strings_view(cmd@) =~= a3);

        match self.permission_mode {
            Some(m) => push_pair(&mut cmd, "--permission-mode", m.name()),
            None => {
                assert(strings_view(cmd@) =~= strings_view(cmd@) + Seq::<Seq<char>>::empty());
            },
        }
        push_switch(&mut cmd, "--continue", self.continue_conversation);
        push_opt(&mut cmd, "--resume", &self.resume);
        push_opt(&mut cmd, "--settings", &self.settings);
        let ghost a4 = a3 + mode_args(self.permission_mode) + switch("--continue"@, self.continue_conversation)
            + opt_pair("--resume"@, opt_str(self.resume)) + opt_pair("--settings"@, opt_str(self.settings));
        assert(strings_view(cmd@) =~= a4);

        let ghost dirs = strings_view(self.add_dirs@);
        let mut i: usize = 0;
        proof {
            assert(dirs.take(0) =~= Seq::<Seq<char>>::empty());
            assert(a4 + dir_args(dirs.take(0)) =~= a4);
        }
        while i < self.add_dirs.len()
            invariant
                0 <= i <= self.add_dirs@.len(),
                dirs == strings_view(self.add_dirs@),
                strings_view(cmd@) == a4 + dir_args(dirs.take(i as int)),
            decreases self.add_dirs.len() - i,
        {
            proof {
                assert(dirs.take(i + 1).drop_last() =~= dirs.take(i as int));
                assert(dirs.take(i + 1).last() == dirs[i as int]);
            }
            push_pair(&mut cmd, "--add-dir", self.add_dirs[i].clone());
            i = i + 1;
            assert(strings_view(cmd@) =~= a4 + dir_args(dirs.take(i as int)));
        }
        assert(dirs.take(self.add_dirs@.len() as int) =~= dirs);
        let ghost a5 = a4 + dir_args(dirs);

        push_opt(&mut cmd, "--mcp-config", &self.mcp_config);
        push_switch(&mut cmd, "--include-partial-messages", self.include_partial_messages);
        push_switch(&mut cmd, "--fork-session", self.fork_session);
        push_opt(&mut cmd, "--agents", &self.agents);
        match &self.setting_sources {
            Some(v) => push_pair(&mut cmd, "--setting-sources", join(v, ",")),
            None => {
                assert(strings_view(cmd@) =~= strings_view(cmd@) + Seq::<Seq<char>>::empty());
            },
        }
        let ghost a6 = a5 + opt_pair("--mcp-config"@, opt_str(self.mcp_config))
            + switch("--include-partial-messages"@, self.include_partial_messages)
            + switch("--fork-session"@, self.fork_session)
            + opt_pair("--agents"@, opt_str(self.agents))
            + sources_args(self.setting_sources);
        assert(strings_view(cmd@) =~= a6);

        let ghost ps = self.plugins@;
        let mut k: usize = 0;
        proof {
            assert(ps.take(0) =~= Seq::<SdkPluginConfig>::empty());
            assert(a6 + plugin_args(ps.take(0)) =~= a6);
        }
        while k < self.plugins.len()
            invariant
                0 <= k <= self.plugins@.len(),
                ps == self.plugins@,
                strings_view(cmd@) == a6 + plugin_args(ps.take(k as int)),
            decreases self.plugins.len() - k,
        {
            proof {
                assert(ps.take(k + 1).drop_last() =~= ps.take(k as int));
                assert(ps.take(k + 1).last() == ps[k as int]);
            }
            if self.plugins[k].type_ == text("local") {
                push_pair(&mut cmd, "--plugin-dir", self.plugins[k].path.clone());
            } else {
                assert(strings_view(cmd@) =~= strings_view(cmd@) + Seq::<Seq<char>>::empty());
            }
            k = k + 1;
            assert(strings_view(cmd@) =~= a6 + plugin_args(ps.take(k as int)));
        }
        assert(ps.take(self.plugins@.len() as int) =~= ps);
        let ghost a7 = a6 + plugin_args(ps);

        let ghost es = self.extra_args@;
        let mut m: usize = 0;
        proof {
            assert(es.take(0) =~= Seq::<(String, Option<String>)>::empty());
            assert(a7 + extra_args_of(es.take(0)) =~= a7);
        }
        while m < self.extra_args.len()
            invariant
                0 <= m <= self.extra_args@.len(),
                es == self.extra_args@,
                strings_view(cmd@) == a7 + extra_args_of(es.take(m as int)),
            decreases self.extra_args.len() - m,
        {
            proof {
                assert(es.take(m + 1).drop_last() =~= es.take(m as int));
                assert(es.take(m + 1).last() == es[m as int]);
            }
            let mut flag = String::from_str("--");
            flag.append(self.extra_args[m].0.as_str());
            match &self.extra_args[m].1 {
                Some(v) => push_pair(&mut cmd, flag.as_str(), v.clone()),
                None => {
                    let ghost before = strings_view(cmd@);
                    cmd.push(flag);
                    assert(strings_view(cmd@) =~= before + seq!["--"@ + es[m as int].0@]);
                },
            }
            m = m + 1;
            assert(strings_view(cmd@) =~= a7 + extra_args_of(es.take(m as int)));
        }
        assert(es.take(self.extra_args@.len() as int) =~= es);
        let ghost a8 = a7 + extra_args_of(es);

        push_num(&mut cmd, "--max-thinking-tokens", self.max_thinking_tokens);
        push_opt(&mut cmd, "--json-schema", &self.json_schema);
        match prompt {
            PromptInput::Stream => push_pair(&mut cmd, "--input-format", text("stream-json")),
            PromptInput::String(s) => {
                let ghost before = strings_view(cmd@);
                cmd.push(text("--print"));
                cmd.push(text("--"));
                cmd.push(s.clone());
                assert(strings_view(cmd@) =~= before + seq!["--print"@, "--"@, s@]);
            },
        }
        assert(strings_view(cmd@) =~= a8 + opt_num_pair("--max-thinking-tokens"@, self.max_thinking_tokens)
            + opt_pair("--json-schema"@, opt_str(self.json_schema)) + prompt_args(*prompt));
        assert(strings_view(cmd@) =~= command_args(*self, *prompt));
        cmd
    }
}

/// Where the CLI binary `bin` is looked for after `PATH`, in order, under
/// the home directory `home`.
pub open spec fn cli_candidates_spec(home: Seq<char>, bin: Seq<char>) -> Seq<Seq<char>> {
    seq![
        home + "/.npm-global/bin/"@ + bin,
        "/usr/local/bin/"@ + bin,
        home + "/.local/bin/"@ + bin,
        home + "/node_modules/.bin/"@ + bin,
        home + "/.yarn/bin/"@ + bin,
        home + "/."@ + bin + "/local/"@ + bin,
    ]
}

fn under(home: &str, dir: &str, bin: &str) -> (r: String)
    ensures
        r@ == home@ + dir@ + bin@,
{
    let mut s = String::from_str(home);
    s.append(dir);
    s.append(bin);
    s
}

/// The install locations to try when the CLI is not on `PATH`.
pub fn cli_candidates(home: &str, bin: &str) -> (r: Vec<String>)
    ensures
        strings_view(r@) == cli_candidates_spec(home@, bin@),
{
    let mut own = under(home, "/.", bin);
    own.append("/local/");
    own.append(bin);
    let r = vec![
        under(home, "/.npm-global/bin/", bin),
        under("", "/usr/local/bin/", bin),
        under(home, "/.local/bin/", bin),
        under(home, "/node_modules/.bin/", bin),
        under(home, "/.yarn/bin/", bin),
        own,
    ];
    proof {
        assert(""@ + "/usr/local/bin/"@ =~= "/usr/local/bin/"@) by {
            reveal_strlit("");
        }
    }
    assert(strings_view(r@) =~= cli_candidates_spec(home@, bin@));
    r
}

/// The permission prompt tool to start the CLI with. A permission callback
/// needs the streaming prompt and excludes a tool named by the caller; it
/// makes the tool `stdio`. Without a callback the caller's choice stands.
pub fn permission_prompt_tool(
    has_callback: bool,
    streaming: bool,
    requested: Option<String>,
) -> (r: Result<Option<String>, Error>)
    ensures
        has_callback && !streaming ==> r matches Err(Error::InvalidConfig(_)),
        has_callback && streaming && requested is Some ==> r matches Err(Error::InvalidConfig(_)),
        has_callback && streaming && requested is None ==> (r matches Ok(Some(t)) && t@ == "stdio"@),
        !has_callback ==> (r matches Ok(t) && opt_str(t) == opt_str(requested)),
{
    if !has_callback {
        return Ok(requested);
    }
    if !streaming {
        return Err(Error::InvalidConfig(text("can_use_tool callback requires streaming mode")));
    }
    if requested.is_some() {
        return Err(Error::InvalidConfig(text("can_use_tool callback cannot be used with permission_prompt_tool_name")));
    }
    Ok(Some(text("stdio")))
}

/// The client that runs one query through a CLI process.
pub struct InternalClient;

impl InternalClient {
    pub fn new() -> (r: Self) {
        InternalClient
    }
}

/// A budget as the `--max-budget-usd` value: the number's text; anything
/// but a number gives no budget.
pub open spec fn budget_text(b: Option<JsonV>) -> Option<Seq<char>> {
    match b {
        Some(JsonV::Int(n)) => Some(signed_dec(n)),
        Some(JsonV::Num(t)) => Some(t),
        _ => None,
    }
}

fn copy_opt(o: &Option<String>) -> (r: Option<String>)
    ensures
        opt_str(r) == opt_str(*o),
{
    match o {
        Some(s) => Some(s.clone()),
        None => None,
    }
}

impl AgentOptions {
    /// The options of a session that a peer opened: its model, permission
    /// mode, limits, disallowed tools and session to resume; permissions go
    /// through the bridge (`stdio`), and a skip of permission checks becomes
    /// the `dangerously-skip-permissions` flag.
    pub fn for_session(cli_path: String, known_preset: String, init: &InitRequest) -> (r: AgentOptions)
        ensures
            r.cli_path@ == cli_path@,
            r.known_preset@ == known_preset@,
            opt_str(r.model) == opt_str(init.model),
            r.permission_mode == init.permission_mode,
            r.max_turns == init.max_turns,
            r.max_thinking_tokens == init.max_thinking_tokens,
            opt_str(r.max_budget_usd) == budget_text(opt_view(init.max_budget_usd)),
            strings_view(r.disallowed_tools@) == match init.disallowed_tools {
                Some(v) => strings_view(v@),
                None => Seq::empty(),
            },
            opt_str(r.resume) == opt_str(init.resume),
            opt_str(r.permission_prompt_tool_name) == Some("stdio"@),
            r.extra_args@.len() == (if init.dangerously_skip_permissions == Some(true) { 1int } else { 0int }),
            init.dangerously_skip_permissions == Some(true) ==> r.extra_args@[0].0@
                == "dangerously-skip-permissions"@ && r.extra_args@[0].1 is None,
            r.system_prompt is None && r.tools is None && r.allowed_tools@.len() == 0
                && r.fallback_model is None && r.betas@.len() == 0 && !r.continue_conversation
                && r.settings is None && r.add_dirs@.len() == 0 && r.mcp_config is None
                && !r.include_partial_messages && !r.fork_session && r.agents is None
                && r.setting_sources is None && r.plugins@.len() == 0 && r.json_schema is None,
    {
        let mut extra_args: Vec<(String, Option<String>)> = Vec::new();
        if init.dangerously_skip_permissions == Some(true) {
            extra_args.push((text("dangerously-skip-permissions"), None));
        }
        let disallowed_tools = match &init.disallowed_tools {
            Some(v) => {
                let mut out: Vec<String> = Vec::new();
                let mut i: usize = 0;
                while i < v.len()
                    invariant
                        0 <= i <= v@.len(),
                        out@.len() == i,
                        forall|k: int| 0 <= k < i ==> #[trigger] out@[k]@ == v@[k]@,
                    decreases v.len() - i,
                {
                    out.push(v[i].clone());
                    i = i + 1;
                }
                assert(strings_view(out@) =~= strings_view(v@));
                out
            },
            None => {
                let out: Vec<String> = Vec::new();
                assert(strings_view(out@) =~= Seq::<Seq<char>>::empty());
                out
            },
        };
        let max_budget_usd = match &init.max_budget_usd {
            Some(Json::Int(n)) => Some(signed_decimal(*n)),
            Some(Json::Num(t)) => Some(t.clone()),
            _ => None,
        };
        AgentOptions {
            cli_path,
            known_preset,
            system_prompt: None,
            tools: None,
            allowed_tools: Vec::new(),
            max_turns: init.max_turns,
            max_budget_usd,
            disallowed_tools,
            model: copy_opt(&init.model),
            fallback_model: None,
            betas: Vec::new(),
            permission_prompt_tool_name: Some(text("stdio")),
            permission_mode: init.permission_mode,
            continue_conversation: false,
            resume: copy_opt(&init.resume),
            settings: None,
            add_dirs: Vec::new(),
            mcp_config: None,
            include_partial_messages: false,
            fork_session: false,
            agents: None,
            setting_sources: None,
            plugins: Vec::new(),
            extra_args,
            max_thinking_tokens: init.max_thinking_tokens,
            json_schema: None,
        }
    }
}

/// Frames one outbound line: the text and one newline, unless the text
/// itself holds a newline byte, which would split it.
pub fn frame_line(s: &str) -> (r: Option<String>)
    ensures
        match r {
            Some(line) => !s.spec_bytes().contains(10u8) && line@ == s@ + "\n"@,
            None => s.spec_bytes().contains(10u8),
        },
{
    let b = s.as_bytes();
    let mut i: usize = 0;
    while i < b.len()
        invariant
            0 <= i <= b@.len(),
            b@ == s.spec_bytes(),
            forall|k: int| 0 <= k < i ==> b@[k] != 10u8,
        decreases b.len() - i,
    {
        if b[i] == 10u8 {
            assert(s.spec_bytes()[i as int] == 10u8);
            return None;
        }
        i = i + 1;
    }
    assert(!s.spec_bytes().contains(10u8));
    let mut line = String::from_str(s);
    line.append("\n");
    Some(line)
}

} // verus!

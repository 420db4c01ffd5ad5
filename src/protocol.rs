use vstd::prelude::*;

use crate::json::text;

verus! {

/// A peer's answer to a permission request.
#[derive(PartialEq, Eq, Structural, Clone, Copy, Debug)]
pub enum Decision {
    Allow,
    Deny,
    AllowAlways,
}

pub open spec fn decision_name(x: Decision) -> Seq<char> {
    match x {
        Decision::Allow => "allow"@,
        Decision::Deny => "deny"@,
        Decision::AllowAlways => "allow_always"@,
    }
}

pub open spec fn decision_named(s: Seq<char>) -> Option<Decision> {
    if s == "allow"@ {
        Some(Decision::Allow)
    } else if s == "deny"@ {
        Some(Decision::Deny)
    } else if s == "allow_always"@ {
        Some(Decision::AllowAlways)
    } else {
        None
    }
}

impl Decision {
    /// The wire name.
    pub fn name(&self) -> (r: String)
        ensures
            r@ == decision_name(*self),
    {
        match self {
            Decision::Allow => text("allow"),
            Decision::Deny => text("deny"),
            Decision::AllowAlways => text("allow_always"),
        }
    }

    /// The value with the given wire name, if any.
    pub fn from_name(s: &String) -> (r: Option<Decision>)
        ensures
            r == decision_named(s@),
    {
        if *s == text("allow") {
            Some(Decision::Allow)
        } else if *s == text("deny") {
            Some(Decision::Deny)
        } else if *s == text("allow_always") {
            Some(Decision::AllowAlways)
        } else {
            None
        }
    }
}
/// How the CLI asks before it uses a tool; the names are those of its `--permission-mode` flag.
#[derive(PartialEq, Eq, Structural, Clone, Copy, Debug)]
pub enum PermissionMode {
    Default,
    AcceptEdits,
    BypassPermissions,
    Plan,
    Delegate,
    DontAsk,
}

pub open spec fn permission_mode_name(x: PermissionMode) -> Seq<char> {
    match x {
        PermissionMode::Default => "default"@,
        PermissionMode::AcceptEdits => "acceptEdits"@,
        PermissionMode::BypassPermissions => "bypassPermissions"@,
        PermissionMode::Plan => "plan"@,
        PermissionMode::Delegate => "delegate"@,
        PermissionMode::DontAsk => "dontAsk"@,
    }
}

pub open spec fn permission_mode_named(s: Seq<char>) -> Option<PermissionMode> {
    if s == "default"@ {
        Some(PermissionMode::Default)
    } else if s == "acceptEdits"@ {
        Some(PermissionMode::AcceptEdits)
    } else if s == "bypassPermissions"@ {
        Some(PermissionMode::BypassPermissions)
    } else if s == "plan"@ {
        Some(PermissionMode::Plan)
    } else if s == "delegate"@ {
        Some(PermissionMode::Delegate)
    } else if s == "dontAsk"@ {
        Some(PermissionMode::DontAsk)
    } else {
        None
    }
}

impl PermissionMode {
    /// The wire name.
    pub fn name(&self) -> (r: String)
        ensures
            r@ == permission_mode_name(*self),
    {
        match self {
            PermissionMode::Default => text("default"),
            PermissionMode::AcceptEdits => text("acceptEdits"),
            PermissionMode::BypassPermissions => text("bypassPermissions"),
            PermissionMode::Plan => text("plan"),
            PermissionMode::Delegate => text("delegate"),
            PermissionMode::DontAsk => text("dontAsk"),
        }
    }

    /// The value with the given wire name, if any.
    pub fn from_name(s: &String) -> (r: Option<PermissionMode>)
        ensures
            r == permission_mode_named(s@),
    {
        if *s == text("default") {
            Some(PermissionMode::Default)
        } else if *s == text("acceptEdits") {
            Some(PermissionMode::AcceptEdits)
        } else if *s == text("bypassPermissions") {
            Some(PermissionMode::BypassPermissions)
        } else if *s == text("plan") {
            Some(PermissionMode::Plan)
        } else if *s == text("delegate") {
            Some(PermissionMode::Delegate)
        } else if *s == text("dontAsk") {
            Some(PermissionMode::DontAsk)
        } else {
            None
        }
    }
}

impl Default for PermissionMode {
    fn default() -> (r: PermissionMode)
        ensures
            r == PermissionMode::Default,
    {
        PermissionMode::Default
    }
}
/// How risky a tool use is, as shown to the peer.
#[derive(PartialEq, Eq, Structural, Clone, Copy, Debug)]
pub enum RiskLevel {
    Low,
    Medium,
    High,
}

pub open spec fn risk_level_name(x: RiskLevel) -> Seq<char> {
    match x {
        RiskLevel::Low => "low"@,
        RiskLevel::Medium => "medium"@,
        RiskLevel::High => "high"@,
    }
}

pub open spec fn risk_level_named(s: Seq<char>) -> Option<RiskLevel> {
    if s == "low"@ {
        Some(RiskLevel::Low)
    } else if s == "medium"@ {
        Some(RiskLevel::Medium)
    } else if s == "high"@ {
        Some(RiskLevel::High)
    } else {
        None
    }
}

impl RiskLevel {
    /// The wire name.
    pub fn name(&self) -> (r: String)
        ensures
            r@ == risk_level_name(*self),
    {
        match self {
            RiskLevel::Low => text("low"),
            RiskLevel::Medium => text("medium"),
            RiskLevel::High => text("high"),
        }
    }

    /// The value with the given wire name, if any.
    pub fn from_name(s: &String) -> (r: Option<RiskLevel>)
        ensures
            r == risk_level_named(s@),
    {
        if *s == text("low") {
            Some(RiskLevel::Low)
        } else if *s == text("medium") {
            Some(RiskLevel::Medium)
        } else if *s == text("high") {
            Some(RiskLevel::High)
        } else {
            None
        }
    }
}

impl Default for RiskLevel {
    fn default() -> (r: RiskLevel)
        ensures
            r == RiskLevel::Medium,
    {
        RiskLevel::Medium
    }
}
/// The status of a session as reported to the peer.
#[derive(PartialEq, Eq, Structural, Clone, Copy, Debug)]
pub enum SessionStatus {
    Active,
    Paused,
    Completed,
    Interrupted,
    Error,
}

pub open spec fn session_status_name(x: SessionStatus) -> Seq<char> {
    match x {
        SessionStatus::Active => "active"@,
        SessionStatus::Paused => "paused"@,
        SessionStatus::Completed => "completed"@,
        SessionStatus::Interrupted => "interrupted"@,
        SessionStatus::Error => "error"@,
    }
}

pub open spec fn session_status_named(s: Seq<char>) -> Option<SessionStatus> {
    if s == "active"@ {
        Some(SessionStatus::Active)
    } else if s == "paused"@ {
        Some(SessionStatus::Paused)
    } else if s == "completed"@ {
        Some(SessionStatus::Completed)
    } else if s == "interrupted"@ {
        Some(SessionStatus::Interrupted)
    } else if s == "error"@ {
        Some(SessionStatus::Error)
    } else {
        None
    }
}

impl SessionStatus {
    /// The wire name.
    pub fn name(&self) -> (r: String)
        ensures
            r@ == session_status_name(*self),
    {
        match self {
            SessionStatus::Active => text("active"),
            SessionStatus::Paused => text("paused"),
            SessionStatus::Completed => text("completed"),
            SessionStatus::Interrupted => text("interrupted"),
            SessionStatus::Error => text("error"),
        }
    }

    /// The value with the given wire name, if any.
    pub fn from_name(s: &String) -> (r: Option<SessionStatus>)
        ensures
            r == session_status_named(s@),
    {
        if *s == text("active") {
            Some(SessionStatus::Active)
        } else if *s == text("paused") {
            Some(SessionStatus::Paused)
        } else if *s == text("completed") {
            Some(SessionStatus::Completed)
        } else if *s == text("interrupted") {
            Some(SessionStatus::Interrupted)
        } else if *s == text("error") {
            Some(SessionStatus::Error)
        } else {
            None
        }
    }
}
/// How a turn ended.
#[derive(PartialEq, Eq, Structural, Clone, Copy, Debug)]
pub enum ResultSubtype {
    Success,
    Error,
    Interrupted,
}

pub open spec fn result_subtype_name(x: ResultSubtype) -> Seq<char> {
    match x {
        ResultSubtype::Success => "success"@,
        ResultSubtype::Error => "error"@,
        ResultSubtype::Interrupted => "interrupted"@,
    }
}

pub open spec fn result_subtype_named(s: Seq<char>) -> Option<ResultSubtype> {
    if s == "success"@ {
        Some(ResultSubtype::Success)
    } else if s == "error"@ {
        Some(ResultSubtype::Error)
    } else if s == "interrupted"@ {
        Some(ResultSubtype::Interrupted)
    } else {
        None
    }
}

impl ResultSubtype {
    /// The wire name.
    pub fn name(&self) -> (r: String)
        ensures
            r@ == result_subtype_name(*self),
    {
        match self {
            ResultSubtype::Success => text("success"),
            ResultSubtype::Error => text("error"),
            ResultSubtype::Interrupted => text("interrupted"),
        }
    }

    /// The value with the given wire name, if any.
    pub fn from_name(s: &String) -> (r: Option<ResultSubtype>)
        ensures
            r == result_subtype_named(s@),
    {
        if *s == text("success") {
            Some(ResultSubtype::Success)
        } else if *s == text("error") {
            Some(ResultSubtype::Error)
        } else if *s == text("interrupted") {
            Some(ResultSubtype::Interrupted)
        } else {
            None
        }
    }
}
/// What happened to a file.
#[derive(PartialEq, Eq, Structural, Clone, Copy, Debug)]
pub enum FileOperation {
    Create,
    Update,
    Delete,
}

pub open spec fn file_operation_name(x: FileOperation) -> Seq<char> {
    match x {
        FileOperation::Create => "create"@,
        FileOperation::Update => "update"@,
        FileOperation::Delete => "delete"@,
    }
}

pub open spec fn file_operation_named(s: Seq<char>) -> Option<FileOperation> {
    if s == "create"@ {
        Some(FileOperation::Create)
    } else if s == "update"@ {
        Some(FileOperation::Update)
    } else if s == "delete"@ {
        Some(FileOperation::Delete)
    } else {
        None
    }
}

impl FileOperation {
    /// The wire name.
    pub fn name(&self) -> (r: String)
        ensures
            r@ == file_operation_name(*self),
    {
        match self {
            FileOperation::Create => text("create"),
            FileOperation::Update => text("update"),
            FileOperation::Delete => text("delete"),
        }
    }

    /// The value with the given wire name, if any.
    pub fn from_name(s: &String) -> (r: Option<FileOperation>)
        ensures
            r == file_operation_named(s@),
    {
        if *s == text("create") {
            Some(FileOperation::Create)
        } else if *s == text("update") {
            Some(FileOperation::Update)
        } else if *s == text("delete") {
            Some(FileOperation::Delete)
        } else {
            None
        }
    }
}
/// The control requests a peer may send.
#[derive(PartialEq, Eq, Structural, Clone, Copy, Debug)]
pub enum ControlSubtype {
    Interrupt,
}

pub open spec fn control_subtype_name(x: ControlSubtype) -> Seq<char> {
    match x {
        ControlSubtype::Interrupt => "interrupt"@,
    }
}

pub open spec fn control_subtype_named(s: Seq<char>) -> Option<ControlSubtype> {
    if s == "interrupt"@ {
        Some(ControlSubtype::Interrupt)
    } else {
        None
    }
}

impl ControlSubtype {
    /// The wire name.
    pub fn name(&self) -> (r: String)
        ensures
            r@ == control_subtype_name(*self),
    {
        match self {
            ControlSubtype::Interrupt => text("interrupt"),
        }
    }

    /// The value with the given wire name, if any.
    pub fn from_name(s: &String) -> (r: Option<ControlSubtype>)
        ensures
            r == control_subtype_named(s@),
    {
        if *s == text("interrupt") {
            Some(ControlSubtype::Interrupt)
        } else {
            None
        }
    }
}
/// How full the context window is.
#[derive(PartialEq, Eq, Structural, Clone, Copy, Debug)]
pub enum ContextWarningLevel {
    Normal,
    Medium,
    High,
    Critical,
}

pub open spec fn context_warning_level_name(x: ContextWarningLevel) -> Seq<char> {
    match x {
        ContextWarningLevel::Normal => "normal"@,
        ContextWarningLevel::Medium => "medium"@,
        ContextWarningLevel::High => "high"@,
        ContextWarningLevel::Critical => "critical"@,
    }
}

pub open spec fn context_warning_level_named(s: Seq<char>) -> Option<ContextWarningLevel> {
    if s == "normal"@ {
        Some(ContextWarningLevel::Normal)
    } else if s == "medium"@ {
        Some(ContextWarningLevel::Medium)
    } else if s == "high"@ {
        Some(ContextWarningLevel::High)
    } else if s == "critical"@ {
        Some(ContextWarningLevel::Critical)
    } else {
        None
    }
}

impl ContextWarningLevel {
    /// The wire name.
    pub fn name(&self) -> (r: String)
        ensures
            r@ == context_warning_level_name(*self),
    {
        match self {
            ContextWarningLevel::Normal => text("normal"),
            ContextWarningLevel::Medium => text("medium"),
            ContextWarningLevel::High => text("high"),
            ContextWarningLevel::Critical => text("critical"),
        }
    }

    /// The value with the given wire name, if any.
    pub fn from_name(s: &String) -> (r: Option<ContextWarningLevel>)
        ensures
            r == context_warning_level_named(s@),
    {
        if *s == text("normal") {
            Some(ContextWarningLevel::Normal)
        } else if *s == text("medium") {
            Some(ContextWarningLevel::Medium)
        } else if *s == text("high") {
            Some(ContextWarningLevel::High)
        } else if *s == text("critical") {
            Some(ContextWarningLevel::Critical)
        } else {
            None
        }
    }
}

impl Default for ContextWarningLevel {
    fn default() -> (r: ContextWarningLevel)
        ensures
            r == ContextWarningLevel::Normal,
    {
        ContextWarningLevel::Normal
    }
}
/// Context shown to the peer with a permission request.
pub struct PermissionContext {
    pub description: String,
    pub risk_level: RiskLevel,
}

/// The permission mode to use: the one given, else the default one.
pub fn convert_permission_mode(mode: Option<PermissionMode>) -> (r: PermissionMode)
    ensures
        r == match mode {
            Some(m) => m,
            None => PermissionMode::Default,
        },
{
    match mode {
        Some(m) => m,
        None => PermissionMode::Default,
    }
}

/// The value a missing `success` flag takes.
pub fn default_true() -> (r: bool)
    ensures
        r,
{
    true
}

/// Context window usage against its limit.
pub struct ContextWindowState {
    pub current_tokens: i64,
    pub max_tokens: i64,
    pub has_compacted: bool,
    pub compaction_count: u32,
}

/// The warning level for `current` tokens used out of `max`: critical from
/// 95%, high from 90%, medium from 80%; a limit that is not positive counts
/// as no usage.
pub open spec fn warning_level_spec(current: int, max: int) -> ContextWarningLevel {
    if max <= 0 {
        ContextWarningLevel::Normal
    } else if 100 * current >= 95 * max {
        ContextWarningLevel::Critical
    } else if 100 * current >= 90 * max {
        ContextWarningLevel::High
    } else if 100 * current >= 80 * max {
        ContextWarningLevel::Medium
    } else {
        ContextWarningLevel::Normal
    }
}

impl ContextWindowState {
    pub fn warning_level(&self) -> (r: ContextWarningLevel)
        ensures
            r == warning_level_spec(self.current_tokens as int, self.max_tokens as int),
    {
        if self.max_tokens <= 0 {
            return ContextWarningLevel::Normal;
        }
        let used: i128 = 100i128 * (self.current_tokens as i128);
        let max: i128 = self.max_tokens as i128;
        if used >= 95i128 * max {
            ContextWarningLevel::Critical
        } else if used >= 90i128 * max {
            ContextWarningLevel::High
        } else if used >= 80i128 * max {
            ContextWarningLevel::Medium
        } else {
            ContextWarningLevel::Normal
        }
    }
}

} // verus!

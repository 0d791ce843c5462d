//! Data types and capability catalogue for the scripting subsystem.

use crate::strset::{lemma_views_push, views};
use crate::text::{copy_opt, owned, opt_view};
use vstd::prelude::*;

verus! {

/// Stable identifier for the runtime used by a script or plugin guest.
#[derive(Debug, Clone, Copy, PartialEq, Eq, Structural)]
pub enum ScriptRuntimeKind {
    /// Lightweight embedded Rhai workflow.
    Rhai,
    /// Stronger-isolation WebAssembly component guest.
    WasmComponent,
    /// Optional polyglot guest reserved for later compatibility needs.
    Python,
}

impl Default for ScriptRuntimeKind {
    fn default() -> (r: Self)
        ensures
            r == ScriptRuntimeKind::Rhai,
    {
        ScriptRuntimeKind::Rhai
    }
}

/// The identifier of a runtime kind.
pub open spec fn runtime_identifier(kind: ScriptRuntimeKind) -> Seq<char> {
    match kind {
        ScriptRuntimeKind::Rhai => "rhai"@,
        ScriptRuntimeKind::WasmComponent => "wasm-component"@,
        ScriptRuntimeKind::Python => "python"@,
    }
}

impl ScriptRuntimeKind {
    /// Returns the stable runtime identifier used across FFI and audit records.
    pub fn identifier(&self) -> (r: &'static str)
        ensures
            r@ == runtime_identifier(*self),
    {
        match self {
            ScriptRuntimeKind::Rhai => "rhai",
            ScriptRuntimeKind::WasmComponent => "wasm-component",
            ScriptRuntimeKind::Python => "python",
        }
    }
}

/// Capability that a script can request and the runtime can enforce.
#[derive(Debug, Clone)]
pub struct ScriptCapability {
    /// Stable capability name such as `model.chat` or `memory.read`.
    pub name: String,
    /// Human-readable description of what the capability unlocks.
    pub description: String,
    /// Optional scope suffix (for example a tool name or path scope).
    pub scope: Option<String>,
}

impl Default for ScriptCapability {
    fn default() -> (r: Self)
        ensures
            r.name@ == Seq::<char>::empty(),
            r.description@ == Seq::<char>::empty(),
            r.scope is None,
    {
        ScriptCapability { name: String::new(), description: String::new(), scope: None }
    }
}

/// A capability as three character sequences: name, description, scope.
pub open spec fn capability_view(c: ScriptCapability) -> (Seq<char>, Seq<char>, Option<Seq<char>>) {
    (c.name@, c.description@, opt_view(c.scope))
}

/// Resource limits enforced for every script execution.
#[derive(Debug, Clone, Copy, PartialEq, Eq, Structural)]
pub struct ScriptLimits {
    /// Maximum Rhai operations before termination.
    pub max_operations: u64,
    /// Maximum function call depth.
    pub max_call_levels: usize,
    /// Maximum expression nesting depth.
    pub max_expr_depth: usize,
    /// Maximum size of a single string in bytes.
    pub max_string_size: usize,
    /// Maximum array length.
    pub max_array_size: usize,
    /// Maximum map length.
    pub max_map_size: usize,
    /// Maximum raw source size accepted for a single script.
    pub max_script_bytes: usize,
}

/// The default limits.
pub open spec fn default_limits() -> ScriptLimits {
    ScriptLimits {
        max_operations: 100_000,
        max_call_levels: 16,
        max_expr_depth: 32,
        max_string_size: 65536,
        max_array_size: 1024,
        max_map_size: 256,
        max_script_bytes: 131072,
    }
}

impl Default for ScriptLimits {
    fn default() -> (r: Self)
        ensures
            r == default_limits(),
    {
        ScriptLimits {
            max_operations: 100_000,
            max_call_levels: 16,
            max_expr_depth: 32,
            max_string_size: 64 * 1024,
            max_array_size: 1_024,
            max_map_size: 256,
            max_script_bytes: 128 * 1024,
        }
    }
}

impl ScriptLimits {
    /// Limits for agent eval_script: 10M operations (100x default) to
    /// support batch data processing. All other limits match default.
    pub fn for_agent_eval() -> (r: Self)
        ensures
            r == (ScriptLimits { max_operations: 10_000_000, ..default_limits() }),
    {
        ScriptLimits { max_operations: 10_000_000, ..ScriptLimits::default() }
    }
}

/// Trigger metadata for packaged scripts.
#[derive(Debug)]
pub struct ScriptTrigger {
    /// Trigger type such as `manual`, `cron`, `channel_event`, or `provider_event`.
    pub kind: String,
    /// Optional cron schedule when `kind == "cron"`.
    pub schedule: Option<String>,
    /// Optional event name for event-driven triggers.
    pub event: Option<String>,
    /// Optional channel selector.
    pub channel: Option<String>,
    /// Optional provider selector.
    pub provider: Option<String>,
    /// Optional script name when multiple scripts share one manifest.
    pub script: Option<String>,
}

impl Default for ScriptTrigger {
    fn default() -> (r: Self)
        ensures
            r.kind@ == Seq::<char>::empty(),
            r.schedule is None,
            r.event is None,
            r.channel is None,
            r.provider is None,
            r.script is None,
    {
        ScriptTrigger {
            kind: String::new(),
            schedule: None,
            event: None,
            channel: None,
            provider: None,
            script: None,
        }
    }
}

/// Manifest metadata describing one script entrypoint.
#[derive(Debug)]
pub struct ScriptManifest {
    /// Display name or stable identifier.
    pub name: String,
    /// Semantic version string.
    pub version: String,
    /// Optional short description.
    pub description: Option<String>,
    /// Runtime kind used for execution.
    pub runtime: ScriptRuntimeKind,
    /// Optional entrypoint or export name.
    pub entrypoint: Option<String>,
    /// Optional path relative to the workspace or skill root.
    pub script_path: Option<String>,
    /// Explicitly granted capabilities for this execution.
    pub capabilities: Vec<String>,
    /// Whether the caller explicitly supplied the capability grant set.
    pub explicit_capabilities: bool,
    /// Trigger metadata for packaged workflows.
    pub triggers: Vec<ScriptTrigger>,
    /// Per-script resource limits.
    pub limits: ScriptLimits,
}

impl Default for ScriptManifest {
    fn default() -> (r: Self)
        ensures
            r.name@ == Seq::<char>::empty(),
            r.version@ == Seq::<char>::empty(),
            r.description is None,
            r.runtime == ScriptRuntimeKind::Rhai,
            r.entrypoint is None,
            r.script_path is None,
            r.capabilities@.len() == 0,
            !r.explicit_capabilities,
            r.triggers@.len() == 0,
            r.limits == default_limits(),
    {
        ScriptManifest {
            name: String::new(),
            version: String::new(),
            description: None,
            runtime: ScriptRuntimeKind::Rhai,
            entrypoint: None,
            script_path: None,
            capabilities: Vec::new(),
            explicit_capabilities: false,
            triggers: Vec::new(),
            limits: ScriptLimits::default(),
        }
    }
}

/// The plain values of a trigger: kind, schedule, event, channel, provider
/// and script.
pub type TriggerView = (
    Seq<char>,
    Option<Seq<char>>,
    Option<Seq<char>>,
    Option<Seq<char>>,
    Option<Seq<char>>,
    Option<Seq<char>>,
);

impl View for ScriptTrigger {
    type V = TriggerView;

    open spec fn view(&self) -> TriggerView {
        (
            self.kind@,
            opt_view(self.schedule),
            opt_view(self.event),
            opt_view(self.channel),
            opt_view(self.provider),
            opt_view(self.script),
        )
    }
}

impl Clone for ScriptTrigger {
    fn clone(&self) -> (r: Self)
        ensures
            r@ == self@,
    {
        ScriptTrigger {
            kind: self.kind.clone(),
            schedule: copy_opt(&self.schedule),
            event: copy_opt(&self.event),
            channel: copy_opt(&self.channel),
            provider: copy_opt(&self.provider),
            script: copy_opt(&self.script),
        }
    }
}

/// The views of a sequence of triggers.
pub open spec fn trigger_views(ts: Seq<ScriptTrigger>) -> Seq<TriggerView> {
    ts.map_values(|t: ScriptTrigger| t@)
}

/// The plain values a manifest holds.
#[verifier::ext_equal]
pub struct ManifestView {
    pub name: Seq<char>,
    pub version: Seq<char>,
    pub description: Option<Seq<char>>,
    pub runtime: ScriptRuntimeKind,
    pub entrypoint: Option<Seq<char>>,
    pub script_path: Option<Seq<char>>,
    pub capabilities: Seq<Seq<char>>,
    pub explicit_capabilities: bool,
    pub triggers: Seq<TriggerView>,
    pub limits: ScriptLimits,
}

impl View for ScriptManifest {
    type V = ManifestView;

    open spec fn view(&self) -> ManifestView {
        ManifestView {
            name: self.name@,
            version: self.version@,
            description: opt_view(self.description),
            runtime: self.runtime,
            entrypoint: opt_view(self.entrypoint),
            script_path: opt_view(self.script_path),
            capabilities: views(self.capabilities@),
            explicit_capabilities: self.explicit_capabilities,
            triggers: trigger_views(self.triggers@),
            limits: self.limits,
        }
    }
}

/// A copy of a vector of strings.
pub fn copy_string_vec(v: &Vec<String>) -> (r: Vec<String>)
    ensures
        views(r@) == views(v@),
{
    let mut r: Vec<String> = Vec::new();
    let mut i: usize = 0;
    while i < v.len()
        invariant
            i <= v@.len(),
            views(r@) == views(v@.take(i as int)),
        decreases v.len() - i,
    {
        let ghost before = r@;
        let s = v[i].clone();
        r.push(s);
        proof {
            lemma_views_push(before, s);
            lemma_views_push(v@.take(i as int), v@[i as int]);
            assert(v@.take(i + 1) == v@.take(i as int).push(v@[i as int]));
        }
        i = i + 1;
    }
    assert(v@.take(v.len() as int) == v@);
    r
}

/// A copy of a vector of triggers.
pub fn copy_triggers(v: &Vec<ScriptTrigger>) -> (r: Vec<ScriptTrigger>)
    ensures
        trigger_views(r@) == trigger_views(v@),
{
    let mut r: Vec<ScriptTrigger> = Vec::new();
    let mut i: usize = 0;
    while i < v.len()
        invariant
            i <= v@.len(),
            trigger_views(r@) == trigger_views(v@.take(i as int)),
        decreases v.len() - i,
    {
        let ghost before = r@;
        let t = v[i].clone();
        r.push(t);
        proof {
            assert(trigger_views(r@) =~= trigger_views(before).push(t@));
            assert(v@.take(i + 1) == v@.take(i as int).push(v@[i as int]));
            assert(trigger_views(v@.take(i + 1)) =~= trigger_views(v@.take(i as int)).push(
                v@[i as int]@,
            ));
        }
        i = i + 1;
    }
    assert(v@.take(v.len() as int) == v@);
    r
}

impl Clone for ScriptManifest {
    fn clone(&self) -> (r: Self)
        ensures
            r@ == self@,
    {
        ScriptManifest {
            name: self.name.clone(),
            version: self.version.clone(),
            description: copy_opt(&self.description),
            runtime: self.runtime,
            entrypoint: copy_opt(&self.entrypoint),
            script_path: copy_opt(&self.script_path),
            capabilities: copy_string_vec(&self.capabilities),
            explicit_capabilities: self.explicit_capabilities,
            triggers: copy_triggers(&self.triggers),
            limits: self.limits,
        }
    }
}

/// Result of script preflight validation.
#[derive(Debug, Clone)]
pub struct ScriptValidation {
    /// Normalised manifest name.
    pub manifest_name: String,
    /// Runtime kind that would be used to execute the script.
    pub runtime: ScriptRuntimeKind,
    /// Capabilities the script requests for the next run.
    pub requested_capabilities: Vec<String>,
    /// Capabilities inferred from source but missing from the explicit manifest.
    pub missing_capabilities: Vec<String>,
    /// Non-fatal validation warnings.
    pub warnings: Vec<String>,
    /// All capabilities the runtime knows how to enforce.
    pub available_capabilities: Vec<String>,
}

/// Audit record emitted for validation and execution traces.
#[derive(Debug, Clone)]
pub struct ScriptAuditRecord {
    /// Script name or fallback identifier.
    pub script_name: String,
    /// Runtime kind that handled the script.
    pub runtime: ScriptRuntimeKind,
    /// Whether the operation succeeded.
    pub success: bool,
    /// Capabilities requested for the run.
    pub requested_capabilities: Vec<String>,
    /// Capabilities the script attempted to use.
    pub attempted_capabilities: Vec<String>,
    /// Capabilities that were actually granted and used.
    pub used_capabilities: Vec<String>,
    /// Missing capabilities compared with the explicit manifest.
    pub missing_capabilities: Vec<String>,
    /// Warning messages gathered during validation.
    pub warnings: Vec<String>,
    /// Optional error detail.
    pub error: Option<String>,
    /// Execution duration in milliseconds.
    pub duration_ms: u128,
}

/// Advertised availability for current and future guest runtimes.
#[derive(Debug, Clone)]
pub struct ScriptPluginRuntime {
    /// Runtime kind.
    pub kind: ScriptRuntimeKind,
    /// Whether the runtime is currently available in this build.
    pub available: bool,
    /// Whether the runtime isolates guest code more strongly than Rhai.
    pub isolates_guest: bool,
    /// Human-readable note describing the current state.
    pub notes: String,
}

/// Operation that the scripting runtime can invoke on the host.
#[derive(Debug, Clone, Copy, PartialEq, Eq, Hash, Structural)]
pub enum ScriptOperation {
    Status,
    Version,
    SendMessage,
    SendVision,
    ValidateConfig,
    RunningConfig,
    BindChannelIdentity,
    ChannelAllowlist,
    SwapProvider,
    HealthDetail,
    HealthComponent,
    DoctorChannels,
    CostSummary,
    DailyCost,
    MonthlyCost,
    CheckBudget,
    RecentEvents,
    ListCronJobs,
    GetCronJob,
    AddCronJob,
    AddOneShotJob,
    AddCronJobAt,
    AddCronJobEvery,
    RemoveCronJob,
    PauseCronJob,
    ResumeCronJob,
    ListSkills,
    GetSkillTools,
    InstallSkill,
    RemoveSkill,
    ListTools,
    ListMemories,
    ListMemoriesByCategory,
    RecallMemory,
    ForgetMemory,
    MemoryCount,
    EngageEStop,
    GetEStopStatus,
    ResumeEStop,
    QueryTraces,
    QueryTracesByFilter,
    ListAuthProfiles,
    RemoveAuthProfile,
    DiscoverModels,
    DiscoverModelsWithKey,
    DiscoverModelsWithKeyAndBaseUrl,
    InvokeTool,
    ReadStorage,
    WriteStorage,
    DeleteStorage,
}

/// The script-facing name of an operation.
pub open spec fn operation_display_name(op: ScriptOperation) -> Seq<char> {
    match op {
        ScriptOperation::Status => "status"@,
        ScriptOperation::Version => "version"@,
        ScriptOperation::SendMessage => "send"@,
        ScriptOperation::SendVision => "send_vision"@,
        ScriptOperation::ValidateConfig => "validate_config"@,
        ScriptOperation::RunningConfig => "config"@,
        ScriptOperation::BindChannelIdentity => "bind"@,
        ScriptOperation::ChannelAllowlist => "allowlist"@,
        ScriptOperation::SwapProvider => "swap_provider"@,
        ScriptOperation::HealthDetail => "health"@,
        ScriptOperation::HealthComponent => "health_component"@,
        ScriptOperation::DoctorChannels => "doctor"@,
        ScriptOperation::CostSummary => "cost"@,
        ScriptOperation::DailyCost => "cost_daily"@,
        ScriptOperation::MonthlyCost => "cost_monthly"@,
        ScriptOperation::CheckBudget => "budget"@,
        ScriptOperation::RecentEvents => "events"@,
        ScriptOperation::ListCronJobs => "cron_list"@,
        ScriptOperation::GetCronJob => "cron_get"@,
        ScriptOperation::AddCronJob => "cron_add"@,
        ScriptOperation::AddOneShotJob => "cron_oneshot"@,
        ScriptOperation::AddCronJobAt => "cron_add_at"@,
        ScriptOperation::AddCronJobEvery => "cron_add_every"@,
        ScriptOperation::RemoveCronJob => "cron_remove"@,
        ScriptOperation::PauseCronJob => "cron_pause"@,
        ScriptOperation::ResumeCronJob => "cron_resume"@,
        ScriptOperation::ListSkills => "skills"@,
        ScriptOperation::GetSkillTools => "skill_tools"@,
        ScriptOperation::InstallSkill => "skill_install"@,
        ScriptOperation::RemoveSkill => "skill_remove"@,
        ScriptOperation::ListTools => "tools"@,
        ScriptOperation::ListMemories => "memories"@,
        ScriptOperation::ListMemoriesByCategory => "memories_by_category"@,
        ScriptOperation::RecallMemory => "memory_recall"@,
        ScriptOperation::ForgetMemory => "memory_forget"@,
        ScriptOperation::MemoryCount => "memory_count"@,
        ScriptOperation::EngageEStop => "estop"@,
        ScriptOperation::GetEStopStatus => "estop_status"@,
        ScriptOperation::ResumeEStop => "estop_resume"@,
        ScriptOperation::QueryTraces => "traces"@,
        ScriptOperation::QueryTracesByFilter => "traces_filter"@,
        ScriptOperation::ListAuthProfiles => "auth_list"@,
        ScriptOperation::RemoveAuthProfile => "auth_remove"@,
        ScriptOperation::DiscoverModels => "models"@,
        ScriptOperation::DiscoverModelsWithKey => "models_with_key"@,
        ScriptOperation::DiscoverModelsWithKeyAndBaseUrl => "models_full"@,
        ScriptOperation::InvokeTool => "tool_call"@,
        ScriptOperation::ReadStorage => "storage_read"@,
        ScriptOperation::WriteStorage => "storage_write"@,
        ScriptOperation::DeleteStorage => "storage_delete"@,
    }
}

/// The capability an operation requires.
pub open spec fn operation_capability(op: ScriptOperation) -> Seq<char> {
    match op {
        ScriptOperation::Status => "agent.read"@,
        ScriptOperation::Version => "agent.read"@,
        ScriptOperation::SendMessage => "model.chat"@,
        ScriptOperation::SendVision => "model.chat"@,
        ScriptOperation::ValidateConfig => "config.validate"@,
        ScriptOperation::RunningConfig => "agent.read"@,
        ScriptOperation::BindChannelIdentity => "channel.write"@,
        ScriptOperation::ChannelAllowlist => "channel.read"@,
        ScriptOperation::SwapProvider => "provider.write"@,
        ScriptOperation::HealthDetail => "agent.read"@,
        ScriptOperation::HealthComponent => "agent.read"@,
        ScriptOperation::DoctorChannels => "agent.read"@,
        ScriptOperation::CostSummary => "cost.read"@,
        ScriptOperation::DailyCost => "cost.read"@,
        ScriptOperation::MonthlyCost => "cost.read"@,
        ScriptOperation::CheckBudget => "cost.read"@,
        ScriptOperation::RecentEvents => "events.read"@,
        ScriptOperation::ListCronJobs => "cron.read"@,
        ScriptOperation::GetCronJob => "cron.read"@,
        ScriptOperation::AddCronJob => "cron.write"@,
        ScriptOperation::AddOneShotJob => "cron.write"@,
        ScriptOperation::AddCronJobAt => "cron.write"@,
        ScriptOperation::AddCronJobEvery => "cron.write"@,
        ScriptOperation::RemoveCronJob => "cron.write"@,
        ScriptOperation::PauseCronJob => "cron.write"@,
        ScriptOperation::ResumeCronJob => "cron.write"@,
        ScriptOperation::ListSkills => "skills.read"@,
        ScriptOperation::GetSkillTools => "skills.read"@,
        ScriptOperation::InstallSkill => "skills.write"@,
        ScriptOperation::RemoveSkill => "skills.write"@,
        ScriptOperation::ListTools => "tools.read"@,
        ScriptOperation::ListMemories => "memory.read"@,
        ScriptOperation::ListMemoriesByCategory => "memory.read"@,
        ScriptOperation::RecallMemory => "memory.read"@,
        ScriptOperation::ForgetMemory => "memory.write"@,
        ScriptOperation::MemoryCount => "memory.read"@,
        ScriptOperation::EngageEStop => "agent.control"@,
        ScriptOperation::GetEStopStatus => "agent.control"@,
        ScriptOperation::ResumeEStop => "agent.control"@,
        ScriptOperation::QueryTraces => "trace.read"@,
        ScriptOperation::QueryTracesByFilter => "trace.read"@,
        ScriptOperation::ListAuthProfiles => "auth.read"@,
        ScriptOperation::RemoveAuthProfile => "auth.write"@,
        ScriptOperation::DiscoverModels => "model.read"@,
        ScriptOperation::DiscoverModelsWithKey => "model.read"@,
        ScriptOperation::DiscoverModelsWithKeyAndBaseUrl => "model.read"@,
        ScriptOperation::InvokeTool => "tools.call"@,
        ScriptOperation::ReadStorage => "storage.read"@,
        ScriptOperation::WriteStorage => "storage.write"@,
        ScriptOperation::DeleteStorage => "storage.write"@,
    }
}

impl ScriptOperation {
    /// The script-facing name of this operation.
    pub fn display_name(self) -> (r: &'static str)
        ensures
            r@ == operation_display_name(self),
    {
        match self {
            ScriptOperation::Status => "status",
            ScriptOperation::Version => "version",
            ScriptOperation::SendMessage => "send",
            ScriptOperation::SendVision => "send_vision",
            ScriptOperation::ValidateConfig => "validate_config",
            ScriptOperation::RunningConfig => "config",
            ScriptOperation::BindChannelIdentity => "bind",
            ScriptOperation::ChannelAllowlist => "allowlist",
            ScriptOperation::SwapProvider => "swap_provider",
            ScriptOperation::HealthDetail => "health",
            ScriptOperation::HealthComponent => "health_component",
            ScriptOperation::DoctorChannels => "doctor",
            ScriptOperation::CostSummary => "cost",
            ScriptOperation::DailyCost => "cost_daily",
            ScriptOperation::MonthlyCost => "cost_monthly",
            ScriptOperation::CheckBudget => "budget",
            ScriptOperation::RecentEvents => "events",
            ScriptOperation::ListCronJobs => "cron_list",
            ScriptOperation::GetCronJob => "cron_get",
            ScriptOperation::AddCronJob => "cron_add",
            ScriptOperation::AddOneShotJob => "cron_oneshot",
            ScriptOperation::AddCronJobAt => "cron_add_at",
            ScriptOperation::AddCronJobEvery => "cron_add_every",
            ScriptOperation::RemoveCronJob => "cron_remove",
            ScriptOperation::PauseCronJob => "cron_pause",
            ScriptOperation::ResumeCronJob => "cron_resume",
            ScriptOperation::ListSkills => "skills",
            ScriptOperation::GetSkillTools => "skill_tools",
            ScriptOperation::InstallSkill => "skill_install",
            ScriptOperation::RemoveSkill => "skill_remove",
            ScriptOperation::ListTools => "tools",
            ScriptOperation::ListMemories => "memories",
            ScriptOperation::ListMemoriesByCategory => "memories_by_category",
            ScriptOperation::RecallMemory => "memory_recall",
            ScriptOperation::ForgetMemory => "memory_forget",
            ScriptOperation::MemoryCount => "memory_count",
            ScriptOperation::EngageEStop => "estop",
            ScriptOperation::GetEStopStatus => "estop_status",
            ScriptOperation::ResumeEStop => "estop_resume",
            ScriptOperation::QueryTraces => "traces",
            ScriptOperation::QueryTracesByFilter => "traces_filter",
            ScriptOperation::ListAuthProfiles => "auth_list",
            ScriptOperation::RemoveAuthProfile => "auth_remove",
            ScriptOperation::DiscoverModels => "models",
            ScriptOperation::DiscoverModelsWithKey => "models_with_key",
            ScriptOperation::DiscoverModelsWithKeyAndBaseUrl => "models_full",
            ScriptOperation::InvokeTool => "tool_call",
            ScriptOperation::ReadStorage => "storage_read",
            ScriptOperation::WriteStorage => "storage_write",
            ScriptOperation::DeleteStorage => "storage_delete",
        }
    }

    /// The capability the host requires before running this operation.
    pub fn capability(self) -> (r: &'static str)
        ensures
            r@ == operation_capability(self),
    {
        match self {
            ScriptOperation::Status => "agent.read",
            ScriptOperation::Version => "agent.read",
            ScriptOperation::SendMessage => "model.chat",
            ScriptOperation::SendVision => "model.chat",
            ScriptOperation::ValidateConfig => "config.validate",
            ScriptOperation::RunningConfig => "agent.read",
            ScriptOperation::BindChannelIdentity => "channel.write",
            ScriptOperation::ChannelAllowlist => "channel.read",
            ScriptOperation::SwapProvider => "provider.write",
            ScriptOperation::HealthDetail => "agent.read",
            ScriptOperation::HealthComponent => "agent.read",
            ScriptOperation::DoctorChannels => "agent.read",
            ScriptOperation::CostSummary => "cost.read",
            ScriptOperation::DailyCost => "cost.read",
            ScriptOperation::MonthlyCost => "cost.read",
            ScriptOperation::CheckBudget => "cost.read",
            ScriptOperation::RecentEvents => "events.read",
            ScriptOperation::ListCronJobs => "cron.read",
            ScriptOperation::GetCronJob => "cron.read",
            ScriptOperation::AddCronJob => "cron.write",
            ScriptOperation::AddOneShotJob => "cron.write",
            ScriptOperation::AddCronJobAt => "cron.write",
            ScriptOperation::AddCronJobEvery => "cron.write",
            ScriptOperation::RemoveCronJob => "cron.write",
            ScriptOperation::PauseCronJob => "cron.write",
            ScriptOperation::ResumeCronJob => "cron.write",
            ScriptOperation::ListSkills => "skills.read",
            ScriptOperation::GetSkillTools => "skills.read",
            ScriptOperation::InstallSkill => "skills.write",
            ScriptOperation::RemoveSkill => "skills.write",
            ScriptOperation::ListTools => "tools.read",
            ScriptOperation::ListMemories => "memory.read",
            ScriptOperation::ListMemoriesByCategory => "memory.read",
            ScriptOperation::RecallMemory => "memory.read",
            ScriptOperation::ForgetMemory => "memory.write",
            ScriptOperation::MemoryCount => "memory.read",
            ScriptOperation::EngageEStop => "agent.control",
            ScriptOperation::GetEStopStatus => "agent.control",
            ScriptOperation::ResumeEStop => "agent.control",
            ScriptOperation::QueryTraces => "trace.read",
            ScriptOperation::QueryTracesByFilter => "trace.read",
            ScriptOperation::ListAuthProfiles => "auth.read",
            ScriptOperation::RemoveAuthProfile => "auth.write",
            ScriptOperation::DiscoverModels => "model.read",
            ScriptOperation::DiscoverModelsWithKey => "model.read",
            ScriptOperation::DiscoverModelsWithKeyAndBaseUrl => "model.read",
            ScriptOperation::InvokeTool => "tools.call",
            ScriptOperation::ReadStorage => "storage.read",
            ScriptOperation::WriteStorage => "storage.write",
            ScriptOperation::DeleteStorage => "storage.write",
        }
    }
}

/// Script runtime error with deterministic categories.
#[derive(Debug, Clone, PartialEq, Eq)]
pub enum ScriptError {
    /// Caller-supplied input was invalid.
    InvalidArgument { detail: String },
    /// Script validation failed before execution.
    ValidationError { detail: String },
    /// The script attempted a capability it was not granted.
    CapabilityDenied {
        /// Operation name that was denied.
        operation: String,
        /// Missing capability.
        capability: String,
    },
    /// Host-side execution failed.
    HostError {
        /// Operation name that failed.
        operation: String,
        /// Failure detail.
        detail: String,
    },
    /// Internal state was corrupted.
    InternalState { detail: String },
}

/// The rendered text of a script error.
pub open spec fn script_error_text(e: ScriptError) -> Seq<char> {
    match e {
        ScriptError::InvalidArgument { detail } => "invalid argument: "@ + detail@,
        ScriptError::ValidationError { detail } => "validation error: "@ + detail@,
        ScriptError::CapabilityDenied { operation, capability } =>
            "capability denied for "@ + operation@ + ": "@ + capability@,
        ScriptError::HostError { operation, detail } =>
            "host error in "@ + operation@ + ": "@ + detail@,
        ScriptError::InternalState { detail } => "internal state corrupted: "@ + detail@,
    }
}

impl ScriptError {
    /// Renders the error as text, e.g. `"capability denied for send: model.chat"`.
    pub fn to_string(&self) -> (s: String)
        ensures
            s@ == script_error_text(*self),
    {
        match self {
            ScriptError::InvalidArgument { detail } => {
                let mut s = owned("invalid argument: ");
                crate::text::push_str(&mut s, detail.as_str());
                s
            },
            ScriptError::ValidationError { detail } => {
                let mut s = owned("validation error: ");
                crate::text::push_str(&mut s, detail.as_str());
                s
            },
            ScriptError::CapabilityDenied { operation, capability } => {
                let mut s = owned("capability denied for ");
                crate::text::push_str(&mut s, operation.as_str());
                crate::text::push_str(&mut s, ": ");
                crate::text::push_str(&mut s, capability.as_str());
                s
            },
            ScriptError::HostError { operation, detail } => {
                let mut s = owned("host error in ");
                crate::text::push_str(&mut s, operation.as_str());
                crate::text::push_str(&mut s, ": ");
                crate::text::push_str(&mut s, detail.as_str());
                s
            },
            ScriptError::InternalState { detail } => {
                let mut s = owned("internal state corrupted: ");
                crate::text::push_str(&mut s, detail.as_str());
                s
            },
        }
    }
}

/// The version given to a manifest whose version is blank.
pub open spec fn default_version() -> Seq<char> {
    "0.1.0"@
}

/// Returns the default manifest version, `"0.1.0"`.
pub fn default_script_version() -> (r: String)
    ensures
        r@ == default_version(),
{
    owned("0.1.0")
}

/// The canonical capability catalogue: name, description and scope of each
/// capability, in catalogue order.
pub open spec fn capability_catalogue() -> Seq<(Seq<char>, Seq<char>, Option<Seq<char>>)> {
    seq![
        ("agent.read"@, "Read runtime status, health, config, and diagnostic data."@, None),
        ("agent.control"@, "Control emergency-stop and other lifecycle-sensitive host actions."@, None),
        ("auth.read"@, "Inspect available provider auth-profile metadata."@, None),
        ("auth.write"@, "Remove provider auth-profile metadata."@, None),
        ("channel.read"@, "Inspect bound channel identities and allowlists."@, None),
        ("channel.write"@, "Mutate channel bindings and allowlists."@, None),
        ("config.validate"@, "Validate agent configuration text."@, None),
        ("cost.read"@, "Inspect budget and cost-tracking information."@, None),
        ("cron.read"@, "Inspect scheduled automation jobs."@, None),
        ("cron.write"@, "Create, pause, resume, or remove scheduled automation jobs."@, None),
        ("events.read"@, "Read recent runtime and channel events."@, None),
        ("fs.none"@, "Default deny: no direct filesystem access is exposed to scripts."@, None),
        ("memory.read"@, "Recall or list memory entries."@, None),
        ("memory.write"@, "Delete or mutate stored memory entries."@, None),
        ("model.chat"@, "Send model-backed messages through the agent."@, None),
        ("model.read"@, "Inspect model discovery metadata."@, None),
        ("net.none"@, "Default deny: scripts do not receive raw network access."@, None),
        ("provider.write"@, "Change active provider routing choices."@, None),
        ("shell.none"@, "Default deny: scripts do not receive raw shell access."@, None),
        ("skills.read"@, "Inspect installed skill metadata."@, None),
        ("skills.write"@, "Install or remove skills."@, None),
        ("tools.read"@, "Inspect the currently available tool registry."@, None),
        ("tools.call"@, "Invoke a registered tool by name"@, Some("tool-name"@)),
        ("storage.read"@, "Read script-scoped persistent storage"@, None),
        ("storage.write"@, "Write to script-scoped persistent storage"@, None),
        ("trace.read"@, "Inspect runtime trace history."@, None),
        ("tool.call:<tool-name>"@, "Reserved capability shape for stable plugin host tool invocation."@, Some("<tool-name>"@)),
        ("fs.read:<path-scope>"@, "Reserved capability shape for future path-scoped file reads."@, Some("<path-scope>"@)),
        ("fs.write:<path-scope>"@, "Reserved capability shape for future path-scoped file writes."@, Some("<path-scope>"@)),
    ]
}

/// Builds one catalogue entry.
fn capability(name: &str, description: &str, scope: Option<&str>) -> (c: ScriptCapability)
    ensures
        capability_view(c) == (name@, description@, match scope { Some(s) => Some(s@), None => None::<Seq<char>> }),
{
    ScriptCapability {
        name: owned(name),
        description: owned(description),
        scope: match scope {
            Some(s) => Some(owned(s)),
            None => None,
        },
    }
}

/// Returns the canonical capability catalogue enforced by the runtime.
pub fn default_script_capabilities() -> (r: Vec<ScriptCapability>)
    ensures
        r@.map_values(|c: ScriptCapability| capability_view(c)) == capability_catalogue(),
{
    let r = vec![
        capability("agent.read", "Read runtime status, health, config, and diagnostic data.", None),
        capability("agent.control", "Control emergency-stop and other lifecycle-sensitive host actions.", None),
        capability("auth.read", "Inspect available provider auth-profile metadata.", None),
        capability("auth.write", "Remove provider auth-profile metadata.", None),
        capability("channel.read", "Inspect bound channel identities and allowlists.", None),
        capability("channel.write", "Mutate channel bindings and allowlists.", None),
        capability("config.validate", "Validate agent configuration text.", None),
        capability("cost.read", "Inspect budget and cost-tracking information.", None),
        capability("cron.read", "Inspect scheduled automation jobs.", None),
        capability("cron.write", "Create, pause, resume, or remove scheduled automation jobs.", None),
        capability("events.read", "Read recent runtime and channel events.", None),
        capability("fs.none", "Default deny: no direct filesystem access is exposed to scripts.", None),
        capability("memory.read", "Recall or list memory entries.", None),
        capability("memory.write", "Delete or mutate stored memory entries.", None),
        capability("model.chat", "Send model-backed messages through the agent.", None),
        capability("model.read", "Inspect model discovery metadata.", None),
        capability("net.none", "Default deny: scripts do not receive raw network access.", None),
        capability("provider.write", "Change active provider routing choices.", None),
        capability("shell.none", "Default deny: scripts do not receive raw shell access.", None),
        capability("skills.read", "Inspect installed skill metadata.", None),
        capability("skills.write", "Install or remove skills.", None),
        capability("tools.read", "Inspect the currently available tool registry.", None),
        capability("tools.call", "Invoke a registered tool by name", Some("tool-name")),
        capability("storage.read", "Read script-scoped persistent storage", None),
        capability("storage.write", "Write to script-scoped persistent storage", None),
        capability("trace.read", "Inspect runtime trace history.", None),
        capability("tool.call:<tool-name>", "Reserved capability shape for stable plugin host tool invocation.", Some("<tool-name>")),
        capability("fs.read:<path-scope>", "Reserved capability shape for future path-scoped file reads.", Some("<path-scope>")),
        capability("fs.write:<path-scope>", "Reserved capability shape for future path-scoped file writes.", Some("<path-scope>")),
    ];
    assert(r@.map_values(|c: ScriptCapability| capability_view(c)) =~= capability_catalogue());
    r
}

/// The fixed capability set for agent `eval_script` runs; `model.chat` is
/// added only when the on-device model is available.
pub open spec fn agent_capabilities(nano_available: bool) -> Seq<Seq<char>> {
    let base = seq![
        "storage.read"@,
        "storage.write"@,
        "memory.read"@,
        "memory.write"@,
        "tools.read"@,
        "tools.call"@,
        "cost.read"@,
        "events.read"@,
        "config.validate"@,
    ];
    if nano_available {
        base.push("model.chat"@)
    } else {
        base
    }
}

/// Builds the fixed capability set for agent eval_script invocations.
pub fn build_agent_capabilities(nano_available: bool) -> (r: Vec<String>)
    ensures
        views(r@) == agent_capabilities(nano_available),
{
    let mut caps = vec![
        owned("storage.read"),
        owned("storage.write"),
        owned("memory.read"),
        owned("memory.write"),
        owned("tools.read"),
        owned("tools.call"),
        owned("cost.read"),
        owned("events.read"),
        owned("config.validate"),
    ];
    if nano_available {
        caps.push(owned("model.chat"));
    }
    assert(views(caps@) =~= agent_capabilities(nano_available));
    caps
}

/// The names of the catalogue's capabilities, in catalogue order.
pub open spec fn catalogue_names() -> Seq<Seq<char>> {
    capability_catalogue().map_values(|e: (Seq<char>, Seq<char>, Option<Seq<char>>)| e.0)
}

/// Lists the names of every capability the runtime enforces.
pub fn validation_available_capability_names() -> (r: Vec<String>)
    ensures
        views(r@) == catalogue_names(),
{
    let caps = default_script_capabilities();
    assert(caps@.len() == capability_catalogue().len()) by {
        assert(caps@.map_values(|c: ScriptCapability| capability_view(c)).len() == caps@.len());
    }
    let mut names: Vec<String> = Vec::new();
    let mut i: usize = 0;
    while i < caps.len()
        invariant
            i <= caps@.len(),
            caps@.map_values(|c: ScriptCapability| capability_view(c)) == capability_catalogue(),
            caps@.len() == capability_catalogue().len(),
            views(names@) == catalogue_names().take(i as int),
        decreases caps.len() - i,
    {
        let ghost before = names@;
        let nm = caps[i].name.clone();
        names.push(nm);
        proof {
            lemma_views_push(before, nm);
            assert(capability_catalogue()[i as int] == capability_view(caps@[i as int]));
            assert(catalogue_names()[i as int] == capability_catalogue()[i as int].0);
            assert(views(names@) =~= catalogue_names().take(i + 1));
        }
        i = i + 1;
    }
    assert(catalogue_names().take(caps.len() as int) =~= catalogue_names());
    names
}


/// The catalogue covers every capability the runtime enforces or grants:
/// the capability of each host operation, and each capability of an agent
/// `eval_script` run (with or without the on-device model), is the name
/// of a catalogue entry.
pub proof fn lemma_catalogue_covers(op: ScriptOperation, nano_available: bool)
    ensures
        catalogue_names().contains(operation_capability(op)),
        forall|i: int|
            0 <= i < agent_capabilities(nano_available).len() ==> catalogue_names().contains(
                #[trigger] agent_capabilities(nano_available)[i],
            ),
{
    let names = catalogue_names();
    assert(names.len() == 29);
    assert(names[0] == "agent.read"@);
    assert(names[1] == "agent.control"@);
    assert(names[2] == "auth.read"@);
    assert(names[3] == "auth.write"@);
    assert(names[4] == "channel.read"@);
    assert(names[5] == "channel.write"@);
    assert(names[6] == "config.validate"@);
    assert(names[7] == "cost.read"@);
    assert(names[8] == "cron.read"@);
    assert(names[9] == "cron.write"@);
    assert(names[10] == "events.read"@);
    assert(names[12] == "memory.read"@);
    assert(names[13] == "memory.write"@);
    assert(names[14] == "model.chat"@);
    assert(names[15] == "model.read"@);
    assert(names[17] == "provider.write"@);
    assert(names[19] == "skills.read"@);
    assert(names[20] == "skills.write"@);
    assert(names[21] == "tools.read"@);
    assert(names[22] == "tools.call"@);
    assert(names[23] == "storage.read"@);
    assert(names[24] == "storage.write"@);
    assert(names[25] == "trace.read"@);
    assert(names.contains(operation_capability(op)));
    let caps = agent_capabilities(nano_available);
    assert forall|i: int| 0 <= i < caps.len() implies names.contains(#[trigger] caps[i]) by {
        assert(names[0] == "agent.read"@);
        assert(names[6] == "config.validate"@);
        assert(names[7] == "cost.read"@);
        assert(names[10] == "events.read"@);
        assert(names[12] == "memory.read"@);
        assert(names[13] == "memory.write"@);
        assert(names[14] == "model.chat"@);
        assert(names[21] == "tools.read"@);
        assert(names[22] == "tools.call"@);
        assert(names[23] == "storage.read"@);
        assert(names[24] == "storage.write"@);
    }
}

/// Stub host that rejects all operations.
pub struct StubScriptHost;

impl StubScriptHost {
    /// The answer the stub host gives every operation: a host error naming
    /// the operation.
    pub fn call(&self, operation: ScriptOperation) -> (r: Result<(), ScriptError>)
        ensures
            r matches Err(ScriptError::HostError { operation: o, detail: d }) && o@
                == operation_display_name(operation) && d@ == "no host available in this context"@,
    {
        Err(
            ScriptError::HostError {
                operation: owned(operation.display_name()),
                detail: owned("no host available in this context"),
            },
        )
    }
}

} // verus!

use zeroai::scripting::capabilities::infer_capabilities;
use zeroai::scripting::manifest::{
    build_agent_capabilities, validation_available_capability_names, ScriptLimits, ScriptOperation,
};

#[test]
fn new_operations_have_correct_capabilities() {
    assert_eq!(ScriptOperation::InvokeTool.capability(), "tools.call");
    assert_eq!(ScriptOperation::InvokeTool.display_name(), "tool_call");
    assert_eq!(ScriptOperation::ReadStorage.capability(), "storage.read");
    assert_eq!(ScriptOperation::WriteStorage.capability(), "storage.write");
    assert_eq!(ScriptOperation::DeleteStorage.capability(), "storage.write");
}

#[test]
fn agent_eval_limits_have_higher_operations() {
    let agent = ScriptLimits::for_agent_eval();
    let default = ScriptLimits::default();
    assert_eq!(agent.max_operations, 10_000_000);
    assert_eq!(agent.max_call_levels, default.max_call_levels);
    assert_eq!(agent.max_expr_depth, default.max_expr_depth);
    assert_eq!(agent.max_string_size, default.max_string_size);
    assert_eq!(agent.max_array_size, default.max_array_size);
    assert_eq!(agent.max_map_size, default.max_map_size);
    assert_eq!(agent.max_script_bytes, default.max_script_bytes);
}

#[test]
fn agent_capabilities_without_nano() {
    let caps = build_agent_capabilities(false);
    assert!(caps.contains(&"storage.read".to_string()));
    assert!(caps.contains(&"storage.write".to_string()));
    assert!(caps.contains(&"memory.read".to_string()));
    assert!(caps.contains(&"memory.write".to_string()));
    assert!(caps.contains(&"tools.read".to_string()));
    assert!(caps.contains(&"tools.call".to_string()));
    assert!(caps.contains(&"cost.read".to_string()));
    assert!(caps.contains(&"events.read".to_string()));
    assert!(caps.contains(&"config.validate".to_string()));
    assert!(!caps.contains(&"model.chat".to_string()));
    assert!(!caps.contains(&"model.read".to_string()));
    assert!(!caps.contains(&"auth.read".to_string()));
    assert!(!caps.contains(&"trace.read".to_string()));
}

#[test]
fn agent_capabilities_with_nano() {
    let caps = build_agent_capabilities(true);
    assert!(caps.contains(&"model.chat".to_string()));
    assert!(!caps.contains(&"model.read".to_string()));
}

fn all_operations() -> Vec<ScriptOperation> {
    vec![
        ScriptOperation::Status,
        ScriptOperation::Version,
        ScriptOperation::SendMessage,
        ScriptOperation::SendVision,
        ScriptOperation::ValidateConfig,
        ScriptOperation::RunningConfig,
        ScriptOperation::BindChannelIdentity,
        ScriptOperation::ChannelAllowlist,
        ScriptOperation::SwapProvider,
        ScriptOperation::HealthDetail,
        ScriptOperation::HealthComponent,
        ScriptOperation::DoctorChannels,
        ScriptOperation::CostSummary,
        ScriptOperation::DailyCost,
        ScriptOperation::MonthlyCost,
        ScriptOperation::CheckBudget,
        ScriptOperation::RecentEvents,
        ScriptOperation::ListCronJobs,
        ScriptOperation::GetCronJob,
        ScriptOperation::AddCronJob,
        ScriptOperation::AddOneShotJob,
        ScriptOperation::AddCronJobAt,
        ScriptOperation::AddCronJobEvery,
        ScriptOperation::RemoveCronJob,
        ScriptOperation::PauseCronJob,
        ScriptOperation::ResumeCronJob,
        ScriptOperation::ListSkills,
        ScriptOperation::GetSkillTools,
        ScriptOperation::InstallSkill,
        ScriptOperation::RemoveSkill,
        ScriptOperation::ListTools,
        ScriptOperation::ListMemories,
        ScriptOperation::ListMemoriesByCategory,
        ScriptOperation::RecallMemory,
        ScriptOperation::ForgetMemory,
        ScriptOperation::MemoryCount,
        ScriptOperation::EngageEStop,
        ScriptOperation::GetEStopStatus,
        ScriptOperation::ResumeEStop,
        ScriptOperation::QueryTraces,
        ScriptOperation::QueryTracesByFilter,
        ScriptOperation::ListAuthProfiles,
        ScriptOperation::RemoveAuthProfile,
        ScriptOperation::DiscoverModels,
        ScriptOperation::DiscoverModelsWithKey,
        ScriptOperation::DiscoverModelsWithKeyAndBaseUrl,
        ScriptOperation::InvokeTool,
        ScriptOperation::ReadStorage,
        ScriptOperation::WriteStorage,
        ScriptOperation::DeleteStorage,
    ]
}

#[test]
fn recent_events_need_events_read() {
    assert_eq!(ScriptOperation::RecentEvents.capability(), "events.read");
    assert_eq!(infer_capabilities("events()"), vec!["events.read".to_string()]);
}

#[test]
fn each_operation_name_infers_its_capability() {
    let catalogue = validation_available_capability_names();
    let ops = all_operations();
    for (i, op) in ops.iter().enumerate() {
        let source = format!("{}()", op.display_name());
        assert_eq!(infer_capabilities(&source), vec![op.capability().to_string()]);
        assert!(catalogue.contains(&op.capability().to_string()));
        for other in &ops[i + 1..] {
            assert_ne!(op.display_name(), other.display_name());
        }
    }
    for nano in [false, true] {
        assert!(build_agent_capabilities(nano).iter().all(|c| catalogue.contains(c)));
    }
}

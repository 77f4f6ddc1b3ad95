use roku_agent_runtime::catalog::{CatalogDescriptor, ResourceKind, ResourceRisk};
use roku_agent_runtime::dispatch::{
    approved_scope_for_resume, finish_approved_invocation, finish_tool_invocation,
    prepare_approved_invocation, prepare_tool_invocation, render_conversation_history, tool_loop_step_summary, ExecutionResourceScope, RunRequest,
};
use roku_agent_runtime::json::{Json, JsonField};
use roku_agent_runtime::json_text::render_json;
use roku_agent_runtime::observation::{
    NextStepAction, NextStepDecision, ResourceSelector, StepAction, StepRecord, ToolObservation,
};
use roku_agent_runtime::result::{
    PolicyFact, PolicyOutcome, SandboxProfile, ToolExecution, ToolFailure, ToolFailureKind,
};
use roku_agent_runtime::status_result::{
    synthetic_loop_terminal_result, synthetic_status_result, tool_not_enabled_result,
};
use roku_agent_runtime::task::{ConversationRole, ConversationTurn, ResultStatus, TaskNode};
use roku_agent_runtime::trace::{
    project_execution_traces, CanonicalRef, TraceFacts, TracePolicy, TraceStage,
};
use serde_json::Value;

fn object(fields: Vec<(&str, Json)>) -> Json {
    Json::Object(
        fields
            .into_iter()
            .map(|(name, value)| JsonField { name: name.to_string(), value })
            .collect(),
    )
}

fn text(s: &str) -> Json {
    Json::Text(s.to_string())
}

fn selector(name: &str) -> ResourceSelector {
    ResourceSelector { name: name.to_string(), display_key: format!("tool:{name}") }
}

fn catalog() -> Vec<CatalogDescriptor> {
    vec![CatalogDescriptor {
        selector: selector("Read"),
        kind: ResourceKind::Tool,
        name: "Read".to_string(),
        discoverable: true,
        tags: Vec::new(),
        examples: Vec::new(),
        key_commands: Vec::new(),
        risk: ResourceRisk::Low,
        required_capabilities: vec!["fs.read".to_string()],
        has_contract: true,
    }]
}

fn turns() -> Vec<ConversationTurn> {
    vec![
        ConversationTurn { role: ConversationRole::User, content: "hi".to_string() },
        ConversationTurn { role: ConversationRole::Assistant, content: "hello".to_string() },
    ]
}

#[test]
fn an_invocation_tells_the_tool_of_its_run() {
    let history = turns();
    let request = RunRequest {
        task_id: "task-1",
        goal: "read it",
        conversation_history: &history,
        runtime_memory_sections: &Json::Null,
    };
    let prepared = prepare_tool_invocation(
        &catalog(),
        &request,
        &selector("Read"),
        &object(vec![("goal", text("mine")), ("path", text("a.txt"))]),
        &vec!["att".to_string()],
        &Vec::new(),
        "Executing",
    );
    assert_eq!(prepared.invocation.tool_name, "Read");
    assert_eq!(prepared.invocation.granted_capabilities, vec!["fs.read".to_string()]);
    assert_eq!(prepared.invocation.attachments, vec!["att".to_string()]);
    let input: Value =
        serde_json::from_str(&render_json(&prepared.invocation.input)).expect("it is json");
    assert_eq!(input["goal"], "mine", "an argument goes before what the run says");
    assert_eq!(input["path"], "a.txt");
    assert_eq!(input["task_id"], "task-1");
    assert_eq!(input["conversation_history"], "user: hi\nassistant: hello");
    assert_eq!(prepared.node.description, "Goal: read it\nStep: Executing");

    let result = finish_tool_invocation(
        prepared,
        &None,
        &Ok(ToolExecution {
            output: object(vec![("message", text("it says \"hi\""))]),
            attempts: 1,
            elapsed_ms: 3,
            output_fingerprint: "f".to_string(),
            sandbox_profile: SandboxProfile::NoIsolation,
        }),
    );
    assert_eq!(result.result.status, ResultStatus::Success);
    assert_eq!(result.message, "it says \"hi\"");
    assert_eq!(result.terminal_step_action, None);
}

#[test]
fn a_failed_run_says_why() {
    let history = Vec::new();
    let request = RunRequest {
        task_id: "t",
        goal: "g",
        conversation_history: &history,
        runtime_memory_sections: &Json::Null,
    };
    let prepared = prepare_tool_invocation(
        &catalog(),
        &request,
        &selector("Read"),
        &Json::Null,
        &Vec::new(),
        &Vec::new(),
        "s",
    );
    let result = finish_tool_invocation(
        prepared,
        &None,
        &Err(ToolFailure {
            kind: ToolFailureKind::Timeout,
            message: "too slow".to_string(),
            policy: None,
        }),
    );
    assert_eq!(result.result.status, ResultStatus::Error);
    let payload: Value = serde_json::from_str(&result.result.payload).expect("it is json");
    assert_eq!(payload["error_code"], "timeout");
}

#[test]
fn summaries_name_tool_and_goal() {
    assert_eq!(tool_loop_step_summary("g", "Read"), "Executing tool `Read` for goal: g");
    assert_eq!(render_conversation_history(&Vec::new()), "");
}

#[test]
fn an_approved_command_may_read_its_targets() {
    let scope = ExecutionResourceScope {
        working_directory: "/w".to_string(),
        resolved_targets: vec!["/w/a".to_string(), "/w/b".to_string()],
        effective_read_roots: vec!["/w/b".to_string()],
        effective_write_roots: Vec::new(),
    };
    let approved = approved_scope_for_resume(&scope);
    assert_eq!(approved.effective_read_roots, vec!["/w/b".to_string(), "/w/a".to_string()]);
    assert!(approved.effective_write_roots.is_empty());
}

#[test]
fn status_results_read_their_message_back() {
    let result = synthetic_status_result("t", "n", "p", "say \"it\"", 70, ResultStatus::Error);
    assert_eq!(result.message, "say \"it\"");
    assert_eq!(result.result.payload, "{\"direct_route\":true,\"message\":\"say \\\"it\\\"\"}");
    assert_eq!(result.result.confidence_percent, 70);
    let missing = tool_not_enabled_result("t", "Bash");
    assert_eq!(missing.result.status, ResultStatus::Error);
    assert!(missing.message.contains("Bash"));
    let ended = synthetic_loop_terminal_result(
        "t",
        "tool",
        "done",
        StepAction::FinalAnswer,
        ResultStatus::Success,
        None,
    );
    assert_eq!(ended.terminal_step_action, Some(StepAction::FinalAnswer));
    assert_eq!(ended.node.node_id, "runtime-loop:tool");
    let payload: Value = serde_json::from_str(&ended.result.payload).expect("it is json");
    assert_eq!(payload["probe_trace"], Value::Null);
}

fn command_step(output: Json) -> StepRecord {
    StepRecord::tool_call(
        1,
        NextStepDecision {
            action: NextStepAction::CallTool,
            tool_name: Some("command.run".to_string()),
            arguments: None,
            reason: "run".to_string(),
            final_message: None,
        },
        Vec::new(),
        Vec::new(),
        output,
        ToolObservation {
            ok: true,
            tool_name: "command.run".to_string(),
            error_type: None,
            terminal: false,
            data: Json::Null,
            message: "ok".to_string(),
        },
        Some(1),
        5,
        2,
        "/w".to_string(),
    )
}

#[test]
fn an_allowed_command_is_traced_to_its_end() {
    let step = command_step(object(vec![("ok", Json::Bool(true))]));
    let facts = TraceFacts {
        policy: Some(PolicyFact { outcome: PolicyOutcome::Allow, decision: Json::Null }),
        from_output: Some(CanonicalRef {
            tool_name: "command.run".to_string(),
            digest: "d1".to_string(),
        }),
        from_arguments: None,
    };
    let traces = project_execution_traces(&vec![step], &vec![facts]);
    let trace = traces[0].as_ref().expect("a trace");
    assert_eq!(trace.digest, "d1");
    let stages: Vec<TraceStage> = trace.stages.iter().map(|s| s.stage).collect();
    assert_eq!(stages[0], TraceStage::Canonicalized);
    assert_eq!(stages[1], TraceStage::PolicyDecided);
    assert!(!stages.contains(&TraceStage::ApprovalRequested));
    assert_eq!(*stages.last().expect("stages"), TraceStage::ObservationRecorded);
    assert!(trace
        .stages
        .iter()
        .any(|s| matches!(s.policy, Some(TracePolicy::Decided { outcome: PolicyOutcome::Allow, .. }))));
}

#[test]
fn an_approved_call_skips_the_policy() {
    let mut node = TaskNode::status("node-7", "do it");
    node.resources = vec![selector("Read")];
    let prepared = prepare_approved_invocation(
        &catalog(),
        "task-1",
        &turns(),
        &node,
        "Read",
        &object(vec![("path", text("a.txt"))]),
    );
    assert!(prepared.invocation.skip_policy_check);
    assert_eq!(prepared.invocation.invocation_key, "task-1:node-7:approved");
    assert_eq!(prepared.invocation.granted_capabilities, vec!["fs.read".to_string()]);
    assert_eq!(prepared.spec.instance_id, "approval-resume:node-7");
    assert_eq!(prepared.spec.policy_bindings.budget_tokens, 1, "a budget of none is raised");
    let result = finish_approved_invocation(
        &prepared,
        &None,
        &Ok(ToolExecution {
            output: object(vec![("message", text("done"))]),
            attempts: 1,
            elapsed_ms: 3,
            output_fingerprint: "f".to_string(),
            sandbox_profile: SandboxProfile::NoIsolation,
        }),
    );
    assert_eq!(result.status, ResultStatus::Success);
    assert_eq!(result.confidence_percent, 90);
}

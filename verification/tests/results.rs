use roku_agent_runtime::json::{Json, JsonField, JsonNumber};
use roku_agent_runtime::result::{
    policy_rejection_result, sandbox_profile_label, tool_error_code, tool_failure_result,
    tool_success_result, CanonicalFact, PolicyFact, PolicyOutcome, SandboxProfile, ToolExecution,
    ToolFailure, ToolFailureKind,
};
use roku_agent_runtime::task::{
    AgentContext, AgentInstanceSpec, PolicyBindings, ResultStatus, TaskNode,
};
use serde_json::Value;

fn object(fields: Vec<(&str, Json)>) -> Json {
    Json::Object(
        fields
            .into_iter()
            .map(|(name, value)| JsonField { name: name.to_string(), value })
            .collect(),
    )
}

fn text(s: &str) -> Json {
    Json::Text(s.to_string())
}

fn sample_spec() -> AgentInstanceSpec {
    AgentInstanceSpec {
        instance_id: "worker-1".to_string(),
        context: AgentContext {
            task_id: "task-1".to_string(),
            node_id: "node-1".to_string(),
            summary: "run command".to_string(),
            resources: Vec::new(),
            conversation_history: Vec::new(),
            runtime_memory_sections: Json::Null,
        },
        capabilities: Vec::new(),
        policy_bindings: PolicyBindings { budget_tokens: 8_000, time_budget_ms: 60_000 },
    }
}

fn sample_node() -> TaskNode {
    TaskNode::status("node-1", "execute")
}

fn sample_execution() -> CanonicalFact {
    CanonicalFact {
        digest: "digest-123".to_string(),
        execution: object(vec![
            ("action_class", text("exec")),
            ("argv", Json::Array(vec![text("rm"), text("-rf"), text("tmp")])),
            ("cwd", text("/workspace")),
            ("digest", text("digest-123")),
            ("program", text("rm")),
            ("tool_name", text("command.run")),
        ]),
    }
}

fn require_approval_error() -> ToolFailure {
    ToolFailure {
        kind: ToolFailureKind::ExecutionFailed { retriable: false },
        message:
            "policy_outcome=require_approval reason_code=approval_required_by_untrusted_program"
                .to_string(),
        policy: Some(PolicyFact {
            outcome: PolicyOutcome::RequireApproval,
            decision: object(vec![
                (
                    "approval_requirement",
                    object(vec![
                        ("reason_code", text("approval_required_by_untrusted_program")),
                        ("scope", text("invocation")),
                    ]),
                ),
                ("outcome", text("require_approval")),
                ("reason_code", text("approval_required_by_untrusted_program")),
            ]),
        }),
    }
}

fn command_not_allowed_error() -> ToolFailure {
    ToolFailure {
        kind: ToolFailureKind::ExecutionFailed { retriable: false },
        message: "command_not_allowed: metacharacters are not allowed".to_string(),
        policy: None,
    }
}

#[test]
fn tool_failure_result_preserves_require_approval_fact() {
    let result = tool_failure_result(
        &sample_spec(),
        &sample_node(),
        "worker-1",
        "command.run",
        &Some(sample_execution()),
        &require_approval_error(),
    );
    let payload = serde_json::from_str::<Value>(&result.payload).expect("payload should decode");

    assert_eq!(payload["error_code"], "approval_required");
    assert_eq!(payload["digest"], Value::String("digest-123".to_string()));
    assert_eq!(
        payload["policy_decision"]["reason_code"],
        "approval_required_by_untrusted_program"
    );
    assert_eq!(payload["canonical_execution"]["program"], "rm");
}

#[test]
fn tool_failure_result_preserves_canonical_execution_without_policy_decision() {
    let result = tool_failure_result(
        &sample_spec(),
        &sample_node(),
        "worker-1",
        "command.run",
        &Some(sample_execution()),
        &command_not_allowed_error(),
    );
    let payload = serde_json::from_str::<Value>(&result.payload).expect("payload should decode");

    assert_eq!(payload["error_code"], "execution_failed");
    assert_eq!(payload["digest"], Value::String("digest-123".to_string()));
    assert_eq!(payload["canonical_execution"]["program"], "rm");
    assert_eq!(payload.get("policy_decision"), None);
}

fn failure(kind: ToolFailureKind) -> ToolFailure {
    ToolFailure { kind, message: "m".to_string(), policy: None }
}

#[test]
fn each_failure_has_its_code() {
    assert_eq!(tool_error_code(&failure(ToolFailureKind::ToolNotFound)), "tool_not_found");
    assert_eq!(
        tool_error_code(&failure(ToolFailureKind::ToolAlreadyRegistered)),
        "tool_already_registered"
    );
    assert_eq!(tool_error_code(&failure(ToolFailureKind::InvalidDescriptor)), "invalid_descriptor");
    assert_eq!(
        tool_error_code(&failure(ToolFailureKind::InputSchemaViolation)),
        "input_schema_violation"
    );
    assert_eq!(tool_error_code(&failure(ToolFailureKind::CapabilityDenied)), "capability_denied");
    assert_eq!(tool_error_code(&failure(ToolFailureKind::Timeout)), "timeout");
    let denied = ToolFailure {
        policy: Some(PolicyFact { outcome: PolicyOutcome::Deny, decision: Json::Null }),
        ..failure(ToolFailureKind::Timeout)
    };
    assert_eq!(tool_error_code(&denied), "policy_denied");
    assert_ne!(
        tool_error_code(&failure(ToolFailureKind::ExecutionFailed { retriable: true })),
        tool_error_code(&failure(ToolFailureKind::ExecutionFailed { retriable: false }))
    );
}

#[test]
fn a_success_carries_message_and_evidence() {
    let execution = ToolExecution {
        output: object(vec![
            (
                "data",
                object(vec![
                    ("created_paths", Json::Array(vec![text("a.txt"), text("b \"q\".txt")])),
                    ("selected_skill", text("pdf")),
                ]),
            ),
            ("message", text("done\nwell")),
        ]),
        attempts: 1,
        elapsed_ms: 7,
        output_fingerprint: "fp".to_string(),
        sandbox_profile: SandboxProfile::ReadOnlyFs,
    };
    let result =
        tool_success_result(&sample_spec(), &sample_node(), "w", "skill.run", &execution, 90);
    assert_eq!(result.status, ResultStatus::Success);
    assert_eq!(result.confidence_percent, 90);
    let payload = serde_json::from_str::<Value>(&result.payload).expect("payload should decode");
    assert_eq!(payload["message"], "done\nwell");
    let kinds: Vec<&str> = result.evidence.iter().map(|e| e.kind.as_str()).collect();
    assert!(kinds.contains(&"selected_skill"));
    assert_eq!(
        result
            .evidence
            .iter()
            .filter(|e| e.kind == "created_path")
            .map(|e| e.value.as_str())
            .collect::<Vec<_>>(),
        vec!["a.txt", "b \"q\".txt"]
    );
    assert_eq!(sandbox_profile_label(SandboxProfile::ReadOnlyFs), "read_only_fs");
}

#[test]
fn a_success_without_a_message_tells_the_description() {
    let execution = ToolExecution {
        output: Json::Number(JsonNumber::Unsigned(3)),
        attempts: 1,
        elapsed_ms: 0,
        output_fingerprint: String::new(),
        sandbox_profile: SandboxProfile::NoIsolation,
    };
    let result = tool_success_result(&sample_spec(), &sample_node(), "w", "t", &execution, 80);
    let payload = serde_json::from_str::<Value>(&result.payload).expect("payload should decode");
    assert_eq!(payload["message"], "execute");
}

#[test]
fn a_rejected_policy_names_its_node() {
    let result = policy_rejection_result(&sample_spec(), &sample_node());
    assert_eq!(result.status, ResultStatus::Error);
    assert_eq!(
        result.payload,
        "{\"error_code\":\"policy_bindings_rejected\",\"message\":\"policy bindings rejected execution\",\"node_id\":\"node-1\"}"
    );
}

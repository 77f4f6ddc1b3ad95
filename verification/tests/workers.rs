use roku_agent_runtime::json::Json;
use roku_agent_runtime::task::{
    AgentContext, AgentInstanceSpec, EvidenceItem, NodeBudgetSnapshot, PolicyBindings,
    ResultEnvelope, ResultStatus, TaskNode, TaskNodeKind,
};
use roku_agent_runtime::workers::{
    choose_worker, execute, fallback_result, register_worker, WorkerChoice, WorkerRegistryEntry,
};
use serde_json::Value;

fn node_with_capability(capability: &str) -> TaskNode {
    TaskNode {
        node_id: "node-1".to_string(),
        kind: TaskNodeKind::Execution,
        description: "runtime test node".to_string(),
        resources: Vec::new(),
        capabilities: vec![capability.to_string()],
        budget_snapshot: NodeBudgetSnapshot { token_budget: 0, time_budget_ms: 0 },
        capability_requirements_snapshot: Vec::new(),
    }
}

fn spec_with_capabilities(capabilities: &[&str]) -> AgentInstanceSpec {
    AgentInstanceSpec {
        instance_id: "agent-1".to_string(),
        context: AgentContext {
            task_id: "task-1".to_string(),
            node_id: "node-1".to_string(),
            summary: "summary".to_string(),
            resources: Vec::new(),
            conversation_history: Vec::new(),
            runtime_memory_sections: Json::Null,
        },
        capabilities: capabilities.iter().map(|c| c.to_string()).collect(),
        policy_bindings: PolicyBindings { budget_tokens: 10_000, time_budget_ms: 30_000 },
    }
}

fn payload_value(result: &ResultEnvelope) -> Value {
    serde_json::from_str(&result.payload).expect("payload should be valid json")
}

#[test]
fn rejects_execution_when_policy_budget_is_zero() {
    let node = node_with_capability("data.read");
    let mut spec = spec_with_capabilities(&["data.read"]);
    spec.policy_bindings.budget_tokens = 0;

    let result = execute(&spec, &node, &vec![true], None).expect("the run is rejected");
    assert_eq!(result.status, ResultStatus::Error);
    assert_eq!(result.evidence[0].value, "budget-exhausted");
    assert_eq!(payload_value(&result)["error_code"], "policy_bindings_rejected");
}

struct CustomWorker;

impl CustomWorker {
    fn supports(&self, capabilities: &[String]) -> bool {
        capabilities.iter().any(|capability| capability.starts_with("quant."))
    }

    fn execute(&self, spec: &AgentInstanceSpec, node: &TaskNode) -> ResultEnvelope {
        ResultEnvelope {
            task_id: spec.context.task_id.clone(),
            node_id: node.node_id.clone(),
            producer: spec.instance_id.clone(),
            schema_version: "result.v1".to_string(),
            status: ResultStatus::Success,
            payload: r#"{"worker_id":"custom-worker","message":"custom quant worker executed"}"#
                .to_string(),
            evidence: vec![EvidenceItem {
                kind: "runtime".to_string(),
                value: "custom-worker".to_string(),
            }],
            confidence_percent: 95,
        }
    }
}

#[test]
fn allows_runtime_worker_extension() {
    let mut workers: Vec<WorkerRegistryEntry<CustomWorker>> = Vec::new();
    register_worker(&mut workers, 100, CustomWorker);
    let node = node_with_capability("quant.backtest");
    let spec = spec_with_capabilities(&["quant.backtest"]);

    let supports: Vec<bool> =
        workers.iter().map(|entry| entry.worker.supports(&spec.capabilities)).collect();
    let worker_result = match choose_worker(&spec, &supports) {
        WorkerChoice::Worker(i) => Some(workers[i].worker.execute(&spec, &node)),
        _ => None,
    };
    let result = execute(&spec, &node, &supports, worker_result).expect("a worker ran");
    assert_eq!(result.status, ResultStatus::Success);
    assert_eq!(result.evidence[0].value, "custom-worker");
    assert_eq!(payload_value(&result)["worker_id"], "custom-worker");
}

#[test]
fn workers_stand_by_priority() {
    let mut workers: Vec<WorkerRegistryEntry<&str>> = Vec::new();
    register_worker(&mut workers, 10, "first of ten");
    register_worker(&mut workers, 50, "fifty");
    register_worker(&mut workers, 10, "second of ten");
    register_worker(&mut workers, 20, "twenty");
    let names: Vec<&str> = workers.iter().map(|e| e.worker).collect();
    assert_eq!(names, vec!["fifty", "twenty", "first of ten", "second of ten"]);
}

#[test]
fn without_a_worker_the_goal_is_answered() {
    let mut node = node_with_capability("x");
    node.description = "Goal: say hello\nStep: answer".to_string();
    let spec = spec_with_capabilities(&["x"]);
    assert_eq!(choose_worker(&spec, &vec![false, false]), WorkerChoice::Fallback);
    let result = fallback_result(&spec, &node);
    assert_eq!(result.status, ResultStatus::Success);
    assert_eq!(payload_value(&result)["message"], "say hello");
}

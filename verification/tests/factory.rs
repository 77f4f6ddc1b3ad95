use roku_agent_runtime::factory::{
    derive_policy_bindings, merge_capabilities, AgentInstanceFactory, CapabilityProfile,
    DefaultProfile,
};
use roku_agent_runtime::task::{
    ConversationRole, ConversationTurn, NodeBudgetSnapshot, TaskNode, TaskNodeKind,
};

fn list(items: &[&str]) -> Vec<String> {
    items.iter().map(|s| s.to_string()).collect()
}

fn node_of(kind: TaskNodeKind, node_id: &str, capabilities: &[&str]) -> TaskNode {
    TaskNode {
        node_id: node_id.to_string(),
        kind,
        description: "node description".to_string(),
        resources: Vec::new(),
        capabilities: list(capabilities),
        budget_snapshot: NodeBudgetSnapshot { token_budget: 0, time_budget_ms: 0 },
        capability_requirements_snapshot: Vec::new(),
    }
}

fn execution_node(node_id: &str, capabilities: &[&str]) -> TaskNode {
    node_of(TaskNodeKind::Execution, node_id, capabilities)
}

#[test]
fn select_data_profile_for_data_capabilities() {
    let factory = AgentInstanceFactory::default();
    let node = execution_node("node-1", &["data.read", "data.transform"]);

    let spec = factory.build_for_node("task-data", &node);

    assert!(spec.instance_id.starts_with("agent-data-"));
    assert!(spec.capabilities.contains(&"data.read".to_string()));
    assert!(spec.capabilities.contains(&"data.write".to_string()));
    assert!(spec.capabilities.contains(&"data.transform".to_string()));
    assert!(spec.policy_bindings.budget_tokens >= 12_000);
    assert!(spec.policy_bindings.time_budget_ms >= 35_000);
}

#[test]
fn register_and_select_custom_profile() {
    let mut factory = AgentInstanceFactory::default();
    factory.register_profile(CapabilityProfile::new(
        "quant",
        list(&["quant."]),
        list(&["quant.read"]),
        20_000,
        60_000,
    ));

    let node = execution_node("node-q1", &["quant.backtest"]);
    let spec = factory.build_for_node("task-quant", &node);

    assert!(spec.instance_id.starts_with("agent-quant-"));
    assert!(spec.capabilities.contains(&"quant.read".to_string()));
    assert!(spec.capabilities.contains(&"quant.backtest".to_string()));
}

#[test]
fn fallback_to_general_profile_when_no_capability_matches() {
    let factory = AgentInstanceFactory::default();
    let node = execution_node("node-g1", &["unknown.capability"]);

    let spec = factory.build_for_node("task-general", &node);
    assert!(spec.instance_id.starts_with("agent-general-"));
    assert!(spec.capabilities.contains(&"unknown.capability".to_string()));
}

#[test]
fn build_profile_instance_uses_expected_profile_defaults() {
    let factory = AgentInstanceFactory::default();

    let spec = factory.build_from_profile("task-profile", DefaultProfile::Review);
    assert!(spec.instance_id.starts_with("agent-review-"));
    assert!(spec.capabilities.contains(&"review.check".to_string()));
}

#[test]
fn a_registered_profile_replaces_the_one_of_its_name() {
    let mut factory = AgentInstanceFactory::default();
    let replaced = factory.register_profile(CapabilityProfile::new(
        "data",
        list(&["data."]),
        list(&["data.only"]),
        1,
        2,
    ));
    assert_eq!(replaced.map(|p| p.profile_id), Some("data".to_string()));
    assert!(factory
        .register_profile(CapabilityProfile::new("extra", Vec::new(), Vec::new(), 1, 1))
        .is_none());
    let node = execution_node("n", &["data.read"]);
    assert_eq!(factory.inferred_profile_id(&node), "data");
    let spec = factory.build_for_node("t", &node);
    assert_eq!(spec.capabilities, list(&["data.only", "data.read"]));
    assert_eq!(spec.policy_bindings.budget_tokens, 501);
    assert_eq!(spec.policy_bindings.time_budget_ms, 1_002);
}

#[test]
fn validation_nodes_get_small_budgets() {
    let profile = CapabilityProfile::new("p", Vec::new(), Vec::new(), 20_000, 60_000);
    let node = node_of(TaskNodeKind::Validation, "v", &["a", "b"]);
    let bindings = derive_policy_bindings(&node, &profile);
    assert_eq!(bindings.budget_tokens, 6_000);
    assert_eq!(bindings.time_budget_ms, 15_000);
    let execution = derive_policy_bindings(&execution_node("e", &["a", "b"]), &profile);
    assert_eq!(execution.budget_tokens, 21_000);
    assert_eq!(execution.time_budget_ms, 62_000);
}

#[test]
fn merged_capabilities_hold_each_once() {
    assert_eq!(
        merge_capabilities(&list(&["a", "b"]), &list(&["b", "c", "c"])),
        list(&["a", "b", "c"])
    );
}

#[test]
fn the_history_goes_to_the_instance() {
    let factory = AgentInstanceFactory::default();
    let history =
        vec![ConversationTurn { role: ConversationRole::User, content: "hello".to_string() }];
    let spec = factory.build_for_node_with_history("t", &execution_node("n", &[]), &history);
    assert_eq!(spec.context.conversation_history.len(), 1);
    assert_eq!(spec.context.conversation_history[0].content, "hello");
    assert_eq!(spec.context.task_id, "t");
}

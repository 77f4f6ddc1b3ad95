use roku_agent_runtime::action_words::{
    explicit_filesystem_action_tool, explicit_table_action_tool,
};
use roku_agent_runtime::catalog::{
    candidate_plugins_for_tool, extend_catalog, find_descriptor, resource_risk,
    route_capabilities, skill_descriptor_is_executable, tool_selector_by_name, CatalogDescriptor,
    ResourceKind, ResourceRisk, RuntimeVisibleToolAvailabilitySnapshot,
};
use roku_agent_runtime::classifier::{
    build_tool_loop_route, merge_preserving_seed, missing_argument_route,
    unavailable_family_route, CatalogMatch, GoalFacts, RouteClassifierContext,
};
use roku_agent_runtime::classify::{classify_request, RequestFacts};
use roku_agent_runtime::decision::{
    IntentFamily, RouteDecision, RouteDecisionSchemaError, RouteRisk,
};
use roku_agent_runtime::json::{Json, JsonField, JsonNumber};
use roku_agent_runtime::observation::ResourceSelector;
use roku_agent_runtime::route::{EscalationAction, EscalationReason, RouteDecisionResult};

fn list(items: &[&str]) -> Vec<String> {
    items.iter().map(|s| s.to_string()).collect()
}

fn selector(kind: &str, name: &str) -> ResourceSelector {
    ResourceSelector { name: name.to_string(), display_key: format!("{kind}:{name}") }
}

fn tool_descriptor(name: &str) -> CatalogDescriptor {
    CatalogDescriptor {
        selector: selector("tool", name),
        kind: ResourceKind::Tool,
        name: name.to_string(),
        discoverable: true,
        tags: list(&["test"]),
        examples: list(&["Cold-path example"]),
        key_commands: Vec::new(),
        risk: ResourceRisk::Low,
        required_capabilities: Vec::new(),
        has_contract: true,
    }
}

#[test]
fn executable_skill_detection_ignores_examples_only_signal() {
    let descriptor = CatalogDescriptor {
        selector: selector("skill", "skill-creator"),
        kind: ResourceKind::Skill,
        name: "skill-creator".to_string(),
        discoverable: true,
        tags: Vec::new(),
        examples: list(&["./scripts/run.sh"]),
        key_commands: Vec::new(),
        risk: ResourceRisk::Low,
        required_capabilities: Vec::new(),
        has_contract: false,
    };
    assert!(!skill_descriptor_is_executable(&descriptor));
}

fn context<'a>(
    catalog: &'a Vec<CatalogDescriptor>,
    plugins: &'a Vec<String>,
    availability: &'a RuntimeVisibleToolAvailabilitySnapshot,
) -> RouteClassifierContext<'a> {
    RouteClassifierContext {
        catalog,
        enabled_plugins: plugins,
        availability_snapshot: availability,
        has_route_router: false,
        skill_execution_available: false,
        skill_execute_tool: "skill.execute",
    }
}

#[test]
fn build_tool_loop_route_filters_shortlist_from_availability_snapshot() {
    let catalog = vec![tool_descriptor("skill.ensure_installed"), tool_descriptor("web.search")];
    let plugins = list(&["skill-source-local", "core-web"]);
    let availability = RuntimeVisibleToolAvailabilitySnapshot {
        enabled_tools: list(&["skill.ensure_installed"]),
        baseline_visible_tools: Vec::new(),
    };
    let decision = RouteDecision::new(
        IntentFamily::WebLookup,
        "0.91",
        false,
        RouteRisk::Low,
        list(&["skill.ensure_installed", "web.search"]),
        Vec::new(),
        Vec::new(),
        "snapshot-owned shortlist filtering",
    );

    let RouteDecisionResult::Direct(plan) = build_tool_loop_route(
        &context(&catalog, &plugins, &availability),
        decision,
        Some("web.search"),
        Vec::new(),
    ) else {
        panic!("expected direct tool-loop route");
    };

    assert_eq!(plan.decision.candidate_tools, list(&["skill.ensure_installed"]));
}

#[test]
fn plugins_go_by_the_tools_prefix() {
    let enabled = list(&["core-fs", "core-web"]);
    assert_eq!(candidate_plugins_for_tool(&enabled, "fs.read_text"), list(&["core-fs"]));
    assert_eq!(candidate_plugins_for_tool(&enabled, "web.fetch"), list(&["core-web"]));
    assert!(candidate_plugins_for_tool(&enabled, "table.preview").is_empty());
}

#[test]
fn descriptors_are_found_by_selector() {
    let mut descriptor = tool_descriptor("a");
    descriptor.risk = ResourceRisk::High;
    let catalog = vec![tool_descriptor("b"), descriptor];
    let found = find_descriptor(&catalog, &selector("tool", "a")).expect("a is there");
    assert_eq!(resource_risk(found), RouteRisk::High);
    assert!(find_descriptor(&catalog, &selector("skill", "a")).is_none());
}

fn no_facts() -> GoalFacts {
    GoalFacts {
        explanatory_shell_command: false,
        explanatory_python_code: false,
        requests_python_execution: false,
        requests_web_lookup: false,
        python_code_allows_execution: false,
        shell_command_allows_execution: false,
        explicit_paths: Vec::new(),
        has_concrete_path: false,
        has_explicit_table_path: false,
        has_concrete_table_path: false,
        has_glob_pattern: false,
        has_skill_source_url: false,
    }
}

#[test]
fn a_request_without_a_match_goes_to_the_tool_loop() {
    let catalog: Vec<CatalogDescriptor> = Vec::new();
    let plugins: Vec<String> = Vec::new();
    let availability = RuntimeVisibleToolAvailabilitySnapshot {
        enabled_tools: Vec::new(),
        baseline_visible_tools: Vec::new(),
    };
    let facts = no_facts();
    let result = classify_request(
        &context(&catalog, &plugins, &availability),
        &RequestFacts {
            goal: "hello there",
            facts: &facts,
            trimmed_facts: &facts,
            tool_matches: &Vec::new(),
            score_ok: false,
        },
    );
    let RouteDecisionResult::Direct(plan) = result else {
        panic!("expected the tool loop");
    };
    assert_eq!(plan.decision.intent_family, IntentFamily::Chat);
    assert_eq!(plan.decision.confidence_score(), "0.68");
    assert_eq!(
        plan.decision.reason,
        "no grounded direct tool route matched; fall back to direct answer in deterministic mode"
    );
    let with_model = RouteClassifierContext {
        has_route_router: true,
        ..context(&catalog, &plugins, &availability)
    };
    let RouteDecisionResult::Direct(plan) = classify_request(
        &with_model,
        &RequestFacts {
            goal: "hello there",
            facts: &facts,
            trimmed_facts: &facts,
            tool_matches: &Vec::new(),
            score_ok: false,
        },
    ) else {
        panic!("expected the tool loop");
    };
    assert_eq!(plan.decision.confidence_score(), "0.5");
    assert_eq!(plan.decision.reason, "no deterministic match; forwarding to tool loop");
}

#[test]
fn a_lookup_without_the_web_escalates() {
    let catalog: Vec<CatalogDescriptor> = Vec::new();
    let plugins: Vec<String> = Vec::new();
    let availability = RuntimeVisibleToolAvailabilitySnapshot {
        enabled_tools: Vec::new(),
        baseline_visible_tools: Vec::new(),
    };
    let facts = GoalFacts { requests_web_lookup: true, ..no_facts() };
    let RouteDecisionResult::Escalate(plan) = classify_request(
        &context(&catalog, &plugins, &availability),
        &RequestFacts {
            goal: "search the web for rust",
            facts: &facts,
            trimmed_facts: &facts,
            tool_matches: &Vec::new(),
            score_ok: false,
        },
    ) else {
        panic!("expected an escalation");
    };
    assert_eq!(plan.reason, EscalationReason::NoEnabledRouteTarget);
    assert_eq!(plan.decision.intent_family, IntentFamily::WebLookup);
}

#[test]
fn escalations_say_what_to_do() {
    let RouteDecisionResult::Escalate(missing) = missing_argument_route(
        IntentFamily::TableRead,
        list(&["path"]),
        "which table",
    ) else {
        panic!("expected an escalation");
    };
    assert_eq!(missing.reason, EscalationReason::MissingArguments);
    assert_eq!(missing.action, EscalationAction::AskForMoreInfo);
    assert_eq!(missing.decision.missing_arguments, list(&["path"]));
    let RouteDecisionResult::Escalate(unavailable) =
        unavailable_family_route(IntentFamily::WebLookup, "no web")
    else {
        panic!("expected an escalation");
    };
    assert_eq!(unavailable.reason, EscalationReason::NoEnabledRouteTarget);
}

fn object(fields: Vec<(&str, Json)>) -> Json {
    Json::Object(
        fields
            .into_iter()
            .map(|(name, value)| JsonField { name: name.to_string(), value })
            .collect(),
    )
}

fn text(s: &str) -> Json {
    Json::Text(s.to_string())
}

fn decision_json(family: &str, confidence: Json) -> Json {
    object(vec![
        ("intent_family", text(family)),
        ("confidence", confidence),
        ("requires_multi_step", Json::Bool(false)),
        ("risk", text("low")),
        ("candidate_tools", Json::Array(vec![text("a")])),
        ("candidate_plugins", Json::Array(vec![])),
        ("missing_arguments", Json::Array(vec![])),
        ("reason", text("why")),
    ])
}

#[test]
fn decisions_are_read_from_json() {
    let fraction = || Json::Number(JsonNumber::Fraction("0.5".to_string()));
    let decision =
        RouteDecision::from_json_value(&decision_json("chat", fraction())).expect("it decodes");
    assert_eq!(decision.intent_family, IntentFamily::Chat);
    assert_eq!(decision.confidence_score(), "0.5");
    assert_eq!(decision.candidate_tools, list(&["a"]));

    assert!(matches!(
        RouteDecision::from_json_value(&Json::Null),
        Err(RouteDecisionSchemaError::RootNotObject)
    ));
    assert!(matches!(
        RouteDecision::from_json_value(&object(vec![("reason", text("x"))])),
        Err(RouteDecisionSchemaError::MissingRequiredKeys { .. })
    ));
    assert!(matches!(
        RouteDecision::from_json_value(&decision_json("juggling", fraction())),
        Err(RouteDecisionSchemaError::UnknownEnumValue { field: "intent_family", .. })
    ));
    assert!(matches!(
        RouteDecision::from_json_value(&decision_json("chat", text("high"))),
        Err(RouteDecisionSchemaError::InvalidType { field: "confidence", .. })
    ));
}

#[test]
fn a_catalog_takes_in_new_names_only() {
    let mut catalog = vec![tool_descriptor("a")];
    let skipped = extend_catalog(
        &mut catalog,
        vec![tool_descriptor("a"), tool_descriptor("b"), tool_descriptor("b")],
    );
    assert_eq!(skipped, list(&["a"]));
    let names: Vec<&str> = catalog.iter().map(|d| d.name.as_str()).collect();
    assert_eq!(names, ["a", "b", "b"], "only what was there before is held against an entry");
}

#[test]
fn capabilities_are_collected_once() {
    let mut a = tool_descriptor("a");
    a.required_capabilities = list(&["x", "y"]);
    let mut b = tool_descriptor("b");
    b.required_capabilities = list(&["y", "z"]);
    let catalog = vec![a, b];
    let resources =
        vec![selector("tool", "b"), selector("tool", "missing"), selector("tool", "a")];
    assert_eq!(route_capabilities(&catalog, &resources), list(&["y", "z", "x"]));
    assert_eq!(
        tool_selector_by_name(&catalog, "a").map(|s| s.display_key),
        Some("tool:a".to_string())
    );
    assert!(tool_selector_by_name(&catalog, "c").is_none());
}

#[test]
fn words_around_a_path_name_the_action() {
    let path = list(&["read me.txt"]);
    let none: Vec<String> = Vec::new();
    assert_eq!(explicit_filesystem_action_tool("does it exist", &none), Some("fs.exists"));
    assert_eq!(explicit_filesystem_action_tool("Where is it", &none), Some("fs.find"));
    assert_eq!(explicit_filesystem_action_tool("stat it", &none), Some("fs.inspect"));
    assert_eq!(explicit_filesystem_action_tool("list it", &none), Some("fs.list_dir"));
    assert_eq!(explicit_filesystem_action_tool("open it", &none), Some("fs.read_text"));
    assert_eq!(explicit_filesystem_action_tool("第三行", &none), Some("fs.read_text"));
    assert_eq!(explicit_filesystem_action_tool("use read me.txt", &path), None);
    assert_eq!(explicit_filesystem_action_tool("use read me.txt", &none), Some("fs.read_text"));
    assert_eq!(
        explicit_filesystem_action_tool("read", &list(&[""])),
        None,
        "an empty path is found between all letters"
    );
    assert_eq!(explicit_table_action_tool("its columns", &none), Some("table.schema"));
    assert_eq!(explicit_table_action_tool("list sheets", &none), Some("table.list_sheets"));
    assert_eq!(explicit_table_action_tool("preview it", &none), Some("table.preview"));
    assert_eq!(explicit_table_action_tool("details", &none), Some("table.inspect"));
    assert_eq!(explicit_table_action_tool("delete it", &none), None);
}

#[test]
fn seeds_stay_in_front() {
    assert_eq!(
        merge_preserving_seed(&list(&["b", "b"]), &list(&["a", "b", "c", "d"])),
        list(&["b", "a", "c"])
    );
}

fn route(
    goal: &str,
    enabled: &[&str],
    facts: &GoalFacts,
    matches: Vec<CatalogMatch>,
    score_ok: bool,
) -> RouteDecisionResult {
    let catalog: Vec<CatalogDescriptor> =
        enabled.iter().map(|name| tool_descriptor(name)).collect();
    let plugins = Vec::new();
    let availability = RuntimeVisibleToolAvailabilitySnapshot {
        enabled_tools: list(enabled),
        baseline_visible_tools: Vec::new(),
    };
    classify_request(
        &context(&catalog, &plugins, &availability),
        &RequestFacts {
            goal,
            facts,
            trimmed_facts: facts,
            tool_matches: &matches,
            score_ok,
        },
    )
}

fn plan_of(result: RouteDecisionResult) -> RouteDecision {
    match result {
        RouteDecisionResult::Direct(plan) => plan.decision,
        RouteDecisionResult::Escalate(_) => panic!("expected a direct route"),
    }
}

#[test]
fn requests_are_routed_by_what_they_give() {
    let facts = no_facts();
    let several = plan_of(route("cd a && ls", &[], &facts, Vec::new(), false));
    assert_eq!(several.intent_family, IntentFamily::MultiStep);
    assert!(several.requires_multi_step);
    assert_eq!(several.confidence_score(), "0.9");

    let explained = GoalFacts { explanatory_shell_command: true, ..no_facts() };
    let chat = plan_of(route("what does `ls` do", &[], &explained, Vec::new(), false));
    assert_eq!(chat.confidence_score(), "0.81");

    let path = GoalFacts {
        explicit_paths: list(&["src/lib.rs"]),
        has_concrete_path: true,
        ..no_facts()
    };
    let read = plan_of(route("read src/lib.rs", &["fs.read_text"], &path, Vec::new(), false));
    assert_eq!(read.intent_family, IntentFamily::FilesystemRead);
    assert_eq!(read.candidate_tools, list(&["fs.read_text"]));
    assert_eq!(read.confidence_score(), "0.6");
    let broad = plan_of(route("src/lib.rs", &["fs.inspect"], &path, Vec::new(), false));
    assert_eq!(broad.confidence_score(), "0.82");
    assert_eq!(broad.candidate_tools, list(&["fs.inspect"]));

    let python = GoalFacts { requests_python_execution: true, ..no_facts() };
    let RouteDecisionResult::Escalate(ask) =
        route("run some python", &["python.run"], &python, Vec::new(), false)
    else {
        panic!("expected a question");
    };
    assert_eq!(ask.action, EscalationAction::AskForMoreInfo);
    assert_eq!(ask.decision.missing_arguments, list(&["code"]));
}

#[test]
fn a_retrieved_tool_needs_a_score_that_stands_out() {
    let found = || {
        vec![CatalogMatch {
            descriptor: tool_descriptor("clock"),
            requires_arguments: false,
            arguments_grounded: false,
        }]
    };
    let facts = no_facts();
    let taken = plan_of(route("tell me the hour", &["clock"], &facts, found(), true));
    assert_eq!(taken.candidate_tools, list(&["clock"]));
    assert_eq!(taken.confidence_score(), "0.82");
    let left = plan_of(route("tell me the hour", &["clock"], &facts, found(), false));
    assert_eq!(left.confidence_score(), "0.68");
    let disabled = plan_of(route("tell me the hour", &[], &facts, found(), true));
    assert_eq!(disabled.confidence_score(), "0.68");
}

#[test]
fn entries_are_taken_over_whole() {
    let mut catalog = vec![tool_descriptor("a")];
    let mut incoming = tool_descriptor("b");
    incoming.examples = list(&["one", "two"]);
    extend_catalog(&mut catalog, vec![incoming]);
    assert_eq!(catalog[1].examples, list(&["one", "two"]));
}

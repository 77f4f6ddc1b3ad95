use roku_agent_runtime::catalog::RuntimeVisibleToolAvailabilitySnapshot;
use roku_agent_runtime::config::LoopRuntimeConfig;
use roku_agent_runtime::decision::{IntentFamily, RouteDecision, RouteRisk};
use roku_agent_runtime::filesystem::{
    follow_up_tool_for_resolved_path, is_basename_candidate, GoalHints, PathKind,
};
use roku_agent_runtime::filesystem_prompt::{
    filesystem_next_step_prompt, filesystem_tool_requirements,
};
use roku_agent_runtime::filesystem_step::{
    decide_filesystem_next_step, deterministic_next_step, initial_next_step,
    next_working_directory_from_observation, path_to_probe, router_is_asked,
    validate_router_decision, ObservationAnswer,
};
use roku_agent_runtime::json::{Json, JsonField, JsonNumber};
use roku_agent_runtime::json_indent::indent_json;
use roku_agent_runtime::json_text::render_json;
use roku_agent_runtime::observation::{
    NextStepAction, NextStepDecision, StepAction, StepObservation, StepRecord, ToolObservation,
};
use roku_agent_runtime::projection::{
    build_context_projection, compact_text, render_observation_digest,
};
use roku_agent_runtime::start::initialize_runtime_loop;
use roku_agent_runtime::state::LoopState;
use roku_agent_runtime::terminal::record_terminal_step;

fn list(items: &[&str]) -> Vec<String> {
    items.iter().map(|s| s.to_string()).collect()
}

fn object(fields: Vec<(&str, Json)>) -> Json {
    Json::Object(
        fields
            .into_iter()
            .map(|(name, value)| JsonField { name: name.to_string(), value })
            .collect(),
    )
}

fn text(s: &str) -> Json {
    Json::Text(s.to_string())
}

fn loop_for(goal: &str, tools: &[&str]) -> LoopState {
    let decision = RouteDecision::new(
        IntentFamily::FilesystemRead,
        "0.9",
        false,
        RouteRisk::Low,
        list(tools),
        list(&["core-fs"]),
        Vec::new(),
        "filesystem read",
    );
    initialize_runtime_loop(
        "req-fs-follow-up",
        "session-fs-follow-up",
        goal,
        Some("/workspace"),
        &decision,
        &RuntimeVisibleToolAvailabilitySnapshot {
            enabled_tools: list(tools),
            baseline_visible_tools: Vec::new(),
        },
        Vec::new(),
        &LoopRuntimeConfig::default(),
    )
}

fn no_answer(missing: &Vec<String>) -> ObservationAnswer<'_> {
    ObservationAnswer { kind: PathKind::Other, summary: "", missing_information: missing }
}

#[test]
fn follow_up_prefers_read_text_for_resolved_files() {
    let loop_state = loop_for("show example.rs", &["fs.inspect", "fs.read_text"]);
    assert_eq!(
        follow_up_tool_for_resolved_path(&loop_state, PathKind::File),
        Some("fs.read_text")
    );
}

#[test]
fn basenames_have_no_directories() {
    assert!(is_basename_candidate("lib.rs"));
    assert!(!is_basename_candidate("src/lib.rs"));
    assert!(!is_basename_candidate("/lib.rs"));
    assert!(!is_basename_candidate(".."));
    assert!(!is_basename_candidate(""));
}

#[test]
fn a_named_file_is_found_first() {
    let state = loop_for("show lib.rs", &["fs.find", "fs.read_text"]);
    let hints = GoalHints::from_goal("show lib.rs", &Vec::new());
    assert_eq!(hints.basename_only.as_deref(), Some("lib.rs"));
    let step = initial_next_step(&state, &hints);
    assert_eq!(step.action, NextStepAction::CallTool);
    assert_eq!(step.tool_name.as_deref(), Some("fs.find"));
    let found = deterministic_next_step(&state, None, &Vec::new(), &no_answer(&Vec::new()));
    assert_eq!(found.tool_name.as_deref(), Some("fs.find"));
}

#[test]
fn several_candidates_make_the_loop_ask() {
    let mut state = loop_for("show lib.rs", &["fs.find", "fs.read_text"]);
    state.last_observation = Some(ToolObservation {
        ok: false,
        tool_name: "fs.find".to_string(),
        error_type: Some("multiple_candidates".to_string()),
        terminal: false,
        data: object(vec![("matches", Json::Array(vec![text("/a/lib.rs"), text("/b/lib.rs")]))]),
        message: "two".to_string(),
    });
    let missing = Vec::new();
    let step = deterministic_next_step(&state, None, &Vec::new(), &no_answer(&missing));
    assert_eq!(step.action, NextStepAction::AskUser);
    let chosen =
        deterministic_next_step(&state, Some("/b/lib.rs"), &Vec::new(), &ObservationAnswer {
            kind: PathKind::File,
            summary: "",
            missing_information: &missing,
        });
    assert_eq!(chosen.action, NextStepAction::CallTool);
    assert_eq!(chosen.tool_name.as_deref(), Some("fs.read_text"));
    assert_eq!(
        chosen.arguments.as_ref().and_then(|a| a.get_str("path")),
        Some("/b/lib.rs")
    );
}

fn tool_decision(tool: &str, arguments: Option<Json>) -> NextStepDecision {
    NextStepDecision {
        action: NextStepAction::CallTool,
        tool_name: Some(tool.to_string()),
        arguments,
        reason: "model".to_string(),
        final_message: None,
    }
}

#[test]
fn a_models_decision_must_be_possible() {
    let state = loop_for("show lib.rs", &["fs.find", "fs.read_text"]);
    let possible = tool_decision("fs.read_text", Some(object(vec![("path", text("a"))])));
    assert!(validate_router_decision(&state, possible).is_some());
    assert!(validate_router_decision(&state, tool_decision("fs.read_text", None)).is_none());
    let unseen = tool_decision("fs.glob", Some(object(vec![("pattern", text("*"))])));
    assert!(validate_router_decision(&state, unseen).is_none());
}

#[test]
fn an_impossible_decision_gives_way_to_the_rules() {
    let state = loop_for("show lib.rs", &["fs.find", "fs.read_text"]);
    let missing = Vec::new();
    let given = no_answer(&missing);
    let step = decide_filesystem_next_step(
        &state,
        None,
        &Vec::new(),
        &given,
        Some(tool_decision("fs.glob", None)),
    );
    let rule = deterministic_next_step(&state, None, &Vec::new(), &given);
    assert_eq!(step.tool_name, rule.tool_name);
    assert_eq!(step.reason, rule.reason);
    assert!(!router_is_asked(&state, None, &Vec::new()));
}

#[test]
fn the_prompt_indents_the_requirements() {
    let state = loop_for("show lib.rs", &["fs.find", "fs.read_text"]);
    let prompt = filesystem_next_step_prompt(&state, Some("that one"), "{\"a\":1}", None);
    assert!(prompt.contains("show lib.rs"));
    assert!(prompt.contains("that one"));
    assert!(prompt.contains("Visible tools:\n[\n  \"fs.find\",\n  \"fs.read_text\"\n]\n"));
    let requirements = filesystem_tool_requirements(&list(&["fs.read_text"]));
    assert!(render_json(&requirements).contains("fs.read_text"));
}

#[test]
fn values_are_indented_by_two_spaces() {
    let field = |name: &str, value: Json| JsonField { name: name.to_string(), value };
    let value = Json::Object(vec![
        field("a", Json::Array(vec![Json::Number(JsonNumber::Unsigned(1)), Json::Null])),
        field("b", Json::Object(vec![field("c\n", Json::Text("\"d\"".to_string()))])),
        field("e", Json::Array(Vec::new())),
        field("f", Json::Object(Vec::new())),
        field("g", Json::Number(JsonNumber::Negative(-7))),
    ]);
    assert_eq!(
        indent_json(&value),
        "{\n  \"a\": [\n    1,\n    null\n  ],\n  \"b\": {\n    \"c\\n\": \"\\\"d\\\"\"\n  },\n  \
         \"e\": [],\n  \"f\": {},\n  \"g\": -7\n}"
    );
    assert_eq!(indent_json(&Json::Bool(true)), "true");
}

fn sample_loop_state() -> LoopState {
    let mut state = loop_for("what is installed", &["inventory.describe"]);
    state.record_step(StepRecord::tool_call(
        1,
        NextStepDecision {
            action: NextStepAction::CallTool,
            tool_name: Some("inventory.describe".to_string()),
            arguments: None,
            reason: "Use the inventory tool first.".to_string(),
            final_message: None,
        },
        list(&["inventory.describe"]),
        Vec::new(),
        Json::Null,
        ToolObservation {
            ok: true,
            tool_name: "inventory.describe".to_string(),
            error_type: None,
            terminal: false,
            data: object(vec![("runtime_mode", text("deterministic"))]),
            message: "deterministic placeholder only: inventory summary was not generated by a live runtime".to_string(),
        },
        Some(12),
        3,
        2,
        "/workspace".to_string(),
    ));
    state
}

#[test]
fn context_projection_summarizes_recent_history_without_raw_step_log_fields() {
    let projection = build_context_projection(&sample_loop_state());

    assert!(projection.history_digest.contains("step 1"));
    assert!(projection.history_digest.contains("inventory.describe"));
    assert!(projection.history_digest.contains("Working assumptions:"));
    assert!(!projection.history_digest.contains("started_at"));
    assert!(!projection.history_digest.contains("finished_at"));
}

#[test]
fn digests_are_short() {
    assert_eq!(compact_text("a  b\n c"), "a b c");
    assert!(compact_text(&"word ".repeat(100)).chars().count() <= 160);
    let digest = render_observation_digest(&StepObservation::FinalMessage {
        final_message: "all done".to_string(),
    });
    assert!(digest.contains("all done"));
}

#[test]
fn a_stopped_loop_keeps_its_budget() {
    let mut state = sample_loop_state();
    let step = record_terminal_step(&mut state, StepAction::Stop, "stop", None);
    assert_eq!(step.remaining_step_budget, 3);
    let step = record_terminal_step(&mut state, StepAction::Fail, "fail", Some("no"));
    assert_eq!(step.remaining_step_budget, 2);
    assert_eq!(step.step_index, 3);
}

#[test]
fn an_inspected_directory_becomes_the_working_directory() {
    let inspected = |ok: bool, tool: &str, kind: &str, path: &str| ToolObservation {
        ok,
        tool_name: tool.to_string(),
        error_type: None,
        terminal: false,
        data: object(vec![("kind", text(kind)), ("path", text(path))]),
        message: String::new(),
    };
    let moved = |o: &ToolObservation| next_working_directory_from_observation(o, "/here");
    assert_eq!(
        moved(&inspected(true, "fs.inspect", "directory", "/there")),
        Some("/there".to_string())
    );
    assert_eq!(moved(&inspected(true, "fs.inspect", "directory", "/here")), None);
    assert_eq!(moved(&inspected(true, "fs.inspect", "directory", "")), None);
    assert_eq!(moved(&inspected(true, "fs.inspect", "file", "/there")), None);
    assert_eq!(moved(&inspected(true, "fs.list_dir", "directory", "/there")), None);
    assert_eq!(moved(&inspected(false, "fs.inspect", "directory", "/there")), None);
}

#[test]
fn a_unique_find_is_looked_at_on_disk() {
    let found = ToolObservation {
        ok: true,
        tool_name: "fs.find".to_string(),
        error_type: None,
        terminal: false,
        data: object(vec![("resolved_path", text("src/lib.rs"))]),
        message: String::new(),
    };
    assert_eq!(path_to_probe(&found, None, &Vec::new()), Some("src/lib.rs".to_string()));
    let other = ToolObservation { tool_name: "fs.exists".to_string(), ..found };
    assert_eq!(path_to_probe(&other, None, &Vec::new()), None);
}

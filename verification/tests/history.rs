use roku_agent_runtime::decision::{IntentFamily, RouteDecision, RouteRisk};
use roku_agent_runtime::history::{
    compact_history, compact_history_with_llm, estimate_context_tokens, history_summary_prompt,
    seed_compact_summary_if_missing, should_compact, summarize_discarded_steps, CompactConfig,
};
use roku_agent_runtime::json::{Json, JsonField};
use roku_agent_runtime::json_text::render_json;
use roku_agent_runtime::observation::{
    NextStepAction, NextStepDecision, StepAction, StepObservation, StepRecord, ToolObservation,
};
use roku_agent_runtime::state::{LoopContext, LoopState};

fn object(fields: Vec<(&str, Json)>) -> Json {
    Json::Object(
        fields
            .into_iter()
            .map(|(name, value)| JsonField { name: name.to_string(), value })
            .collect(),
    )
}

fn text(s: &str) -> Json {
    Json::Text(s.to_string())
}

fn minimal_loop_state() -> LoopState {
    let context = LoopContext {
        request_id: "req-1".to_string(),
        session_id: "session-1".to_string(),
        goal: "test goal".to_string(),
        workspace_root: "/workspace".to_string(),
        working_directory: "/workspace".to_string(),
        visible_tools: vec!["inventory.describe".to_string()],
        bound_resources: Vec::new(),
        route_decision: RouteDecision::new(
            IntentFamily::Chat,
            "0.9",
            false,
            RouteRisk::Low,
            Vec::new(),
            Vec::new(),
            Vec::new(),
            "test",
        ),
        last_observation: None,
    };
    LoopState::with_budgets("run-1", &context, 10, 2)
}

fn sample_observation() -> ToolObservation {
    ToolObservation {
        ok: true,
        tool_name: "inventory.describe".to_string(),
        error_type: None,
        terminal: false,
        data: object(vec![("result", text("ok"))]),
        message: "Command completed successfully".to_string(),
    }
}

fn step_with_output(index: u32, budget_after: u32, reason: &str, output: Json) -> StepRecord {
    StepRecord::tool_call(
        index,
        NextStepDecision {
            action: NextStepAction::CallTool,
            tool_name: Some("inventory.describe".to_string()),
            arguments: Some(object(vec![("command", text("echo hello"))])),
            reason: reason.to_string(),
            final_message: None,
        },
        vec!["inventory.describe".to_string()],
        Vec::new(),
        output,
        sample_observation(),
        Some(150),
        budget_after,
        2,
        "/workspace".to_string(),
    )
}

fn sample_step(index: u32, budget_after: u32) -> StepRecord {
    step_with_output(
        index,
        budget_after,
        "Execute the command.",
        object(vec![("message", text("hello")), ("ok", Json::Bool(true))]),
    )
}

/// The sizes of the loop's structured parts, with each step as large as its output
/// and its message.
fn json_sizes(state: &LoopState) -> Vec<u64> {
    let mut sizes = vec![2_u64];
    if let Some(observation) = &state.last_observation {
        sizes.push(render_json(&observation.data).len() as u64 + observation.message.len() as u64);
    }
    for step in &state.history {
        let output = step.raw_tool_output.as_ref().map(|o| render_json(o).len()).unwrap_or(0);
        sizes.push(output as u64 + step.decision_reason.len() as u64);
    }
    sizes
}

fn estimated(state: &LoopState) -> u64 {
    estimate_context_tokens(state, &json_sizes(state))
}

#[test]
fn estimation_returns_nonzero_for_nonempty_state() {
    let state = minimal_loop_state();
    let tokens = estimated(&state);
    assert!(tokens > 0, "estimation should be positive for a state with a goal");
}

#[test]
fn estimation_grows_with_history_size() {
    let mut state = minimal_loop_state();
    let tokens_empty = estimated(&state);

    state.record_step(sample_step(1, 9));
    let tokens_one = estimated(&state);
    assert!(
        tokens_one > tokens_empty,
        "one step ({tokens_one}) should exceed empty ({tokens_empty})"
    );

    state.record_step(sample_step(2, 8));
    let tokens_two = estimated(&state);
    assert!(
        tokens_two > tokens_one,
        "two steps ({tokens_two}) should exceed one step ({tokens_one})"
    );
}

#[test]
fn estimation_includes_working_summary() {
    let mut state = minimal_loop_state();
    let before = estimated(&state);

    state.working_summary = "A".repeat(4000);
    let after = estimated(&state);
    assert!(
        after > before + 900,
        "4000 chars (~1000 tokens) should materially increase estimate"
    );
}

const DEFAULT_THRESHOLD_TOKENS: u64 = 150_000;

#[test]
fn should_compact_returns_false_below_threshold() {
    let state = minimal_loop_state();
    assert!(
        !should_compact(estimated(&state), DEFAULT_THRESHOLD_TOKENS),
        "minimal state should not trigger compact"
    );
}

#[test]
fn should_compact_returns_true_above_threshold() {
    let mut state = minimal_loop_state();
    state.working_summary = "X".repeat(700_000);
    assert!(
        should_compact(estimated(&state), DEFAULT_THRESHOLD_TOKENS),
        "large context should trigger compact"
    );
}

#[test]
fn should_compact_respects_custom_config() {
    let mut state = minimal_loop_state();
    state.working_summary = "X".repeat(400);
    // Half of a window of 100 tokens.
    assert!(
        should_compact(estimated(&state), 50),
        "small window should trigger compact even with moderate content"
    );
}

#[test]
fn compact_truncates_10_step_history_to_tail_plus_boundary() {
    let mut state = minimal_loop_state();
    for i in 1..=10 {
        state.record_step(sample_step(i, 10 - i));
    }
    assert_eq!(state.history.len(), 10);

    let config = CompactConfig { retain_tail_steps: 4, ..CompactConfig::default() };
    compact_history(&mut state, &config);

    assert_eq!(state.history.len(), 5, "expected boundary + 4 retained");
    assert_eq!(state.history[0].action, StepAction::CompactBoundary);
    assert_eq!(state.history[1].step_index, 7);
    assert_eq!(state.history[4].step_index, 10);
}

#[test]
fn compact_is_noop_when_history_within_retain_limit() {
    let mut state = minimal_loop_state();
    for i in 1..=3 {
        state.record_step(sample_step(i, 10 - i));
    }
    let before = state.history.len();
    compact_history(&mut state, &CompactConfig::default());
    assert_eq!(state.history.len(), before, "should not truncate");
    assert!(state.working_summary.is_empty(), "working_summary should stay empty");
}

#[test]
fn summarize_discarded_steps_format() {
    let steps: Vec<_> = (1..=6).map(|i| sample_step(i, 10 - i)).collect();
    let summary = summarize_discarded_steps(&steps);

    assert!(summary.starts_with("[Compact summary — 6 steps discarded]"));
    assert!(summary.contains("Step 1:"));
    assert!(summary.contains("Step 6:"));
    assert!(summary.contains("inventory.describe"));
    assert!(summary.contains("ok"));
}

#[test]
fn compact_populates_working_summary() {
    let mut state = minimal_loop_state();
    for i in 1..=10 {
        state.record_step(sample_step(i, 10 - i));
    }
    let config = CompactConfig { retain_tail_steps: 4, ..CompactConfig::default() };
    compact_history(&mut state, &config);

    assert!(
        state.working_summary.contains("[Compact summary"),
        "working_summary should contain compact digest"
    );
    assert!(
        state.working_summary.contains("6 steps discarded"),
        "should record 6 discarded steps"
    );
}

#[test]
fn compact_prepends_to_existing_working_summary() {
    let mut state = minimal_loop_state();
    state.working_summary = "Previous context from earlier compact.".to_string();
    for i in 1..=10 {
        state.record_step(sample_step(i, 10 - i));
    }
    compact_history(&mut state, &CompactConfig::default());

    assert!(
        state.working_summary.ends_with("Previous context from earlier compact."),
        "old summary should be preserved at end"
    );
    assert!(
        state.working_summary.starts_with("[Compact summary"),
        "new summary should be prepended"
    );
}

#[test]
fn compact_caps_working_summary_length() {
    let mut state = minimal_loop_state();
    state.working_summary = "X".repeat(3_900);
    for i in 1..=10 {
        state.record_step(sample_step(i, 10 - i));
    }
    let config = CompactConfig {
        retain_tail_steps: 4,
        working_summary_max_chars: 4_000,
        ..Default::default()
    };
    compact_history(&mut state, &config);

    assert!(
        state.working_summary.len() <= 4_000,
        "working_summary should be capped at 4000 chars, got {}",
        state.working_summary.len()
    );
}

#[test]
fn compact_boundary_is_first_in_retained_history() {
    let mut state = minimal_loop_state();
    for i in 1..=8 {
        state.record_step(sample_step(i, 10 - i));
    }
    let config = CompactConfig { retain_tail_steps: 4, ..CompactConfig::default() };
    compact_history(&mut state, &config);

    let boundary = &state.history[0];
    assert_eq!(boundary.action, StepAction::CompactBoundary);
    assert_eq!(
        boundary.decision_reason, "4",
        "boundary decision_reason should be the discarded count"
    );
    let raw = boundary.raw_tool_output.as_ref().unwrap();
    assert_eq!(raw.get_u64("discarded_count"), Some(4));
}

#[test]
fn seed_compact_summary_if_missing_populates_empty_working_summary_and_inserts_boundary() {
    let mut state = minimal_loop_state();
    for i in 1..=3 {
        state.record_step(sample_step(i, 10 - i));
    }
    assert!(state.working_summary.is_empty());
    assert!(!state.history.iter().any(|step| step.action == StepAction::CompactBoundary));

    seed_compact_summary_if_missing(
        &mut state,
        5,
        "Goal: rebuild context\nAccomplished: - compacted 5 messages",
    );

    assert_eq!(
        state.working_summary, "Goal: rebuild context\nAccomplished: - compacted 5 messages",
        "working_summary must hold the provided text verbatim"
    );
    let boundary = &state.history[0];
    assert_eq!(
        boundary.action,
        StepAction::CompactBoundary,
        "a synthetic CompactBoundary must be inserted at index 0"
    );
    let raw = boundary.raw_tool_output.as_ref().unwrap();
    assert_eq!(raw.get_u64("discarded_count"), Some(5));
}

#[test]
fn seed_compact_summary_if_missing_is_noop_when_working_summary_already_populated() {
    let mut state = minimal_loop_state();
    state.working_summary = "pre-existing summary".to_string();
    let history_len_before = state.history.len();

    seed_compact_summary_if_missing(&mut state, 7, "new summary body");

    assert_eq!(
        state.working_summary, "pre-existing summary",
        "must not overwrite an existing working_summary"
    );
    assert_eq!(
        state.history.len(),
        history_len_before,
        "must not push an extra CompactBoundary when the history-level compact already ran"
    );
}

#[test]
fn compact_reduces_estimated_tokens_below_threshold() {
    let mut state = minimal_loop_state();
    for i in 1..=8 {
        let step = step_with_output(
            i,
            10 - i,
            "Execute.",
            object(vec![("ok", Json::Bool(true)), ("output", text(&"X".repeat(100_000)))]),
        );
        state.record_step(step);
    }

    let before = estimated(&state);
    let config = CompactConfig { retain_tail_steps: 4, ..CompactConfig::default() };
    compact_history(&mut state, &config);
    let after = estimated(&state);

    assert!(after < before, "compact should reduce token count: {after} < {before}");
}

#[test]
fn multi_compact_loop_continuity() {
    let mut state = minimal_loop_state();
    state.remaining_step_budget = 20;

    let config = CompactConfig {
        retain_tail_steps: 3,
        working_summary_max_chars: 4_000,
        ..Default::default()
    };

    for i in 1..=6 {
        state.record_step(sample_step(i, 20 - i));
    }
    compact_history(&mut state, &config);

    assert_eq!(state.history.len(), 4);
    assert!(state.working_summary.contains("3 steps discarded"));

    for i in 7..=10 {
        state.record_step(sample_step(i, 20 - i));
    }
    let budget_before_compact = state.remaining_step_budget;
    compact_history(&mut state, &config);

    assert_eq!(state.history.len(), 4);
    assert_eq!(
        state.remaining_step_budget, budget_before_compact,
        "compact must not alter step budget"
    );

    let compact_count = state.working_summary.matches("[Compact summary").count();
    assert!(
        compact_count >= 2,
        "working_summary should contain summaries from both compacts, found {compact_count}"
    );

    assert!(state.remaining_step_budget > 0);
}

#[test]
fn a_blank_reply_leaves_the_digest() {
    let mut state = minimal_loop_state();
    for i in 1..=4 {
        state.record_step(sample_step(i, 10 - i));
    }
    let config = CompactConfig { retain_tail_steps: 2, ..CompactConfig::default() };
    assert!(!compact_history_with_llm(&mut state, &config, Some("  \n")));
    assert!(state.working_summary.starts_with("[Compact summary — 2 steps discarded]"));
}

#[test]
fn the_models_summary_is_taken_over() {
    let mut state = minimal_loop_state();
    for i in 1..=4 {
        state.record_step(sample_step(i, 10 - i));
    }
    let config = CompactConfig { retain_tail_steps: 2, ..CompactConfig::default() };
    assert!(compact_history_with_llm(&mut state, &config, Some("both steps went well")));
    assert_eq!(state.working_summary, "both steps went well");
    assert_eq!(state.history.len(), 3);
    assert!(!compact_history_with_llm(
        &mut minimal_loop_state(),
        &config,
        Some("nothing to say")
    ));
}

#[test]
fn the_history_prompt_names_the_tools() {
    let mut state = minimal_loop_state();
    for i in 1..=3 {
        state.record_step(sample_step(i, 10 - i));
    }
    let config = CompactConfig { retain_tail_steps: 2, ..CompactConfig::default() };
    let prompt = history_summary_prompt(&state, &config).expect("one step is discarded");
    assert!(prompt.contains("inventory.describe"));
    assert!(history_summary_prompt(&state, &CompactConfig::default()).is_none());
}

#[test]
fn estimate_is_a_quarter_of_the_characters() {
    let mut state = minimal_loop_state();
    // 9 characters of goal, 18 of the tool name, and 13 of structured parts.
    assert_eq!(estimate_context_tokens(&state, &vec![2, 11]), 10);
    state.goal = "日本語テスト目標".to_string();
    assert_eq!(estimate_context_tokens(&state, &vec![2, 12]), 10);
}

fn step_with_message(tool: &str, reason: &str, message: &str) -> StepRecord {
    let mut step = sample_step(1, 9);
    step.tool_name = Some(tool.to_string());
    step.decision_reason = reason.to_string();
    step.observation = Some(StepObservation::Tool(ToolObservation {
        message: message.to_string(),
        ..sample_observation()
    }));
    step
}

#[test]
fn an_outcome_of_two_hundred_characters_is_kept() {
    let line = |message: &str| {
        let digest = summarize_discarded_steps(&vec![step_with_message("t", "r", message)]);
        digest
            .strip_prefix("[Compact summary — 1 steps discarded]\nStep 1: t — r — ok: ")
            .expect("the line on the step")
            .to_string()
    };
    for whole in ["m".repeat(150), "m".repeat(200), "日".repeat(200)] {
        assert_eq!(line(&whole), whole);
    }
    assert_eq!(line(&"日".repeat(201)), format!("{}…", "日".repeat(199)));
}

#[test]
fn each_step_takes_one_line() {
    let steps = vec![
        step_with_message("a\nb", "why\r\nnot", "first\nsecond\r\nthird"),
        step_with_message("t", "r", "\n\n"),
        step_with_message("t", "r", ""),
    ];
    let digest = summarize_discarded_steps(&steps);
    let lines: Vec<&str> = digest.split('\n').collect();
    assert_eq!(
        lines,
        [
            "[Compact summary — 3 steps discarded]",
            "Step 1: a b — why not — ok: first second third",
            "Step 1: t — r — ok:   ",
            "Step 1: t — r — ok",
        ]
    );
}

use roku_agent_runtime::approval::ApprovalDecision;
use roku_agent_runtime::attempt::{
    decide_escalation, is_cut_off, retry_preflight_values, session_summary_wanted,
    time_based_microcompact_due, validated_baseline, Escalation, ModelResponse, PreCall,
    RetryPreflight, CACHE_COLD_GAP_MS,
};
use roku_agent_runtime::cache_break::{SystemPromptBlock, ToolDefinition};
use roku_agent_runtime::catalog::RuntimeVisibleToolAvailabilitySnapshot;
use roku_agent_runtime::compact::MICROCOMPACT_PLACEHOLDER;
use roku_agent_runtime::compaction::SummarizerRun;
use roku_agent_runtime::config::LoopRuntimeConfig;
use roku_agent_runtime::decision::{IntentFamily, RouteDecision, RouteRisk};
use roku_agent_runtime::events::LoopEvent;
use roku_agent_runtime::history::CompactConfig;
use roku_agent_runtime::json::{Json, JsonField};
use roku_agent_runtime::message::{Message, ToolCallBlock};
use roku_agent_runtime::observation::{StepAction, StepObservation, ToolObservation};
use roku_agent_runtime::pressure::PromptTokenEstimate;
use roku_agent_runtime::route::DirectRouteExecutionResult;
use roku_agent_runtime::start::initialize_runtime_loop;
use roku_agent_runtime::state::{DeferredTools, LoopState, LoopStatus, PromptSurface};
use roku_agent_runtime::status_result::synthetic_loop_terminal_result;
use roku_agent_runtime::summarizer::{RemoteReply, SummarizerReply};
use roku_agent_runtime::task::{ConversationRole, ConversationTurn, ResultStatus};
use roku_agent_runtime::task_tools::{
    parse_u32_from_json, task_tool_answer, task_tool_request, TaskStoreReply, TaskToolRequest,
};
use roku_agent_runtime::terminal::record_terminal_step;
use roku_agent_runtime::tool_calls::{InterpretedObservation, ToolDispatch, ToolRun};
use roku_agent_runtime::tool_loop::{next_schema_bytes, ToolLoop};
use roku_agent_runtime::turn::{
    end_without_router, thinking_effort, LoopEnd, ModelError, ThinkingEffort,
};
use roku_agent_runtime::visible::LoopMode;
use serde_json::Value;

fn list(items: &[&str]) -> Vec<String> {
    items.iter().map(|s| s.to_string()).collect()
}

fn text(s: &str) -> Json {
    Json::Text(s.to_string())
}

fn object(fields: Vec<(&str, Json)>) -> Json {
    Json::Object(
        fields
            .into_iter()
            .map(|(name, value)| JsonField { name: name.to_string(), value })
            .collect(),
    )
}

fn call(id: &str, name: &str, arguments: Json) -> ToolCallBlock {
    ToolCallBlock { id: id.to_string(), name: name.to_string(), arguments }
}

fn decision(family: IntentFamily, candidates: &[&str], reason: &str) -> RouteDecision {
    RouteDecision::new(
        family,
        "0.95",
        false,
        RouteRisk::Low,
        list(candidates),
        Vec::new(),
        Vec::new(),
        reason,
    )
}

fn availability(enabled: &[&str], baseline: &[&str]) -> RuntimeVisibleToolAvailabilitySnapshot {
    RuntimeVisibleToolAvailabilitySnapshot {
        enabled_tools: list(enabled),
        baseline_visible_tools: list(baseline),
    }
}

fn default_tools() -> RuntimeVisibleToolAvailabilitySnapshot {
    availability(
        &["Bash", "Find", "Inspect", "Python", "Read", "SkillInstall", "TablePreview"],
        &["SkillInstall"],
    )
}

fn start(request_id: &str, session_id: &str, goal: &str, route: &RouteDecision) -> LoopState {
    initialize_runtime_loop(
        request_id,
        session_id,
        goal,
        Some("/workspace"),
        route,
        &default_tools(),
        Vec::new(),
        &LoopRuntimeConfig::default(),
    )
}

/// What stands in for the model, the tools and the memory.
struct Script {
    replies: Vec<Result<ModelResponse, ModelError>>,
    /// The session's stored summary.
    memory: Option<(String, String)>,
    tools: fn(&ToolCallBlock) -> ToolObservation,
    turns: Vec<ConversationTurn>,
    window: u64,
    routed_model: &'static str,
    supports_cap: bool,
    now_ms: u64,
}

struct Outcome {
    machine: ToolLoop,
    end: LoopEnd,
    calls: usize,
    memory_queries: usize,
    prompts: Vec<String>,
    tool_names: Vec<String>,
}

fn no_tool(call: &ToolCallBlock) -> ToolObservation {
    panic!("no tool should run, but {} did", call.name);
}

fn reply_of(calls: Vec<ToolCallBlock>) -> Result<ModelResponse, ModelError> {
    Ok(ModelResponse {
        output: String::new(),
        tool_calls: calls,
        prompt_tokens: 24,
        output_tokens: 8,
        cache_creation_input_tokens: 0,
        cache_read_input_tokens: 0,
        model_id: "sequence-json-model".to_string(),
        provider: "sequence-json-provider".to_string(),
        finish_reason: None,
    })
}

fn final_answer(message: &str) -> Result<ModelResponse, ModelError> {
    reply_of(vec![call("test-call-1", "final_answer", object(vec![("message", text(message))]))])
}

fn script(replies: Vec<Result<ModelResponse, ModelError>>) -> Script {
    Script {
        replies,
        memory: None,
        tools: no_tool,
        turns: Vec::new(),
        window: 200_000,
        routed_model: "sequence-json-model",
        supports_cap: true,
        now_ms: 1_700_000_000_000,
    }
}

fn same(raw: u64) -> u64 {
    raw
}

fn shown(messages: &[Message]) -> String {
    messages
        .iter()
        .map(|m| match m {
            Message::User { content } => format!("user: {content}\n"),
            Message::Assistant { text, tool_calls } => format!(
                "assistant: {text} {}\n",
                tool_calls.iter().map(|c| c.name.clone()).collect::<Vec<_>>().join(",")
            ),
            Message::ToolResult { content, .. } => format!("result: {content}\n"),
        })
        .collect()
}

fn estimate_of(messages: &[Message]) -> u64 {
    messages.iter().map(|m| shown(std::slice::from_ref(m)).len() as u64 / 4 + 4).sum()
}

fn prompt_estimate(total: u64) -> PromptTokenEstimate {
    PromptTokenEstimate {
        system_tokens: 0,
        message_tokens: total,
        framing_tokens: 0,
        tool_schema_tokens: 0,
        committed_baseline_tokens: 0,
        total_tokens: total,
        raw_total_tokens: total,
    }
}

fn run(state: LoopState, script: Script) -> Outcome {
    let offered = default_tools().compose_visible_tools(&state.route_decision.candidate_tools);
    let mut machine = ToolLoop::begin(state, &script.turns, None);
    let mut replies = script.replies.into_iter();
    let mut calls = 0;
    let mut memory_queries = 0;
    let mut prompts = Vec::new();
    let mut tool_names = Vec::new();
    let blocks: Vec<SystemPromptBlock> = Vec::new();
    loop {
        machine.refresh(LoopMode::Normal, &offered, &Vec::new());
        let fresh: Vec<ToolDefinition> = machine
            .state
            .visible_tools
            .iter()
            .map(|name| ToolDefinition {
                name: name.clone(),
                description: String::new(),
                parameters: "{}".to_string(),
            })
            .collect();
        let sent = machine.freeze(fresh);
        if let Some(end) = machine.open_turn(&sent) {
            return Outcome { machine, end, calls, memory_queries, prompts, tool_names };
        }
        machine.cool_down(script.now_ms, same);
        let response = loop {
            let pressure = estimate_of(&machine.messages);
            let mut found: Option<String> = None;
            if !machine.reactive_compact_used
                && pressure > script.window * 60 / 100
                && session_summary_wanted(&machine.state)
            {
                memory_queries += 1;
                found = script
                    .memory
                    .as_ref()
                    .filter(|(session, _)| *session == machine.state.session_id)
                    .map(|(_, summary)| summary.clone());
            }
            machine.compact_middle(pressure, script.window, found.as_deref());
            machine.announce_call(&blocks, &sent, Some(script.routed_model));
            prompts.push(format!(
                "{}{}",
                sent.iter().map(|d| format!("\"{}\"", d.name)).collect::<String>(),
                shown(&machine.messages)
            ));
            calls += 1;
            let pre = PreCall {
                surface: PromptSurface {
                    system_prompt_bytes: 6,
                    tool_schema_bytes_len: 2,
                    system_prompt_hash: 1,
                    tool_schema_hash: 2,
                    model_id: Some(script.routed_model.to_string()),
                },
                message_count: machine.messages.len(),
                prefix_messages_hash: 3,
                estimate: prompt_estimate(estimate_of(&machine.messages)),
            };
            match replies.next().expect("the script has a reply for every call") {
                Ok(response) => {
                    let observed = machine.absorb_response(&pre, "", &response, script.now_ms);
                    assert_eq!(observed.text, response.output);
                    machine.escalate(&response, script.supports_cap, None, 1_200);
                    break response;
                }
                Err(error) => {
                    if let Some(end) = machine.absorb_error(&error, 4_000) {
                        return Outcome {
                            machine,
                            end,
                            calls,
                            memory_queries,
                            prompts,
                            tool_names,
                        };
                    }
                    let tokens = machine.compact(&CompactConfig::default(), None, 3, 1);
                    machine.conclude_reactive(tokens, script.now_ms);
                }
            }
        };
        if let Some(end) =
            machine.absorb_turn(&Vec::new(), &response.output, response.tool_calls)
        {
            return Outcome { machine, end, calls, memory_queries, prompts, tool_names };
        }
        while !machine.pending.is_empty() {
            let (call, dispatch) = machine.take_call(&ApprovalDecision::Approve);
            assert_eq!(dispatch, ToolDispatch::Run);
            tool_names.push(call.name.clone());
            let observation = (script.tools)(&call);
            let budget = machine.state.remaining_step_budget.saturating_sub(1);
            let stored = observation.message.clone();
            let run = ToolRun {
                interpreted: InterpretedObservation {
                    remaining_step_budget: budget,
                    remaining_recovery_budget: machine.state.remaining_recovery_budget,
                    new_working_directory: None,
                    budget_exhausted: budget == 0,
                    recovery_exhausted: false,
                },
                elapsed_ms: Some(5),
                output: observation.data.clone(),
                recorded_output: observation.data.clone(),
                stored,
                observation,
            };
            machine.answer_run(&call, &run);
        }
        machine.close_results(4_000);
        assert!(!machine.compaction_due(estimate_of(&machine.messages), script.window));
        machine.close_turn((0, 0), script.now_ms);
    }
}

fn result_of(task_id: &str, outcome: &Outcome) -> DirectRouteExecutionResult {
    let trace = object(vec![("schema_version", text("runtime_loop_trace.v1"))]);
    synthetic_loop_terminal_result(
        task_id,
        "tool",
        &outcome.end.message,
        outcome.end.action,
        outcome.end.status,
        Some(&trace),
    )
}

fn count(events: &[LoopEvent], wanted: fn(&LoopEvent) -> bool) -> usize {
    events.iter().filter(|e| wanted(e)).count()
}

fn is_layer1(e: &LoopEvent) -> bool {
    matches!(e, LoopEvent::MidCompactLayer1Ran { .. })
}

fn is_layer2(e: &LoopEvent) -> bool {
    matches!(e, LoopEvent::MidCompactLayer2Ran { .. })
}

fn padded_turns() -> Vec<ConversationTurn> {
    let pad = "lorem ipsum dolor sit amet, consectetur adipiscing elit, sed do eiusmod tempor incididunt. ".repeat(3);
    [
        ConversationRole::User,
        ConversationRole::Assistant,
        ConversationRole::User,
        ConversationRole::Assistant,
    ]
    .into_iter()
    .map(|role| ConversationTurn { role, content: pad.clone() })
    .collect()
}

fn layered_script(memory: Option<(String, String)>) -> Script {
    Script {
        memory,
        turns: padded_turns(),
        window: 200,
        ..script(vec![final_answer("done")])
    }
}

fn chat() -> RouteDecision {
    decision(IntentFamily::Chat, &[], "chat request")
}

#[test]
fn fetch_layer2_session_summary_returns_none_without_memory_backend() {
    let state = start("r", "session-1", "goal", &chat());
    let outcome = run(state, layered_script(None));
    assert_eq!(count(&outcome.machine.events, is_layer2), 0, "no backend installed → None");
}

#[test]
fn fetch_layer2_session_summary_returns_none_for_empty_session_id() {
    let state = start("r", "", "goal", &chat());
    assert!(!session_summary_wanted(&state));
    let outcome = run(state, layered_script(Some(("some-session".into(), "leaked".into()))));
    assert_eq!(
        outcome.memory_queries, 0,
        "empty session_id must short-circuit (no cross-session leakage)",
    );
    assert!(!outcome.prompts[0].contains("leaked"));
}

#[test]
fn fetch_layer2_session_summary_returns_stored_content_for_matching_session() {
    let memory = Some(("session-X".to_string(), "session X summary body".to_string()));
    let outcome = run(start("r", "session-X", "goal", &chat()), layered_script(memory.clone()));
    assert!(outcome.prompts[0].contains("session X summary body"));

    let foreign = run(start("r", "session-other", "goal", &chat()), layered_script(memory));
    assert!(!foreign.prompts[0].contains("session X summary body"));
    assert_eq!(count(&foreign.machine.events, is_layer2), 0);
}

#[test]
fn execute_tool_loop_splices_session_memory_summary_via_layer2() {
    let state =
        start("req-layer2-int", "session-layer2-int-test", "Layer 2 integration test", &chat());
    let outcome = run(
        state,
        layered_script(Some((
            "session-layer2-int-test".to_string(),
            "PRIOR-SESSION-MEMORY-SUMMARY-BODY: root-cause was a stale cache key.".to_string(),
        ))),
    );
    assert_eq!(
        count(&outcome.machine.events, is_layer2),
        1,
        "seeded memory → Layer 2 must fire exactly once",
    );
    assert_eq!(
        count(&outcome.machine.events, is_layer1),
        0,
        "Layer 1 mechanical fallback must not fire when Layer 2 consumed the summary",
    );
    assert!(
        outcome.machine.state.layer2_lookup_attempted_this_run,
        "layer2_lookup_attempted_this_run must be set after Layer 2 fires",
    );
    assert!(outcome.prompts[0].contains("PRIOR-SESSION-MEMORY-SUMMARY-BODY"));
}

#[test]
fn execute_tool_loop_falls_back_to_layer1_when_layer2_lookup_already_attempted() {
    let mut state = start(
        "req-layer2-already",
        "session-layer2-already-consumed",
        "Layer 2 already-consumed test",
        &chat(),
    );
    state.layer2_lookup_attempted_this_run = true;
    let outcome = run(
        state,
        layered_script(Some((
            "session-layer2-already-consumed".to_string(),
            "a summary".to_string(),
        ))),
    );
    assert_eq!(
        count(&outcome.machine.events, is_layer2),
        0,
        "flag already true → Layer 2 must NOT fire a second time in the same run",
    );
    assert_eq!(
        count(&outcome.machine.events, is_layer1),
        1,
        "mid-water pressure with Layer 2 already consumed → Layer 1 fallback fires once",
    );
    assert_eq!(
        outcome.memory_queries, 0,
        "attempted flag pre-set → backend must NOT be queried this run",
    );
}

#[test]
fn execute_tool_loop_caches_layer2_lookup_miss_and_sets_attempted_flag() {
    let state = start("req-layer2-miss", "session-layer2-miss", "Layer 2 miss test", &chat());
    let outcome = run(
        state,
        layered_script(Some(("session-foreign".to_string(), "foreign".to_string()))),
    );
    assert_eq!(
        count(&outcome.machine.events, is_layer2),
        0,
        "no matching summary → Layer 2 must NOT fire",
    );
    assert_eq!(
        count(&outcome.machine.events, is_layer1),
        1,
        "mid-water pressure → Layer 1 mechanical fallback fires once",
    );
    assert!(
        outcome.machine.state.layer2_lookup_attempted_this_run,
        "attempted flag must flip on any lookup — hit or miss",
    );
    assert_eq!(outcome.memory_queries, 1, "backend must be queried exactly once per run");
}

#[test]
fn execute_tool_loop_falls_back_to_layer1_when_memory_has_no_summary() {
    let state = start("req-layer1", "session-layer1", "Layer 1 fallback test", &chat());
    let outcome = run(state, layered_script(None));
    assert_eq!(
        count(&outcome.machine.events, is_layer2),
        0,
        "no memory backend → Layer 2 must not fire"
    );
    assert_eq!(
        count(&outcome.machine.events, is_layer1),
        1,
        "mid-water pressure without memory → Layer 1 mechanical fallback fires once",
    );
}

fn inspected(call: &ToolCallBlock) -> ToolObservation {
    ToolObservation {
        ok: true,
        tool_name: call.name.clone(),
        error_type: None,
        terminal: false,
        data: object(vec![("path", text("/workspace"))]),
        message: "inspected".to_string(),
    }
}

#[test]
fn execute_tool_loop_can_continue_after_non_terminal_success() {
    let route = decision(IntentFamily::FilesystemRead, &["Inspect"], "filesystem request");
    let state = start("req-loop", "session-loop", "Inspect the current workspace directory", &route);
    let outcome = run(
        state,
        Script {
            tools: inspected,
            ..script(vec![
                reply_of(vec![call(
                    "test-call-1",
                    "Inspect",
                    object(vec![("path", text("/workspace"))]),
                )]),
                final_answer("Loop concluded after a non-terminal filesystem observation."),
            ])
        },
    );
    let execution = result_of("task-loop", &outcome);
    let state = &outcome.machine.state;

    assert_eq!(execution.result.status, ResultStatus::Success);
    assert_eq!(execution.terminal_step_action, Some(StepAction::FinalAnswer));
    assert_eq!(
        execution.message,
        "Loop concluded after a non-terminal filesystem observation."
    );
    assert_eq!(state.history.len(), 2);
    assert_eq!(state.history[0].tool_name.as_deref(), Some("Inspect"));
    assert_eq!(state.history[1].action, StepAction::FinalAnswer);
    assert_eq!(state.status, LoopStatus::Succeeded);
    assert_eq!(state.visible_tools.first().map(String::as_str), Some("Inspect"));
    assert!(state.history.first().and_then(|step| step.observation.as_ref()).is_some_and(
        |observation| matches!(
            observation,
            StepObservation::Tool(tool_observation) if !tool_observation.terminal
        )
    ));
    assert_eq!(outcome.prompts.len(), 2);
    assert!(outcome.prompts[0].contains("\"Inspect\""));
    assert!(outcome.prompts[1].contains("Inspect"));
}

#[test]
fn execute_tool_loop_records_ask_user_terminal_state() {
    let route = decision(IntentFamily::Chat, &["inventory.describe"], "chat request");
    let state = start("req-ask-user", "session-ask-user", "Inspect a file for me", &route);
    let outcome = run(
        state,
        script(vec![reply_of(vec![call(
            "test-call-1",
            "ask_user",
            object(vec![("question", text("Which file should I inspect?"))]),
        )])]),
    );
    let execution = result_of("task-ask-user", &outcome);
    let state = &outcome.machine.state;

    assert_eq!(execution.result.status, ResultStatus::Success);
    assert_eq!(execution.terminal_step_action, Some(StepAction::AskUser));
    assert_eq!(state.history.len(), 1);
    assert_eq!(state.history[0].action, StepAction::AskUser);
    assert_eq!(state.status, LoopStatus::AwaitingUser);
    assert_eq!(execution.message, "Which file should I inspect?");
}

fn approval_required(call: &ToolCallBlock) -> ToolObservation {
    ToolObservation {
        ok: false,
        tool_name: call.name.clone(),
        error_type: Some("approval_required".to_string()),
        terminal: false,
        data: object(vec![("error_code", text("approval_required"))]),
        message: "approval required".to_string(),
    }
}

#[test]
fn execute_tool_loop_preserves_approval_required_command_payload_for_terminal_failures() {
    let route = decision(IntentFamily::CodeExec, &["Bash"], "command execution request");
    let state = start(
        "req-command-approval",
        "session-command-approval",
        "run dd if=/dev/zero of=/dev/null",
        &route,
    );
    let outcome = run(
        state,
        Script {
            tools: approval_required,
            ..script(vec![
                reply_of(vec![call(
                    "test-call-1",
                    "Bash",
                    object(vec![("command", text("dd if=/dev/zero of=/dev/null"))]),
                )]),
                reply_of(vec![call(
                    "test-call-1",
                    "fail",
                    object(vec![("reason", text("Cannot proceed: Bash requires approval."))]),
                )]),
            ])
        },
    );
    let execution = result_of("task-command-approval", &outcome);
    let payload =
        serde_json::from_str::<Value>(&execution.result.payload).expect("payload should decode");

    assert_eq!(execution.result.status, ResultStatus::Error);
    assert_eq!(execution.node.node_id, "runtime-loop:tool");
    assert_eq!(execution.terminal_step_action, Some(StepAction::Fail));
    assert_eq!(payload.get("runtime_loop").and_then(Value::as_str), Some("tool"));
    assert!(payload.get("probe_trace").is_some());
    assert!(matches!(
        &outcome.machine.messages[2],
        Message::ToolResult { is_error: true, .. }
    ));
}

#[test]
fn initialize_runtime_loop_uses_shortlist_and_baseline_visible_tools() {
    let route =
        decision(IntentFamily::FilesystemRead, &["Read", "not.enabled"], "filesystem request");
    let state = start("req-loop", "session-loop", "Read Cargo.toml", &route);

    assert_eq!(state.run_id, "loop-req-loop");
    assert_eq!(state.visible_tools.first().map(String::as_str), Some("Read"));
    assert!(
        !state.visible_tools.contains(&"general.execute".to_string()),
        "general.execute must not appear in visible tools after removal"
    );
    assert!(
        !state.visible_tools.contains(&"inventory.describe".to_string()),
        "inventory.describe must not appear in visible tools after removal"
    );
    assert!(state.visible_tools.contains(&"SkillInstall".to_string()));
    assert!(state.visible_tools.contains(&"TablePreview".to_string()));
    assert!(state.visible_tools.contains(&"Python".to_string()));
    assert_eq!(state.history.len(), 0);
}

#[test]
fn initialize_runtime_loop_seeds_visible_tools_from_shared_availability_snapshot() {
    let route =
        decision(IntentFamily::TableRead, &["Read", "TablePreview"], "table preview request");
    let state = initialize_runtime_loop(
        "req-loop-snapshot",
        "session-loop-snapshot",
        "Preview the loaded table",
        None,
        &route,
        &availability(&["TablePreview", "inventory.describe"], &["inventory.describe"]),
        Vec::new(),
        &LoopRuntimeConfig::default(),
    );
    assert_eq!(state.visible_tools, list(&["TablePreview", "inventory.describe"]));
}

#[test]
fn execute_tool_loop_can_switch_tools_after_an_insufficient_lookup_observation() {
    let route = decision(
        IntentFamily::FilesystemRead,
        &["Find", "Read"],
        "seed the loop with a lookup-first filesystem hint",
    );
    let state =
        start("req-react-recovery", "session-react-recovery", "Find and read a.txt.", &route);
    let outcome = run(
        state,
        Script {
            tools: inspected,
            ..script(vec![
                reply_of(vec![call("1", "Find", object(vec![("name", text("a.txt"))]))]),
                reply_of(vec![call("2", "Read", object(vec![("path", text("/tmp/a.txt"))]))]),
                final_answer("react recovery fixture\n"),
            ])
        },
    );
    let sequence: Vec<String> =
        outcome.machine.state.history.iter().filter_map(|s| s.tool_name.clone()).collect();
    assert_eq!(sequence, list(&["Find", "Read"]));
    assert_eq!(outcome.tool_names, list(&["Find", "Read"]));
    assert_eq!(
        result_of("task-react-recovery", &outcome).terminal_step_action,
        Some(StepAction::FinalAnswer)
    );
}

fn read_fixture(call: &ToolCallBlock) -> ToolObservation {
    let marker = match call.arguments.get_str("path") {
        Some(path) => path.to_string(),
        None => String::new(),
    };
    ToolObservation {
        ok: true,
        tool_name: call.name.clone(),
        error_type: None,
        terminal: false,
        data: Json::Text(marker),
        message: "read".to_string(),
    }
}

#[test]
fn execute_tool_loop_keeps_tool_result_content_byte_stable_across_turns() {
    let markers = [
        "MARKER-ALPHA-byte-stability-fixture-A",
        "MARKER-BETA-byte-stability-fixture-B",
        "MARKER-GAMMA-byte-stability-fixture-C",
        "MARKER-DELTA-byte-stability-fixture-D",
    ];
    let mut replies: Vec<Result<ModelResponse, ModelError>> = markers
        .iter()
        .map(|m| reply_of(vec![call("test-call-1", "Read", object(vec![("path", text(m))]))]))
        .collect();
    replies.push(final_answer("fixtures loaded"));
    let route = decision(IntentFamily::FilesystemRead, &["Read"], "byte-stability regression");
    let state =
        start("req-byte-stability", "session-byte-stability", "Read all fixtures", &route);
    let outcome = run(state, Script { tools: read_fixture, ..script(replies) });

    assert_eq!(
        outcome.prompts.len(),
        5,
        "five turns expected (4 Read + final_answer); got {}",
        outcome.prompts.len(),
    );
    for (idx, prompt) in outcome.prompts.iter().enumerate() {
        assert!(
            !prompt.contains(MICROCOMPACT_PLACEHOLDER),
            "prompt[{idx}] unexpectedly contains the microcompact placeholder",
        );
    }
    for marker in markers {
        assert!(
            outcome.prompts[4].contains(marker),
            "final_answer prompt must contain `{marker}` (intact body from earlier turn)"
        );
    }
}

#[test]
fn execute_tool_loop_emits_time_based_microcompact_event_when_last_llm_call_was_long_ago() {
    let mut state = start(
        "req-time-gated-fires",
        "session-time-gated-fires",
        "force the time gate to fire",
        &chat(),
    );
    state.record_llm_call_observed_at(0);
    let outcome = run(state, script(vec![final_answer("ok")]));

    let time_gated: Vec<(u64, u64)> = outcome
        .machine
        .events
        .iter()
        .filter_map(|e| match e {
            LoopEvent::TimeBasedMicrocompactRan { gap_minutes, freed_tokens, .. } => {
                Some((*gap_minutes, *freed_tokens))
            }
            _ => None,
        })
        .collect();
    assert_eq!(
        time_gated.len(),
        1,
        "time-gated microcompact must fire exactly once when \
         last_llm_call_at is decades in the past; got {time_gated:?}",
    );
    let (gap_minutes, _freed) = time_gated[0];
    assert!(
        gap_minutes >= 5,
        "gap_minutes must reflect a cold-cache window (≥ 5 min); got {gap_minutes}",
    );
    assert_eq!(gap_minutes, 1_700_000_000_000 / 60_000);

    let token_usage: Vec<u64> = outcome
        .machine
        .events
        .iter()
        .filter_map(|e| match e {
            LoopEvent::TokenUsage { prompt_tokens, .. } => Some(*prompt_tokens),
            _ => None,
        })
        .collect();
    assert_eq!(
        token_usage.len(),
        1,
        "single-LLM-call loop must emit exactly one per-call TokenUsage event; \
         got {token_usage:?}",
    );
    assert_eq!(
        token_usage[0], 24,
        "TokenUsage.prompt_tokens must carry the per-call value from the \
         provider (24), not a cumulative running total",
    );
}

#[test]
fn execute_tool_loop_does_not_emit_time_based_microcompact_on_cold_start_session() {
    let state = start(
        "req-time-gated-skip",
        "session-time-gated-skip",
        "verify gate stays closed in warm window",
        &chat(),
    );
    let outcome = run(state, script(vec![final_answer("ok")]));
    let time_gated_count = count(&outcome.machine.events, |e| {
        matches!(e, LoopEvent::TimeBasedMicrocompactRan { .. })
    });
    assert_eq!(
        time_gated_count, 0,
        "time-gated microcompact must not fire on cold start or within the warm window",
    );
}

#[test]
fn the_cold_gap_is_five_minutes() {
    assert!(!time_based_microcompact_due(None, 1_000_000));
    assert!(!time_based_microcompact_due(Some(0), CACHE_COLD_GAP_MS));
    assert!(time_based_microcompact_due(Some(0), CACHE_COLD_GAP_MS + 1));
    assert!(!time_based_microcompact_due(Some(9), 3));
    assert_eq!(CACHE_COLD_GAP_MS, 5 * 60 * 1000);
}

#[test]
fn visible_tools_recompute_keeps_shortlist_and_safe_baseline_after_tool_steps() {
    let tools = availability(
        &["Read", "TablePreview", "inventory.describe"],
        &["inventory.describe"],
    );
    let route = decision(IntentFamily::FilesystemRead, &["Read"], "filesystem request");
    let state = initialize_runtime_loop(
        "req-followup",
        "session-followup",
        "Read Cargo.toml and summarize the workspace layout",
        Some("/workspace"),
        &route,
        &tools,
        Vec::new(),
        &LoopRuntimeConfig::default(),
    );
    assert!(state.visible_tools.contains(&"Read".to_string()));
    assert!(state.visible_tools.contains(&"inventory.describe".to_string()));
    assert!(state.visible_tools.contains(&"TablePreview".to_string()));
    let mut machine = ToolLoop::begin(state, &Vec::new(), None);
    assert!(machine.open_turn(&Vec::new()).is_none());
    let observation = ToolObservation {
        ok: true,
        tool_name: "Read".to_string(),
        error_type: None,
        terminal: false,
        data: object(vec![
            ("content", text("[workspace]\nmembers = [\"crates/roku-agent-runtime\"]")),
            ("path", text("/workspace/Cargo.toml")),
        ]),
        message: "Read the grounded workspace manifest.".to_string(),
    };
    let step = ToolRun {
        interpreted: InterpretedObservation {
            remaining_step_budget: 9,
            remaining_recovery_budget: 2,
            new_working_directory: None,
            budget_exhausted: false,
            recovery_exhausted: false,
        },
        elapsed_ms: Some(12),
        output: observation.data.clone(),
        recorded_output: observation.data.clone(),
        stored: observation.message.clone(),
        observation,
    };
    machine.answer_run(&call("1", "Read", object(vec![("path", text("Cargo.toml"))])), &step);
    let offered = tools.compose_visible_tools(&machine.state.route_decision.candidate_tools);
    machine.refresh(LoopMode::Normal, &offered, &Vec::new());
    let visible_tools = &machine.state.visible_tools;

    assert!(visible_tools.contains(&"Read".to_string()));
    assert!(visible_tools.contains(&"inventory.describe".to_string()));
    assert!(visible_tools.contains(&"TablePreview".to_string()));
    assert!(
        !visible_tools.contains(&"general.execute".to_string()),
        "recompute must not reintroduce removed tools"
    );
}

#[test]
fn record_terminal_step_updates_history_and_status() {
    let mut state = start("req-terminal", "session-terminal", "hello", &chat());
    let step = record_terminal_step(
        &mut state,
        StepAction::FinalAnswer,
        "phase1 skeleton terminal step",
        Some("hello"),
    );
    assert_eq!(step.step_index, 1);
    assert_eq!(state.history.len(), 1);
    assert_eq!(state.status, LoopStatus::Succeeded);
}

fn too_long(detail: &str) -> Result<ModelResponse, ModelError> {
    Err(ModelError::ContextWindowExceeded { detail: detail.to_string() })
}

#[test]
fn execute_tool_loop_recovers_from_context_window_exceeded_via_reactive_compact() {
    let state =
        start("req-reactive", "session-reactive", "Reactive compact recovery test", &chat());
    let outcome = run(
        state,
        script(vec![
            too_long("prompt is too long: 215321 tokens > 200000"),
            final_answer("Loop recovered from context overflow."),
        ]),
    );
    let execution = result_of("task-reactive", &outcome);

    assert_eq!(execution.result.status, ResultStatus::Success);
    assert_eq!(execution.terminal_step_action, Some(StepAction::FinalAnswer));
    assert_eq!(execution.message, "Loop recovered from context overflow.");
    assert_eq!(outcome.machine.state.status, LoopStatus::Succeeded);
    assert_eq!(outcome.calls, 2);

    let events = &outcome.machine.events;
    assert_eq!(
        count(events, |e| matches!(e, LoopEvent::ReactiveCompactTriggered { .. })),
        1,
        "exactly one ReactiveCompactTriggered event should be emitted"
    );
    assert!(
        events.iter().any(|e| matches!(e, LoopEvent::CompactComplete { .. })),
        "a CompactComplete event should follow the reactive trigger"
    );
    let frozen: Vec<(u32, u64, bool)> = events
        .iter()
        .filter_map(|e| match e {
            LoopEvent::ToolSchemaFrozen { step, hash, rebuilt } => Some((*step, *hash, *rebuilt)),
            _ => None,
        })
        .collect();
    assert_eq!(frozen.len(), 2, "one ToolSchemaFrozen per outbound LLM call; got: {frozen:?}");
    assert_eq!(
        frozen[0].1, frozen[1].1,
        "hash must be stable across reactive-retry iterations within the same turn"
    );
    assert!(!frozen[1].2, "retry must carry rebuilt=false — the frozen snapshot is reused");
    assert!(frozen[0].2);
}

#[test]
fn execute_tool_loop_terminates_when_context_window_exceeded_persists_after_compact() {
    let state = start(
        "req-reactive-fail",
        "session-reactive-fail",
        "Reactive compact terminal test",
        &chat(),
    );
    let outcome = run(
        state,
        script(vec![
            too_long("prompt is too long: 215321 tokens > 200000"),
            too_long("prompt is too long: 214900 tokens > 200000"),
        ]),
    );
    let execution = result_of("task-reactive-fail", &outcome);

    assert_eq!(execution.result.status, ResultStatus::Error);
    assert_eq!(execution.terminal_step_action, Some(StepAction::Fail));
    assert!(
        execution.message.contains("context window still exceeded after reactive compact"),
        "terminal message must explain the persistent context overflow, got: {}",
        execution.message
    );
    assert_eq!(outcome.calls, 2);
    assert!(matches!(outcome.machine.state.status, LoopStatus::Failed));
    assert!(execution.message.contains("214900"));
}

#[test]
fn output_slot_escalation_triggers_on_max_tokens_and_length() {
    let truncation_signals = ["max_tokens", "length"];
    for signal in &truncation_signals {
        assert!(is_cut_off(Some(signal)), "unexpected signal: {signal}");
    }
    let non_truncation_signals = ["stop", "tool_use", "end_turn", "content_filter"];
    for signal in &non_truncation_signals {
        assert!(
            !is_cut_off(Some(signal)),
            "signal {signal} should not be a truncation trigger"
        );
    }
    assert!(!is_cut_off(None));
}

fn cut_off_reply() -> Result<ModelResponse, ModelError> {
    Ok(ModelResponse {
        output: "truncated response".to_string(),
        tool_calls: Vec::new(),
        prompt_tokens: 20,
        output_tokens: 16,
        cache_creation_input_tokens: 0,
        cache_read_input_tokens: 0,
        model_id: "max-tokens-model".to_string(),
        provider: "max-tokens-provider".to_string(),
        finish_reason: Some("max_tokens".to_string()),
    })
}

fn is_unsupported(e: &LoopEvent) -> bool {
    matches!(e, LoopEvent::OutputSlotEscalationUnsupported { .. })
}

fn is_escalated(e: &LoopEvent) -> bool {
    matches!(e, LoopEvent::OutputSlotEscalated { .. })
}

#[test]
fn output_slot_escalation_unsupported_event_emitted_when_provider_caps_off() {
    let state = start("req-no-cap", "session-no-cap", "Test escalation gate", &chat());
    let outcome =
        run(state, Script { supports_cap: false, ..script(vec![cut_off_reply()]) });
    assert_eq!(
        count(&outcome.machine.events, is_unsupported),
        1,
        "OutputSlotEscalationUnsupported must be emitted exactly once"
    );
    assert_eq!(
        count(&outcome.machine.events, is_escalated),
        0,
        "OutputSlotEscalated must NOT be emitted when escalation is unsupported"
    );
    assert_eq!(outcome.calls, 1, "provider must be invoked exactly once");
}

#[test]
fn output_slot_escalation_emitted_when_provider_caps_supported() {
    let state = start("req-cap", "session-cap", "Test escalation with cap supported", &chat());
    let outcome = run(state, script(vec![cut_off_reply()]));
    assert_eq!(
        count(&outcome.machine.events, is_unsupported),
        0,
        "OutputSlotEscalationUnsupported must NOT be emitted when cap is supported"
    );
}

#[test]
fn a_higher_ceiling_is_asked_for_once() {
    let response = cut_off_reply().expect("a reply");
    let mut events = Vec::new();
    assert_eq!(
        decide_escalation(&response, true, Some(8_000), 1_200, 7, 3, &mut events),
        Escalation::Retry { max_tokens: 8_000 }
    );
    assert_eq!(count(&events, is_escalated), 1);
    assert!(matches!(
        events[1],
        LoopEvent::ToolSchemaFrozen { step: 3, hash: 7, rebuilt: false }
    ));
    let mut none = Vec::new();
    assert_eq!(
        decide_escalation(&response, true, Some(1_200), 1_200, 7, 3, &mut none),
        Escalation::Keep
    );
    assert!(none.is_empty());
}

#[test]
fn cache_break_detector_records_routed_model_not_override() {
    let state = start(
        "req-cache-break-model",
        "session-cache-break-model",
        "Test cache break model fingerprint",
        &chat(),
    );
    let outcome = run(state, script(vec![final_answer("done")]));
    assert_eq!(
        outcome.machine.state.cache_break_detector.previous_fingerprint_model(),
        Some("sequence-json-model"),
        "detector must fingerprint the routed serving model",
    );
}

fn pre_call(estimate: PromptTokenEstimate) -> PreCall {
    PreCall {
        surface: PromptSurface {
            system_prompt_bytes: 6,
            tool_schema_bytes_len: 42,
            system_prompt_hash: 0,
            tool_schema_hash: 11,
            model_id: None,
        },
        message_count: 1,
        prefix_messages_hash: 0,
        estimate,
    }
}

#[test]
fn retry_preflight_values_same_route_reuses_primary_estimate() {
    let pre = pre_call(prompt_estimate(100));
    let fresh =
        RetryPreflight { tool_schema_bytes_len: 2, tool_schema_hash: 99, estimate: prompt_estimate(5) };
    let (cal_est, cal_real, schema_len, tool_schema_hash) = retry_preflight_values(
        &pre,
        "sequence-json-model",
        "sequence-json-model",
        &fresh,
        150,
    );
    assert_eq!(
        cal_est, 100,
        "same-route retry must return pre_call_estimate.raw_total_tokens as estimated"
    );
    assert_eq!(cal_real, 150, "same-route retry must return retry_prompt_tokens as real");
    assert_eq!(
        schema_len, 42,
        "same-route retry must reuse primary's pre_call_tool_schema_bytes_len"
    );
    assert_eq!(
        tool_schema_hash, 99,
        "same-route retry must surface the model's tool-schema content hash",
    );
}

#[test]
fn retry_preflight_values_rerouted_recomputes_against_retry_model() {
    let pre = pre_call(prompt_estimate(100));
    let fresh =
        RetryPreflight { tool_schema_bytes_len: 2, tool_schema_hash: 99, estimate: prompt_estimate(9) };
    let (cal_est, cal_real, retry_schema_len, retry_tool_schema_hash) = retry_preflight_values(
        &pre,
        "sequence-json-model",
        "some-other-primary-model",
        &fresh,
        150,
    );
    assert_eq!(retry_schema_len, 2);
    assert_ne!(
        retry_schema_len, 42,
        "rerouted retry must NOT reuse the primary's schema length",
    );
    assert!(cal_est > 0, "fresh estimate must be positive");
    assert_eq!(cal_est, 9);
    assert_eq!(
        cal_real, 150,
        "cal_real must always equal retry_prompt_tokens regardless of route"
    );
    assert_eq!(retry_tool_schema_hash, 99);
}

#[test]
fn a_retry_replaces_text_and_baseline() {
    let state = start("r", "s", "g", &chat());
    let mut machine = ToolLoop::begin(state, &Vec::new(), None);
    let pre = pre_call(prompt_estimate(100));
    let fresh =
        RetryPreflight { tool_schema_bytes_len: 2, tool_schema_hash: 99, estimate: prompt_estimate(9) };
    let mut response = cut_off_reply().expect("a reply");
    response.model_id = "larger-model".to_string();
    response.prompt_tokens = 150;
    assert_eq!(machine.absorb_retry(&pre, "smaller-model", &fresh, &response, 77), (9, 150));
    let committed = machine.state.committed.as_ref().expect("a baseline");
    assert_eq!(committed.baseline.input_tokens, 150);
    assert_eq!(committed.baseline.tool_schema_bytes_len, 2);
    assert_eq!(committed.tool_schema_hash, 99);
    assert_eq!(machine.state.last_llm_call_at_ms, Some(77));
    assert!(machine
        .events
        .iter()
        .any(|e| matches!(e, LoopEvent::LlmTextReplace { text, .. } if text == "truncated response")));
}

#[test]
fn a_baseline_is_found_for_the_same_prompt_only() {
    let state = start("r", "s", "g", &chat());
    let mut machine = ToolLoop::begin(state, &Vec::new(), None);
    let pre = pre_call(prompt_estimate(100));
    let response = cut_off_reply().expect("a reply");
    machine.absorb_response(&pre, "streamed", &response, 5);
    let mut surface = PromptSurface {
        system_prompt_bytes: 6,
        tool_schema_bytes_len: 42,
        system_prompt_hash: 0,
        tool_schema_hash: 11,
        model_id: Some("max-tokens-model".to_string()),
    };
    assert_eq!(
        validated_baseline(&machine.state, &surface, 4, 0).map(|b| b.input_tokens),
        Some(20)
    );
    assert!(validated_baseline(&machine.state, &surface, 0, 0).is_none());
    assert!(validated_baseline(&machine.state, &surface, 4, 1).is_none());
    surface.tool_schema_hash = 12;
    assert!(validated_baseline(&machine.state, &surface, 4, 0).is_none());
}

#[test]
fn an_exhausted_budget_ends_the_loop() {
    let mut state = start("r", "s", "do it", &chat());
    state.remaining_step_budget = 0;
    state.step_index = 4;
    let outcome = run(state, script(Vec::new()));
    assert_eq!(outcome.end.message, "Step budget exhausted after 4 steps; goal: do it");
    assert_eq!(outcome.end.status, ResultStatus::Error);
    assert_eq!(outcome.calls, 0);
}

#[test]
fn another_error_ends_the_loop_at_once() {
    let outcome = run(start("r", "s", "do it", &chat()), script(vec![Err(ModelError::Other)]));
    assert_eq!(outcome.end.message, "LLM call failed for goal: do it");
    assert_eq!(outcome.machine.state.history[0].decision_reason, "LLM call failed.");
    assert_eq!(outcome.calls, 1);
}

#[test]
fn an_empty_answer_still_ends_the_loop() {
    let outcome = run(start("r", "s", "do it", &chat()), script(vec![reply_of(Vec::new())]));
    assert_eq!(outcome.end.message, "Runtime loop completed.");
    assert_eq!(outcome.end.action, StepAction::FinalAnswer);
}

#[test]
fn without_a_model_the_goal_is_echoed() {
    let mut state = start("r", "s", "say this", &chat());
    let end = end_without_router(&mut state, None);
    assert_eq!(end.message, "say this");
    assert_eq!(state.status, LoopStatus::Succeeded);
    let mut resumed = start("r", "s", "say this", &chat());
    assert_eq!(end_without_router(&mut resumed, Some("reply")).message, "reply");
}

#[test]
fn the_first_ending_call_counts() {
    let outcome = run(
        start("r", "s", "g", &chat()),
        script(vec![reply_of(vec![
            call("1", "Read", object(vec![])),
            call("2", "fail", object(vec![])),
            call("3", "final_answer", object(vec![("message", text("late"))])),
        ])]),
    );
    assert_eq!(outcome.end.message, "LLM reported failure.");
    assert!(outcome.tool_names.is_empty());
}

fn with_pending(calls: Vec<ToolCallBlock>) -> ToolLoop {
    let mut machine = ToolLoop::begin(start("r", "s", "g", &chat()), &Vec::new(), None);
    assert!(machine.open_turn(&Vec::new()).is_none());
    assert!(machine.absorb_turn(&Vec::new(), "", calls).is_none());
    machine
}

fn last_result(machine: &ToolLoop) -> (String, String, bool) {
    match machine.messages.last() {
        Some(Message::ToolResult { tool_use_id, content, is_error }) => {
            (tool_use_id.clone(), content.clone(), *is_error)
        }
        other => panic!("expected a tool result, got {other:?}"),
    }
}

#[test]
fn a_denied_call_costs_a_step() {
    let mut machine = with_pending(vec![call("1", "Agent", object(vec![]))]);
    let (_, dispatch) = machine.take_call(&ApprovalDecision::Deny("not now".to_string()));
    assert_eq!(dispatch, ToolDispatch::Denied);
    assert_eq!(last_result(&machine), ("1".into(), "[Tool denied] not now".into(), true));
    assert_eq!(machine.state.remaining_step_budget, 9);
    assert!(machine.pending.is_empty());
}

#[test]
fn a_search_loads_a_withheld_tool_once() {
    let wanted = || call("1", "tool_search", object(vec![("tool_name", text("Python"))]));
    let mut machine = with_pending(vec![
        wanted(),
        wanted(),
        call("3", "tool_search", object(vec![("tool_name", text("Nope"))])),
    ]);
    machine.state.tool_schema_dirty = false;
    machine.state.deferred_tools = Some(DeferredTools {
        deferred_names: list(&["Bash", "Python"]),
        loaded_names: Vec::new(),
    });
    machine.take_call(&ApprovalDecision::Approve);
    assert_eq!(
        last_result(&machine).1,
        "Tool 'Python' schema will be available in the next turn."
    );
    assert!(machine.state.tool_schema_dirty);
    machine.state.tool_schema_dirty = false;
    machine.take_call(&ApprovalDecision::Approve);
    assert!(!machine.state.tool_schema_dirty);
    machine.take_call(&ApprovalDecision::Approve);
    assert_eq!(
        last_result(&machine).1,
        "Tool 'Nope' is not in the deferred list. Available deferred tools: Bash, Python"
    );
    assert_eq!(
        machine.state.deferred_tools.as_ref().map(|d| d.loaded_names.clone()),
        Some(list(&["Python"]))
    );
    assert_eq!(machine.state.remaining_step_budget, 7);
}

#[test]
fn without_withheld_tools_a_search_says_so() {
    let mut machine =
        with_pending(vec![call("1", "tool_search", object(vec![("tool_name", text("Read"))]))]);
    machine.take_call(&ApprovalDecision::Approve);
    assert_eq!(last_result(&machine).1, "All tools are already loaded. 'Read' is available.");
}

#[test]
fn task_calls_are_answered_from_the_store() {
    let mut machine = with_pending(vec![call(
        "1",
        "task_update",
        object(vec![("status", text("done")), ("task_id", text("7"))]),
    )]);
    let (taken, dispatch) = machine.take_call(&ApprovalDecision::Approve);
    assert_eq!(dispatch, ToolDispatch::TaskTool);
    assert!(matches!(
        task_tool_request(&taken.name, &taken.arguments),
        TaskToolRequest::Update { task_id: 7, status: Some(_), output: None }
    ));
    let answer = task_tool_answer(&TaskStoreReply::Updated { id: 7, found: false });
    machine.answer_task(&taken, answer);
    assert_eq!(last_result(&machine), ("1".into(), "Error: task #7 not found.".into(), true));
    assert_eq!(machine.state.remaining_step_budget, 9);
}

#[test]
fn task_requests_name_what_is_missing() {
    assert!(matches!(
        task_tool_request("task_create", &object(vec![])),
        TaskToolRequest::Create { description, status: None } if description == "(no description)"
    ));
    assert!(matches!(
        task_tool_request("task_get", &object(vec![])),
        TaskToolRequest::Refused { answer } if answer == "Error: invalid or missing task_id."
    ));
    assert!(matches!(task_tool_request("task_list", &Json::Null), TaskToolRequest::List));
    assert!(matches!(
        task_tool_request("task_drop", &Json::Null),
        TaskToolRequest::Refused { answer } if answer == "Error: unknown task pseudo-tool."
    ));
    assert_eq!(
        task_tool_answer(&TaskStoreReply::Created { id: 3 }),
        "Task #3 created successfully."
    );
    assert_eq!(task_tool_answer(&TaskStoreReply::Updated { id: 3, found: true }), "Task #3 updated.");
    assert_eq!(
        task_tool_answer(&TaskStoreReply::Fetched { id: 3, text: None }),
        "Error: task #3 not found."
    );
}

#[test]
fn numbers_may_be_written_as_text() {
    let args = object(vec![
        ("a", text("12")),
        ("b", text("4294967296")),
        ("c", text("x")),
        ("d", Json::Bool(true)),
    ]);
    assert_eq!(parse_u32_from_json(&args, "a"), Some(12));
    assert_eq!(parse_u32_from_json(&args, "b"), None);
    assert_eq!(parse_u32_from_json(&args, "c"), None);
    assert_eq!(parse_u32_from_json(&args, "d"), None);
    assert_eq!(parse_u32_from_json(&args, "e"), None);
}

#[test]
fn an_agent_call_costs_a_step_before_it_runs() {
    let mut machine =
        with_pending(vec![call("1", "Agent", object(vec![("description", text("look"))]))]);
    let (taken, dispatch) = machine.take_call(&ApprovalDecision::Approve);
    assert_eq!(dispatch, ToolDispatch::Agent);
    assert_eq!(machine.state.remaining_step_budget, 9);
    machine.answer_agent(&taken, "sub-agent failed".to_string(), true, 8);
    assert_eq!(last_result(&machine), ("1".into(), "sub-agent failed".into(), true));
    assert!(matches!(
        &machine.events[0],
        LoopEvent::ToolStart { tool_name, args_summary: Some(s), .. }
            if tool_name == "Agent" && s == "look"
    ));
    assert!(matches!(
        &machine.events[1],
        LoopEvent::ToolEnd { elapsed_ms: Some(8), result_summary: None, .. }
    ));
}

fn huge_file(call: &ToolCallBlock) -> ToolObservation {
    ToolObservation {
        ok: true,
        tool_name: call.name.clone(),
        error_type: None,
        terminal: false,
        data: Json::Text("x".repeat(100_001)),
        message: "read".to_string(),
    }
}

#[test]
fn a_file_that_is_too_large_is_refused() {
    let route = decision(IntentFamily::FilesystemRead, &["Read"], "read");
    let outcome = run(
        start("r", "s", "g", &route),
        Script {
            tools: huge_file,
            ..script(vec![
                reply_of(vec![call("1", "Read", object(vec![]))]),
                final_answer("done"),
            ])
        },
    );
    assert!(outcome.machine.messages.iter().any(|m| matches!(
        m,
        Message::ToolResult { content, is_error: true, .. } if content.starts_with(
            "Error: file content is too large (100001 chars) to include in context."
        )
    )));
}

#[test]
fn a_used_up_budget_is_announced() {
    let mut state = start("r", "s", "g", &decision(IntentFamily::Chat, &["Inspect"], "x"));
    state.remaining_step_budget = 1;
    let outcome = run(
        state,
        Script {
            tools: inspected,
            ..script(vec![reply_of(vec![call("1", "Inspect", object(vec![]))])])
        },
    );
    assert!(outcome.machine.messages.iter().any(|m| matches!(
        m,
        Message::User { content } if content
            == "System: step budget exhausted (remaining: 0, recovery: 2). Please call final_answer or fail now."
    )));
    assert_eq!(outcome.end.action, StepAction::Fail);
}

#[test]
fn plan_mode_hides_what_changes_things() {
    let mut machine = ToolLoop::begin(start("r", "s", "g", &chat()), &Vec::new(), None);
    let offered = list(&["Read", "Bash", "Find"]);
    machine.refresh(LoopMode::Plan, &offered, &list(&["Find", "Read"]));
    assert_eq!(machine.state.visible_tools, list(&["Read", "Find"]));
    assert_eq!(machine.state.disallowed_tools, list(&["task_create", "task_update"]));
    assert!(machine.state.tool_schema_dirty);
    machine.freeze(Vec::new());
    machine.refresh(LoopMode::Plan, &offered, &list(&["Find", "Read"]));
    assert!(!machine.state.tool_schema_dirty, "nothing has changed");
    machine.refresh(LoopMode::Normal, &offered, &Vec::new());
    assert!(machine.state.tool_schema_dirty, "the mode has changed");
    assert_eq!(machine.state.visible_tools, offered);
}

#[test]
fn a_clean_schema_is_sent_again() {
    let mut machine = ToolLoop::begin(start("r", "s", "g", &chat()), &Vec::new(), None);
    let tool = |name: &str| ToolDefinition {
        name: name.to_string(),
        description: String::new(),
        parameters: "{}".to_string(),
    };
    let first = machine.freeze(vec![tool("a")]);
    assert!(machine.tool_schema_rebuilt);
    let second = machine.freeze(vec![tool("b")]);
    assert!(!machine.tool_schema_rebuilt);
    assert_eq!(first[0].name, "a");
    assert_eq!(second[0].name, "a");
    machine.state.mark_tool_schema_dirty();
    assert_eq!(machine.freeze(vec![tool("b")])[0].name, "b");
}

#[test]
fn efforts_have_names() {
    assert_eq!(thinking_effort(Some("low")), Some(ThinkingEffort::Low));
    assert_eq!(thinking_effort(Some("medium")), Some(ThinkingEffort::Medium));
    assert_eq!(thinking_effort(Some("high")), Some(ThinkingEffort::High));
    assert_eq!(thinking_effort(Some("none")), Some(ThinkingEffort::Off));
    assert_eq!(thinking_effort(Some("maximal")), None);
    assert_eq!(thinking_effort(None), None);
}

fn long_loop() -> ToolLoop {
    let mut machine = ToolLoop::begin(start("r", "s", "g", &chat()), &Vec::new(), None);
    for i in 0..12 {
        machine.messages.push(Message::User { content: format!("message {i}") });
    }
    machine
}

fn grow(machine: &mut ToolLoop, count: usize) {
    for i in 0..count {
        machine.messages.push(Message::User { content: format!("more {i}") });
    }
}

#[test]
fn a_grown_buffer_is_collapsed_again() {
    let mut machine = long_loop();
    assert_eq!(machine.messages.len(), 13);
    assert!(machine.compact_middle(90, 100, Some("stored")));
    assert_eq!(machine.messages.len(), 8);
    assert!(!machine.compact_middle(90, 100, None), "the buffer has not changed");
    assert_eq!(machine.messages.len(), 8);
    grow(&mut machine, 2);
    assert!(machine.compact_middle(90, 100, Some("stored")));
    assert_eq!(machine.messages.len(), 6);
    assert!(!machine.compact_middle(90, 100, None));
    grow(&mut machine, 4);
    assert!(machine.compact_middle(90, 100, None));
    assert_eq!(count(&machine.events, is_layer2), 1);
    assert_eq!(count(&machine.events, is_layer1), 2);
}

#[test]
fn a_user_who_quotes_a_summary_does_not_stop_the_middle_tier() {
    let mut machine = long_loop();
    machine.messages[1] = Message::User { content: "[3 messages compacted]\nwhy?".to_string() };
    assert!(machine.compact_middle(90, 100, None));
    assert_eq!(count(&machine.events, is_layer1), 1);
}

#[test]
fn the_middle_tier_rests_after_a_full_compaction() {
    let mut machine = long_loop();
    machine.compact(&CompactConfig::default(), None, 3, 11);
    let settled = machine.messages.len();
    assert!(!machine.compact_middle(90, 100, None));
    assert_eq!(machine.messages.len(), settled);
    grow(&mut machine, 1);
    assert!(machine.compact_middle(90, 100, None));
}

#[test]
fn a_compaction_that_replaces_nothing_does_not_stop_the_middle_tier() {
    let mut machine = ToolLoop::begin(start("r", "s", "g", &chat()), &Vec::new(), None);
    grow(&mut machine, 6);
    assert!(machine.compact_middle(90, 100, None));
    assert_eq!(machine.messages.len(), 5);
    grow(&mut machine, 1);
    machine.compact(&CompactConfig::default(), None, 3, 11);
    assert_eq!(machine.messages.len(), 6, "there are too few messages to compact");
    assert!(machine.compact_middle(90, 100, None));
}

#[test]
fn a_compaction_with_the_model_seeds_the_summary() {
    let summary = "Goal: g\nAccomplished: a\nKey Decisions: k\nRelevant Files: f".to_string();
    let mut machine = long_loop();
    let tokens = machine.compact(
        &CompactConfig::default(),
        Some(SummarizerRun {
            remote: RemoteReply::Unsupported,
            replies: vec![SummarizerReply::Generated {
                prompt_tokens: 50,
                output_tokens: 30,
                text: summary.clone(),
            }],
            history_reply: None,
        }),
        3,
        11,
    );
    assert_eq!(tokens, (50, 30));
    assert_eq!(machine.state.working_summary, summary);
    assert_eq!(machine.state.history[0].action, StepAction::CompactBoundary);
    assert_eq!(machine.messages.len(), 10);
    assert!(matches!(
        machine.events[0],
        LoopEvent::AutoCompactSummarizerCalled { succeeded: true, .. }
    ));
}

#[test]
fn repeated_failures_trip_the_breaker() {
    let failed = || {
        Some(SummarizerRun {
            remote: RemoteReply::Unsupported,
            replies: vec![SummarizerReply::Failed],
            history_reply: None,
        })
    };
    let mut machine = long_loop();
    for i in 0..12 {
        machine.messages.push(Message::User { content: format!("more {i}") });
    }
    machine.compact(&CompactConfig::default(), failed(), 2, 1);
    assert_eq!(machine.state.consecutive_autocompact_failures, 1);
    for i in 0..12 {
        machine.messages.push(Message::User { content: format!("even more {i}") });
    }
    machine.compact(&CompactConfig::default(), failed(), 2, 1);
    assert_eq!(machine.state.consecutive_autocompact_failures, 2);
    assert_eq!(
        count(&machine.events, |e| matches!(
            e,
            LoopEvent::AutoCompactCircuitBreakerTripped { consecutive_failures: 2, .. }
        )),
        1
    );
    let before = machine.events.len();
    assert_eq!(machine.compact(&CompactConfig::default(), failed(), 2, 1), (0, 0));
    assert_eq!(machine.events.len(), before + 1, "the model is no longer asked");
}

#[test]
fn compaction_tokens_are_told_and_warm_the_cache() {
    let mut machine = long_loop();
    machine.close_turn((5, 6), 99);
    assert!(matches!(
        machine.events[0],
        LoopEvent::TokenUsage { total_tokens: 11, is_compaction: true, .. }
    ));
    assert!(matches!(machine.events[1], LoopEvent::StepComplete { .. }));
    assert_eq!(machine.state.last_llm_call_at_ms, Some(99));
    assert!(machine.state.cache_break_detector.compaction_pending);
    let mut quiet = long_loop();
    quiet.close_turn((0, 0), 99);
    assert_eq!(quiet.events.len(), 1);
    assert_eq!(quiet.state.last_llm_call_at_ms, None);
}

#[test]
fn a_large_prompt_is_announced() {
    let mut machine = long_loop();
    assert!(!machine.compaction_due(100, 100));
    assert!(machine.compaction_due(101, 100));
    assert!(matches!(
        machine.events[0],
        LoopEvent::CompactTriggered { estimated_tokens: 101, .. }
    ));
}

#[test]
fn the_next_prompt_is_sized_with_the_schema_that_it_would_carry() {
    let definition = |name: &str| ToolDefinition {
        name: name.to_string(),
        description: String::new(),
        parameters: "{}".to_string(),
    };
    let mut machine = ToolLoop::begin(start("r", "s", "goal", &chat()), &Vec::new(), None);
    machine.state.tool_schema_dirty = false;
    assert!(machine.next_definitions(vec![definition("fresh")]).is_none(), "nothing is frozen");
    machine.freeze(vec![definition("frozen")]);
    let clean = machine.next_definitions(vec![definition("fresh")]).expect("a frozen schema");
    assert_eq!(clean[0].name, "frozen");
    machine.state.tool_schema_dirty = true;
    let dirty = machine.next_definitions(vec![definition("fresh")]).expect("a fresh schema");
    assert_eq!(dirty[0].name, "fresh");

    assert_eq!(next_schema_bytes(vec![1, 2], vec![3]), [1, 2]);
    assert_eq!(next_schema_bytes(Vec::new(), vec![3]), [3]);
}

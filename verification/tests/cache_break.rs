use roku_agent_runtime::cache_break::{
    hash_blocks, hash_tool_definitions, CacheBreakDetector, CacheBreakReport, SystemPromptBlock,
    ToolDefinition, CACHE_BREAK_ABSOLUTE_THRESHOLD,
};

fn block(id: &str, content: &str) -> SystemPromptBlock {
    SystemPromptBlock { id: id.to_string(), content: content.to_string() }
}

fn tool(name: &str) -> ToolDefinition {
    ToolDefinition {
        name: name.to_string(),
        description: format!("desc for {name}"),
        parameters: "{\"type\":\"object\"}".to_string(),
    }
}

#[test]
fn first_turn_does_not_trigger_break() {
    let mut detector = CacheBreakDetector::default();
    let blocks = vec![block("identity", "I am Roku")];
    let tools = vec![tool("Read")];

    detector.record_prompt_state(&blocks, &tools, "model-sonnet");
    let result = detector.check_response(50_000, "model-sonnet", "provider");

    assert!(result.is_none(), "first turn must not false-positive");
}

#[test]
fn stable_session_does_not_trigger_break() {
    let mut detector = CacheBreakDetector::default();
    let blocks = vec![block("identity", "I am Roku")];
    let tools = vec![tool("Read"), tool("Grep")];

    detector.record_prompt_state(&blocks, &tools, "model-sonnet");
    assert!(detector.check_response(50_000, "model-sonnet", "provider").is_none());

    detector.record_prompt_state(&blocks, &tools, "model-sonnet");
    let result = detector.check_response(49_000, "model-sonnet", "provider");

    assert!(result.is_none(), "2% drop must not trigger (below 5%)");
}

#[test]
fn system_prompt_change_triggers_break() {
    let mut detector = CacheBreakDetector::default();
    let tools = vec![tool("Read")];

    let blocks_v1 = vec![block("identity", "I am Roku v1")];
    detector.record_prompt_state(&blocks_v1, &tools, "model-sonnet");
    assert!(detector.check_response(50_000, "model-sonnet", "provider").is_none());

    let blocks_v2 = vec![block("identity", "I am Roku v2")];
    detector.record_prompt_state(&blocks_v2, &tools, "model-sonnet");
    let result = detector.check_response(5_000, "model-sonnet", "provider");

    let report = result.expect("break should be detected");
    assert!(report.tokens_lost > CACHE_BREAK_ABSOLUTE_THRESHOLD);
    assert!(report.component_changed.contains(&"system_prompt".to_string()));
    assert!(report.reason("90.0").contains("dropped from 50000 to 5000"));
}

#[test]
fn tool_schema_change_triggers_break() {
    let mut detector = CacheBreakDetector::default();
    let blocks = vec![block("identity", "I am Roku")];

    let tools_v1 = vec![tool("Read"), tool("Grep")];
    detector.record_prompt_state(&blocks, &tools_v1, "model-sonnet");
    assert!(detector.check_response(50_000, "model-sonnet", "provider").is_none());

    let tools_v2 = vec![tool("Read"), tool("Grep"), tool("Bash")];
    detector.record_prompt_state(&blocks, &tools_v2, "model-sonnet");
    let report = detector
        .check_response(5_000, "model-sonnet", "provider")
        .expect("break should be detected");

    assert!(report.component_changed.contains(&"tool_schema".to_string()));
}

#[test]
fn model_change_triggers_break() {
    let mut detector = CacheBreakDetector::default();
    let blocks = vec![block("identity", "I am Roku")];
    let tools = vec![tool("Read")];

    detector.record_prompt_state(&blocks, &tools, "model-sonnet");
    assert!(detector.check_response(50_000, "model-sonnet", "provider").is_none());

    detector.record_prompt_state(&blocks, &tools, "model-opus");
    let report = detector
        .check_response(0, "model-opus", "provider")
        .expect("break should be detected");

    assert!(report.component_changed.iter().any(|c| c.contains("model")));
    assert_eq!(
        report.component_changed,
        vec!["model (model-sonnet -> model-opus)".to_string()]
    );
}

#[test]
fn compaction_resets_baseline_and_skips_detection() {
    let mut detector = CacheBreakDetector::default();
    let blocks = vec![block("identity", "I am Roku")];
    let tools = vec![tool("Read")];

    detector.record_prompt_state(&blocks, &tools, "model-sonnet");
    assert!(detector.check_response(50_000, "model-sonnet", "provider").is_none());

    detector.notify_compaction();

    detector.record_prompt_state(&blocks, &tools, "model-sonnet");
    let result = detector.check_response(2_000, "model-sonnet", "provider");

    assert!(result.is_none(), "post-compaction turn must not false-positive");

    detector.record_prompt_state(&blocks, &tools, "model-sonnet");
    let result = detector.check_response(3_000, "model-sonnet", "provider");
    assert!(result.is_none());
}

#[test]
fn zero_baseline_does_not_trigger() {
    let mut detector = CacheBreakDetector::default();
    let blocks = vec![block("identity", "I am Roku")];
    let tools = vec![tool("Read")];

    detector.record_prompt_state(&blocks, &tools, "model-sonnet");
    assert!(detector.check_response(0, "model-sonnet", "provider").is_none());

    detector.record_prompt_state(&blocks, &tools, "model-sonnet");
    assert!(
        detector.check_response(0, "model-sonnet", "provider").is_none(),
        "zero baseline must not trigger"
    );
}

#[test]
fn small_absolute_drop_does_not_trigger_even_if_relative_is_high() {
    let mut detector = CacheBreakDetector::default();
    let blocks = vec![block("identity", "I am Roku")];
    let tools = vec![tool("Read")];

    detector.record_prompt_state(&blocks, &tools, "model-sonnet");
    assert!(detector.check_response(3_000, "model-sonnet", "provider").is_none());

    let blocks_v2 = vec![block("identity", "I am Roku v2")];
    detector.record_prompt_state(&blocks_v2, &tools, "model-sonnet");
    let result = detector.check_response(1_500, "model-sonnet", "provider");

    assert!(
        result.is_none(),
        "1500 token drop should not trigger (below 2000 absolute threshold)"
    );
}

#[test]
fn hash_is_deterministic_for_same_input() {
    let blocks = vec![block("id", "content"), block("id2", "content2")];
    assert_eq!(hash_blocks(&blocks), hash_blocks(&blocks));

    let tools = vec![tool("Read"), tool("Grep")];
    assert_eq!(hash_tool_definitions(&tools), hash_tool_definitions(&tools));
}

#[test]
fn hash_differs_for_different_input() {
    let a = vec![block("id", "content A")];
    let b = vec![block("id", "content B")];
    assert_ne!(hash_blocks(&a), hash_blocks(&b));

    let ta = vec![tool("Read")];
    let tb = vec![tool("Grep")];
    assert_ne!(hash_tool_definitions(&ta), hash_tool_definitions(&tb));
}

#[test]
fn an_unrecorded_response_is_not_compared() {
    let mut detector = CacheBreakDetector::default();
    assert!(detector.check_response(9, "m", "p").is_none());
    assert_eq!(detector.previous_fingerprint_model(), None);
    detector.record_prompt_state(&Vec::new(), &Vec::new(), "m");
    assert!(detector.check_response(9, "m", "p").is_none());
    assert_eq!(detector.previous_fingerprint_model(), Some("m"));
}

#[test]
fn an_unexplained_drop_says_so() {
    let mut detector = CacheBreakDetector::default();
    detector.record_prompt_state(&Vec::new(), &Vec::new(), "m");
    assert!(detector.check_response(10_000, "m", "p").is_none());
    detector.record_prompt_state(&Vec::new(), &Vec::new(), "m");
    let report = detector.check_response(7_000, "m", "p").expect("a third is lost");
    assert_eq!(report.tokens_lost, 3_000);
    assert_eq!(
        report.component_changed,
        vec!["unknown (fingerprint unchanged; likely message-level change)".to_string()]
    );
    assert_eq!(
        report.reason("30.0"),
        "cache_read_input_tokens dropped from 10000 to 7000 (30.0% drop, 3000 tokens lost); provider: p, model: m"
    );
}

#[test]
fn every_response_updates_the_baseline() {
    let mut detector = CacheBreakDetector::default();
    let (none, no_tools) = (Vec::new(), Vec::new());
    detector.record_prompt_state(&none, &no_tools, "m");
    assert!(detector.check_response(50_000, "m", "p").is_none());
    assert!(detector.check_response(1_000, "m", "p").is_none());
    detector.record_prompt_state(&none, &no_tools, "m");
    assert!(detector.check_response(40_000, "m", "p").is_none());
}

#[test]
fn a_diagnostic_has_three_lines() {
    let report = CacheBreakReport {
        previous_tokens: 50_000,
        current_tokens: 5_000,
        tokens_lost: 45_000,
        component_changed: vec!["system_prompt".to_string(), "tool_schema".to_string()],
        provider: "p".to_string(),
        model_id: "m".to_string(),
    };
    assert_eq!(
        report.diagnostic_text("90.0"),
        "reason: cache_read_input_tokens dropped from 50000 to 5000 (90.0% drop, 45000 tokens \
         lost); provider: p, model: m\ntokens_lost: 45000\ncomponent_changed: system_prompt, \
         tool_schema\n"
    );
}

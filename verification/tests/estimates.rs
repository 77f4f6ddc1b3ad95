use roku_agent_runtime::compact::MICROCOMPACT_PLACEHOLDER;
use roku_agent_runtime::estimate::{byte_estimate_for_text, estimate_turn_tool_tokens};
use roku_agent_runtime::message::Message;
use roku_agent_runtime::pressure::{
    estimate_prompt_pressure, estimate_prompt_tokens_calibrated, CommittedBaseline,
    EstimatorCalibration, PromptTokenEstimate, CAL_SAMPLE_CAP,
};

fn user(content: &str) -> Message {
    Message::User { content: content.to_string() }
}

fn assistant(text: &str) -> Message {
    Message::Assistant { text: text.to_string(), tool_calls: vec![] }
}

/// A counter of one token for four bytes.
fn count(text: &str) -> u64 {
    (text.len() as u64).div_ceil(4)
}

fn counts(messages: &[Message]) -> Vec<u64> {
    messages
        .iter()
        .map(|m| match m {
            Message::User { content } => count(content),
            Message::Assistant { text, .. } => count(text),
            Message::ToolResult { content, .. } => count(content),
        })
        .collect()
}

fn same(raw: u64) -> u64 {
    raw
}

/// The mean ratio of the samples, between one half and two.
fn scale(calibration: &EstimatorCalibration) -> f64 {
    if calibration.samples.is_empty() {
        return 1.0;
    }
    let sum: f64 =
        calibration.samples.iter().map(|s| s.observed as f64 / s.estimated as f64).sum();
    (sum / calibration.samples.len() as f64).clamp(0.5, 2.0)
}

fn apply(calibration: &EstimatorCalibration, raw: u64) -> u64 {
    (raw as f64 * scale(calibration)).round() as u64
}

fn estimate(
    messages: &[Message],
    system: Option<&str>,
    schema: Option<&[u8]>,
    calibration: &EstimatorCalibration,
    baseline: Option<CommittedBaseline>,
) -> PromptTokenEstimate {
    estimate_prompt_tokens_calibrated(
        &counts(messages),
        system.map(count),
        schema.map(|b| (b.len() as u64).div_ceil(4)),
        &baseline,
        |raw| apply(calibration, raw),
    )
}

fn baseline_of(input_tokens: u64, message_count: usize) -> CommittedBaseline {
    CommittedBaseline {
        input_tokens,
        message_count,
        system_prompt_bytes: 0,
        tool_schema_bytes_len: 0,
        model_id: None,
    }
}

fn oracle_tokens(text: &str) -> u64 {
    let mut ascii_chars = 0_u64;
    let mut hi_chars = 0_u64;
    for c in text.chars() {
        if c.is_ascii() {
            ascii_chars += 1;
        } else {
            hi_chars += 1;
        }
    }
    ascii_chars.div_ceil(4) + hi_chars
}

fn relative_error(estimate: u64, real: u64) -> f64 {
    if real == 0 {
        return 0.0;
    }
    ((estimate as f64) - (real as f64)).abs() / (real as f64)
}

#[test]
fn estimator_meets_accuracy_gates_for_english_code_and_cjk() {
    let english = "The quick brown fox jumps over the lazy dog. \
             Pack my box with five dozen liquor jugs. \
             The five boxing wizards jump quickly. \
             How vexingly quick daft zebras jump! \
             Sphinx of black quartz, judge my vow. \
             Two driven jocks help fax my big quiz. \
             Watch Jeopardy, Alex Trebek's fun TV quiz game. \
             The quick onyx goblin jumps over the lazy dwarf. \
             Crazy Fredrick bought many very exquisite opal jewels. \
             We promptly judged antique ivory buckles for the next prize.";
    let est_en = byte_estimate_for_text(english);
    let real_en = oracle_tokens(english);
    let err_en = relative_error(est_en, real_en);

    let code = "fn parse_message(input: &str) -> Result<Message, ParseError> {\n    \
            let trimmed = input.trim();\n    \
            if trimmed.is_empty() {\n        \
                return Err(ParseError::Empty);\n    \
            }\n    \
            let parts: Vec<&str> = trimmed.splitn(2, ':').collect();\n    \
            match parts.as_slice() {\n        \
                [role, body] => Ok(Message {\n            \
                    role: role.trim().to_string(),\n            \
                    body: body.trim().to_string(),\n        \
                }),\n        \
                _ => Err(ParseError::MissingColon),\n    \
            }\n}\n";
    let est_code = byte_estimate_for_text(code);
    let real_code = oracle_tokens(code);
    let err_code = relative_error(est_code, real_code);

    let cjk = "在大型语言模型的运行时中，token 估算的准确度直接决定了上下文压缩何时触发。\
             如果估算器持续偏小，压缩动作就会姗姗来迟，最终撞上模型的硬上限并触发回滚级故障。\
             反过来，如果估算器持续偏大，正常会话也会被无谓地压缩，丢失关键的上下文信息。\
             我们在 Roku 中采用基于字节长度的估算策略：英文与代码默认按四分之一计算，\
             包含大量中日韩字符的段落则切换到三分之一这一更保守的系数；同时，每一次成功的 \
             LLM 调用之后，都会用真实的 prompt_tokens 反馈对线性系数进行原地校准。";
    let est_cjk = byte_estimate_for_text(cjk);
    let real_cjk = oracle_tokens(cjk);
    let err_cjk = relative_error(est_cjk, real_cjk);

    assert!(
        err_en <= 0.20,
        "English error {err_en:.3} exceeds 20% gate (estimate={est_en}, oracle={real_en})"
    );
    assert!(
        err_code <= 0.20,
        "Code error {err_code:.3} exceeds 20% gate (estimate={est_code}, oracle={real_code})"
    );
    assert!(
        err_cjk <= 0.30,
        "CJK error {err_cjk:.3} exceeds 30% gate (estimate={est_cjk}, oracle={real_cjk})"
    );
}

#[test]
fn structured_branch_uses_byte_div_two_and_cjk_branch_uses_byte_div_three() {
    let json = "{\"key\": \"value\", \"items\": [1, 2, 3]}";
    assert_eq!(
        byte_estimate_for_text(json),
        (json.len() as u64).div_ceil(2),
        "structured detection should produce byte/2"
    );

    let cjk = "中文段落示例中文段落示例中文段落示例中文段落示例中文段落示例";
    assert_eq!(
        byte_estimate_for_text(cjk),
        (cjk.len() as u64).div_ceil(3),
        "CJK detection should produce byte/3"
    );

    let english = "Plain English text without any structured markers.";
    assert_eq!(
        byte_estimate_for_text(english),
        (english.len() as u64).div_ceil(4),
        "English default should produce byte/4"
    );

    assert_eq!(byte_estimate_for_text(""), 0, "empty string is 0 tokens");
}

#[test]
fn structured_heuristic_rejects_bracket_and_angle_prose() {
    let prose_samples = [
        MICROCOMPACT_PLACEHOLDER,
        "[compaction summary] oldest 12 messages collapsed",
        "[ note: trailing whitespace before the bracket does not matter ]",
        "[true but not json, actually prose]",
        "< 5 milliseconds",
    ];
    for sample in prose_samples {
        let expected = (sample.len() as u64).div_ceil(4);
        assert_eq!(
            byte_estimate_for_text(sample),
            expected,
            "prose sample should be byte/4 (not mis-classified as structured): {sample:?}"
        );
    }

    let structured_samples = [
        "[1, 2, 3]",
        "[\n  {\"k\": \"v\"}\n]",
        "[\"a\", \"b\"]",
        "[]",
        "<tag>child</tag>",
        "<!DOCTYPE html>",
        "</closing>",
        "{\"k\": 1}",
    ];
    for sample in structured_samples {
        let expected = (sample.len() as u64).div_ceil(2);
        assert_eq!(
            byte_estimate_for_text(sample),
            expected,
            "structured sample should stay at byte/2: {sample:?}"
        );
    }
}

#[test]
fn estimate_prompt_tokens_calibrated_breaks_down_system_messages_framing() {
    let cal = EstimatorCalibration::default();
    let messages = vec![user("hello world"), assistant("hi back")];
    let est = estimate(&messages, Some("system context"), None, &cal, None);
    assert!(est.system_tokens > 0, "system tokens populated");
    assert!(est.message_tokens > 0, "message tokens populated");
    assert_eq!(est.framing_tokens, 8, "two messages × 4 tokens framing");
    let expected_raw = est.system_tokens + est.message_tokens + est.framing_tokens;
    assert_eq!(est.raw_total_tokens, expected_raw);
    assert_eq!(est.total_tokens, expected_raw);
}

fn overshooting() -> Vec<Message> {
    vec![user(
        &("{\"data\":\"".to_string()
            + &"x".repeat(800)
            + "\",\"more\":\""
            + &"y".repeat(800)
            + "\"}"),
    )]
}

#[test]
fn calibration_pulls_subsequent_estimate_closer_to_real_value() {
    let mut cal = EstimatorCalibration::default();
    let messages = overshooting();
    let pre_call = estimate(&messages, None, None, &cal, None);

    let real = ((pre_call.total_tokens as f64) * 0.6).round() as u64;
    assert!(real > 0, "sample is large enough to produce non-zero real tokens");
    let pre_err = relative_error(pre_call.total_tokens, real);

    cal.update(pre_call.raw_total_tokens, real);
    assert_eq!(cal.sample_count(), 1);
    assert!(
        (scale(&cal) - 0.6).abs() < 1e-6,
        "single sample should land scale exactly on real/raw; got {}",
        scale(&cal)
    );

    let post_call = estimate(&messages, None, None, &cal, None);
    let post_err = relative_error(post_call.total_tokens, real);
    assert!(
        post_err < pre_err,
        "calibrated estimate should be closer to real: pre_err={pre_err:.3}, post_err={post_err:.3}"
    );
}

#[test]
fn calibration_scale_is_stable_under_repeated_consistent_samples() {
    let mut cal = EstimatorCalibration::default();
    let messages = overshooting();
    for _ in 0..6 {
        let est = estimate(&messages, None, None, &cal, None);
        let real = ((est.raw_total_tokens as f64) * 0.6).round() as u64;
        cal.update(est.raw_total_tokens, real);
    }
    assert!(
        (scale(&cal) - 0.6).abs() < 1e-3,
        "scale must stabilize on the real/raw ratio across repeated \
         updates; got {} after 6 samples",
        scale(&cal)
    );
}

#[test]
fn tool_schema_bytes_widen_raw_estimate_and_monotonic() {
    let cal = EstimatorCalibration::default();
    let messages = vec![user("hello")];

    let without = estimate(&messages, None, None, &cal, None);
    assert_eq!(
        without.tool_schema_tokens, 0,
        "None input must leave the tool_schema field at zero"
    );

    let schema_small = br#"[{"name":"Read","description":"read file","parameters":{}}]"#;
    let with_small = estimate(&messages, None, Some(schema_small), &cal, None);
    assert!(
        with_small.tool_schema_tokens > 0,
        "non-empty tool schema must contribute tokens"
    );
    assert!(
        with_small.raw_total_tokens > without.raw_total_tokens,
        "supplying a tool schema must widen raw_total_tokens \
         (without={}, with_small={})",
        without.raw_total_tokens,
        with_small.raw_total_tokens
    );

    let schema_large = br#"[{"name":"Read","description":"read file","parameters":{}},{"name":"Edit","description":"edit file","parameters":{}},{"name":"Bash","description":"run shell","parameters":{}},{"name":"Grep","description":"search","parameters":{}}]"#;
    let with_large = estimate(&messages, None, Some(schema_large), &cal, None);
    assert!(
        with_large.tool_schema_tokens > with_small.tool_schema_tokens,
        "larger tool schema must contribute more tokens \
         (small={}, large={})",
        with_small.tool_schema_tokens,
        with_large.tool_schema_tokens
    );
    assert!(
        with_large.raw_total_tokens > with_small.raw_total_tokens,
        "monotonicity: adding more tool defs must never shrink the estimate"
    );
}

#[test]
fn tool_schema_bytes_feed_into_calibration_through_raw_total() {
    let mut cal = EstimatorCalibration::default();
    let messages = vec![user("hi")];
    let schema = br#"[{"name":"Read","description":"read file","parameters":{"type":"object"}}]"#;

    let pre = estimate(&messages, None, Some(schema), &cal, None);
    let raw_with_schema = pre.raw_total_tokens;
    assert!(raw_with_schema >= pre.tool_schema_tokens);
    let real = ((raw_with_schema as f64) * 1.4).round() as u64;
    cal.update(raw_with_schema, real);
    assert!(cal.sample_count() > 0);

    let post = estimate(&messages, None, Some(schema), &cal, None);
    assert!(
        post.total_tokens > pre.total_tokens,
        "calibration with real > raw must raise the calibrated total"
    );
    assert_eq!(
        post.raw_total_tokens, pre.raw_total_tokens,
        "raw_total_tokens is calibration-independent (for the same inputs)"
    );
}

#[test]
fn tool_schema_estimator_keeps_ratio_inside_calibration_clamp() {
    let cal = EstimatorCalibration::default();
    let schema = vec![b'a'; 10_000];
    let messages = vec![user("hi")];
    let pre = estimate(&messages, None, Some(&schema), &cal, None);
    let representative_real = 1300_u64;
    let ratio = (pre.raw_total_tokens as f64) / (representative_real as f64);
    assert!(
        ratio <= 2.0,
        "estimator ratio raw/real must stay <= CAL_SCALE_MAX=2.0 so \
         calibration can converge; got ratio={ratio:.3} (raw={}, real={representative_real})",
        pre.raw_total_tokens
    );
    assert!(
        ratio >= 0.5,
        "estimator ratio raw/real must stay >= CAL_SCALE_MIN=0.5 so \
         the safe-direction (over-estimate) property holds; got ratio={ratio:.3}",
    );
}

#[test]
fn committed_baseline_returns_authoritative_total_plus_tail_delta() {
    let cal = EstimatorCalibration::default();
    let messages = vec![user("old content 1"), assistant("old reply"), user(&"x".repeat(40))];
    let est = estimate(
        &messages,
        Some("ignored system prompt"),
        Some(b"[ignored schema]"),
        &cal,
        Some(baseline_of(1500, 2)),
    );
    assert_eq!(est.committed_baseline_tokens, 1500);
    assert_eq!(
        est.message_tokens, 10,
        "tail of 40 bytes → 10 tokens under 4/byte heuristic"
    );
    assert_eq!(est.framing_tokens, 4, "one new message × 4 framing tokens");
    assert_eq!(
        est.system_tokens, 0,
        "system prompt already included in committed baseline"
    );
    assert_eq!(
        est.tool_schema_tokens, 0,
        "tool schema already included in committed baseline"
    );
    assert_eq!(est.raw_total_tokens, 1500 + 10 + 4);
    assert_eq!(
        est.total_tokens, est.raw_total_tokens,
        "scale=1.0 default → calibrated == raw"
    );
}

#[test]
fn committed_baseline_with_zero_tail_returns_baseline_exactly() {
    let cal = EstimatorCalibration::default();
    let messages = vec![user("a"), assistant("b"), user("c")];
    let est = estimate(&messages, None, None, &cal, Some(baseline_of(2048, 3)));
    assert_eq!(est.total_tokens, 2048);
    assert_eq!(est.raw_total_tokens, 2048);
    assert_eq!(est.message_tokens, 0);
    assert_eq!(est.framing_tokens, 0);
}

#[test]
fn committed_baseline_falls_back_to_cold_start_when_messages_shrunk() {
    let cal = EstimatorCalibration::default();
    let messages = vec![user("survivor")];
    let est = estimate(&messages, None, None, &cal, Some(baseline_of(5000, 10)));
    assert_eq!(est.committed_baseline_tokens, 0);
    assert!(est.total_tokens < 100, "whole-history estimate, not 5000");
}

#[test]
fn committed_baseline_falls_back_when_input_tokens_is_zero() {
    let cal = EstimatorCalibration::default();
    let messages = vec![user("hello")];
    let est = estimate(&messages, None, None, &cal, Some(baseline_of(0, 1)));
    assert_eq!(est.committed_baseline_tokens, 0);
    assert!(est.message_tokens > 0);
}

#[test]
fn committed_baseline_scale_applies_to_delta_only_not_to_baseline() {
    let mut cal = EstimatorCalibration::default();
    cal.update(100, 1_000);
    assert!((scale(&cal) - 2.0).abs() < 1e-9);
    let messages = vec![user("old"), user(&"y".repeat(40))];
    let est = estimate(&messages, None, None, &cal, Some(baseline_of(1000, 1)));
    let raw_delta = 10 + 4;
    let scaled_delta = (raw_delta as f64 * 2.0).round() as u64;
    assert_eq!(est.total_tokens, 1000 + scaled_delta);
    assert_eq!(
        est.raw_total_tokens,
        1000 + raw_delta as u64,
        "raw feedback skips the scale so calibration update stays well-defined"
    );
}

#[test]
fn estimate_prompt_pressure_uses_committed_baseline_when_provided() {
    let messages = vec![user("x"), user(&"y".repeat(20))];
    let pressure = estimate_prompt_pressure(
        &counts(&messages),
        None,
        None,
        &Some(baseline_of(500, 1)),
        same,
    );
    assert_eq!(pressure, 500 + 5 + 4);
}

#[test]
fn calibration_is_no_op_when_estimated_or_real_is_zero() {
    let mut cal = EstimatorCalibration::default();
    cal.update(0, 100);
    cal.update(100, 0);
    cal.update(0, 0);
    assert_eq!(cal.sample_count(), 0);
    assert!((scale(&cal) - 1.0).abs() < f64::EPSILON);
}

#[test]
fn calibration_window_evicts_oldest_sample_past_cap() {
    let mut cal = EstimatorCalibration::default();
    for i in 1..=20_u64 {
        cal.update(100 + i, 100 + i);
    }
    assert_eq!(cal.sample_count(), CAL_SAMPLE_CAP);
    assert!((scale(&cal) - 1.0).abs() < 1e-9);
    assert_eq!(cal.samples[0].estimated, 113);
}

#[test]
fn calibration_pair_in_baseline_mode_subtracts_committed_prefix_from_both_sides() {
    let estimate = PromptTokenEstimate {
        system_tokens: 0,
        message_tokens: 50,
        framing_tokens: 0,
        tool_schema_tokens: 0,
        committed_baseline_tokens: 100_000,
        total_tokens: 100_050,
        raw_total_tokens: 100_050,
    };
    let (estimated, real) = estimate.calibration_pair(100_100);
    assert_eq!(
        estimated, 50,
        "estimated must be tail-only (raw_total - committed) in baseline mode",
    );
    assert_eq!(
        real, 100,
        "real must be tail-only (prompt_tokens - committed) in baseline mode",
    );
}

#[test]
fn calibration_pair_in_cold_start_returns_full_totals_unchanged() {
    let estimate = PromptTokenEstimate {
        system_tokens: 200,
        message_tokens: 300,
        framing_tokens: 100,
        tool_schema_tokens: 400,
        committed_baseline_tokens: 0,
        total_tokens: 1_000,
        raw_total_tokens: 1_000,
    };
    let (estimated, real) = estimate.calibration_pair(1_200);
    assert_eq!(
        estimated, 1_000,
        "estimated passes through raw_total_tokens when no baseline",
    );
    assert_eq!(
        real, 1_200,
        "real passes through observed prompt_tokens when no baseline",
    );
}

#[test]
fn calibration_pair_saturates_when_provider_reports_below_baseline() {
    let estimate = PromptTokenEstimate {
        system_tokens: 0,
        message_tokens: 40,
        framing_tokens: 8,
        tool_schema_tokens: 0,
        committed_baseline_tokens: 1_000,
        total_tokens: 1_048,
        raw_total_tokens: 1_048,
    };
    let (estimated, real) = estimate.calibration_pair(900);
    assert_eq!(
        real, 0,
        "real_tail must saturate to 0 when prompt_tokens < committed",
    );
    assert_eq!(
        estimated, 48,
        "estimated_tail remains the pre-bug tail estimate"
    );
}

#[test]
fn calibration_update_in_baseline_mode_tracks_tail_bias_not_full_ratio() {
    let mut cal_pair = EstimatorCalibration::default();
    let mut cal_raw = EstimatorCalibration::default();
    for _ in 0..CAL_SAMPLE_CAP {
        let estimate = PromptTokenEstimate {
            system_tokens: 0,
            message_tokens: 50,
            framing_tokens: 0,
            tool_schema_tokens: 0,
            committed_baseline_tokens: 100_000,
            total_tokens: 100_050,
            raw_total_tokens: 100_050,
        };
        let (est_pair, real_pair) = estimate.calibration_pair(100_100);
        cal_pair.update(est_pair, real_pair);
        cal_raw.update(estimate.raw_total_tokens, 100_100);
    }
    assert!(
        (scale(&cal_pair) - 2.0).abs() < 1e-9,
        "baseline-aware pair must lift scale toward the tail bias \
         (2.0 clamp), got {}",
        scale(&cal_pair),
    );
    assert!(
        (scale(&cal_raw) - 1.0).abs() < 1e-3,
        "raw-total update collapses to ~1.0 under a dominant \
         committed prefix (the bug this pair helper avoids); got {}",
        scale(&cal_raw),
    );
}

fn result(id: &str, content: String) -> Message {
    Message::ToolResult { tool_use_id: id.to_string(), content, is_error: false }
}

#[test]
fn estimate_turn_tool_tokens_sums_matching_ids() {
    let messages = vec![
        result("t1", "A".repeat(4000)),
        result("t2", "B".repeat(8000)),
        result("t3", "C".repeat(4000)),
    ];

    let turn_ids = vec!["t1".to_string(), "t2".to_string()];
    let total = estimate_turn_tool_tokens(&messages, &turn_ids);
    assert_eq!(total, 3000);
}

#[test]
fn estimate_turn_tool_tokens_ignores_non_matching() {
    let messages = vec![result("old", "X".repeat(100_000)), user("hello")];

    let turn_ids = vec!["t1".to_string()];
    let total = estimate_turn_tool_tokens(&messages, &turn_ids);
    assert_eq!(total, 0);
}

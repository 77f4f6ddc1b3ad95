use roku_agent_runtime::ask_user::{
    ask_user_from_observation, effective_ask_user_payload, AskUserPayload, AskUserResumeContract,
    AskUserResumeDirective,
};
use roku_agent_runtime::json::{Json, JsonField};
use roku_agent_runtime::observation::ToolObservation;

fn text(s: &str) -> Json {
    Json::Text(s.to_string())
}

fn object(fields: Vec<(&str, Json)>) -> Json {
    Json::Object(
        fields
            .into_iter()
            .map(|(name, value)| JsonField { name: name.to_string(), value })
            .collect(),
    )
}

fn several_candidates() -> ToolObservation {
    ToolObservation {
        ok: false,
        tool_name: "fs.find".to_string(),
        error_type: Some("multiple_candidates".to_string()),
        terminal: false,
        data: object(vec![(
            "matches",
            Json::Array(vec![
                text("/Users/jojo/cjj_project/Roku/crates/roku-agent-runtime/src/lib.rs"),
                text("/Users/jojo/cjj_project/Roku/crates/roku-runtime-service/src/lib.rs"),
            ]),
        )]),
        message: "llm wrote something else".to_string(),
    }
}

#[test]
fn effective_ask_user_payload_prefers_structured_observation_over_model_text() {
    let observation = several_candidates();

    let expected =
        ask_user_from_observation("帮我看下 lib.rs 里有啥", &observation, &Vec::new())
            .final_message;
    let actual = effective_ask_user_payload(
        "帮我看下 lib.rs 里有啥",
        Some(&observation),
        &Vec::new(),
        Some(AskUserPayload::freeform("请看 agent-runtime 那个")),
    );

    assert_eq!(actual.final_message, expected);
}

#[test]
fn candidate_selection_requires_an_explicit_match() {
    let payload = AskUserPayload {
        final_message: "pick one".to_string(),
        resume_contract: AskUserResumeContract::CandidateSelection {
            candidates: vec![
                "/workspace/Cargo.toml".to_string(),
                "/workspace/crates/core/Cargo.toml".to_string(),
            ],
        },
        resume_directive: None,
    };

    assert!(payload.can_resume("/workspace/Cargo.toml", &Vec::new()));
    assert!(!payload.can_resume("随便那个", &Vec::new()));
}

#[test]
fn freeform_payload_does_not_auto_resume() {
    let payload = AskUserPayload::freeform("请补充更多上下文");
    assert!(!payload.can_resume("项目里有几行代码？", &Vec::new()));
}

#[test]
fn needs_more_information_observation_creates_missing_input_contract() {
    let missing = vec!["project_path".to_string()];
    let observation = ToolObservation {
        ok: false,
        tool_name: "inventory.describe".to_string(),
        error_type: Some("needs_more_information".to_string()),
        terminal: false,
        data: object(vec![(
            "completion",
            object(vec![
                ("completion_kind", text("needs_more_information")),
                ("evidence_status", text("missing_required_input")),
                ("final_message", text("请提供 project_path。")),
                ("missing_information", Json::Array(vec![text("project_path")])),
            ]),
        )]),
        message: "请提供 project_path。".to_string(),
    };

    let payload = ask_user_from_observation("统计代码行数", &observation, &missing);
    assert_eq!(
        payload.resume_contract,
        AskUserResumeContract::MissingRequiredInput { fields: vec!["project_path".to_string()] }
    );
}

#[test]
fn several_candidates_say_how_to_go_on() {
    let observation =
        ToolObservation { tool_name: "fs.read_text".to_string(), ..several_candidates() };
    let payload = ask_user_from_observation("show lib.rs", &observation, &Vec::new());
    assert!(matches!(
        &payload.resume_contract,
        AskUserResumeContract::CandidateSelection { candidates } if candidates.len() == 2
    ));
    assert!(matches!(
        &payload.resume_directive,
        Some(AskUserResumeDirective::RepeatToolWithSelectedCandidate { tool_name, argument_key })
            if tool_name == "fs.read_text" && argument_key == "path"
    ));
    assert!(payload.can_resume(
        "/Users/jojo/cjj_project/Roku/crates/roku-runtime-service/src/lib.rs",
        &Vec::new()
    ));
}

#[test]
fn without_an_observation_the_proposal_counts() {
    let proposed = effective_ask_user_payload(
        "g",
        None,
        &Vec::new(),
        Some(AskUserPayload::freeform("which one?")),
    );
    assert_eq!(proposed.final_message, "which one?");
    let none = effective_ask_user_payload("g", None, &Vec::new(), None);
    assert_eq!(none.final_message, "I need more information before I can continue.");
    assert_eq!(none.resume_contract, AskUserResumeContract::NoAutomaticResume);
}

#[test]
fn blank_replies_never_resume() {
    let payload = AskUserPayload::candidate_selection("pick", vec!["a".to_string()], None);
    assert!(payload.can_resume(" a ", &Vec::new()));
    assert!(!payload.can_resume("  \t", &Vec::new()));
}

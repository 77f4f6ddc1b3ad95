use roku_agent_runtime::ask_user::{AskUserPayload, AskUserResumeContract};
use roku_agent_runtime::decision::{IntentFamily, RouteDecision, RouteRisk};
use roku_agent_runtime::observation::ResourceSelector;
use roku_agent_runtime::resume::{
    assess_awaiting_user_resume, resume_gate_prompt, AwaitingUserResumeAssessment,
    ResumeGateReply,
};
use roku_agent_runtime::state::{LoopContext, LoopState, LoopStatus};

fn awaiting_user_loop_state(goal: &str, payload: AskUserPayload) -> LoopState {
    let context = LoopContext {
        request_id: "req-awaiting-user".to_string(),
        session_id: "session-awaiting-user".to_string(),
        goal: goal.to_string(),
        workspace_root: "/workspace".to_string(),
        working_directory: "/workspace".to_string(),
        visible_tools: vec![
            "inventory.describe".to_string(),
            "Find".to_string(),
            "WebSearch".to_string(),
        ],
        bound_resources: vec![ResourceSelector {
            name: "inventory.describe".to_string(),
            display_key: "tool:inventory.describe".to_string(),
        }],
        route_decision: RouteDecision::new(
            IntentFamily::Chat,
            "0.82",
            false,
            RouteRisk::Low,
            vec!["inventory.describe".to_string()],
            Vec::new(),
            Vec::new(),
            "paused runtime loop test",
        ),
        last_observation: None,
    };
    let mut loop_state = LoopState::with_budgets("loop-awaiting-user", &context, 10, 2);
    loop_state.status = LoopStatus::AwaitingUser;
    loop_state.awaiting_user = Some(payload);
    loop_state
}

fn assess(state: &LoopState, reply: &str, gate: ResumeGateReply) -> AwaitingUserResumeAssessment {
    assess_awaiting_user_resume(state, reply, &Vec::new(), &gate)
}

#[test]
fn freeform_ask_user_resume_contract_requires_fresh_intake() {
    let loop_state =
        awaiting_user_loop_state("继续之前的任务", AskUserPayload::freeform("您想继续什么任务？"));
    assert_eq!(
        loop_state
            .awaiting_user
            .as_ref()
            .expect("awaiting-user payload should exist")
            .resume_contract,
        AskUserResumeContract::NoAutomaticResume
    );
    let assessment = assess(&loop_state, "项目里有几行代码？", ResumeGateReply::NoRouter);
    assert!(!assessment.should_resume);
    assert_eq!(
        assessment.reason,
        "freeform clarification pauses do not auto-resume; treat the next message as a fresh intake"
    );
}

#[test]
fn candidate_selection_ask_user_resume_contract_requires_grounded_choice() {
    let candidates = vec![
        "/Users/jojo/cjj_project/Roku/Cargo.toml".to_string(),
        "/Users/jojo/cjj_project/Roku/crates/roku-agent-runtime/Cargo.toml".to_string(),
    ];
    let loop_state = awaiting_user_loop_state(
        "看一下 Cargo.toml",
        AskUserPayload::candidate_selection(
            "我找到了多个候选路径。你想看哪一个？",
            candidates.clone(),
            None,
        ),
    );
    assert_eq!(
        loop_state
            .awaiting_user
            .as_ref()
            .expect("awaiting-user payload should exist")
            .resume_contract,
        AskUserResumeContract::CandidateSelection { candidates }
    );
    let assessment = assess(
        &loop_state,
        "/Users/jojo/cjj_project/Roku/crates/roku-agent-runtime/Cargo.toml",
        ResumeGateReply::NoRouter,
    );
    assert!(assessment.should_resume);
    assert_eq!(
        assessment.reason,
        "user reply selected one of the grounded candidates for the paused loop"
    );
    let other = assess(&loop_state, "something else", ResumeGateReply::NoRouter);
    assert!(!other.should_resume);
    assert_eq!(
        other.reason,
        "user reply did not explicitly select one of the grounded candidates"
    );
}

fn missing_path() -> LoopState {
    awaiting_user_loop_state(
        "统计项目代码行数",
        AskUserPayload::missing_required_input(
            "请提供 project_path。",
            vec!["project_path".to_string()],
        ),
    )
}

#[test]
fn missing_required_input_ask_user_resume_contract_uses_router_decision() {
    let loop_state = missing_path();
    assert_eq!(
        loop_state
            .awaiting_user
            .as_ref()
            .expect("awaiting-user payload should exist")
            .resume_contract,
        AskUserResumeContract::MissingRequiredInput { fields: vec!["project_path".to_string()] }
    );
    let assessment = assess(
        &loop_state,
        "/Users/jojo/cjj_project/Roku",
        ResumeGateReply::Decision {
            resume_existing_loop: true,
            reason: "The reply supplies the missing project_path for the paused request."
                .to_string(),
        },
    );
    assert!(assessment.should_resume);
    assert_eq!(
        assessment.reason,
        "The reply supplies the missing project_path for the paused request."
    );
    let prompt = resume_gate_prompt(&loop_state, "/Users/jojo/cjj_project/Roku")
        .expect("the model is asked");
    assert!(prompt.contains("project_path"));
    assert!(prompt.contains("请提供 project_path"));
    assert!(prompt.contains("/Users/jojo/cjj_project/Roku"));
}

#[test]
fn a_silent_gate_does_not_resume() {
    let loop_state = missing_path();
    assert_eq!(
        assess(&loop_state, "x", ResumeGateReply::NoRouter).reason,
        "missing-input clarification requires a live router to distinguish resume from a fresh request"
    );
    assert_eq!(
        assess(&loop_state, "x", ResumeGateReply::CallFailed { error: "offline".to_string() })
            .reason,
        "resume gate could not produce a structured decision: offline"
    );
    assert_eq!(
        assess(
            &loop_state,
            "x",
            ResumeGateReply::InvalidPayload { error: "no reason".to_string() }
        )
        .reason,
        "resume gate returned an invalid decision payload: no reason"
    );
}

#[test]
fn only_a_paused_loop_resumes() {
    let mut loop_state = missing_path();
    assert_eq!(
        assess(&loop_state, "  ", ResumeGateReply::NoRouter).reason,
        "empty replies cannot resume a paused loop"
    );
    assert!(resume_gate_prompt(&loop_state, "  ").is_none());
    loop_state.awaiting_user = None;
    assert_eq!(
        assess(&loop_state, "x", ResumeGateReply::NoRouter).reason,
        "paused loop is missing an awaiting-user payload"
    );
    loop_state.status = LoopStatus::LoopRunning;
    assert_eq!(
        assess(&loop_state, "x", ResumeGateReply::NoRouter).reason,
        "loop is not currently awaiting user input"
    );
}

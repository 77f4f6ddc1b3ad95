use roku_agent_runtime::approval::{
    classify_tool_risk, ApprovalDecision, AutoApproveGate, RiskBasedGate, ToolApprovalGate,
    ToolRiskLevel,
};
use roku_agent_runtime::json::{Json, JsonField};

fn object(fields: &[(&str, &str)]) -> Json {
    Json::Object(
        fields
            .iter()
            .map(|(name, value)| JsonField {
                name: name.to_string(),
                value: Json::Text(value.to_string()),
            })
            .collect(),
    )
}

#[test]
fn classify_safe_read_tools() {
    for tool in &[
        "fs.read_text",
        "fs.glob",
        "fs.exists",
        "fs.inspect",
        "fs.list_dir",
        "fs.find",
        "fs.grep",
        "web.search",
        "web.fetch",
        "table.inspect",
        "table.list_sheets",
        "table.preview",
        "table.schema",
        "final_answer",
        "ask_user",
        "fail",
    ] {
        assert_eq!(
            classify_tool_risk(tool, &Json::Null),
            ToolRiskLevel::Safe,
            "expected Safe for {tool}"
        );
    }
}

#[test]
fn classify_write_tools_require_approval() {
    for tool in
        &["fs.write", "fs.edit", "python.run", "skill.ensure_installed", "skill.execute"]
    {
        assert_eq!(
            classify_tool_risk(tool, &Json::Null),
            ToolRiskLevel::RequiresApproval,
            "expected RequiresApproval for {tool}"
        );
    }
}

#[test]
fn classify_unknown_tool_requires_approval() {
    assert_eq!(
        classify_tool_risk("some.unknown_tool", &Json::Null),
        ToolRiskLevel::RequiresApproval
    );
}

#[test]
fn classify_command_run_safe_patterns() {
    let safe_commands = &[
        "git status",
        "git log --oneline",
        "cargo check --all",
        "ls -la",
        "cat Cargo.toml",
        "pwd",
        "whoami",
    ];
    for cmd in safe_commands {
        let args = object(&[("command", cmd)]);
        assert_eq!(
            classify_tool_risk("command.run", &args),
            ToolRiskLevel::Safe,
            "expected Safe for command: {cmd}"
        );
    }
}

#[test]
fn classify_command_run_risky_requires_approval() {
    let risky_commands = &["git commit -m 'test'", "git push", "touch foo.txt", "mkdir bar"];
    for cmd in risky_commands {
        let args = object(&[("command", cmd)]);
        assert_eq!(
            classify_tool_risk("command.run", &args),
            ToolRiskLevel::RequiresApproval,
            "expected RequiresApproval for command: {cmd}"
        );
    }
}

#[test]
fn classify_command_run_denied_patterns() {
    let denied_commands =
        &["rm -rf /home", "mkfs.ext4 /dev/sda", "dd if=/dev/urandom of=/dev/sda"];
    for cmd in denied_commands {
        let args = object(&[("command", cmd)]);
        assert_eq!(
            classify_tool_risk("command.run", &args),
            ToolRiskLevel::Denied,
            "expected Denied for command: {cmd}"
        );
    }
}

#[test]
fn commands_are_compared_in_lower_case() {
    assert_eq!(
        classify_tool_risk("command.run", &object(&[("command", "RM -RF /home")])),
        ToolRiskLevel::Denied
    );
    assert_eq!(
        classify_tool_risk("command.run", &object(&[("command", "GIT Status")])),
        ToolRiskLevel::Safe
    );
}

#[test]
fn auto_approve_gate_always_approves() {
    let gate = AutoApproveGate;
    let result = gate.check("fs.write", &object(&[("path", "/tmp/test")]));
    assert!(matches!(result, ApprovalDecision::Approve));

    let result = gate.check("command.run", &object(&[("command", "rm -rf /")]));
    assert!(matches!(result, ApprovalDecision::Approve));
}

fn must_not_be_asked(_tool: &str, _args: &Json) -> ApprovalDecision {
    panic!("prompt_fn should not be called");
}

fn deny_by_name(tool_name: &str, _args: &Json) -> ApprovalDecision {
    ApprovalDecision::Deny(format!("denied {tool_name}"))
}

#[test]
fn risk_based_gate_auto_approves_safe_tools() {
    let gate = RiskBasedGate::new(must_not_be_asked);
    let result = gate.check("fs.read_text", &object(&[("path", "/tmp/foo")]));
    assert!(matches!(result, ApprovalDecision::Approve));
}

#[test]
fn risk_based_gate_calls_prompt_for_write_tools() {
    let gate = RiskBasedGate::new(deny_by_name);
    let result =
        gate.check("fs.write", &object(&[("path", "/tmp/test"), ("content", "hello")]));
    match result {
        ApprovalDecision::Deny(msg) => assert!(msg.contains("fs.write")),
        ApprovalDecision::Approve => panic!("expected Deny for write tool"),
    }
}

#[test]
fn risk_based_gate_denies_explicitly_denied_commands() {
    let gate = RiskBasedGate::new(must_not_be_asked);
    let result = gate.check("command.run", &object(&[("command", "rm -rf /var")]));
    match result {
        ApprovalDecision::Deny(msg) => {
            assert!(msg.contains("command.run") && msg.contains("security policy"))
        }
        ApprovalDecision::Approve => panic!("expected Deny for denied command"),
    }
}

#[test]
fn every_table_tool_is_safe() {
    for tool in ["table.export", "table.", "table.schema"] {
        assert_eq!(classify_tool_risk(tool, &Json::Null), ToolRiskLevel::Safe, "{tool}");
    }
    for tool in ["table", "tables.read", "my.table.read"] {
        assert_eq!(classify_tool_risk(tool, &Json::Null), ToolRiskLevel::RequiresApproval);
    }
}

#[test]
fn what_is_settled_is_decided_without_a_prompt() {
    let gate = RiskBasedGate::new(must_not_be_asked);
    assert!(matches!(
        gate.check_unprompted("fs.read_text", &object(&[])),
        Some(ApprovalDecision::Approve)
    ));
    assert!(matches!(
        gate.check_unprompted("command.run", &object(&[("command", "rm -rf /")])),
        Some(ApprovalDecision::Deny(_))
    ));
    assert!(gate.check_unprompted("fs.write", &object(&[])).is_none());
}

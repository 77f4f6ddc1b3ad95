use roku_agent_runtime::environment::{
    extract_repo_name, format_environment_context, git_context_from_output, EnvironmentSnapshot,
    GitContext,
};

#[test]
fn extract_repo_name_from_ssh_url() {
    assert_eq!(extract_repo_name("git@github.com:itscheems/Roku.git"), "itscheems/Roku");
}

#[test]
fn extract_repo_name_from_https_url() {
    assert_eq!(extract_repo_name("https://github.com/itscheems/Roku.git"), "itscheems/Roku");
}

#[test]
fn extract_repo_name_from_bare_path() {
    assert_eq!(extract_repo_name("itscheems/Roku"), "itscheems/Roku");
}

#[test]
fn format_environment_context_renders_tools_and_git() {
    let snapshot = EnvironmentSnapshot {
        working_directory: "/home/user/project".to_string(),
        available_tools: vec!["git".to_string(), "gh".to_string()],
        git_context: Some(GitContext {
            branch: "main".to_string(),
            remote_url: "https://github.com/itscheems/Roku.git".to_string(),
            repo_name: "itscheems/Roku".to_string(),
        }),
    };
    let context = format_environment_context(&snapshot);
    assert!(context.contains("Working directory: /home/user/project"));
    assert!(context.contains("Available CLI tools: git, gh"));
    assert!(context.contains("Git repository: itscheems/Roku"));
    assert!(context.contains("branch: main"));
}

#[test]
fn a_repository_takes_a_branch() {
    assert!(git_context_from_output(None, Some("x/y".to_string())).is_none());
    let context = git_context_from_output(
        Some("main".to_string()),
        Some("git@example.com:a/b.git".to_string()),
    )
    .expect("a branch is enough");
    assert_eq!(context.branch, "main");
    assert_eq!(context.repo_name, "a/b");
}

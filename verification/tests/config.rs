use roku_agent_runtime::config::{
    AgentRuntimeConfig, AgentRuntimeConfigError, AgentRuntimeConfigPatch, CostOverride, EnvVar,
    LoopRuntimeConfig, LoopRuntimeConfigPatch, NextStepRuntimeConfigPatch,
    PromptCompactionRuntimeConfigPatch, RouteClassifierRuntimeConfig,
    RouteClassifierRuntimeConfigPatch, HARD_MAX_CANDIDATE_DESCRIPTION_MAX_CHARS,
    HARD_MAX_CANDIDATE_INVENTORY_LIMIT, HARD_MAX_INITIAL_RECOVERY_BUDGET,
    HARD_MAX_INITIAL_STEP_BUDGET, HARD_MAX_NEXT_STEP_BUDGET_COST_REMAINING_MICRO_USD,
    HARD_MAX_NEXT_STEP_BUDGET_TOKENS_REMAINING, HARD_MAX_NEXT_STEP_EXPECTED_OUTPUT_TOKENS,
    HARD_MAX_ROUTE_BUDGET_COST_REMAINING_MICRO_USD, HARD_MAX_ROUTE_BUDGET_TOKENS_REMAINING,
    HARD_MAX_ROUTE_EXPECTED_OUTPUT_TOKENS, HARD_MAX_VISIBLE_TOOL_HINT_MAX_CHARS,
};

#[test]
fn defaults_are_stable() {
    let config = AgentRuntimeConfig::default();
    assert_eq!(config.loop_config.initial_step_budget, 10);
    assert_eq!(config.router.budget_tokens_remaining, 10_000);
    assert_eq!(config.prompts.visible_tool_hint_max_chars, 180);
    assert_eq!(config.next_step.expected_output_tokens, 1_200);
}

#[test]
fn validate_and_clamp_caps_values_at_hard_limits() {
    let mut config = AgentRuntimeConfig::default();
    config.apply_patch(AgentRuntimeConfigPatch {
        loop_config: Some(LoopRuntimeConfigPatch {
            initial_step_budget: Some(HARD_MAX_INITIAL_STEP_BUDGET * 4),
            initial_recovery_budget: Some(HARD_MAX_INITIAL_RECOVERY_BUDGET * 4),
        }),
        router: Some(RouteClassifierRuntimeConfigPatch {
            expected_output_tokens: Some(HARD_MAX_ROUTE_EXPECTED_OUTPUT_TOKENS * 4),
            budget_tokens_remaining: Some(HARD_MAX_ROUTE_BUDGET_TOKENS_REMAINING * 4),
            budget_cost_remaining_micro_usd: Some(
                HARD_MAX_ROUTE_BUDGET_COST_REMAINING_MICRO_USD * 4,
            ),
            candidate_inventory_limit: Some(HARD_MAX_CANDIDATE_INVENTORY_LIMIT * 4),
        }),
        prompts: Some(PromptCompactionRuntimeConfigPatch {
            visible_tool_hint_max_chars: Some(HARD_MAX_VISIBLE_TOOL_HINT_MAX_CHARS * 4),
            candidate_description_max_chars: Some(HARD_MAX_CANDIDATE_DESCRIPTION_MAX_CHARS * 4),
        }),
        next_step: Some(NextStepRuntimeConfigPatch {
            expected_output_tokens: Some(HARD_MAX_NEXT_STEP_EXPECTED_OUTPUT_TOKENS * 4),
            budget_tokens_remaining: Some(HARD_MAX_NEXT_STEP_BUDGET_TOKENS_REMAINING * 4),
            budget_cost_remaining_micro_usd: Some(
                HARD_MAX_NEXT_STEP_BUDGET_COST_REMAINING_MICRO_USD * 4,
            ),
        }),
    });

    config.validate_and_clamp().expect("config should clamp");

    assert_eq!(config.loop_config.initial_step_budget, HARD_MAX_INITIAL_STEP_BUDGET);
    assert_eq!(config.router.candidate_inventory_limit, HARD_MAX_CANDIDATE_INVENTORY_LIMIT);
    assert_eq!(config.prompts.visible_tool_hint_max_chars, HARD_MAX_VISIBLE_TOOL_HINT_MAX_CHARS);
    assert_eq!(
        config.next_step.budget_tokens_remaining,
        HARD_MAX_NEXT_STEP_BUDGET_TOKENS_REMAINING
    );
}

#[test]
fn reject_zero_values() {
    let mut config = AgentRuntimeConfig::default();
    config.loop_config.initial_step_budget = 0;
    assert_eq!(
        config.validate_and_clamp(),
        Err(AgentRuntimeConfigError::InvalidInitialStepBudget)
    );
}

fn error_of(change: fn(&mut AgentRuntimeConfig)) -> AgentRuntimeConfigError {
    let mut config = AgentRuntimeConfig::default();
    change(&mut config);
    config.validate_and_clamp().expect_err("zero is refused")
}

#[test]
fn each_zero_has_its_error() {
    assert_eq!(
        error_of(|c| c.loop_config.initial_recovery_budget = 0),
        AgentRuntimeConfigError::InvalidInitialRecoveryBudget
    );
    assert_eq!(
        error_of(|c| c.router.expected_output_tokens = 0),
        AgentRuntimeConfigError::InvalidRouteExpectedOutputTokens
    );
    assert_eq!(
        error_of(|c| c.router.budget_tokens_remaining = 0),
        AgentRuntimeConfigError::InvalidRouteBudgetTokensRemaining
    );
    assert_eq!(
        error_of(|c| c.router.budget_cost_remaining_micro_usd = 0),
        AgentRuntimeConfigError::InvalidRouteBudgetCostRemainingUsd
    );
    assert_eq!(
        error_of(|c| c.router.candidate_inventory_limit = 0),
        AgentRuntimeConfigError::InvalidCandidateInventoryLimit
    );
    assert_eq!(
        error_of(|c| c.prompts.visible_tool_hint_max_chars = 0),
        AgentRuntimeConfigError::InvalidVisibleToolHintMaxChars
    );
    assert_eq!(
        error_of(|c| c.prompts.candidate_description_max_chars = 0),
        AgentRuntimeConfigError::InvalidCandidateDescriptionMaxChars
    );
    assert_eq!(
        error_of(|c| c.next_step.expected_output_tokens = 0),
        AgentRuntimeConfigError::InvalidNextStepExpectedOutputTokens
    );
    assert_eq!(
        error_of(|c| c.next_step.budget_tokens_remaining = 0),
        AgentRuntimeConfigError::InvalidNextStepBudgetTokensRemaining
    );
    assert_eq!(
        error_of(|c| c.next_step.budget_cost_remaining_micro_usd = 0),
        AgentRuntimeConfigError::InvalidNextStepBudgetCostRemainingUsd
    );
}

fn var(name: &str, value: &str) -> EnvVar {
    EnvVar { name: name.to_string(), value: value.to_string() }
}

#[test]
fn the_environment_overrides_the_loop_budgets() {
    let mut config = LoopRuntimeConfig::default();
    let env = vec![var("ROKU_RUNTIME__AGENT__LOOP__INITIAL_STEP_BUDGET", "17")];
    assert_eq!(config.apply_env_overrides(&env), Ok(()));
    assert_eq!(config.initial_step_budget, 17);
    let bad = vec![var("ROKU_RUNTIME__AGENT__LOOP__INITIAL_STEP_BUDGET", "many")];
    assert_eq!(
        config.apply_env_overrides(&bad),
        Err(AgentRuntimeConfigError::InvalidInitialStepBudget)
    );
}

#[test]
fn the_environment_overrides_the_route_cost() {
    let mut config = RouteClassifierRuntimeConfig::default();
    assert!(config.apply_env_overrides(&Vec::new(), CostOverride::Unset).is_ok());
    assert_eq!(config.budget_cost_remaining_micro_usd, 100_000);
    assert!(config
        .apply_env_overrides(&Vec::new(), CostOverride::MicroUsd(250_000))
        .is_ok());
    assert_eq!(config.budget_cost_remaining_micro_usd, 250_000);
}

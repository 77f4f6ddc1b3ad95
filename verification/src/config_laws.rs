//! What each tunable of the runtime is set to.

use crate::config::{
    env_key_error, env_override, env_value, override_cost, override_u32, override_u64,
    override_usize, AgentRuntimeConfigError, CostOverride, EnvVarView, LoopRuntimeConfig,
    LoopRuntimeConfigPatch, NextStepRuntimeConfig, NextStepRuntimeConfigPatch,
    PromptCompactionRuntimeConfig, PromptCompactionRuntimeConfigPatch, RouteClassifierRuntimeConfig,
    RouteClassifierRuntimeConfigPatch,
};
use crate::number::parse_bounded;
use crate::text::trim;
use vstd::prelude::*;

verus! {

/// The smaller of a value and its limit.
pub open spec fn within(value: int, limit: int) -> int {
    if value <= limit {
        value
    } else {
        limit
    }
}

/// The value that a setting has after an override: the override's, where there is one.
pub open spec fn after<T>(found: Option<Result<T, AgentRuntimeConfigError>>, before: T) -> T {
    match found {
        Some(Ok(value)) => value,
        _ => before,
    }
}

/// What the loop budgets begin with.
pub proof fn law_loop_begins_with()
    ensures
        LoopRuntimeConfig::initial().initial_step_budget == 10,
        LoopRuntimeConfig::initial().initial_recovery_budget == 2,
{
}

/// Each value that is given replaces the one before, and the others stay.
pub proof fn law_loop_takes_over(config: LoopRuntimeConfig, patch: LoopRuntimeConfigPatch)
    ensures
        patch.initial_step_budget matches Some(v) ==> config.patched(patch).initial_step_budget == v,
        patch.initial_step_budget is None ==> config.patched(patch).initial_step_budget == config.initial_step_budget,
        patch.initial_recovery_budget matches Some(v) ==> config.patched(patch).initial_recovery_budget == v,
        patch.initial_recovery_budget is None ==> config.patched(patch).initial_recovery_budget == config.initial_recovery_budget,
{
}

/// Each value is held to its limit; the first that is not positive is refused, by name.
pub proof fn law_loop_is_held_to_limits(config: LoopRuntimeConfig)
    ensures
        config.validated() matches Ok(c) ==> c.initial_step_budget == within(config.initial_step_budget as int, 64),
        config.validated() matches Ok(c) ==> c.initial_recovery_budget == within(config.initial_recovery_budget as int, 32),
        config.initial_step_budget <= 0 ==> config.validated() == Err::<LoopRuntimeConfig, _>(
            AgentRuntimeConfigError::InvalidInitialStepBudget,
        ),
        config.initial_step_budget > 0 && config.initial_recovery_budget <= 0 ==> config.validated() == Err::<LoopRuntimeConfig, _>(
            AgentRuntimeConfigError::InvalidInitialRecoveryBudget,
        ),
        config.initial_step_budget > 0 && config.initial_recovery_budget > 0 ==> config.validated() is Ok,
{
}

/// Each value is overridden by its own variable; the first that cannot be read is refused,
/// by name.
pub proof fn law_loop_is_overridden(
    config: LoopRuntimeConfig,
    env: Seq<EnvVarView>,
)
    ensures
        ({
            let (c, r) = config.overridden(env);
            let o0 = override_u32(env, "ROKU_RUNTIME__AGENT__LOOP__INITIAL_STEP_BUDGET"@);
            let o1 = override_u32(env, "ROKU_RUNTIME__AGENT__LOOP__INITIAL_RECOVERY_BUDGET"@);
            &&& r is Ok ==> c.initial_step_budget == after(o0, config.initial_step_budget)
            &&& r is Ok ==> c.initial_recovery_budget == after(o1, config.initial_recovery_budget)
            &&& (o0 matches Some(Err(_))) ==> r == Err::<(), _>(
                AgentRuntimeConfigError::InvalidInitialStepBudget,
            )
            &&& !(o0 matches Some(Err(_))) && (o1 matches Some(Err(_))) ==> r == Err::<(), _>(
                AgentRuntimeConfigError::InvalidInitialRecoveryBudget,
            )
            &&& !(o0 matches Some(Err(_))) && !(o1 matches Some(Err(_))) ==> r is Ok
        }),
{
    law_variables_by_name();
}

/// What the router begins with.
pub proof fn law_router_begins_with()
    ensures
        RouteClassifierRuntimeConfig::initial().expected_output_tokens == 220,
        RouteClassifierRuntimeConfig::initial().budget_tokens_remaining == 10000,
        RouteClassifierRuntimeConfig::initial().budget_cost_remaining_micro_usd == 100000,
        RouteClassifierRuntimeConfig::initial().candidate_inventory_limit == 10,
{
}

/// Each value that is given replaces the one before, and the others stay.
pub proof fn law_router_takes_over(config: RouteClassifierRuntimeConfig, patch: RouteClassifierRuntimeConfigPatch)
    ensures
        patch.expected_output_tokens matches Some(v) ==> config.patched(patch).expected_output_tokens == v,
        patch.expected_output_tokens is None ==> config.patched(patch).expected_output_tokens == config.expected_output_tokens,
        patch.budget_tokens_remaining matches Some(v) ==> config.patched(patch).budget_tokens_remaining == v,
        patch.budget_tokens_remaining is None ==> config.patched(patch).budget_tokens_remaining == config.budget_tokens_remaining,
        patch.budget_cost_remaining_micro_usd matches Some(v) ==> config.patched(patch).budget_cost_remaining_micro_usd == v,
        patch.budget_cost_remaining_micro_usd is None ==> config.patched(patch).budget_cost_remaining_micro_usd == config.budget_cost_remaining_micro_usd,
        patch.candidate_inventory_limit matches Some(v) ==> config.patched(patch).candidate_inventory_limit == v,
        patch.candidate_inventory_limit is None ==> config.patched(patch).candidate_inventory_limit == config.candidate_inventory_limit,
{
}

/// Each value is held to its limit; the first that is not positive is refused, by name.
pub proof fn law_router_is_held_to_limits(config: RouteClassifierRuntimeConfig)
    ensures
        config.validated() matches Ok(c) ==> c.expected_output_tokens == within(config.expected_output_tokens as int, 2048),
        config.validated() matches Ok(c) ==> c.budget_tokens_remaining == within(config.budget_tokens_remaining as int, 32000),
        config.validated() matches Ok(c) ==> c.budget_cost_remaining_micro_usd == within(config.budget_cost_remaining_micro_usd as int, 10000000),
        config.validated() matches Ok(c) ==> c.candidate_inventory_limit == within(config.candidate_inventory_limit as int, 64),
        config.expected_output_tokens <= 0 ==> config.validated() == Err::<RouteClassifierRuntimeConfig, _>(
            AgentRuntimeConfigError::InvalidRouteExpectedOutputTokens,
        ),
        config.expected_output_tokens > 0 && config.budget_tokens_remaining <= 0 ==> config.validated() == Err::<RouteClassifierRuntimeConfig, _>(
            AgentRuntimeConfigError::InvalidRouteBudgetTokensRemaining,
        ),
        config.expected_output_tokens > 0 && config.budget_tokens_remaining > 0 && config.budget_cost_remaining_micro_usd <= 0 ==> config.validated() == Err::<RouteClassifierRuntimeConfig, _>(
            AgentRuntimeConfigError::InvalidRouteBudgetCostRemainingUsd,
        ),
        config.expected_output_tokens > 0 && config.budget_tokens_remaining > 0 && config.budget_cost_remaining_micro_usd > 0 && config.candidate_inventory_limit <= 0 ==> config.validated() == Err::<RouteClassifierRuntimeConfig, _>(
            AgentRuntimeConfigError::InvalidCandidateInventoryLimit,
        ),
        config.expected_output_tokens > 0 && config.budget_tokens_remaining > 0 && config.budget_cost_remaining_micro_usd > 0 && config.candidate_inventory_limit > 0 ==> config.validated() is Ok,
{
}

/// Each value is overridden by its own variable; the first that cannot be read is refused,
/// by name.
pub proof fn law_router_is_overridden(
    config: RouteClassifierRuntimeConfig,
    env: Seq<EnvVarView>,
    cost: CostOverride,
)
    ensures
        ({
            let (c, r) = config.overridden(env, cost);
            let o0 = override_u64(env, "ROKU_RUNTIME__AGENT__ROUTER__EXPECTED_OUTPUT_TOKENS"@);
            let o1 = override_u64(env, "ROKU_RUNTIME__AGENT__ROUTER__BUDGET_TOKENS_REMAINING"@);
            let o2 = override_cost(cost, "ROKU_RUNTIME__AGENT__ROUTER__BUDGET_COST_REMAINING_USD"@);
            let o3 = override_usize(env, "ROKU_RUNTIME__AGENT__ROUTER__CANDIDATE_INVENTORY_LIMIT"@);
            &&& r is Ok ==> c.expected_output_tokens == after(o0, config.expected_output_tokens)
            &&& r is Ok ==> c.budget_tokens_remaining == after(o1, config.budget_tokens_remaining)
            &&& r is Ok ==> c.budget_cost_remaining_micro_usd == after(o2, config.budget_cost_remaining_micro_usd)
            &&& r is Ok ==> c.candidate_inventory_limit == after(o3, config.candidate_inventory_limit)
            &&& (o0 matches Some(Err(_))) ==> r == Err::<(), _>(
                AgentRuntimeConfigError::InvalidRouteExpectedOutputTokens,
            )
            &&& !(o0 matches Some(Err(_))) && (o1 matches Some(Err(_))) ==> r == Err::<(), _>(
                AgentRuntimeConfigError::InvalidRouteBudgetTokensRemaining,
            )
            &&& !(o0 matches Some(Err(_))) && !(o1 matches Some(Err(_))) && (o2 matches Some(Err(_))) ==> r == Err::<(), _>(
                AgentRuntimeConfigError::InvalidRouteBudgetCostRemainingUsd,
            )
            &&& !(o0 matches Some(Err(_))) && !(o1 matches Some(Err(_))) && !(o2 matches Some(Err(_))) && (o3 matches Some(Err(_))) ==> r == Err::<(), _>(
                AgentRuntimeConfigError::InvalidCandidateInventoryLimit,
            )
            &&& !(o0 matches Some(Err(_))) && !(o1 matches Some(Err(_))) && !(o2 matches Some(Err(_))) && !(o3 matches Some(Err(_))) ==> r is Ok
        }),
{
    law_variables_by_name();
}

/// What the prompts begin with.
pub proof fn law_prompts_begins_with()
    ensures
        PromptCompactionRuntimeConfig::initial().visible_tool_hint_max_chars == 180,
        PromptCompactionRuntimeConfig::initial().candidate_description_max_chars == 180,
{
}

/// Each value that is given replaces the one before, and the others stay.
pub proof fn law_prompts_takes_over(config: PromptCompactionRuntimeConfig, patch: PromptCompactionRuntimeConfigPatch)
    ensures
        patch.visible_tool_hint_max_chars matches Some(v) ==> config.patched(patch).visible_tool_hint_max_chars == v,
        patch.visible_tool_hint_max_chars is None ==> config.patched(patch).visible_tool_hint_max_chars == config.visible_tool_hint_max_chars,
        patch.candidate_description_max_chars matches Some(v) ==> config.patched(patch).candidate_description_max_chars == v,
        patch.candidate_description_max_chars is None ==> config.patched(patch).candidate_description_max_chars == config.candidate_description_max_chars,
{
}

/// Each value is held to its limit; the first that is not positive is refused, by name.
pub proof fn law_prompts_is_held_to_limits(config: PromptCompactionRuntimeConfig)
    ensures
        config.validated() matches Ok(c) ==> c.visible_tool_hint_max_chars == within(config.visible_tool_hint_max_chars as int, 1024),
        config.validated() matches Ok(c) ==> c.candidate_description_max_chars == within(config.candidate_description_max_chars as int, 1024),
        config.visible_tool_hint_max_chars <= 0 ==> config.validated() == Err::<PromptCompactionRuntimeConfig, _>(
            AgentRuntimeConfigError::InvalidVisibleToolHintMaxChars,
        ),
        config.visible_tool_hint_max_chars > 0 && config.candidate_description_max_chars <= 0 ==> config.validated() == Err::<PromptCompactionRuntimeConfig, _>(
            AgentRuntimeConfigError::InvalidCandidateDescriptionMaxChars,
        ),
        config.visible_tool_hint_max_chars > 0 && config.candidate_description_max_chars > 0 ==> config.validated() is Ok,
{
}

/// Each value is overridden by its own variable; the first that cannot be read is refused,
/// by name.
pub proof fn law_prompts_is_overridden(
    config: PromptCompactionRuntimeConfig,
    env: Seq<EnvVarView>,
)
    ensures
        ({
            let (c, r) = config.overridden(env);
            let o0 = override_usize(env, "ROKU_RUNTIME__AGENT__PROMPTS__VISIBLE_TOOL_HINT_MAX_CHARS"@);
            let o1 = override_usize(env, "ROKU_RUNTIME__AGENT__PROMPTS__CANDIDATE_DESCRIPTION_MAX_CHARS"@);
            &&& r is Ok ==> c.visible_tool_hint_max_chars == after(o0, config.visible_tool_hint_max_chars)
            &&& r is Ok ==> c.candidate_description_max_chars == after(o1, config.candidate_description_max_chars)
            &&& (o0 matches Some(Err(_))) ==> r == Err::<(), _>(
                AgentRuntimeConfigError::InvalidVisibleToolHintMaxChars,
            )
            &&& !(o0 matches Some(Err(_))) && (o1 matches Some(Err(_))) ==> r == Err::<(), _>(
                AgentRuntimeConfigError::InvalidCandidateDescriptionMaxChars,
            )
            &&& !(o0 matches Some(Err(_))) && !(o1 matches Some(Err(_))) ==> r is Ok
        }),
{
    law_variables_by_name();
}

/// What the next step begins with.
pub proof fn law_next_step_begins_with()
    ensures
        NextStepRuntimeConfig::initial().expected_output_tokens == 1200,
        NextStepRuntimeConfig::initial().budget_tokens_remaining == 10000,
        NextStepRuntimeConfig::initial().budget_cost_remaining_micro_usd == 50000,
{
}

/// Each value that is given replaces the one before, and the others stay.
pub proof fn law_next_step_takes_over(config: NextStepRuntimeConfig, patch: NextStepRuntimeConfigPatch)
    ensures
        patch.expected_output_tokens matches Some(v) ==> config.patched(patch).expected_output_tokens == v,
        patch.expected_output_tokens is None ==> config.patched(patch).expected_output_tokens == config.expected_output_tokens,
        patch.budget_tokens_remaining matches Some(v) ==> config.patched(patch).budget_tokens_remaining == v,
        patch.budget_tokens_remaining is None ==> config.patched(patch).budget_tokens_remaining == config.budget_tokens_remaining,
        patch.budget_cost_remaining_micro_usd matches Some(v) ==> config.patched(patch).budget_cost_remaining_micro_usd == v,
        patch.budget_cost_remaining_micro_usd is None ==> config.patched(patch).budget_cost_remaining_micro_usd == config.budget_cost_remaining_micro_usd,
{
}

/// Each value is held to its limit; the first that is not positive is refused, by name.
pub proof fn law_next_step_is_held_to_limits(config: NextStepRuntimeConfig)
    ensures
        config.validated() matches Ok(c) ==> c.expected_output_tokens == within(config.expected_output_tokens as int, 2048),
        config.validated() matches Ok(c) ==> c.budget_tokens_remaining == within(config.budget_tokens_remaining as int, 32000),
        config.validated() matches Ok(c) ==> c.budget_cost_remaining_micro_usd == within(config.budget_cost_remaining_micro_usd as int, 10000000),
        config.expected_output_tokens <= 0 ==> config.validated() == Err::<NextStepRuntimeConfig, _>(
            AgentRuntimeConfigError::InvalidNextStepExpectedOutputTokens,
        ),
        config.expected_output_tokens > 0 && config.budget_tokens_remaining <= 0 ==> config.validated() == Err::<NextStepRuntimeConfig, _>(
            AgentRuntimeConfigError::InvalidNextStepBudgetTokensRemaining,
        ),
        config.expected_output_tokens > 0 && config.budget_tokens_remaining > 0 && config.budget_cost_remaining_micro_usd <= 0 ==> config.validated() == Err::<NextStepRuntimeConfig, _>(
            AgentRuntimeConfigError::InvalidNextStepBudgetCostRemainingUsd,
        ),
        config.expected_output_tokens > 0 && config.budget_tokens_remaining > 0 && config.budget_cost_remaining_micro_usd > 0 ==> config.validated() is Ok,
{
}

/// Each value is overridden by its own variable; the first that cannot be read is refused,
/// by name.
pub proof fn law_next_step_is_overridden(
    config: NextStepRuntimeConfig,
    env: Seq<EnvVarView>,
    cost: CostOverride,
)
    ensures
        ({
            let (c, r) = config.overridden(env, cost);
            let o0 = override_u64(env, "ROKU_RUNTIME__AGENT__NEXT_STEP__EXPECTED_OUTPUT_TOKENS"@);
            let o1 = override_u64(env, "ROKU_RUNTIME__AGENT__NEXT_STEP__BUDGET_TOKENS_REMAINING"@);
            let o2 = override_cost(cost, "ROKU_RUNTIME__AGENT__NEXT_STEP__BUDGET_COST_REMAINING_USD"@);
            &&& r is Ok ==> c.expected_output_tokens == after(o0, config.expected_output_tokens)
            &&& r is Ok ==> c.budget_tokens_remaining == after(o1, config.budget_tokens_remaining)
            &&& r is Ok ==> c.budget_cost_remaining_micro_usd == after(o2, config.budget_cost_remaining_micro_usd)
            &&& (o0 matches Some(Err(_))) ==> r == Err::<(), _>(
                AgentRuntimeConfigError::InvalidNextStepExpectedOutputTokens,
            )
            &&& !(o0 matches Some(Err(_))) && (o1 matches Some(Err(_))) ==> r == Err::<(), _>(
                AgentRuntimeConfigError::InvalidNextStepBudgetTokensRemaining,
            )
            &&& !(o0 matches Some(Err(_))) && !(o1 matches Some(Err(_))) && (o2 matches Some(Err(_))) ==> r == Err::<(), _>(
                AgentRuntimeConfigError::InvalidNextStepBudgetCostRemainingUsd,
            )
            &&& !(o0 matches Some(Err(_))) && !(o1 matches Some(Err(_))) && !(o2 matches Some(Err(_))) ==> r is Ok
        }),
{
    law_variables_by_name();
}

/// The error of each variable.
pub proof fn law_variables_by_name()
    ensures
        env_key_error("ROKU_RUNTIME__AGENT__LOOP__INITIAL_STEP_BUDGET"@) == AgentRuntimeConfigError::InvalidInitialStepBudget,
        env_key_error("ROKU_RUNTIME__AGENT__LOOP__INITIAL_RECOVERY_BUDGET"@) == AgentRuntimeConfigError::InvalidInitialRecoveryBudget,
        env_key_error("ROKU_RUNTIME__AGENT__ROUTER__EXPECTED_OUTPUT_TOKENS"@) == AgentRuntimeConfigError::InvalidRouteExpectedOutputTokens,
        env_key_error("ROKU_RUNTIME__AGENT__ROUTER__BUDGET_TOKENS_REMAINING"@) == AgentRuntimeConfigError::InvalidRouteBudgetTokensRemaining,
        env_key_error("ROKU_RUNTIME__AGENT__ROUTER__BUDGET_COST_REMAINING_USD"@) == AgentRuntimeConfigError::InvalidRouteBudgetCostRemainingUsd,
        env_key_error("ROKU_RUNTIME__AGENT__ROUTER__CANDIDATE_INVENTORY_LIMIT"@) == AgentRuntimeConfigError::InvalidCandidateInventoryLimit,
        env_key_error("ROKU_RUNTIME__AGENT__PROMPTS__VISIBLE_TOOL_HINT_MAX_CHARS"@) == AgentRuntimeConfigError::InvalidVisibleToolHintMaxChars,
        env_key_error("ROKU_RUNTIME__AGENT__PROMPTS__CANDIDATE_DESCRIPTION_MAX_CHARS"@) == AgentRuntimeConfigError::InvalidCandidateDescriptionMaxChars,
        env_key_error("ROKU_RUNTIME__AGENT__NEXT_STEP__EXPECTED_OUTPUT_TOKENS"@) == AgentRuntimeConfigError::InvalidNextStepExpectedOutputTokens,
        env_key_error("ROKU_RUNTIME__AGENT__NEXT_STEP__BUDGET_TOKENS_REMAINING"@) == AgentRuntimeConfigError::InvalidNextStepBudgetTokensRemaining,
        env_key_error("ROKU_RUNTIME__AGENT__NEXT_STEP__BUDGET_COST_REMAINING_USD"@) == AgentRuntimeConfigError::InvalidNextStepBudgetCostRemainingUsd,
{
    reveal_strlit("ROKU_RUNTIME__AGENT__LOOP__INITIAL_STEP_BUDGET");
    reveal_strlit("ROKU_RUNTIME__AGENT__LOOP__INITIAL_RECOVERY_BUDGET");
    reveal_strlit("ROKU_RUNTIME__AGENT__ROUTER__EXPECTED_OUTPUT_TOKENS");
    reveal_strlit("ROKU_RUNTIME__AGENT__ROUTER__BUDGET_TOKENS_REMAINING");
    reveal_strlit("ROKU_RUNTIME__AGENT__ROUTER__BUDGET_COST_REMAINING_USD");
    reveal_strlit("ROKU_RUNTIME__AGENT__ROUTER__CANDIDATE_INVENTORY_LIMIT");
    reveal_strlit("ROKU_RUNTIME__AGENT__PROMPTS__VISIBLE_TOOL_HINT_MAX_CHARS");
    reveal_strlit("ROKU_RUNTIME__AGENT__PROMPTS__CANDIDATE_DESCRIPTION_MAX_CHARS");
    reveal_strlit("ROKU_RUNTIME__AGENT__NEXT_STEP__EXPECTED_OUTPUT_TOKENS");
    reveal_strlit("ROKU_RUNTIME__AGENT__NEXT_STEP__BUDGET_TOKENS_REMAINING");
    reveal_strlit("ROKU_RUNTIME__AGENT__NEXT_STEP__BUDGET_COST_REMAINING_USD");
    assert("ROKU_RUNTIME__AGENT__LOOP__INITIAL_STEP_BUDGET"@.len() == 46);
    assert("ROKU_RUNTIME__AGENT__LOOP__INITIAL_RECOVERY_BUDGET"@.len() == 50);
    assert("ROKU_RUNTIME__AGENT__ROUTER__EXPECTED_OUTPUT_TOKENS"@.len() == 51);
    assert("ROKU_RUNTIME__AGENT__ROUTER__BUDGET_TOKENS_REMAINING"@.len() == 52);
    assert("ROKU_RUNTIME__AGENT__ROUTER__BUDGET_COST_REMAINING_USD"@.len() == 54);
    assert("ROKU_RUNTIME__AGENT__ROUTER__CANDIDATE_INVENTORY_LIMIT"@.len() == 54);
    assert("ROKU_RUNTIME__AGENT__PROMPTS__VISIBLE_TOOL_HINT_MAX_CHARS"@.len() == 57);
    assert("ROKU_RUNTIME__AGENT__PROMPTS__CANDIDATE_DESCRIPTION_MAX_CHARS"@.len() == 61);
    assert("ROKU_RUNTIME__AGENT__NEXT_STEP__EXPECTED_OUTPUT_TOKENS"@.len() == 54);
    assert("ROKU_RUNTIME__AGENT__NEXT_STEP__BUDGET_TOKENS_REMAINING"@.len() == 55);
    assert("ROKU_RUNTIME__AGENT__NEXT_STEP__BUDGET_COST_REMAINING_USD"@.len() == 57);
    assert("ROKU_RUNTIME__AGENT__ROUTER__CANDIDATE_INVENTORY_LIMIT"@[29] != "ROKU_RUNTIME__AGENT__ROUTER__BUDGET_COST_REMAINING_USD"@[29]);
    assert("ROKU_RUNTIME__AGENT__NEXT_STEP__EXPECTED_OUTPUT_TOKENS"@[21] != "ROKU_RUNTIME__AGENT__ROUTER__BUDGET_COST_REMAINING_USD"@[21]);
    assert("ROKU_RUNTIME__AGENT__NEXT_STEP__EXPECTED_OUTPUT_TOKENS"@[21] != "ROKU_RUNTIME__AGENT__ROUTER__CANDIDATE_INVENTORY_LIMIT"@[21]);
    assert("ROKU_RUNTIME__AGENT__NEXT_STEP__BUDGET_COST_REMAINING_USD"@[21] != "ROKU_RUNTIME__AGENT__PROMPTS__VISIBLE_TOOL_HINT_MAX_CHARS"@[21]);
}

/// A variable is read without the blanks around it, the first of its name; a blank one is
/// as good as none.
pub proof fn law_variables_are_read(
    env: Seq<EnvVarView>,
    name: Seq<char>,
    value: Seq<char>,
    rest: Seq<EnvVarView>,
)
    ensures
        env_value(seq![EnvVarView { name, value }] + rest, name) == Some(value),
        env_value(seq![], name) is None,
        env_value(env, name) == Some(value) && trim(value).len() > 0 ==> env_override(env, name)
            == Some(trim(value)),
        env_value(env, name) == Some(value) && trim(value).len() == 0 ==> env_override(env, name)
            is None,
        env_value(env, name) is None ==> env_override(env, name) is None,
{
    assert((seq![EnvVarView { name, value }] + rest)[0].name == name);
}

/// A number is read where it fits, and refused otherwise.
pub proof fn law_numbers_are_read(env: Seq<EnvVarView>, key: Seq<char>, text: Seq<char>, n: nat)
    requires
        env_override(env, key) == Some(text),
    ensures
        parse_bounded(text, u32::MAX as nat) == Some(n) ==> override_u32(env, key) == Some(
            Ok::<u32, AgentRuntimeConfigError>(n as u32),
        ),
        parse_bounded(text, u64::MAX as nat) == Some(n) ==> override_u64(env, key) == Some(
            Ok::<u64, AgentRuntimeConfigError>(n as u64),
        ),
        parse_bounded(text, usize::MAX as nat) == Some(n) ==> override_usize(env, key) == Some(
            Ok::<usize, AgentRuntimeConfigError>(n as usize),
        ),
        parse_bounded(text, u32::MAX as nat) is None ==> (override_u32(env, key) matches Some(
            Err(_),
        )),
        parse_bounded(text, u64::MAX as nat) is None ==> (override_u64(env, key) matches Some(
            Err(_),
        )),
        parse_bounded(text, usize::MAX as nat) is None ==> (override_usize(env, key) matches Some(
            Err(_),
        )),
{
}

/// A cost that was read is taken over, and one that could not be is refused.
pub proof fn law_costs_are_read(key: Seq<char>, n: i64)
    ensures
        override_cost(CostOverride::Unset, key) is None,
        override_cost(CostOverride::MicroUsd(n), key) == Some(
            Ok::<i64, AgentRuntimeConfigError>(n),
        ),
        override_cost(CostOverride::Invalid, key) matches Some(Err(_)),
{
}

} // verus!

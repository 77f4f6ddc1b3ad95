//! Runtime tunables: defaults, partial overrides, environment overrides and hard
//! limits.

use crate::number::{parse_bounded, parse_u64_bounded};
use crate::text::{opt_view, str_eq, trim};
use crate::trim::trim_text;
use vstd::prelude::*;

verus! {

pub const HARD_MAX_INITIAL_STEP_BUDGET: u32 = 64;

pub const HARD_MAX_INITIAL_RECOVERY_BUDGET: u32 = 32;

pub const HARD_MAX_ROUTE_EXPECTED_OUTPUT_TOKENS: u64 = 2_048;

pub const HARD_MAX_ROUTE_BUDGET_TOKENS_REMAINING: u64 = 32_000;

pub const HARD_MAX_ROUTE_BUDGET_COST_REMAINING_MICRO_USD: i64 = 10_000_000;

pub const HARD_MAX_CANDIDATE_INVENTORY_LIMIT: usize = 64;

pub const HARD_MAX_VISIBLE_TOOL_HINT_MAX_CHARS: usize = 1_024;

pub const HARD_MAX_CANDIDATE_DESCRIPTION_MAX_CHARS: usize = 1_024;

pub const HARD_MAX_NEXT_STEP_EXPECTED_OUTPUT_TOKENS: u64 = 2_048;

pub const HARD_MAX_NEXT_STEP_BUDGET_TOKENS_REMAINING: u64 = 32_000;

pub const HARD_MAX_NEXT_STEP_BUDGET_COST_REMAINING_MICRO_USD: i64 = 10_000_000;

/// A tunable that is zero or negative, or whose override is no number.
#[derive(Debug, Clone, Copy, PartialEq, Eq, Structural)]
pub enum AgentRuntimeConfigError {
    InvalidInitialStepBudget,
    InvalidInitialRecoveryBudget,
    InvalidRouteExpectedOutputTokens,
    InvalidRouteBudgetTokensRemaining,
    InvalidRouteBudgetCostRemainingUsd,
    InvalidCandidateInventoryLimit,
    InvalidVisibleToolHintMaxChars,
    InvalidCandidateDescriptionMaxChars,
    InvalidNextStepExpectedOutputTokens,
    InvalidNextStepBudgetTokensRemaining,
    InvalidNextStepBudgetCostRemainingUsd,
}

/// One environment variable.
#[derive(Debug)]
pub struct EnvVar {
    pub name: String,
    pub value: String,
}

pub struct EnvVarView {
    pub name: Seq<char>,
    pub value: Seq<char>,
}

impl View for EnvVar {
    type V = EnvVarView;

    open spec fn view(&self) -> EnvVarView {
        EnvVarView { name: self.name@, value: self.value@ }
    }
}

/// The views of the environment variables.
pub open spec fn env_view(env: Seq<EnvVar>) -> Seq<EnvVarView> {
    env.map_values(|v: EnvVar| v@)
}

/// The value of the first variable of that name.
pub open spec fn env_value(env: Seq<EnvVarView>, name: Seq<char>) -> Option<Seq<char>>
    decreases env.len(),
{
    if env.len() == 0 {
        None
    } else if env[0].name == name {
        Some(env[0].value)
    } else {
        env_value(env.skip(1), name)
    }
}

/// The override that a variable holds: its value without white space around it,
/// unless that is empty.
pub open spec fn env_override(env: Seq<EnvVarView>, name: Seq<char>) -> Option<Seq<char>> {
    match env_value(env, name) {
        Some(value) => if trim(value).len() == 0 {
            None
        } else {
            Some(trim(value))
        },
        None => None,
    }
}

/// A cost override, read as millionths of a dollar.
#[derive(Debug, Clone, Copy, PartialEq, Eq, Structural)]
pub enum CostOverride {
    Unset,
    /// The variable holds no number.
    Invalid,
    MicroUsd(i64),
}

/// The tunable that an environment variable overrides, as the error on it.
pub open spec fn env_key_error(key: Seq<char>) -> AgentRuntimeConfigError {
    if key == "ROKU_RUNTIME__AGENT__LOOP__INITIAL_STEP_BUDGET"@ {
        AgentRuntimeConfigError::InvalidInitialStepBudget
    } else if key == "ROKU_RUNTIME__AGENT__LOOP__INITIAL_RECOVERY_BUDGET"@ {
        AgentRuntimeConfigError::InvalidInitialRecoveryBudget
    } else if key == "ROKU_RUNTIME__AGENT__ROUTER__EXPECTED_OUTPUT_TOKENS"@ {
        AgentRuntimeConfigError::InvalidRouteExpectedOutputTokens
    } else if key == "ROKU_RUNTIME__AGENT__ROUTER__BUDGET_TOKENS_REMAINING"@ {
        AgentRuntimeConfigError::InvalidRouteBudgetTokensRemaining
    } else if key == "ROKU_RUNTIME__AGENT__ROUTER__BUDGET_COST_REMAINING_USD"@ {
        AgentRuntimeConfigError::InvalidRouteBudgetCostRemainingUsd
    } else if key == "ROKU_RUNTIME__AGENT__ROUTER__CANDIDATE_INVENTORY_LIMIT"@ {
        AgentRuntimeConfigError::InvalidCandidateInventoryLimit
    } else if key == "ROKU_RUNTIME__AGENT__PROMPTS__VISIBLE_TOOL_HINT_MAX_CHARS"@ {
        AgentRuntimeConfigError::InvalidVisibleToolHintMaxChars
    } else if key == "ROKU_RUNTIME__AGENT__PROMPTS__CANDIDATE_DESCRIPTION_MAX_CHARS"@ {
        AgentRuntimeConfigError::InvalidCandidateDescriptionMaxChars
    } else if key == "ROKU_RUNTIME__AGENT__NEXT_STEP__EXPECTED_OUTPUT_TOKENS"@ {
        AgentRuntimeConfigError::InvalidNextStepExpectedOutputTokens
    } else if key == "ROKU_RUNTIME__AGENT__NEXT_STEP__BUDGET_TOKENS_REMAINING"@ {
        AgentRuntimeConfigError::InvalidNextStepBudgetTokensRemaining
    } else if key == "ROKU_RUNTIME__AGENT__NEXT_STEP__BUDGET_COST_REMAINING_USD"@ {
        AgentRuntimeConfigError::InvalidNextStepBudgetCostRemainingUsd
    } else {
        AgentRuntimeConfigError::InvalidVisibleToolHintMaxChars
    }
}

pub fn invalid_env_key(key: &str) -> (r: AgentRuntimeConfigError)
    ensures
        r == env_key_error(key@),
{
    if str_eq(key, "ROKU_RUNTIME__AGENT__LOOP__INITIAL_STEP_BUDGET") {
        AgentRuntimeConfigError::InvalidInitialStepBudget
    } else if str_eq(key, "ROKU_RUNTIME__AGENT__LOOP__INITIAL_RECOVERY_BUDGET") {
        AgentRuntimeConfigError::InvalidInitialRecoveryBudget
    } else if str_eq(key, "ROKU_RUNTIME__AGENT__ROUTER__EXPECTED_OUTPUT_TOKENS") {
        AgentRuntimeConfigError::InvalidRouteExpectedOutputTokens
    } else if str_eq(key, "ROKU_RUNTIME__AGENT__ROUTER__BUDGET_TOKENS_REMAINING") {
        AgentRuntimeConfigError::InvalidRouteBudgetTokensRemaining
    } else if str_eq(key, "ROKU_RUNTIME__AGENT__ROUTER__BUDGET_COST_REMAINING_USD") {
        AgentRuntimeConfigError::InvalidRouteBudgetCostRemainingUsd
    } else if str_eq(key, "ROKU_RUNTIME__AGENT__ROUTER__CANDIDATE_INVENTORY_LIMIT") {
        AgentRuntimeConfigError::InvalidCandidateInventoryLimit
    } else if str_eq(key, "ROKU_RUNTIME__AGENT__PROMPTS__VISIBLE_TOOL_HINT_MAX_CHARS") {
        AgentRuntimeConfigError::InvalidVisibleToolHintMaxChars
    } else if str_eq(key, "ROKU_RUNTIME__AGENT__PROMPTS__CANDIDATE_DESCRIPTION_MAX_CHARS") {
        AgentRuntimeConfigError::InvalidCandidateDescriptionMaxChars
    } else if str_eq(key, "ROKU_RUNTIME__AGENT__NEXT_STEP__EXPECTED_OUTPUT_TOKENS") {
        AgentRuntimeConfigError::InvalidNextStepExpectedOutputTokens
    } else if str_eq(key, "ROKU_RUNTIME__AGENT__NEXT_STEP__BUDGET_TOKENS_REMAINING") {
        AgentRuntimeConfigError::InvalidNextStepBudgetTokensRemaining
    } else if str_eq(key, "ROKU_RUNTIME__AGENT__NEXT_STEP__BUDGET_COST_REMAINING_USD") {
        AgentRuntimeConfigError::InvalidNextStepBudgetCostRemainingUsd
    } else {
        AgentRuntimeConfigError::InvalidVisibleToolHintMaxChars
    }
}

proof fn lemma_env_value_first(env: Seq<EnvVarView>, name: Seq<char>, i: int)
    requires
        0 <= i < env.len(),
        env[i].name == name,
        forall|j: int| 0 <= j < i ==> (#[trigger] env[j]).name != name,
    ensures
        env_value(env, name) == Some(env[i].value),
    decreases i,
{
    if i > 0 {
        assert(env[0].name != name);
        assert forall|j: int| 0 <= j < i - 1 implies (#[trigger] env.skip(1)[j]).name != name by {
            assert(env[j + 1].name != name);
        }
        lemma_env_value_first(env.skip(1), name, i - 1);
    }
}

proof fn lemma_env_value_none(env: Seq<EnvVarView>, name: Seq<char>)
    requires
        forall|j: int| 0 <= j < env.len() ==> (#[trigger] env[j]).name != name,
    ensures
        env_value(env, name) is None,
    decreases env.len(),
{
    if env.len() > 0 {
        assert(env[0].name != name);
        assert forall|j: int| 0 <= j < env.len() - 1 implies (#[trigger] env.skip(1)[j]).name
            != name by {
            assert(env[j + 1].name != name);
        }
        lemma_env_value_none(env.skip(1), name);
    }
}

pub fn env_override_string(env: &Vec<EnvVar>, key: &str) -> (r: Option<String>)
    ensures
        opt_view(r) == env_override(env_view(env@), key@),
{
    let ghost all = env_view(env@);
    let mut i: usize = 0;
    while i < env.len()
        invariant
            i <= env.len(),
            all == env_view(env@),
            forall|j: int| 0 <= j < i ==> (#[trigger] all[j]).name != key@,
        decreases env.len() - i,
    {
        if str_eq(env[i].name.as_str(), key) {
            proof {
                lemma_env_value_first(all, key@, i as int);
            }
            let value: String = trim_text(env[i].value.as_str());
            if value.as_str().is_empty() {
                return None;
            }
            return Some(value);
        }
        i = i + 1;
    }
    proof {
        lemma_env_value_none(all, key@);
    }
    None
}

/// The override of a tunable of type `u32`.
pub open spec fn override_u32(env: Seq<EnvVarView>, key: Seq<char>) -> Option<
    Result<u32, AgentRuntimeConfigError>,
> {
    match env_override(env, key) {
        None => None,
        Some(value) => match parse_bounded(value, u32::MAX as nat) {
            Some(n) => Some(Ok(n as u32)),
            None => Some(Err(env_key_error(key))),
        },
    }
}

pub fn env_override_u32(env: &Vec<EnvVar>, key: &'static str) -> (r: Option<
    Result<u32, AgentRuntimeConfigError>,
>)
    ensures
        r == override_u32(env_view(env@), key@),
{
    match env_override_string(env, key) {
        None => None,
        Some(value) => match parse_u64_bounded(value.as_str(), u32::MAX as u64) {
            Some(n) => Some(Ok(n as u32)),
            None => Some(Err(invalid_env_key(key))),
        },
    }
}

/// The override of a tunable of type `u64`.
pub open spec fn override_u64(env: Seq<EnvVarView>, key: Seq<char>) -> Option<
    Result<u64, AgentRuntimeConfigError>,
> {
    match env_override(env, key) {
        None => None,
        Some(value) => match parse_bounded(value, u64::MAX as nat) {
            Some(n) => Some(Ok(n as u64)),
            None => Some(Err(env_key_error(key))),
        },
    }
}

pub fn env_override_u64(env: &Vec<EnvVar>, key: &'static str) -> (r: Option<
    Result<u64, AgentRuntimeConfigError>,
>)
    ensures
        r == override_u64(env_view(env@), key@),
{
    match env_override_string(env, key) {
        None => None,
        Some(value) => match parse_u64_bounded(value.as_str(), u64::MAX as u64) {
            Some(n) => Some(Ok(n as u64)),
            None => Some(Err(invalid_env_key(key))),
        },
    }
}

/// The override of a tunable of type `usize`.
pub open spec fn override_usize(env: Seq<EnvVarView>, key: Seq<char>) -> Option<
    Result<usize, AgentRuntimeConfigError>,
> {
    match env_override(env, key) {
        None => None,
        Some(value) => match parse_bounded(value, usize::MAX as nat) {
            Some(n) => Some(Ok(n as usize)),
            None => Some(Err(env_key_error(key))),
        },
    }
}

pub fn env_override_usize(env: &Vec<EnvVar>, key: &'static str) -> (r: Option<
    Result<usize, AgentRuntimeConfigError>,
>)
    ensures
        r == override_usize(env_view(env@), key@),
{
    match env_override_string(env, key) {
        None => None,
        Some(value) => match parse_u64_bounded(value.as_str(), usize::MAX as u64) {
            Some(n) => Some(Ok(n as usize)),
            None => Some(Err(invalid_env_key(key))),
        },
    }
}

/// The cost override of a tunable.
pub open spec fn override_cost(cost: CostOverride, key: Seq<char>) -> Option<
    Result<i64, AgentRuntimeConfigError>,
> {
    match cost {
        CostOverride::Unset => None,
        CostOverride::Invalid => Some(Err(env_key_error(key))),
        CostOverride::MicroUsd(n) => Some(Ok(n)),
    }
}

pub fn cost_override(cost: CostOverride, key: &'static str) -> (r: Option<
    Result<i64, AgentRuntimeConfigError>,
>)
    ensures
        r == override_cost(cost, key@),
{
    match cost {
        CostOverride::Unset => None,
        CostOverride::Invalid => Some(Err(invalid_env_key(key))),
        CostOverride::MicroUsd(n) => Some(Ok(n)),
    }
}

/// Loop lifecycle budgets of one run.
#[derive(Debug, Clone, Copy, PartialEq, Eq, Structural)]
pub struct LoopRuntimeConfig {
    /// Steps allowed before the run is ended.
    pub initial_step_budget: u32,
    /// Recovery turns allowed after tool failures.
    pub initial_recovery_budget: u32,
}

/// Partial overrides of [`LoopRuntimeConfig`].
#[derive(Debug, Clone, Copy, Default, PartialEq, Eq)]
pub struct LoopRuntimeConfigPatch {
    pub initial_step_budget: Option<u32>,
    pub initial_recovery_budget: Option<u32>,
}

impl Default for LoopRuntimeConfig {
    fn default() -> (r: Self)
        ensures
            r == Self::initial(),
    {
        LoopRuntimeConfig {
            initial_step_budget: 10,
            initial_recovery_budget: 2,
        }
    }
}

impl LoopRuntimeConfig {
    /// The values before any override.
    pub open spec fn initial() -> Self {
        LoopRuntimeConfig {
            initial_step_budget: 10,
            initial_recovery_budget: 2,
        }
    }

    /// The values with those of the patch in their place.
    pub open spec fn patched(self, patch: LoopRuntimeConfigPatch) -> Self {
        LoopRuntimeConfig {
            initial_step_budget: match patch.initial_step_budget {
                Some(value) => value,
                None => self.initial_step_budget,
            },
            initial_recovery_budget: match patch.initial_recovery_budget {
                Some(value) => value,
                None => self.initial_recovery_budget,
            },
        }
    }

    /// The values after the environment overrides, which are taken in order up to
    /// the first one that is no number.
    pub open spec fn overridden(self, env: Seq<EnvVarView>) -> (
        Self,
        Result<(), AgentRuntimeConfigError>,
    ) {
        match override_u32(env, "ROKU_RUNTIME__AGENT__LOOP__INITIAL_STEP_BUDGET"@) {
            Some(Err(e)) => (self, Err(e)),
            found => {
                let c0 = LoopRuntimeConfig { initial_step_budget: match found {
                    Some(Ok(value)) => value,
                    _ => self.initial_step_budget,
                }, ..self };
                match override_u32(env, "ROKU_RUNTIME__AGENT__LOOP__INITIAL_RECOVERY_BUDGET"@) {
                    Some(Err(e)) => (c0, Err(e)),
                    found => {
                        let c1 = LoopRuntimeConfig { initial_recovery_budget: match found {
                            Some(Ok(value)) => value,
                            _ => c0.initial_recovery_budget,
                        }, ..c0 };
                        (c1, Ok(()))
                    },
                }
            },
        }
    }

    /// Each value is positive.
    pub open spec fn positive(self) -> bool {
        &&& self.initial_step_budget > 0
        &&& self.initial_recovery_budget > 0
    }

    /// No value is above its hard limit.
    pub open spec fn limited(self) -> bool {
        &&& self.initial_step_budget <= HARD_MAX_INITIAL_STEP_BUDGET
        &&& self.initial_recovery_budget <= HARD_MAX_INITIAL_RECOVERY_BUDGET
    }

    /// The values clamped to the hard limits, or the first one that is not positive.
    pub open spec fn validated(self) -> Result<Self, AgentRuntimeConfigError> {
        if self.initial_step_budget <= 0 {
            Err(AgentRuntimeConfigError::InvalidInitialStepBudget)
        } else if self.initial_recovery_budget <= 0 {
            Err(AgentRuntimeConfigError::InvalidInitialRecoveryBudget)
        } else {
            Ok(
                LoopRuntimeConfig {
                    initial_step_budget: if self.initial_step_budget > HARD_MAX_INITIAL_STEP_BUDGET {
                        HARD_MAX_INITIAL_STEP_BUDGET
                    } else {
                        self.initial_step_budget
                    },
                    initial_recovery_budget: if self.initial_recovery_budget > HARD_MAX_INITIAL_RECOVERY_BUDGET {
                        HARD_MAX_INITIAL_RECOVERY_BUDGET
                    } else {
                        self.initial_recovery_budget
                    },
                },
            )
        }
    }

    pub fn apply_patch(&mut self, patch: LoopRuntimeConfigPatch)
        ensures
            *final(self) == old(self).patched(patch),
    {
        if let Some(value) = patch.initial_step_budget {
            self.initial_step_budget = value;
        }
        if let Some(value) = patch.initial_recovery_budget {
            self.initial_recovery_budget = value;
        }
    }

    pub fn apply_env_overrides(&mut self, env: &Vec<EnvVar>) -> (r: Result<
        (),
        AgentRuntimeConfigError,
    >)
        ensures
            (*final(self), r) == old(self).overridden(env_view(env@)),
    {
        match env_override_u32(env, "ROKU_RUNTIME__AGENT__LOOP__INITIAL_STEP_BUDGET") {
            Some(Ok(value)) => {
                self.initial_step_budget = value;
            },
            Some(Err(e)) => {
                return Err(e);
            },
            None => {},
        }
        match env_override_u32(env, "ROKU_RUNTIME__AGENT__LOOP__INITIAL_RECOVERY_BUDGET") {
            Some(Ok(value)) => {
                self.initial_recovery_budget = value;
            },
            Some(Err(e)) => {
                return Err(e);
            },
            None => {},
        }
        Ok(())
    }

    pub fn validate_and_clamp(&mut self) -> (r: Result<(), AgentRuntimeConfigError>)
        ensures
            match old(self).validated() {
                Ok(clamped) => r == Ok::<(), AgentRuntimeConfigError>(()) && *final(self) == clamped,
                Err(e) => r == Err::<(), AgentRuntimeConfigError>(e) && *final(self) == *old(self),
            },
    {
        if self.initial_step_budget <= 0 {
            return Err(AgentRuntimeConfigError::InvalidInitialStepBudget);
        }
        if self.initial_recovery_budget <= 0 {
            return Err(AgentRuntimeConfigError::InvalidInitialRecoveryBudget);
        }
        if self.initial_step_budget > HARD_MAX_INITIAL_STEP_BUDGET {
            self.initial_step_budget = HARD_MAX_INITIAL_STEP_BUDGET;
        }
        if self.initial_recovery_budget > HARD_MAX_INITIAL_RECOVERY_BUDGET {
            self.initial_recovery_budget = HARD_MAX_INITIAL_RECOVERY_BUDGET;
        }
        Ok(())
    }
}

/// Valid values are positive and within the limits, and a second validation
/// leaves them as they are.
pub proof fn law_loop_config_validated(config: LoopRuntimeConfig)
    ensures
        config.validated() is Ok <==> config.positive(),
        config.validated() matches Ok(c) ==> c.positive() && c.limited() && c.validated() == Ok::<
            LoopRuntimeConfig,
            AgentRuntimeConfigError,
        >(c),
        config.positive() && config.limited() ==> config.validated() == Ok::<
            LoopRuntimeConfig,
            AgentRuntimeConfigError,
        >(config),
{
}

/// A patch that overrides nothing changes nothing, and applying a patch twice
/// is applying it once.
pub proof fn law_loop_config_patched(config: LoopRuntimeConfig, patch: LoopRuntimeConfigPatch)
    ensures
        config.patched(LoopRuntimeConfigPatch {
            initial_step_budget: None,
            initial_recovery_budget: None,
        }) == config,
        config.patched(patch).patched(patch) == config.patched(patch),
{
}

/// Budgets of one route-classifier call.
#[derive(Debug, Clone, Copy, PartialEq, Eq, Structural)]
pub struct RouteClassifierRuntimeConfig {
    /// Target size of the response.
    pub expected_output_tokens: u64,
    /// Token budget of the call.
    pub budget_tokens_remaining: u64,
    /// Cost budget of the call, in millionths of a dollar.
    pub budget_cost_remaining_micro_usd: i64,
    /// Candidate tools shown in one prompt.
    pub candidate_inventory_limit: usize,
}

/// Partial overrides of [`RouteClassifierRuntimeConfig`].
#[derive(Debug, Clone, Copy, Default, PartialEq, Eq)]
pub struct RouteClassifierRuntimeConfigPatch {
    pub expected_output_tokens: Option<u64>,
    pub budget_tokens_remaining: Option<u64>,
    pub budget_cost_remaining_micro_usd: Option<i64>,
    pub candidate_inventory_limit: Option<usize>,
}

impl Default for RouteClassifierRuntimeConfig {
    fn default() -> (r: Self)
        ensures
            r == Self::initial(),
    {
        RouteClassifierRuntimeConfig {
            expected_output_tokens: 220,
            budget_tokens_remaining: 10_000,
            budget_cost_remaining_micro_usd: 100_000,
            candidate_inventory_limit: 10,
        }
    }
}

impl RouteClassifierRuntimeConfig {
    /// The values before any override.
    pub open spec fn initial() -> Self {
        RouteClassifierRuntimeConfig {
            expected_output_tokens: 220,
            budget_tokens_remaining: 10_000,
            budget_cost_remaining_micro_usd: 100_000,
            candidate_inventory_limit: 10,
        }
    }

    /// The values with those of the patch in their place.
    pub open spec fn patched(self, patch: RouteClassifierRuntimeConfigPatch) -> Self {
        RouteClassifierRuntimeConfig {
            expected_output_tokens: match patch.expected_output_tokens {
                Some(value) => value,
                None => self.expected_output_tokens,
            },
            budget_tokens_remaining: match patch.budget_tokens_remaining {
                Some(value) => value,
                None => self.budget_tokens_remaining,
            },
            budget_cost_remaining_micro_usd: match patch.budget_cost_remaining_micro_usd {
                Some(value) => value,
                None => self.budget_cost_remaining_micro_usd,
            },
            candidate_inventory_limit: match patch.candidate_inventory_limit {
                Some(value) => value,
                None => self.candidate_inventory_limit,
            },
        }
    }

    /// The values after the environment overrides, which are taken in order up to
    /// the first one that is no number.
    pub open spec fn overridden(self, env: Seq<EnvVarView>, cost: CostOverride) -> (
        Self,
        Result<(), AgentRuntimeConfigError>,
    ) {
        match override_u64(env, "ROKU_RUNTIME__AGENT__ROUTER__EXPECTED_OUTPUT_TOKENS"@) {
            Some(Err(e)) => (self, Err(e)),
            found => {
                let c0 = RouteClassifierRuntimeConfig { expected_output_tokens: match found {
                    Some(Ok(value)) => value,
                    _ => self.expected_output_tokens,
                }, ..self };
                match override_u64(env, "ROKU_RUNTIME__AGENT__ROUTER__BUDGET_TOKENS_REMAINING"@) {
                    Some(Err(e)) => (c0, Err(e)),
                    found => {
                        let c1 = RouteClassifierRuntimeConfig { budget_tokens_remaining: match found {
                            Some(Ok(value)) => value,
                            _ => c0.budget_tokens_remaining,
                        }, ..c0 };
                        match override_cost(cost, "ROKU_RUNTIME__AGENT__ROUTER__BUDGET_COST_REMAINING_USD"@) {
                            Some(Err(e)) => (c1, Err(e)),
                            found => {
                                let c2 = RouteClassifierRuntimeConfig { budget_cost_remaining_micro_usd: match found {
                                    Some(Ok(value)) => value,
                                    _ => c1.budget_cost_remaining_micro_usd,
                                }, ..c1 };
                                match override_usize(env, "ROKU_RUNTIME__AGENT__ROUTER__CANDIDATE_INVENTORY_LIMIT"@) {
                                    Some(Err(e)) => (c2, Err(e)),
                                    found => {
                                        let c3 = RouteClassifierRuntimeConfig { candidate_inventory_limit: match found {
                                            Some(Ok(value)) => value,
                                            _ => c2.candidate_inventory_limit,
                                        }, ..c2 };
                                        (c3, Ok(()))
                                    },
                                }
                            },
                        }
                    },
                }
            },
        }
    }

    /// Each value is positive.
    pub open spec fn positive(self) -> bool {
        &&& self.expected_output_tokens > 0
        &&& self.budget_tokens_remaining > 0
        &&& self.budget_cost_remaining_micro_usd > 0
        &&& self.candidate_inventory_limit > 0
    }

    /// No value is above its hard limit.
    pub open spec fn limited(self) -> bool {
        &&& self.expected_output_tokens <= HARD_MAX_ROUTE_EXPECTED_OUTPUT_TOKENS
        &&& self.budget_tokens_remaining <= HARD_MAX_ROUTE_BUDGET_TOKENS_REMAINING
        &&& self.budget_cost_remaining_micro_usd <= HARD_MAX_ROUTE_BUDGET_COST_REMAINING_MICRO_USD
        &&& self.candidate_inventory_limit <= HARD_MAX_CANDIDATE_INVENTORY_LIMIT
    }

    /// The values clamped to the hard limits, or the first one that is not positive.
    pub open spec fn validated(self) -> Result<Self, AgentRuntimeConfigError> {
        if self.expected_output_tokens <= 0 {
            Err(AgentRuntimeConfigError::InvalidRouteExpectedOutputTokens)
        } else if self.budget_tokens_remaining <= 0 {
            Err(AgentRuntimeConfigError::InvalidRouteBudgetTokensRemaining)
        } else if self.budget_cost_remaining_micro_usd <= 0 {
            Err(AgentRuntimeConfigError::InvalidRouteBudgetCostRemainingUsd)
        } else if self.candidate_inventory_limit <= 0 {
            Err(AgentRuntimeConfigError::InvalidCandidateInventoryLimit)
        } else {
            Ok(
                RouteClassifierRuntimeConfig {
                    expected_output_tokens: if self.expected_output_tokens > HARD_MAX_ROUTE_EXPECTED_OUTPUT_TOKENS {
                        HARD_MAX_ROUTE_EXPECTED_OUTPUT_TOKENS
                    } else {
                        self.expected_output_tokens
                    },
                    budget_tokens_remaining: if self.budget_tokens_remaining > HARD_MAX_ROUTE_BUDGET_TOKENS_REMAINING {
                        HARD_MAX_ROUTE_BUDGET_TOKENS_REMAINING
                    } else {
                        self.budget_tokens_remaining
                    },
                    budget_cost_remaining_micro_usd: if self.budget_cost_remaining_micro_usd > HARD_MAX_ROUTE_BUDGET_COST_REMAINING_MICRO_USD {
                        HARD_MAX_ROUTE_BUDGET_COST_REMAINING_MICRO_USD
                    } else {
                        self.budget_cost_remaining_micro_usd
                    },
                    candidate_inventory_limit: if self.candidate_inventory_limit > HARD_MAX_CANDIDATE_INVENTORY_LIMIT {
                        HARD_MAX_CANDIDATE_INVENTORY_LIMIT
                    } else {
                        self.candidate_inventory_limit
                    },
                },
            )
        }
    }

    pub fn apply_patch(&mut self, patch: RouteClassifierRuntimeConfigPatch)
        ensures
            *final(self) == old(self).patched(patch),
    {
        if let Some(value) = patch.expected_output_tokens {
            self.expected_output_tokens = value;
        }
        if let Some(value) = patch.budget_tokens_remaining {
            self.budget_tokens_remaining = value;
        }
        if let Some(value) = patch.budget_cost_remaining_micro_usd {
            self.budget_cost_remaining_micro_usd = value;
        }
        if let Some(value) = patch.candidate_inventory_limit {
            self.candidate_inventory_limit = value;
        }
    }

    pub fn apply_env_overrides(&mut self, env: &Vec<EnvVar>, cost: CostOverride) -> (r: Result<
        (),
        AgentRuntimeConfigError,
    >)
        ensures
            (*final(self), r) == old(self).overridden(env_view(env@), cost),
    {
        match env_override_u64(env, "ROKU_RUNTIME__AGENT__ROUTER__EXPECTED_OUTPUT_TOKENS") {
            Some(Ok(value)) => {
                self.expected_output_tokens = value;
            },
            Some(Err(e)) => {
                return Err(e);
            },
            None => {},
        }
        match env_override_u64(env, "ROKU_RUNTIME__AGENT__ROUTER__BUDGET_TOKENS_REMAINING") {
            Some(Ok(value)) => {
                self.budget_tokens_remaining = value;
            },
            Some(Err(e)) => {
                return Err(e);
            },
            None => {},
        }
        match cost_override(cost, "ROKU_RUNTIME__AGENT__ROUTER__BUDGET_COST_REMAINING_USD") {
            Some(Ok(value)) => {
                self.budget_cost_remaining_micro_usd = value;
            },
            Some(Err(e)) => {
                return Err(e);
            },
            None => {},
        }
        match env_override_usize(env, "ROKU_RUNTIME__AGENT__ROUTER__CANDIDATE_INVENTORY_LIMIT") {
            Some(Ok(value)) => {
                self.candidate_inventory_limit = value;
            },
            Some(Err(e)) => {
                return Err(e);
            },
            None => {},
        }
        Ok(())
    }

    pub fn validate_and_clamp(&mut self) -> (r: Result<(), AgentRuntimeConfigError>)
        ensures
            match old(self).validated() {
                Ok(clamped) => r == Ok::<(), AgentRuntimeConfigError>(()) && *final(self) == clamped,
                Err(e) => r == Err::<(), AgentRuntimeConfigError>(e) && *final(self) == *old(self),
            },
    {
        if self.expected_output_tokens <= 0 {
            return Err(AgentRuntimeConfigError::InvalidRouteExpectedOutputTokens);
        }
        if self.budget_tokens_remaining <= 0 {
            return Err(AgentRuntimeConfigError::InvalidRouteBudgetTokensRemaining);
        }
        if self.budget_cost_remaining_micro_usd <= 0 {
            return Err(AgentRuntimeConfigError::InvalidRouteBudgetCostRemainingUsd);
        }
        if self.candidate_inventory_limit <= 0 {
            return Err(AgentRuntimeConfigError::InvalidCandidateInventoryLimit);
        }
        if self.expected_output_tokens > HARD_MAX_ROUTE_EXPECTED_OUTPUT_TOKENS {
            self.expected_output_tokens = HARD_MAX_ROUTE_EXPECTED_OUTPUT_TOKENS;
        }
        if self.budget_tokens_remaining > HARD_MAX_ROUTE_BUDGET_TOKENS_REMAINING {
            self.budget_tokens_remaining = HARD_MAX_ROUTE_BUDGET_TOKENS_REMAINING;
        }
        if self.budget_cost_remaining_micro_usd > HARD_MAX_ROUTE_BUDGET_COST_REMAINING_MICRO_USD {
            self.budget_cost_remaining_micro_usd = HARD_MAX_ROUTE_BUDGET_COST_REMAINING_MICRO_USD;
        }
        if self.candidate_inventory_limit > HARD_MAX_CANDIDATE_INVENTORY_LIMIT {
            self.candidate_inventory_limit = HARD_MAX_CANDIDATE_INVENTORY_LIMIT;
        }
        Ok(())
    }
}

/// Valid values are positive and within the limits, and a second validation
/// leaves them as they are.
pub proof fn law_router_validated(config: RouteClassifierRuntimeConfig)
    ensures
        config.validated() is Ok <==> config.positive(),
        config.validated() matches Ok(c) ==> c.positive() && c.limited() && c.validated() == Ok::<
            RouteClassifierRuntimeConfig,
            AgentRuntimeConfigError,
        >(c),
        config.positive() && config.limited() ==> config.validated() == Ok::<
            RouteClassifierRuntimeConfig,
            AgentRuntimeConfigError,
        >(config),
{
}

/// A patch that overrides nothing changes nothing, and applying a patch twice
/// is applying it once.
pub proof fn law_router_patched(config: RouteClassifierRuntimeConfig, patch: RouteClassifierRuntimeConfigPatch)
    ensures
        config.patched(RouteClassifierRuntimeConfigPatch {
            expected_output_tokens: None,
            budget_tokens_remaining: None,
            budget_cost_remaining_micro_usd: None,
            candidate_inventory_limit: None,
        }) == config,
        config.patched(patch).patched(patch) == config.patched(patch),
{
}

/// Limits on tool hints in prompts.
#[derive(Debug, Clone, Copy, PartialEq, Eq, Structural)]
pub struct PromptCompactionRuntimeConfig {
    /// Characters kept of one visible-tool hint.
    pub visible_tool_hint_max_chars: usize,
    /// Characters kept of one candidate's hint.
    pub candidate_description_max_chars: usize,
}

/// Partial overrides of [`PromptCompactionRuntimeConfig`].
#[derive(Debug, Clone, Copy, Default, PartialEq, Eq)]
pub struct PromptCompactionRuntimeConfigPatch {
    pub visible_tool_hint_max_chars: Option<usize>,
    pub candidate_description_max_chars: Option<usize>,
}

impl Default for PromptCompactionRuntimeConfig {
    fn default() -> (r: Self)
        ensures
            r == Self::initial(),
    {
        PromptCompactionRuntimeConfig {
            visible_tool_hint_max_chars: 180,
            candidate_description_max_chars: 180,
        }
    }
}

impl PromptCompactionRuntimeConfig {
    /// The values before any override.
    pub open spec fn initial() -> Self {
        PromptCompactionRuntimeConfig {
            visible_tool_hint_max_chars: 180,
            candidate_description_max_chars: 180,
        }
    }

    /// The values with those of the patch in their place.
    pub open spec fn patched(self, patch: PromptCompactionRuntimeConfigPatch) -> Self {
        PromptCompactionRuntimeConfig {
            visible_tool_hint_max_chars: match patch.visible_tool_hint_max_chars {
                Some(value) => value,
                None => self.visible_tool_hint_max_chars,
            },
            candidate_description_max_chars: match patch.candidate_description_max_chars {
                Some(value) => value,
                None => self.candidate_description_max_chars,
            },
        }
    }

    /// The values after the environment overrides, which are taken in order up to
    /// the first one that is no number.
    pub open spec fn overridden(self, env: Seq<EnvVarView>) -> (
        Self,
        Result<(), AgentRuntimeConfigError>,
    ) {
        match override_usize(env, "ROKU_RUNTIME__AGENT__PROMPTS__VISIBLE_TOOL_HINT_MAX_CHARS"@) {
            Some(Err(e)) => (self, Err(e)),
            found => {
                let c0 = PromptCompactionRuntimeConfig { visible_tool_hint_max_chars: match found {
                    Some(Ok(value)) => value,
                    _ => self.visible_tool_hint_max_chars,
                }, ..self };
                match override_usize(env, "ROKU_RUNTIME__AGENT__PROMPTS__CANDIDATE_DESCRIPTION_MAX_CHARS"@) {
                    Some(Err(e)) => (c0, Err(e)),
                    found => {
                        let c1 = PromptCompactionRuntimeConfig { candidate_description_max_chars: match found {
                            Some(Ok(value)) => value,
                            _ => c0.candidate_description_max_chars,
                        }, ..c0 };
                        (c1, Ok(()))
                    },
                }
            },
        }
    }

    /// Each value is positive.
    pub open spec fn positive(self) -> bool {
        &&& self.visible_tool_hint_max_chars > 0
        &&& self.candidate_description_max_chars > 0
    }

    /// No value is above its hard limit.
    pub open spec fn limited(self) -> bool {
        &&& self.visible_tool_hint_max_chars <= HARD_MAX_VISIBLE_TOOL_HINT_MAX_CHARS
        &&& self.candidate_description_max_chars <= HARD_MAX_CANDIDATE_DESCRIPTION_MAX_CHARS
    }

    /// The values clamped to the hard limits, or the first one that is not positive.
    pub open spec fn validated(self) -> Result<Self, AgentRuntimeConfigError> {
        if self.visible_tool_hint_max_chars <= 0 {
            Err(AgentRuntimeConfigError::InvalidVisibleToolHintMaxChars)
        } else if self.candidate_description_max_chars <= 0 {
            Err(AgentRuntimeConfigError::InvalidCandidateDescriptionMaxChars)
        } else {
            Ok(
                PromptCompactionRuntimeConfig {
                    visible_tool_hint_max_chars: if self.visible_tool_hint_max_chars > HARD_MAX_VISIBLE_TOOL_HINT_MAX_CHARS {
                        HARD_MAX_VISIBLE_TOOL_HINT_MAX_CHARS
                    } else {
                        self.visible_tool_hint_max_chars
                    },
                    candidate_description_max_chars: if self.candidate_description_max_chars > HARD_MAX_CANDIDATE_DESCRIPTION_MAX_CHARS {
                        HARD_MAX_CANDIDATE_DESCRIPTION_MAX_CHARS
                    } else {
                        self.candidate_description_max_chars
                    },
                },
            )
        }
    }

    pub fn apply_patch(&mut self, patch: PromptCompactionRuntimeConfigPatch)
        ensures
            *final(self) == old(self).patched(patch),
    {
        if let Some(value) = patch.visible_tool_hint_max_chars {
            self.visible_tool_hint_max_chars = value;
        }
        if let Some(value) = patch.candidate_description_max_chars {
            self.candidate_description_max_chars = value;
        }
    }

    pub fn apply_env_overrides(&mut self, env: &Vec<EnvVar>) -> (r: Result<
        (),
        AgentRuntimeConfigError,
    >)
        ensures
            (*final(self), r) == old(self).overridden(env_view(env@)),
    {
        match env_override_usize(env, "ROKU_RUNTIME__AGENT__PROMPTS__VISIBLE_TOOL_HINT_MAX_CHARS") {
            Some(Ok(value)) => {
                self.visible_tool_hint_max_chars = value;
            },
            Some(Err(e)) => {
                return Err(e);
            },
            None => {},
        }
        match env_override_usize(env, "ROKU_RUNTIME__AGENT__PROMPTS__CANDIDATE_DESCRIPTION_MAX_CHARS") {
            Some(Ok(value)) => {
                self.candidate_description_max_chars = value;
            },
            Some(Err(e)) => {
                return Err(e);
            },
            None => {},
        }
        Ok(())
    }

    pub fn validate_and_clamp(&mut self) -> (r: Result<(), AgentRuntimeConfigError>)
        ensures
            match old(self).validated() {
                Ok(clamped) => r == Ok::<(), AgentRuntimeConfigError>(()) && *final(self) == clamped,
                Err(e) => r == Err::<(), AgentRuntimeConfigError>(e) && *final(self) == *old(self),
            },
    {
        if self.visible_tool_hint_max_chars <= 0 {
            return Err(AgentRuntimeConfigError::InvalidVisibleToolHintMaxChars);
        }
        if self.candidate_description_max_chars <= 0 {
            return Err(AgentRuntimeConfigError::InvalidCandidateDescriptionMaxChars);
        }
        if self.visible_tool_hint_max_chars > HARD_MAX_VISIBLE_TOOL_HINT_MAX_CHARS {
            self.visible_tool_hint_max_chars = HARD_MAX_VISIBLE_TOOL_HINT_MAX_CHARS;
        }
        if self.candidate_description_max_chars > HARD_MAX_CANDIDATE_DESCRIPTION_MAX_CHARS {
            self.candidate_description_max_chars = HARD_MAX_CANDIDATE_DESCRIPTION_MAX_CHARS;
        }
        Ok(())
    }
}

/// Valid values are positive and within the limits, and a second validation
/// leaves them as they are.
pub proof fn law_prompts_validated(config: PromptCompactionRuntimeConfig)
    ensures
        config.validated() is Ok <==> config.positive(),
        config.validated() matches Ok(c) ==> c.positive() && c.limited() && c.validated() == Ok::<
            PromptCompactionRuntimeConfig,
            AgentRuntimeConfigError,
        >(c),
        config.positive() && config.limited() ==> config.validated() == Ok::<
            PromptCompactionRuntimeConfig,
            AgentRuntimeConfigError,
        >(config),
{
}

/// A patch that overrides nothing changes nothing, and applying a patch twice
/// is applying it once.
pub proof fn law_prompts_patched(config: PromptCompactionRuntimeConfig, patch: PromptCompactionRuntimeConfigPatch)
    ensures
        config.patched(PromptCompactionRuntimeConfigPatch {
            visible_tool_hint_max_chars: None,
            candidate_description_max_chars: None,
        }) == config,
        config.patched(patch).patched(patch) == config.patched(patch),
{
}

/// Budgets of one next-step call.
#[derive(Debug, Clone, Copy, PartialEq, Eq, Structural)]
pub struct NextStepRuntimeConfig {
    /// Target size of the response.
    pub expected_output_tokens: u64,
    /// Token budget of the call.
    pub budget_tokens_remaining: u64,
    /// Cost budget of the call, in millionths of a dollar.
    pub budget_cost_remaining_micro_usd: i64,
}

/// Partial overrides of [`NextStepRuntimeConfig`].
#[derive(Debug, Clone, Copy, Default, PartialEq, Eq)]
pub struct NextStepRuntimeConfigPatch {
    pub expected_output_tokens: Option<u64>,
    pub budget_tokens_remaining: Option<u64>,
    pub budget_cost_remaining_micro_usd: Option<i64>,
}

impl Default for NextStepRuntimeConfig {
    fn default() -> (r: Self)
        ensures
            r == Self::initial(),
    {
        NextStepRuntimeConfig {
            expected_output_tokens: 1_200,
            budget_tokens_remaining: 10_000,
            budget_cost_remaining_micro_usd: 50_000,
        }
    }
}

impl NextStepRuntimeConfig {
    /// The values before any override.
    pub open spec fn initial() -> Self {
        NextStepRuntimeConfig {
            expected_output_tokens: 1_200,
            budget_tokens_remaining: 10_000,
            budget_cost_remaining_micro_usd: 50_000,
        }
    }

    /// The values with those of the patch in their place.
    pub open spec fn patched(self, patch: NextStepRuntimeConfigPatch) -> Self {
        NextStepRuntimeConfig {
            expected_output_tokens: match patch.expected_output_tokens {
                Some(value) => value,
                None => self.expected_output_tokens,
            },
            budget_tokens_remaining: match patch.budget_tokens_remaining {
                Some(value) => value,
                None => self.budget_tokens_remaining,
            },
            budget_cost_remaining_micro_usd: match patch.budget_cost_remaining_micro_usd {
                Some(value) => value,
                None => self.budget_cost_remaining_micro_usd,
            },
        }
    }

    /// The values after the environment overrides, which are taken in order up to
    /// the first one that is no number.
    pub open spec fn overridden(self, env: Seq<EnvVarView>, cost: CostOverride) -> (
        Self,
        Result<(), AgentRuntimeConfigError>,
    ) {
        match override_u64(env, "ROKU_RUNTIME__AGENT__NEXT_STEP__EXPECTED_OUTPUT_TOKENS"@) {
            Some(Err(e)) => (self, Err(e)),
            found => {
                let c0 = NextStepRuntimeConfig { expected_output_tokens: match found {
                    Some(Ok(value)) => value,
                    _ => self.expected_output_tokens,
                }, ..self };
                match override_u64(env, "ROKU_RUNTIME__AGENT__NEXT_STEP__BUDGET_TOKENS_REMAINING"@) {
                    Some(Err(e)) => (c0, Err(e)),
                    found => {
                        let c1 = NextStepRuntimeConfig { budget_tokens_remaining: match found {
                            Some(Ok(value)) => value,
                            _ => c0.budget_tokens_remaining,
                        }, ..c0 };
                        match override_cost(cost, "ROKU_RUNTIME__AGENT__NEXT_STEP__BUDGET_COST_REMAINING_USD"@) {
                            Some(Err(e)) => (c1, Err(e)),
                            found => {
                                let c2 = NextStepRuntimeConfig { budget_cost_remaining_micro_usd: match found {
                                    Some(Ok(value)) => value,
                                    _ => c1.budget_cost_remaining_micro_usd,
                                }, ..c1 };
                                (c2, Ok(()))
                            },
                        }
                    },
                }
            },
        }
    }

    /// Each value is positive.
    pub open spec fn positive(self) -> bool {
        &&& self.expected_output_tokens > 0
        &&& self.budget_tokens_remaining > 0
        &&& self.budget_cost_remaining_micro_usd > 0
    }

    /// No value is above its hard limit.
    pub open spec fn limited(self) -> bool {
        &&& self.expected_output_tokens <= HARD_MAX_NEXT_STEP_EXPECTED_OUTPUT_TOKENS
        &&& self.budget_tokens_remaining <= HARD_MAX_NEXT_STEP_BUDGET_TOKENS_REMAINING
        &&& self.budget_cost_remaining_micro_usd <= HARD_MAX_NEXT_STEP_BUDGET_COST_REMAINING_MICRO_USD
    }

    /// The values clamped to the hard limits, or the first one that is not positive.
    pub open spec fn validated(self) -> Result<Self, AgentRuntimeConfigError> {
        if self.expected_output_tokens <= 0 {
            Err(AgentRuntimeConfigError::InvalidNextStepExpectedOutputTokens)
        } else if self.budget_tokens_remaining <= 0 {
            Err(AgentRuntimeConfigError::InvalidNextStepBudgetTokensRemaining)
        } else if self.budget_cost_remaining_micro_usd <= 0 {
            Err(AgentRuntimeConfigError::InvalidNextStepBudgetCostRemainingUsd)
        } else {
            Ok(
                NextStepRuntimeConfig {
                    expected_output_tokens: if self.expected_output_tokens > HARD_MAX_NEXT_STEP_EXPECTED_OUTPUT_TOKENS {
                        HARD_MAX_NEXT_STEP_EXPECTED_OUTPUT_TOKENS
                    } else {
                        self.expected_output_tokens
                    },
                    budget_tokens_remaining: if self.budget_tokens_remaining > HARD_MAX_NEXT_STEP_BUDGET_TOKENS_REMAINING {
                        HARD_MAX_NEXT_STEP_BUDGET_TOKENS_REMAINING
                    } else {
                        self.budget_tokens_remaining
                    },
                    budget_cost_remaining_micro_usd: if self.budget_cost_remaining_micro_usd > HARD_MAX_NEXT_STEP_BUDGET_COST_REMAINING_MICRO_USD {
                        HARD_MAX_NEXT_STEP_BUDGET_COST_REMAINING_MICRO_USD
                    } else {
                        self.budget_cost_remaining_micro_usd
                    },
                },
            )
        }
    }

    pub fn apply_patch(&mut self, patch: NextStepRuntimeConfigPatch)
        ensures
            *final(self) == old(self).patched(patch),
    {
        if let Some(value) = patch.expected_output_tokens {
            self.expected_output_tokens = value;
        }
        if let Some(value) = patch.budget_tokens_remaining {
            self.budget_tokens_remaining = value;
        }
        if let Some(value) = patch.budget_cost_remaining_micro_usd {
            self.budget_cost_remaining_micro_usd = value;
        }
    }

    pub fn apply_env_overrides(&mut self, env: &Vec<EnvVar>, cost: CostOverride) -> (r: Result<
        (),
        AgentRuntimeConfigError,
    >)
        ensures
            (*final(self), r) == old(self).overridden(env_view(env@), cost),
    {
        match env_override_u64(env, "ROKU_RUNTIME__AGENT__NEXT_STEP__EXPECTED_OUTPUT_TOKENS") {
            Some(Ok(value)) => {
                self.expected_output_tokens = value;
            },
            Some(Err(e)) => {
                return Err(e);
            },
            None => {},
        }
        match env_override_u64(env, "ROKU_RUNTIME__AGENT__NEXT_STEP__BUDGET_TOKENS_REMAINING") {
            Some(Ok(value)) => {
                self.budget_tokens_remaining = value;
            },
            Some(Err(e)) => {
                return Err(e);
            },
            None => {},
        }
        match cost_override(cost, "ROKU_RUNTIME__AGENT__NEXT_STEP__BUDGET_COST_REMAINING_USD") {
            Some(Ok(value)) => {
                self.budget_cost_remaining_micro_usd = value;
            },
            Some(Err(e)) => {
                return Err(e);
            },
            None => {},
        }
        Ok(())
    }

    pub fn validate_and_clamp(&mut self) -> (r: Result<(), AgentRuntimeConfigError>)
        ensures
            match old(self).validated() {
                Ok(clamped) => r == Ok::<(), AgentRuntimeConfigError>(()) && *final(self) == clamped,
                Err(e) => r == Err::<(), AgentRuntimeConfigError>(e) && *final(self) == *old(self),
            },
    {
        if self.expected_output_tokens <= 0 {
            return Err(AgentRuntimeConfigError::InvalidNextStepExpectedOutputTokens);
        }
        if self.budget_tokens_remaining <= 0 {
            return Err(AgentRuntimeConfigError::InvalidNextStepBudgetTokensRemaining);
        }
        if self.budget_cost_remaining_micro_usd <= 0 {
            return Err(AgentRuntimeConfigError::InvalidNextStepBudgetCostRemainingUsd);
        }
        if self.expected_output_tokens > HARD_MAX_NEXT_STEP_EXPECTED_OUTPUT_TOKENS {
            self.expected_output_tokens = HARD_MAX_NEXT_STEP_EXPECTED_OUTPUT_TOKENS;
        }
        if self.budget_tokens_remaining > HARD_MAX_NEXT_STEP_BUDGET_TOKENS_REMAINING {
            self.budget_tokens_remaining = HARD_MAX_NEXT_STEP_BUDGET_TOKENS_REMAINING;
        }
        if self.budget_cost_remaining_micro_usd > HARD_MAX_NEXT_STEP_BUDGET_COST_REMAINING_MICRO_USD {
            self.budget_cost_remaining_micro_usd = HARD_MAX_NEXT_STEP_BUDGET_COST_REMAINING_MICRO_USD;
        }
        Ok(())
    }
}

/// Valid values are positive and within the limits, and a second validation
/// leaves them as they are.
pub proof fn law_next_step_validated(config: NextStepRuntimeConfig)
    ensures
        config.validated() is Ok <==> config.positive(),
        config.validated() matches Ok(c) ==> c.positive() && c.limited() && c.validated() == Ok::<
            NextStepRuntimeConfig,
            AgentRuntimeConfigError,
        >(c),
        config.positive() && config.limited() ==> config.validated() == Ok::<
            NextStepRuntimeConfig,
            AgentRuntimeConfigError,
        >(config),
{
}

/// A patch that overrides nothing changes nothing, and applying a patch twice
/// is applying it once.
pub proof fn law_next_step_patched(config: NextStepRuntimeConfig, patch: NextStepRuntimeConfigPatch)
    ensures
        config.patched(NextStepRuntimeConfigPatch {
            expected_output_tokens: None,
            budget_tokens_remaining: None,
            budget_cost_remaining_micro_usd: None,
        }) == config,
        config.patched(patch).patched(patch) == config.patched(patch),
{
}

/// The tunables of the runtime.
#[derive(Debug, Clone, Copy, PartialEq, Eq, Structural)]
pub struct AgentRuntimeConfig {
    pub loop_config: LoopRuntimeConfig,
    pub router: RouteClassifierRuntimeConfig,
    pub prompts: PromptCompactionRuntimeConfig,
    pub next_step: NextStepRuntimeConfig,
}

/// Partial overrides of [`AgentRuntimeConfig`].
#[derive(Debug, Clone, Copy, Default, PartialEq, Eq)]
pub struct AgentRuntimeConfigPatch {
    pub loop_config: Option<LoopRuntimeConfigPatch>,
    pub router: Option<RouteClassifierRuntimeConfigPatch>,
    pub prompts: Option<PromptCompactionRuntimeConfigPatch>,
    pub next_step: Option<NextStepRuntimeConfigPatch>,
}

impl Default for AgentRuntimeConfig {
    fn default() -> (r: Self)
        ensures
            r == Self::initial(),
    {
        AgentRuntimeConfig {
            loop_config: LoopRuntimeConfig::default(),
            router: RouteClassifierRuntimeConfig::default(),
            prompts: PromptCompactionRuntimeConfig::default(),
            next_step: NextStepRuntimeConfig::default(),
        }
    }
}

impl AgentRuntimeConfig {
    /// The values before any override.
    pub open spec fn initial() -> Self {
        AgentRuntimeConfig {
            loop_config: LoopRuntimeConfig::initial(),
            router: RouteClassifierRuntimeConfig::initial(),
            prompts: PromptCompactionRuntimeConfig::initial(),
            next_step: NextStepRuntimeConfig::initial(),
        }
    }

    /// The values with those of the patch in their place.
    pub open spec fn patched(self, patch: AgentRuntimeConfigPatch) -> Self {
        AgentRuntimeConfig {
            loop_config: match patch.loop_config {
                Some(p) => self.loop_config.patched(p),
                None => self.loop_config,
            },
            router: match patch.router {
                Some(p) => self.router.patched(p),
                None => self.router,
            },
            prompts: match patch.prompts {
                Some(p) => self.prompts.patched(p),
                None => self.prompts,
            },
            next_step: match patch.next_step {
                Some(p) => self.next_step.patched(p),
                None => self.next_step,
            },
        }
    }

    /// The values after the environment overrides, which are taken section by section
    /// up to the first one that is no number.
    pub open spec fn overridden(
        self,
        env: Seq<EnvVarView>,
        router_cost: CostOverride,
        next_step_cost: CostOverride,
    ) -> (Self, Result<(), AgentRuntimeConfigError>) {
        let (loop_config, r0) = self.loop_config.overridden(env);
        let c0 = AgentRuntimeConfig { loop_config, ..self };
        let (router, r1) = self.router.overridden(env, router_cost);
        let c1 = AgentRuntimeConfig { router, ..c0 };
        let (prompts, r2) = self.prompts.overridden(env);
        let c2 = AgentRuntimeConfig { prompts, ..c1 };
        let (next_step, r3) = self.next_step.overridden(env, next_step_cost);
        let c3 = AgentRuntimeConfig { next_step, ..c2 };
        if r0 is Err {
            (c0, r0)
        } else if r1 is Err {
            (c1, r1)
        } else if r2 is Err {
            (c2, r2)
        } else {
            (c3, r3)
        }
    }

    /// The values clamped section by section up to the first one that is not
    /// positive, and that one.
    pub open spec fn clamped(self) -> (Self, Result<(), AgentRuntimeConfigError>) {
        match self.loop_config.validated() {
            Err(e) => (self, Err(e)),
            Ok(loop_config) => {
                let c0 = AgentRuntimeConfig { loop_config, ..self };
                match self.router.validated() {
                    Err(e) => (c0, Err(e)),
                    Ok(router) => {
                        let c1 = AgentRuntimeConfig { router, ..c0 };
                        match self.prompts.validated() {
                            Err(e) => (c1, Err(e)),
                            Ok(prompts) => {
                                let c2 = AgentRuntimeConfig { prompts, ..c1 };
                                match self.next_step.validated() {
                                    Err(e) => (c2, Err(e)),
                                    Ok(next_step) => (
                                        AgentRuntimeConfig { next_step, ..c2 },
                                        Ok(()),
                                    ),
                                }
                            },
                        }
                    },
                }
            },
        }
    }

    pub fn apply_patch(&mut self, patch: AgentRuntimeConfigPatch)
        ensures
            *final(self) == old(self).patched(patch),
    {
        if let Some(p) = patch.loop_config {
            self.loop_config.apply_patch(p);
        }
        if let Some(p) = patch.router {
            self.router.apply_patch(p);
        }
        if let Some(p) = patch.prompts {
            self.prompts.apply_patch(p);
        }
        if let Some(p) = patch.next_step {
            self.next_step.apply_patch(p);
        }
    }

    pub fn apply_env_overrides(
        &mut self,
        env: &Vec<EnvVar>,
        router_cost: CostOverride,
        next_step_cost: CostOverride,
    ) -> (r: Result<(), AgentRuntimeConfigError>)
        ensures
            (*final(self), r) == old(self).overridden(env_view(env@), router_cost, next_step_cost),
    {
        match self.loop_config.apply_env_overrides(env) {
            Ok(()) => {},
            Err(e) => {
                return Err(e);
            },
        }
        match self.router.apply_env_overrides(env, router_cost) {
            Ok(()) => {},
            Err(e) => {
                return Err(e);
            },
        }
        match self.prompts.apply_env_overrides(env) {
            Ok(()) => {},
            Err(e) => {
                return Err(e);
            },
        }
        self.next_step.apply_env_overrides(env, next_step_cost)
    }

    pub fn validate_and_clamp(&mut self) -> (r: Result<(), AgentRuntimeConfigError>)
        ensures
            (*final(self), r) == old(self).clamped(),
    {
        match self.loop_config.validate_and_clamp() {
            Ok(()) => {},
            Err(e) => {
                return Err(e);
            },
        }
        match self.router.validate_and_clamp() {
            Ok(()) => {},
            Err(e) => {
                return Err(e);
            },
        }
        match self.prompts.validate_and_clamp() {
            Ok(()) => {},
            Err(e) => {
                return Err(e);
            },
        }
        self.next_step.validate_and_clamp()
    }
}

/// Validation succeeds exactly where every value is positive; then every value is
/// within its limit, and validating again changes nothing.
pub proof fn law_config_validated(config: AgentRuntimeConfig)
    ensures
        config.clamped().1 is Ok <==> config.loop_config.positive() && config.router.positive()
            && config.prompts.positive() && config.next_step.positive(),
        config.clamped().1 is Ok ==> {
            let c = config.clamped().0;
            &&& c.loop_config.limited() && c.router.limited() && c.prompts.limited()
                && c.next_step.limited()
            &&& c.clamped().0 == c
            &&& c.clamped().1 is Ok
        },
{
    law_loop_config_validated(config.loop_config);
    law_router_validated(config.router);
    law_prompts_validated(config.prompts);
    law_next_step_validated(config.next_step);
}

/// The values before any override are valid as they stand.
pub proof fn law_initial_config_valid()
    ensures
        AgentRuntimeConfig::initial().clamped() == (AgentRuntimeConfig::initial(), Ok::<
            (),
            AgentRuntimeConfigError,
        >(())),
{
}

} // verus!

//! How a runtime loop starts.

use crate::catalog::{composed_tools, RuntimeVisibleToolAvailabilitySnapshot};
use crate::config::LoopRuntimeConfig;
use crate::decision::RouteDecision;
use crate::observation::{selectors_view, ResourceSelector};
use crate::projection::build_loop_context;
use crate::state::{LoopContext, LoopState, LoopStatus};
use crate::text::views;
use vstd::prelude::*;

verus! {

/// A loop for a routed request: it sees the shortlisted tools that are enabled, then
/// the baseline, then the others, and has the configured budgets.
pub fn initialize_runtime_loop(
    request_id: &str,
    session_id: &str,
    goal: &str,
    current_directory: Option<&str>,
    route_decision: &RouteDecision,
    availability: &RuntimeVisibleToolAvailabilitySnapshot,
    bound_resources: Vec<ResourceSelector>,
    config: &LoopRuntimeConfig,
) -> (r: LoopState)
    ensures
        r.run_id@ == "loop-"@ + request_id@,
        r.request_id@ == request_id@,
        r.session_id@ == session_id@,
        r.goal@ == goal@,
        r.route_decision@ == route_decision@,
        r.status == LoopStatus::LoopRunning,
        r.step_index == 0,
        r.remaining_step_budget == config.initial_step_budget,
        r.remaining_recovery_budget == config.initial_recovery_budget,
        r.working_directory@ == (match current_directory {
            Some(directory) => directory@,
            None => "."@,
        }),
        views(r.visible_tools@) == composed_tools(
            route_decision@.candidate_tools,
            views(availability.enabled_tools@),
            views(availability.baseline_visible_tools@),
        ),
        selectors_view(r.bound_resources@) == selectors_view(bound_resources@),
        r.history@.len() == 0,
        r.working_summary@.len() == 0,
        r.last_observation is None,
        r.awaiting_user is None,
        r.disallowed_tools@.len() == 0,
        r.committed is None,
        r.consecutive_autocompact_failures == 0,
        r.frozen_tool_schema is None,
        r.tool_schema_dirty,
        r.observed_plan_mode is None,
        r.deferred_tools is None,
        !r.layer2_lookup_attempted_this_run,
        r.last_llm_call_at_ms is None,
{
    let visible_tools: Vec<String> = availability.compose_visible_tools(
        &route_decision.candidate_tools,
    );
    let context: LoopContext = build_loop_context(
        request_id,
        session_id,
        goal,
        current_directory,
        route_decision,
        visible_tools,
        bound_resources,
    );
    let mut run_id: String = "loop-".to_owned();
    run_id.append(request_id);
    LoopState::with_budgets(
        run_id.as_str(),
        &context,
        config.initial_step_budget,
        config.initial_recovery_budget,
    )
}

} // verus!

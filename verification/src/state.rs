//! The state of a runtime loop.

use crate::ask_user::{AskUserPayload, PayloadView};
use crate::cache_break::{CacheBreakDetector, DetectorView, ToolDefinition};
use crate::decision::RouteDecision;
use crate::observation::{
    clone_selectors, selectors_view, ResourceSelector, StepObservation, StepObservationView,
    StepRecord, StepView, ToolObservation, ToolObservationView,
};
use crate::pressure::CommittedBaseline;
use crate::split::clone_list;
use crate::text::{opt_view, views};
use vstd::prelude::*;

verus! {

#[derive(Debug, Clone, Copy, PartialEq, Eq, Structural)]
pub enum LoopStatus {
    LoopRunning,
    AwaitingUser,
    Succeeded,
    Failed,
    Stopped,
}

/// The tools whose schemas are withheld, and those of them loaded since.
#[derive(Debug)]
pub struct DeferredTools {
    pub deferred_names: Vec<String>,
    pub loaded_names: Vec<String>,
}

/// The last call's token count, with hashes of what that call sent.
#[derive(Debug)]
pub struct CommittedPrefix {
    pub baseline: CommittedBaseline,
    pub system_prompt_hash: u64,
    pub tool_schema_hash: u64,
    pub prefix_messages_hash: u64,
}

/// What the next call would send, as far as a committed prefix depends on it.
#[derive(Debug)]
pub struct PromptSurface {
    pub system_prompt_bytes: u64,
    pub tool_schema_bytes_len: u64,
    pub system_prompt_hash: u64,
    pub tool_schema_hash: u64,
    pub model_id: Option<String>,
}

impl CommittedPrefix {
    /// The next call starts with what the last one sent: the buffer holds the
    /// committed messages, with the same hash, and nothing else has changed.
    pub open spec fn matches(
        self,
        surface: PromptSurface,
        messages: nat,
        prefix_messages_hash: u64,
    ) -> bool {
        &&& self.baseline.message_count <= messages
        &&& self.baseline.valid_for(
            surface.system_prompt_bytes,
            surface.tool_schema_bytes_len,
            opt_view(surface.model_id),
        )
        &&& self.system_prompt_hash == surface.system_prompt_hash
        &&& self.tool_schema_hash == surface.tool_schema_hash
        &&& self.prefix_messages_hash == prefix_messages_hash
    }

    pub fn is_valid_for(
        &self,
        surface: &PromptSurface,
        messages: usize,
        prefix_messages_hash: u64,
    ) -> (r: bool)
        ensures
            r == self.matches(*surface, messages as nat, prefix_messages_hash),
    {
        let model: Option<&str> = match &surface.model_id {
            Some(m) => Some(m.as_str()),
            None => None,
        };
        self.baseline.message_count <= messages && self.baseline.is_valid_for(
            surface.system_prompt_bytes,
            surface.tool_schema_bytes_len,
            model,
        ) && self.system_prompt_hash == surface.system_prompt_hash && self.tool_schema_hash
            == surface.tool_schema_hash && self.prefix_messages_hash == prefix_messages_hash
    }
}

/// What a loop starts from.
#[derive(Debug)]
pub struct LoopContext {
    pub request_id: String,
    pub session_id: String,
    pub goal: String,
    pub workspace_root: String,
    pub working_directory: String,
    pub visible_tools: Vec<String>,
    pub bound_resources: Vec<ResourceSelector>,
    pub route_decision: RouteDecision,
    pub last_observation: Option<ToolObservation>,
}

/// The state of a loop.
#[derive(Debug)]
pub struct LoopState {
    pub run_id: String,
    pub request_id: String,
    pub session_id: String,
    pub goal: String,
    pub route_decision: RouteDecision,
    pub status: LoopStatus,
    pub step_index: u32,
    pub remaining_step_budget: u32,
    pub remaining_recovery_budget: u32,
    pub working_directory: String,
    pub working_summary: String,
    pub visible_tools: Vec<String>,
    pub bound_resources: Vec<ResourceSelector>,
    pub history: Vec<StepRecord>,
    pub last_observation: Option<ToolObservation>,
    pub awaiting_user: Option<AskUserPayload>,
    pub disallowed_tools: Vec<String>,
    /// What the provider counted for the last call.
    pub committed: Option<CommittedPrefix>,
    pub consecutive_autocompact_failures: u32,
    /// The tool definitions that the provider has been sent.
    pub frozen_tool_schema: Option<Vec<ToolDefinition>>,
    /// The frozen definitions no longer describe the visible tools.
    pub tool_schema_dirty: bool,
    /// Whether the last refresh of the visible tools was in plan mode.
    pub observed_plan_mode: Option<bool>,
    pub cache_break_detector: CacheBreakDetector,
    pub deferred_tools: Option<DeferredTools>,
    /// The session's stored summary has been looked up in this run.
    pub layer2_lookup_attempted_this_run: bool,
    /// When the last call returned, in milliseconds of some clock.
    pub last_llm_call_at_ms: Option<u64>,
}

pub open spec fn opt_tool(o: Option<ToolObservation>) -> Option<ToolObservationView> {
    match o {
        Some(o) => Some(o@),
        None => None,
    }
}

pub open spec fn opt_payload(p: Option<AskUserPayload>) -> Option<PayloadView> {
    match p {
        Some(p) => Some(p@),
        None => None,
    }
}

pub fn clone_tool(o: &Option<ToolObservation>) -> (r: Option<ToolObservation>)
    ensures
        opt_tool(r) == opt_tool(*o),
{
    match o {
        Some(o) => Some(o.clone()),
        None => None,
    }
}

/// The observation that a step leaves as the latest one.
pub open spec fn latest_tool(
    before: Option<ToolObservationView>,
    step: StepView,
) -> Option<ToolObservationView> {
    match step.observation {
        Some(StepObservationView::Tool(t)) => Some(t),
        _ => before,
    }
}

/// The loop's fields after a step has been recorded.
pub open spec fn recorded(before: LoopState, step: StepRecord, after: LoopState) -> bool {
    &&& after == LoopState {
        step_index: step.step_index,
        remaining_step_budget: step.remaining_step_budget,
        remaining_recovery_budget: step.remaining_recovery_budget,
        working_directory: after.working_directory,
        last_observation: after.last_observation,
        history: after.history,
        ..before
    }
    &&& after.working_directory@ == step.working_directory@
    &&& opt_tool(after.last_observation) == latest_tool(opt_tool(before.last_observation), step@)
    &&& after.history@ == before.history@.push(step)
}

impl LoopState {
    /// A loop at its start, with these budgets.
    pub fn with_budgets(
        run_id: &str,
        context: &LoopContext,
        step_budget: u32,
        recovery_budget: u32,
    ) -> (r: Self)
        ensures
            r.run_id@ == run_id@,
            r.request_id@ == context.request_id@,
            r.session_id@ == context.session_id@,
            r.goal@ == context.goal@,
            r.route_decision@ == context.route_decision@,
            r.status == LoopStatus::LoopRunning,
            r.step_index == 0,
            r.remaining_step_budget == step_budget,
            r.remaining_recovery_budget == recovery_budget,
            r.working_directory@ == context.working_directory@,
            r.working_summary@ == Seq::<char>::empty(),
            views(r.visible_tools@) == views(context.visible_tools@),
            selectors_view(r.bound_resources@) == selectors_view(context.bound_resources@),
            r.history@.len() == 0,
            opt_tool(r.last_observation) == opt_tool(context.last_observation),
            r.awaiting_user is None,
            r.disallowed_tools@.len() == 0,
            r.committed is None,
            r.consecutive_autocompact_failures == 0,
            r.frozen_tool_schema is None,
            r.tool_schema_dirty,
            r.observed_plan_mode is None,
            r.deferred_tools is None,
            !r.layer2_lookup_attempted_this_run,
            r.last_llm_call_at_ms is None,
            r.cache_break_detector@ == (DetectorView {
                previous_fingerprint: None,
                previous_cache_read_tokens: None,
                current_fingerprint: None,
                compaction_pending: false,
            }),
    {
        LoopState {
            run_id: run_id.to_owned(),
            request_id: context.request_id.clone(),
            session_id: context.session_id.clone(),
            goal: context.goal.clone(),
            route_decision: context.route_decision.clone(),
            status: LoopStatus::LoopRunning,
            step_index: 0,
            remaining_step_budget: step_budget,
            remaining_recovery_budget: recovery_budget,
            working_directory: context.working_directory.clone(),
            working_summary: String::new(),
            visible_tools: clone_list(&context.visible_tools),
            bound_resources: clone_selectors(&context.bound_resources),
            history: Vec::new(),
            last_observation: clone_tool(&context.last_observation),
            awaiting_user: None,
            disallowed_tools: Vec::new(),
            committed: None,
            consecutive_autocompact_failures: 0,
            frozen_tool_schema: None,
            tool_schema_dirty: true,
            observed_plan_mode: None,
            cache_break_detector: CacheBreakDetector::default(),
            deferred_tools: None,
            layer2_lookup_attempted_this_run: false,
            last_llm_call_at_ms: None,
        }
    }

    /// Adds a step to the history and takes over what it leaves behind.
    pub fn record_step(&mut self, step: StepRecord)
        ensures
            recorded(*old(self), step, *final(self)),
    {
        self.step_index = step.step_index;
        self.remaining_step_budget = step.remaining_step_budget;
        self.remaining_recovery_budget = step.remaining_recovery_budget;
        self.working_directory = step.working_directory.clone();
        match &step.observation {
            Some(StepObservation::Tool(t)) => {
                self.last_observation = Some(t.clone());
            },
            _ => {},
        }
        self.history.push(step);
    }

    /// Forgets the last call's token count.
    pub fn invalidate_committed_baseline(&mut self)
        ensures
            *final(self) == (LoopState { committed: None, ..*old(self) }),
    {
        self.committed = None;
    }

    /// Notes what the provider counted for a call that sent `message_count`
    /// messages; a count of zero says nothing and is passed over.
    pub fn record_observed_usage(
        &mut self,
        message_count: usize,
        prompt_tokens: u64,
        surface: &PromptSurface,
        prefix_messages_hash: u64,
        model_id: &str,
    )
        ensures
            *final(self) == (LoopState { committed: final(self).committed, ..*old(self) }),
            prompt_tokens == 0 ==> final(self).committed == old(self).committed,
            prompt_tokens > 0 ==> match final(self).committed {
                Some(c) => {
                    &&& c.baseline.input_tokens == prompt_tokens
                    &&& c.baseline.message_count == message_count
                    &&& c.baseline.system_prompt_bytes == surface.system_prompt_bytes
                    &&& c.baseline.tool_schema_bytes_len == surface.tool_schema_bytes_len
                    &&& opt_view(c.baseline.model_id) == Some(model_id@)
                    &&& c.system_prompt_hash == surface.system_prompt_hash
                    &&& c.tool_schema_hash == surface.tool_schema_hash
                    &&& c.prefix_messages_hash == prefix_messages_hash
                },
                None => false,
            },
    {
        if prompt_tokens > 0 {
            self.committed = Some(
                CommittedPrefix {
                    baseline: CommittedBaseline {
                        input_tokens: prompt_tokens,
                        message_count,
                        system_prompt_bytes: surface.system_prompt_bytes,
                        tool_schema_bytes_len: surface.tool_schema_bytes_len,
                        model_id: Some(model_id.to_owned()),
                    },
                    system_prompt_hash: surface.system_prompt_hash,
                    tool_schema_hash: surface.tool_schema_hash,
                    prefix_messages_hash,
                },
            );
        }
    }

    /// The summarizer has failed so often in a row that it is not called again.
    pub fn autocompact_circuit_breaker_tripped(&self, limit: u32) -> (r: bool)
        ensures
            r == (self.consecutive_autocompact_failures >= limit),
    {
        self.consecutive_autocompact_failures >= limit
    }

    pub fn note_autocompact_success(&mut self)
        ensures
            *final(self) == (LoopState { consecutive_autocompact_failures: 0, ..*old(self) }),
    {
        self.consecutive_autocompact_failures = 0;
    }

    /// Counts one more failure; true where this one reaches the limit.
    pub fn note_autocompact_failure(&mut self, limit: u32) -> (r: bool)
        ensures
            *final(self) == (LoopState {
                consecutive_autocompact_failures: if old(self).consecutive_autocompact_failures
                    == u32::MAX {
                    u32::MAX
                } else {
                    (old(self).consecutive_autocompact_failures + 1) as u32
                },
                ..*old(self)
            }),
            r == (old(self).consecutive_autocompact_failures < limit
                && final(self).consecutive_autocompact_failures >= limit),
    {
        let before: u32 = self.consecutive_autocompact_failures;
        self.consecutive_autocompact_failures = before.saturating_add(1);
        before < limit && self.consecutive_autocompact_failures >= limit
    }

    pub fn mark_tool_schema_dirty(&mut self)
        ensures
            *final(self) == (LoopState { tool_schema_dirty: true, ..*old(self) }),
    {
        self.tool_schema_dirty = true;
    }

    pub fn record_llm_call_observed_at(&mut self, now_ms: u64)
        ensures
            *final(self) == (LoopState { last_llm_call_at_ms: Some(now_ms), ..*old(self) }),
    {
        self.last_llm_call_at_ms = Some(now_ms);
    }
}

} // verus!

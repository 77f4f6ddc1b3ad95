//! What a step of the loop did and what came of it.

use crate::json::{json_view, FieldView, Json, JsonField, JsonNumber, JsonView, NumberView};
use crate::number::{decimal, decimal_text};
use crate::split::{clone_list, clone_opt};
use crate::text::{opt_view, str_eq, views};
use vstd::prelude::*;

verus! {

/// A tool, a skill or another resource, by its name and its display key.
#[derive(Debug)]
pub struct ResourceSelector {
    pub name: String,
    pub display_key: String,
}

#[verifier::ext_equal]
pub struct SelectorView {
    pub name: Seq<char>,
    pub display_key: Seq<char>,
}

impl View for ResourceSelector {
    type V = SelectorView;

    open spec fn view(&self) -> SelectorView {
        SelectorView { name: self.name@, display_key: self.display_key@ }
    }
}

impl Clone for ResourceSelector {
    fn clone(&self) -> (r: Self)
        ensures
            r@ == self@,
    {
        ResourceSelector { name: self.name.clone(), display_key: self.display_key.clone() }
    }
}

pub open spec fn selectors_view(list: Seq<ResourceSelector>) -> Seq<SelectorView> {
    list.map_values(|s: ResourceSelector| s@)
}

pub fn selector_eq(a: &ResourceSelector, b: &ResourceSelector) -> (r: bool)
    ensures
        r == (a@ == b@),
{
    let same_name: bool = str_eq(a.name.as_str(), b.name.as_str());
    let same_key: bool = str_eq(a.display_key.as_str(), b.display_key.as_str());
    assert(same_name && same_key ==> a@ =~= b@);
    same_name && same_key
}

pub fn clone_selectors(list: &Vec<ResourceSelector>) -> (r: Vec<ResourceSelector>)
    ensures
        selectors_view(r@) == selectors_view(list@),
        r.len() == list.len(),
{
    let mut out: Vec<ResourceSelector> = Vec::new();
    let mut i: usize = 0;
    while i < list.len()
        invariant
            i <= list.len(),
            out.len() == i,
            forall|j: int| 0 <= j < i ==> (#[trigger] out@[j])@ == list@[j]@,
        decreases list.len() - i,
    {
        out.push(list[i].clone());
        i = i + 1;
    }
    assert(selectors_view(out@) =~= selectors_view(list@));
    out
}

/// What a tool call came to.
#[derive(Debug)]
pub struct ToolObservation {
    pub ok: bool,
    pub tool_name: String,
    pub error_type: Option<String>,
    pub terminal: bool,
    pub data: Json,
    pub message: String,
}

#[verifier::ext_equal]
pub struct ToolObservationView {
    pub ok: bool,
    pub tool_name: Seq<char>,
    pub error_type: Option<Seq<char>>,
    pub terminal: bool,
    pub data: JsonView,
    pub message: Seq<char>,
}

impl View for ToolObservation {
    type V = ToolObservationView;

    open spec fn view(&self) -> ToolObservationView {
        ToolObservationView {
            ok: self.ok,
            tool_name: self.tool_name@,
            error_type: opt_view(self.error_type),
            terminal: self.terminal,
            data: self.data@,
            message: self.message@,
        }
    }
}

impl Clone for ToolObservation {
    fn clone(&self) -> (r: Self)
        ensures
            r@ == self@,
    {
        ToolObservation {
            ok: self.ok,
            tool_name: self.tool_name.clone(),
            error_type: clone_opt(&self.error_type),
            terminal: self.terminal,
            data: self.data.clone(),
            message: self.message.clone(),
        }
    }
}

/// What a step of the loop observed.
#[derive(Debug)]
pub enum StepObservation {
    Tool(ToolObservation),
    AskUser { final_message: String },
    FinalMessage { final_message: String },
}

pub enum StepObservationView {
    Tool(ToolObservationView),
    AskUser { final_message: Seq<char> },
    FinalMessage { final_message: Seq<char> },
}

impl View for StepObservation {
    type V = StepObservationView;

    open spec fn view(&self) -> StepObservationView {
        match self {
            StepObservation::Tool(t) => StepObservationView::Tool(t@),
            StepObservation::AskUser { final_message } => StepObservationView::AskUser {
                final_message: final_message@,
            },
            StepObservation::FinalMessage { final_message } => StepObservationView::FinalMessage {
                final_message: final_message@,
            },
        }
    }
}

impl Clone for StepObservation {
    fn clone(&self) -> (r: Self)
        ensures
            r@ == self@,
    {
        match self {
            StepObservation::Tool(t) => StepObservation::Tool(t.clone()),
            StepObservation::AskUser { final_message } => StepObservation::AskUser {
                final_message: final_message.clone(),
            },
            StepObservation::FinalMessage { final_message } => StepObservation::FinalMessage {
                final_message: final_message.clone(),
            },
        }
    }
}

pub open spec fn opt_observation(o: Option<StepObservation>) -> Option<StepObservationView> {
    match o {
        Some(o) => Some(o@),
        None => None,
    }
}

/// What a step of the loop did.
#[derive(Debug, Clone, Copy, PartialEq, Eq, Structural)]
pub enum StepAction {
    CallTool,
    AskUser,
    FinalAnswer,
    Fail,
    Stop,
    CompactBoundary,
}

/// What the loop is to do next.
#[derive(Debug, Clone, Copy, PartialEq, Eq, Structural)]
pub enum NextStepAction {
    CallTool,
    AskUser,
    FinalAnswer,
    Fail,
}

/// The decision on the next step.
#[derive(Debug)]
pub struct NextStepDecision {
    pub action: NextStepAction,
    pub tool_name: Option<String>,
    pub arguments: Option<Json>,
    pub reason: String,
    pub final_message: Option<String>,
}

#[verifier::ext_equal]
pub struct DecisionView {
    pub action: NextStepAction,
    pub tool_name: Option<Seq<char>>,
    pub arguments: Option<JsonView>,
    pub reason: Seq<char>,
    pub final_message: Option<Seq<char>>,
}

impl View for NextStepDecision {
    type V = DecisionView;

    open spec fn view(&self) -> DecisionView {
        DecisionView {
            action: self.action,
            tool_name: opt_view(self.tool_name),
            arguments: match self.arguments {
                Some(j) => Some(j@),
                None => None,
            },
            reason: self.reason@,
            final_message: opt_view(self.final_message),
        }
    }
}

impl Clone for NextStepDecision {
    fn clone(&self) -> (r: Self)
        ensures
            r@ == self@,
    {
        NextStepDecision {
            action: self.action,
            tool_name: clone_opt(&self.tool_name),
            arguments: match &self.arguments {
                Some(j) => Some(j.clone()),
                None => None,
            },
            reason: self.reason.clone(),
            final_message: clone_opt(&self.final_message),
        }
    }
}

/// One step of the loop's history.
#[derive(Debug)]
pub struct StepRecord {
    pub step_index: u32,
    pub action: StepAction,
    pub tool_name: Option<String>,
    pub decision: NextStepDecision,
    pub decision_reason: String,
    pub visible_tools: Vec<String>,
    pub bound_resources: Vec<ResourceSelector>,
    pub raw_tool_output: Option<Json>,
    pub observation: Option<StepObservation>,
    pub elapsed_ms: Option<u64>,
    pub remaining_step_budget: u32,
    pub remaining_recovery_budget: u32,
    pub working_directory: String,
}

#[verifier::ext_equal]
pub struct StepView {
    pub step_index: u32,
    pub action: StepAction,
    pub tool_name: Option<Seq<char>>,
    pub decision: DecisionView,
    pub decision_reason: Seq<char>,
    pub visible_tools: Seq<Seq<char>>,
    pub bound_resources: Seq<SelectorView>,
    pub raw_tool_output: Option<JsonView>,
    pub observation: Option<StepObservationView>,
    pub elapsed_ms: Option<u64>,
    pub remaining_step_budget: u32,
    pub remaining_recovery_budget: u32,
    pub working_directory: Seq<char>,
}

impl View for StepRecord {
    type V = StepView;

    open spec fn view(&self) -> StepView {
        StepView {
            step_index: self.step_index,
            action: self.action,
            tool_name: opt_view(self.tool_name),
            decision: self.decision@,
            decision_reason: self.decision_reason@,
            visible_tools: views(self.visible_tools@),
            bound_resources: selectors_view(self.bound_resources@),
            raw_tool_output: match self.raw_tool_output {
                Some(j) => Some(j@),
                None => None,
            },
            observation: opt_observation(self.observation),
            elapsed_ms: self.elapsed_ms,
            remaining_step_budget: self.remaining_step_budget,
            remaining_recovery_budget: self.remaining_recovery_budget,
            working_directory: self.working_directory@,
        }
    }
}

pub open spec fn steps_view(steps: Seq<StepRecord>) -> Seq<StepView> {
    steps.map_values(|s: StepRecord| s@)
}

impl Clone for StepRecord {
    fn clone(&self) -> (r: Self)
        ensures
            r@ == self@,
    {
        StepRecord {
            step_index: self.step_index,
            action: self.action,
            tool_name: clone_opt(&self.tool_name),
            decision: self.decision.clone(),
            decision_reason: self.decision_reason.clone(),
            visible_tools: clone_list(&self.visible_tools),
            bound_resources: clone_selectors(&self.bound_resources),
            raw_tool_output: match &self.raw_tool_output {
                Some(j) => Some(j.clone()),
                None => None,
            },
            observation: match &self.observation {
                Some(o) => Some(o.clone()),
                None => None,
            },
            elapsed_ms: self.elapsed_ms,
            remaining_step_budget: self.remaining_step_budget,
            remaining_recovery_budget: self.remaining_recovery_budget,
            working_directory: self.working_directory.clone(),
        }
    }
}

/// The decision that a boundary record carries.
pub open spec fn boundary_decision(reason: Seq<char>, preview: Seq<char>) -> DecisionView {
    DecisionView {
        action: NextStepAction::CallTool,
        tool_name: None,
        arguments: None,
        reason,
        final_message: Some(preview),
    }
}

/// The record that marks where older history was discarded.
pub open spec fn boundary_step(
    step_index: u32,
    discarded: nat,
    preview: Seq<char>,
    step_budget: u32,
    recovery_budget: u32,
    working_directory: Seq<char>,
) -> StepView {
    StepView {
        step_index,
        action: StepAction::CompactBoundary,
        tool_name: None,
        decision: boundary_decision(decimal(discarded), preview),
        decision_reason: decimal(discarded),
        visible_tools: seq![],
        bound_resources: seq![],
        raw_tool_output: Some(
            JsonView::Object(
                seq![
                    FieldView {
                        name: "discarded_count"@,
                        value: JsonView::Number(NumberView::Unsigned(discarded)),
                    },
                    FieldView { name: "summary_preview"@, value: JsonView::Text(preview) },
                ],
            ),
        ),
        observation: None,
        elapsed_ms: None,
        remaining_step_budget: step_budget,
        remaining_recovery_budget: recovery_budget,
        working_directory,
    }
}

/// The record of a step that ends the loop or pauses it.
pub open spec fn terminal_step(
    step_index: u32,
    action: StepAction,
    decision: DecisionView,
    visible_tools: Seq<Seq<char>>,
    bound_resources: Seq<SelectorView>,
    observation: Option<StepObservationView>,
    step_budget: u32,
    recovery_budget: u32,
    working_directory: Seq<char>,
) -> StepView {
    StepView {
        step_index,
        action,
        tool_name: decision.tool_name,
        decision,
        decision_reason: decision.reason,
        visible_tools,
        bound_resources,
        raw_tool_output: None,
        observation,
        elapsed_ms: None,
        remaining_step_budget: step_budget,
        remaining_recovery_budget: recovery_budget,
        working_directory,
    }
}

/// A JSON object of one number and one text.
fn count_and_text(count_name: &str, count: u64, text_name: &str, text: &str) -> (r: Json)
    ensures
        r@ == JsonView::Object(
            seq![
                FieldView {
                    name: count_name@,
                    value: JsonView::Number(NumberView::Unsigned(count as nat)),
                },
                FieldView { name: text_name@, value: JsonView::Text(text@) },
            ],
        ),
{
    let mut fields: Vec<JsonField> = Vec::new();
    fields.push(
        JsonField {
            name: count_name.to_owned(),
            value: Json::Number(JsonNumber::Unsigned(count)),
        },
    );
    fields.push(JsonField { name: text_name.to_owned(), value: Json::Text(text.to_owned()) });
    let r: Json = Json::Object(fields);
    proof {
        reveal_with_fuel(json_view, 3);
        assert(r@->Object_0 =~= seq![
            FieldView {
                name: count_name@,
                value: JsonView::Number(NumberView::Unsigned(count as nat)),
            },
            FieldView { name: text_name@, value: JsonView::Text(text@) },
        ]);
    }
    r
}

impl StepRecord {
    /// The record that marks where older history was discarded.
    pub fn compact_boundary(
        step_index: u32,
        discarded: usize,
        preview: &str,
        remaining_step_budget: u32,
        remaining_recovery_budget: u32,
        working_directory: &str,
    ) -> (r: Self)
        ensures
            r@ == boundary_step(
                step_index,
                discarded as nat,
                preview@,
                remaining_step_budget,
                remaining_recovery_budget,
                working_directory@,
            ),
    {
        let reason: String = decimal_text(discarded as u64);
        let r: StepRecord = StepRecord {
            step_index,
            action: StepAction::CompactBoundary,
            tool_name: None,
            decision: NextStepDecision {
                action: NextStepAction::CallTool,
                tool_name: None,
                arguments: None,
                reason: reason.clone(),
                final_message: Some(preview.to_owned()),
            },
            decision_reason: reason,
            visible_tools: Vec::new(),
            bound_resources: Vec::new(),
            raw_tool_output: Some(
                count_and_text("discarded_count", discarded as u64, "summary_preview", preview),
            ),
            observation: None,
            elapsed_ms: None,
            remaining_step_budget,
            remaining_recovery_budget,
            working_directory: working_directory.to_owned(),
        };
        assert(views(r.visible_tools@) =~= seq![]);
        assert(selectors_view(r.bound_resources@) =~= seq![]);
        r
    }

    /// The record of a step that ends the loop or pauses it.
    pub fn terminal(
        step_index: u32,
        action: StepAction,
        decision: NextStepDecision,
        visible_tools: Vec<String>,
        bound_resources: Vec<ResourceSelector>,
        observation: Option<StepObservation>,
        remaining_step_budget: u32,
        remaining_recovery_budget: u32,
        working_directory: String,
    ) -> (r: Self)
        ensures
            r@ == terminal_step(
                step_index,
                action,
                decision@,
                views(visible_tools@),
                selectors_view(bound_resources@),
                opt_observation(observation),
                remaining_step_budget,
                remaining_recovery_budget,
                working_directory@,
            ),
    {
        StepRecord {
            step_index,
            action,
            tool_name: clone_opt(&decision.tool_name),
            decision_reason: decision.reason.clone(),
            decision,
            visible_tools,
            bound_resources,
            raw_tool_output: None,
            observation,
            elapsed_ms: None,
            remaining_step_budget,
            remaining_recovery_budget,
            working_directory,
        }
    }
}

} // verus!

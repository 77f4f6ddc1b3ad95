//! Pauses that ask the user, and when a reply resumes the paused loop.

use crate::candidates::{law_selected_is_a_candidate, reply_selects_candidate, selected};
use crate::json::texts_of;
use crate::observation::{ToolObservation, ToolObservationView};
use crate::split::{clone_list, join_text};
use crate::text::{join, str_eq, trim, views};
use crate::trim::trim_text;
use vstd::prelude::*;
use vstd::utf8::is_ascii_chars;

verus! {

/// What a reply must look like to resume the paused loop.
#[derive(Debug, PartialEq, Eq)]
pub enum AskUserResumeContract {
    /// The reply begins a new request.
    NoAutomaticResume,
    /// The reply must select one of the candidates.
    CandidateSelection { candidates: Vec<String> },
    /// The reply must give the missing fields.
    MissingRequiredInput { fields: Vec<String> },
}

/// How the paused loop goes on once the clarification has come.
#[derive(Debug, PartialEq, Eq)]
pub enum AskUserResumeDirective {
    /// Call the same tool again with the selected candidate.
    RepeatToolWithSelectedCandidate { tool_name: String, argument_key: String },
}

/// A pause that asks the user.
#[derive(Debug, PartialEq, Eq)]
pub struct AskUserPayload {
    pub final_message: String,
    pub resume_contract: AskUserResumeContract,
    pub resume_directive: Option<AskUserResumeDirective>,
}

pub enum ContractView {
    NoAutomaticResume,
    CandidateSelection { candidates: Seq<Seq<char>> },
    MissingRequiredInput { fields: Seq<Seq<char>> },
}

pub struct DirectiveView {
    pub tool_name: Seq<char>,
    pub argument_key: Seq<char>,
}

pub struct PayloadView {
    pub final_message: Seq<char>,
    pub resume_contract: ContractView,
    pub resume_directive: Option<DirectiveView>,
}

impl View for AskUserResumeContract {
    type V = ContractView;

    open spec fn view(&self) -> ContractView {
        match self {
            AskUserResumeContract::NoAutomaticResume => ContractView::NoAutomaticResume,
            AskUserResumeContract::CandidateSelection { candidates } =>
                ContractView::CandidateSelection { candidates: views(candidates@) },
            AskUserResumeContract::MissingRequiredInput { fields } =>
                ContractView::MissingRequiredInput { fields: views(fields@) },
        }
    }
}

impl View for AskUserResumeDirective {
    type V = DirectiveView;

    open spec fn view(&self) -> DirectiveView {
        match self {
            AskUserResumeDirective::RepeatToolWithSelectedCandidate { tool_name, argument_key } =>
                DirectiveView { tool_name: tool_name@, argument_key: argument_key@ },
        }
    }
}

impl View for AskUserPayload {
    type V = PayloadView;

    open spec fn view(&self) -> PayloadView {
        PayloadView {
            final_message: self.final_message@,
            resume_contract: self.resume_contract@,
            resume_directive: match self.resume_directive {
                Some(d) => Some(d@),
                None => None,
            },
        }
    }
}

/// A pause that no reply resumes by itself.
pub open spec fn freeform_payload(message: Seq<char>) -> PayloadView {
    PayloadView {
        final_message: message,
        resume_contract: ContractView::NoAutomaticResume,
        resume_directive: None,
    }
}

/// Whether the reply resumes the pause by itself.
pub open spec fn resumes(payload: PayloadView, reply: Seq<char>, entries: Seq<Seq<char>>) -> bool {
    trim(reply).len() > 0 && (payload.resume_contract matches ContractView::CandidateSelection {
        candidates,
    } && selected(trim(reply), candidates, entries) is Some)
}

impl AskUserPayload {
    pub fn freeform(final_message: &str) -> (r: Self)
        ensures
            r@ == freeform_payload(final_message@),
    {
        AskUserPayload {
            final_message: final_message.to_owned(),
            resume_contract: AskUserResumeContract::NoAutomaticResume,
            resume_directive: None,
        }
    }

    pub fn missing_required_input(final_message: &str, fields: Vec<String>) -> (r: Self)
        ensures
            r@ == (PayloadView {
                final_message: final_message@,
                resume_contract: ContractView::MissingRequiredInput { fields: views(fields@) },
                resume_directive: None,
            }),
    {
        AskUserPayload {
            final_message: final_message.to_owned(),
            resume_contract: AskUserResumeContract::MissingRequiredInput { fields },
            resume_directive: None,
        }
    }

    pub fn candidate_selection(
        final_message: &str,
        candidates: Vec<String>,
        resume_directive: Option<AskUserResumeDirective>,
    ) -> (r: Self)
        ensures
            r@ == (PayloadView {
                final_message: final_message@,
                resume_contract: ContractView::CandidateSelection { candidates: views(candidates@) },
                resume_directive: match resume_directive {
                    Some(d) => Some(d@),
                    None => None,
                },
            }),
    {
        AskUserPayload {
            final_message: final_message.to_owned(),
            resume_contract: AskUserResumeContract::CandidateSelection { candidates },
            resume_directive,
        }
    }

    /// Whether the reply resumes the pause by itself, given the names in the
    /// workspace.
    pub fn can_resume(&self, user_input: &str, workspace_entries: &Vec<String>) -> (r: bool)
        ensures
            r == resumes(self@, user_input@, views(workspace_entries@)),
    {
        let reply: String = trim_text(user_input);
        if reply.as_str().is_empty() {
            return false;
        }
        match &self.resume_contract {
            AskUserResumeContract::NoAutomaticResume => false,
            AskUserResumeContract::CandidateSelection { candidates } => {
                reply_selects_candidate(reply.as_str(), candidates, workspace_entries).is_some()
            },
            AskUserResumeContract::MissingRequiredInput { .. } => false,
        }
    }
}

impl Clone for AskUserResumeDirective {
    fn clone(&self) -> (r: Self)
        ensures
            r@ == self@,
    {
        match self {
            AskUserResumeDirective::RepeatToolWithSelectedCandidate { tool_name, argument_key } =>
                AskUserResumeDirective::RepeatToolWithSelectedCandidate {
                tool_name: tool_name.clone(),
                argument_key: argument_key.clone(),
            },
        }
    }
}

impl Clone for AskUserPayload {
    fn clone(&self) -> (r: Self)
        ensures
            r@ == self@,
    {
        AskUserPayload {
            final_message: self.final_message.clone(),
            resume_contract: match &self.resume_contract {
                AskUserResumeContract::NoAutomaticResume =>
                    AskUserResumeContract::NoAutomaticResume,
                AskUserResumeContract::CandidateSelection { candidates } =>
                    AskUserResumeContract::CandidateSelection { candidates: clone_list(candidates) },
                AskUserResumeContract::MissingRequiredInput { fields } =>
                    AskUserResumeContract::MissingRequiredInput { fields: clone_list(fields) },
            },
            resume_directive: match &self.resume_directive {
                Some(d) => Some(d.clone()),
                None => None,
            },
        }
    }
}

/// The candidates that an observation lists.
pub open spec fn listed_matches(observation: ToolObservationView) -> Seq<Seq<char>> {
    match observation.data.member_items("matches"@) {
        Some(items) => texts_of(items),
        None => seq![],
    }
}

/// The candidates that an observation lists.
pub fn matches_of(observation: &ToolObservation) -> (r: Vec<String>)
    ensures
        views(r@) == listed_matches(observation@),
{
    match observation.data.get_texts("matches") {
        Some(list) => list,
        None => {
            let none: Vec<String> = Vec::new();
            assert(views(none@) =~= seq![]);
            none
        },
    }
}

/// The question that lists the candidates, in Chinese where the goal is not all
/// ASCII.
pub open spec fn candidates_question(goal: Seq<char>, candidates: Seq<Seq<char>>) -> Seq<char> {
    if !is_ascii_chars(goal) {
        if candidates.len() == 0 {
            "我找到了多个候选路径。请告诉我你想看哪一个更具体的路径。"@
        } else {
            "我找到了多个候选路径："@ + join(candidates, "、"@) + "。你想看哪一个？"@
        }
    } else if candidates.len() == 0 {
        "I found multiple candidate paths. Please tell me which one you want."@
    } else {
        "I found multiple candidate paths: "@ + join(candidates, ", "@)
            + ". Which one do you want?"@
    }
}

fn candidates_question_text(goal: &str, candidates: &Vec<String>) -> (r: String)
    ensures
        r@ == candidates_question(goal@, views(candidates@)),
{
    assert(views(candidates@).len() == candidates@.len());
    if !goal.is_ascii() {
        if candidates.len() == 0 {
            "我找到了多个候选路径。请告诉我你想看哪一个更具体的路径。".to_owned()
        } else {
            let mut out: String = "我找到了多个候选路径：".to_owned();
            let list: String = join_text(candidates, "、");
            out.append(list.as_str());
            out.append("。你想看哪一个？");
            out
        }
    } else if candidates.len() == 0 {
        "I found multiple candidate paths. Please tell me which one you want.".to_owned()
    } else {
        let mut out: String = "I found multiple candidate paths: ".to_owned();
        let list: String = join_text(candidates, ", ");
        out.append(list.as_str());
        out.append(". Which one do you want?");
        out
    }
}

/// The argument that a selected candidate fills, for the tools that can be called
/// again with it.
pub open spec fn candidate_argument(tool_name: Seq<char>) -> Option<Seq<char>> {
    if tool_name == "fs.exists"@ || tool_name == "fs.inspect"@ || tool_name == "fs.list_dir"@
        || tool_name == "fs.read_text"@ || tool_name == "table.inspect"@ || tool_name
        == "table.list_sheets"@ || tool_name == "table.preview"@ || tool_name == "table.schema"@ {
        Some("path"@)
    } else if tool_name == "fs.glob"@ {
        Some("pattern"@)
    } else {
        None
    }
}

pub open spec fn directive_for(tool_name: Seq<char>) -> Option<DirectiveView> {
    match candidate_argument(tool_name) {
        Some(argument_key) => Some(DirectiveView { tool_name, argument_key }),
        None => None,
    }
}

pub fn resume_directive_for_observation(observation: &ToolObservation) -> (r: Option<
    AskUserResumeDirective,
>)
    ensures
        match r {
            Some(d) => directive_for(observation@.tool_name) == Some(d@),
            None => directive_for(observation@.tool_name) is None,
        },
{
    let name: &str = observation.tool_name.as_str();
    let key: &str = if str_eq(name, "fs.exists") || str_eq(name, "fs.inspect") || str_eq(
        name,
        "fs.list_dir",
    ) || str_eq(name, "fs.read_text") || str_eq(name, "table.inspect") || str_eq(
        name,
        "table.list_sheets",
    ) || str_eq(name, "table.preview") || str_eq(name, "table.schema") {
        "path"
    } else if str_eq(name, "fs.glob") {
        "pattern"
    } else {
        return None;
    };
    Some(
        AskUserResumeDirective::RepeatToolWithSelectedCandidate {
            tool_name: observation.tool_name.clone(),
            argument_key: key.to_owned(),
        },
    )
}

/// The pause that an observation calls for, given the fields that its completion
/// report lists as missing.
pub open spec fn payload_for(
    goal: Seq<char>,
    observation: ToolObservationView,
    missing: Seq<Seq<char>>,
) -> PayloadView {
    let candidates = listed_matches(observation);
    if observation.error_type == Some("needs_more_information"@) {
        if missing.len() == 0 {
            freeform_payload(observation.message)
        } else {
            PayloadView {
                final_message: observation.message,
                resume_contract: ContractView::MissingRequiredInput { fields: missing },
                resume_directive: None,
            }
        }
    } else if observation.error_type == Some("multiple_candidates"@) {
        PayloadView {
            final_message: candidates_question(goal, candidates),
            resume_contract: ContractView::CandidateSelection { candidates },
            resume_directive: directive_for(observation.tool_name),
        }
    } else {
        freeform_payload(observation.message)
    }
}

/// Whether the observation reports that error.
pub fn has_error_type(observation: &ToolObservation, error_type: &str) -> (r: bool)
    ensures
        r == (observation@.error_type == Some(error_type@)),
{
    match &observation.error_type {
        Some(e) => str_eq(e.as_str(), error_type),
        None => false,
    }
}

/// The pause that an observation calls for, given the fields that its completion
/// report lists as missing.
pub fn ask_user_from_observation(
    goal: &str,
    observation: &ToolObservation,
    missing_information: &Vec<String>,
) -> (r: AskUserPayload)
    ensures
        r@ == payload_for(goal@, observation@, views(missing_information@)),
{
    assert(views(missing_information@).len() == missing_information@.len());
    if has_error_type(observation, "needs_more_information") {
        if missing_information.len() == 0 {
            AskUserPayload::freeform(observation.message.as_str())
        } else {
            AskUserPayload::missing_required_input(
                observation.message.as_str(),
                clone_list(missing_information),
            )
        }
    } else if has_error_type(observation, "multiple_candidates") {
        let candidates: Vec<String> = matches_of(observation);
        let question: String = candidates_question_text(goal, &candidates);
        let directive: Option<AskUserResumeDirective> = resume_directive_for_observation(
            observation,
        );
        AskUserPayload::candidate_selection(question.as_str(), candidates, directive)
    } else {
        AskUserPayload::freeform(observation.message.as_str())
    }
}

/// The pause to show: what the last observation calls for goes before what the
/// model proposed.
pub fn effective_ask_user_payload(
    goal: &str,
    last_observation: Option<&ToolObservation>,
    missing_information: &Vec<String>,
    proposed_payload: Option<AskUserPayload>,
) -> (r: AskUserPayload)
    ensures
        r@ == (match last_observation {
            Some(observation) => payload_for(goal@, observation@, views(missing_information@)),
            None => match proposed_payload {
                Some(payload) => payload@,
                None => freeform_payload("I need more information before I can continue."@),
            },
        }),
{
    match last_observation {
        Some(observation) => ask_user_from_observation(goal, observation, missing_information),
        None => match proposed_payload {
            Some(payload) => payload,
            None => AskUserPayload::freeform("I need more information before I can continue."),
        },
    }
}

/// Only a pause that lists candidates resumes by itself, and only on a reply that
/// selects one of them.
pub proof fn law_resume_selects_a_candidate(
    payload: PayloadView,
    reply: Seq<char>,
    entries: Seq<Seq<char>>,
)
    requires
        resumes(payload, reply, entries),
    ensures
        payload.resume_contract matches ContractView::CandidateSelection { candidates }
            && selected(trim(reply), candidates, entries) matches Some(c) && candidates.contains(c),
{
    match payload.resume_contract {
        ContractView::CandidateSelection { candidates } => {
            law_selected_is_a_candidate(trim(reply), candidates, entries);
        },
        _ => {},
    }
}

} // verus!

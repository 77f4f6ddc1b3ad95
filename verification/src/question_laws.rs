//! What the user is asked, and which replies go on with a paused loop.

use crate::ask_user::{
    candidates_question, listed_matches, payload_for, resumes, ContractView, DirectiveView,
    PayloadView,
};
use crate::candidates::selected;
use crate::json::texts_of;
use crate::observation::ToolObservationView;
use crate::resume::{
    gate_assessment, gate_fields, resume_assessment, resume_prompt, ResumeGateReply,
};
use crate::state::{LoopState, LoopStatus};
use crate::text::{contains, ends_with, join, starts_with, trim};
use crate::text_laws::{lemma_ends, lemma_holds};
use vstd::prelude::*;
use vstd::utf8::is_ascii_chars;

verus! {

/// Several candidates are listed in the question, in the language of the goal: a reply
/// has to select one of them. Missing inputs are asked for by the observation's message.
/// Everything else is a free question.
pub proof fn law_what_is_asked(
    goal: Seq<char>,
    o: ToolObservationView,
    missing: Seq<Seq<char>>,
)
    ensures
        ({
            let p = payload_for(goal, o, missing);
            let candidates = listed_matches(o);
            if o.error_type == Some("multiple_candidates"@) {
                &&& p.resume_contract == (ContractView::CandidateSelection { candidates })
                &&& p.final_message == candidates_question(goal, candidates)
            } else if o.error_type == Some("needs_more_information"@) && missing.len() > 0 {
                &&& p.resume_contract == (ContractView::MissingRequiredInput { fields: missing })
                &&& p.final_message == o.message
                &&& p.resume_directive is None
            } else {
                &&& p.resume_contract is NoAutomaticResume
                &&& p.final_message == o.message
                &&& p.resume_directive is None
            }
        }),
{
    reveal_strlit("multiple_candidates");
    reveal_strlit("needs_more_information");
    assert("multiple_candidates"@[0] == 'm' && "needs_more_information"@[0] == 'n');
}

/// The candidates are the texts that the observation lists as matches.
pub proof fn law_listed_candidates(o: ToolObservationView)
    ensures
        o.data.member_items("matches"@) matches Some(items) ==> listed_matches(o) == texts_of(
            items,
        ),
        o.data.member_items("matches"@) is None ==> listed_matches(o).len() == 0,
{
}

/// The question names every candidate; it is in English for a goal within ASCII and in
/// Chinese otherwise.
pub proof fn law_candidates_question(goal: Seq<char>, candidates: Seq<Seq<char>>)
    ensures
        is_ascii_chars(goal) && candidates.len() > 0 ==> candidates_question(goal, candidates)
            == "I found multiple candidate paths: "@ + join(candidates, ", "@)
            + ". Which one do you want?"@,
        is_ascii_chars(goal) && candidates.len() == 0 ==> starts_with(
            candidates_question(goal, candidates),
            "I found multiple candidate paths."@,
        ),
        !is_ascii_chars(goal) && candidates.len() > 0 ==> candidates_question(goal, candidates)
            == "我找到了多个候选路径："@ + join(candidates, "、"@) + "。你想看哪一个？"@,
        !is_ascii_chars(goal) && candidates.len() == 0 ==> candidates_question(goal, candidates)
            == "我找到了多个候选路径。请告诉我你想看哪一个更具体的路径。"@,
{
    reveal_strlit("I found multiple candidate paths.");
    reveal_strlit("I found multiple candidate paths. Please tell me which one you want.");
    assert("I found multiple candidate paths. Please tell me which one you want."@.subrange(0, 33)
        =~= "I found multiple candidate paths."@);
}

/// The selected candidate goes to the same tool again, as its path or its pattern.
pub proof fn law_selected_goes_to_the_tool(
    goal: Seq<char>,
    o: ToolObservationView,
    missing: Seq<Seq<char>>,
)
    requires
        o.error_type == Some("multiple_candidates"@),
    ensures
        ({
            let d = payload_for(goal, o, missing).resume_directive;
            let by_path = o.tool_name == "fs.exists"@ || o.tool_name == "fs.inspect"@
                || o.tool_name == "fs.list_dir"@ || o.tool_name == "fs.read_text"@ || o.tool_name
                == "table.inspect"@ || o.tool_name == "table.list_sheets"@ || o.tool_name
                == "table.preview"@ || o.tool_name == "table.schema"@;
            &&& by_path ==> d == Some(
                DirectiveView { tool_name: o.tool_name, argument_key: "path"@ },
            )
            &&& o.tool_name == "fs.glob"@ ==> d == Some(
                DirectiveView { tool_name: o.tool_name, argument_key: "pattern"@ },
            )
            &&& !by_path && o.tool_name != "fs.glob"@ ==> d is None
        }),
{
    law_what_is_asked(goal, o, missing);
    reveal_strlit("multiple_candidates");
    reveal_strlit("needs_more_information");
    assert("multiple_candidates"@[0] == 'm' && "needs_more_information"@[0] == 'n');
    reveal_strlit("fs.glob");
    reveal_strlit("fs.exists");
    reveal_strlit("fs.inspect");
    reveal_strlit("fs.list_dir");
    reveal_strlit("fs.read_text");
    reveal_strlit("table.inspect");
    reveal_strlit("table.list_sheets");
    reveal_strlit("table.preview");
    reveal_strlit("table.schema");
    assert("fs.glob"@[3] == 'g' && "fs.exists"@[3] == 'e' && "fs.inspect"@[3] == 'i'
        && "fs.list_dir"@[3] == 'l' && "fs.read_text"@[3] == 'r');
    assert("fs.glob"@[0] == 'f' && "table.inspect"@[0] == 't' && "table.list_sheets"@[0] == 't'
        && "table.preview"@[0] == 't' && "table.schema"@[0] == 't');
}

/// A paused loop goes on exactly where the reply selects a candidate, or where a model has
/// decided that the reply gives the missing inputs. It never does for a blank reply, for
/// a free question, or where the loop does not wait.
pub proof fn law_when_a_loop_goes_on(
    state: LoopState,
    input: Seq<char>,
    entries: Seq<Seq<char>>,
    gate: ResumeGateReply,
)
    ensures
        resume_assessment(state, input, entries, gate).should_resume <==> {
            &&& state.status == LoopStatus::AwaitingUser
            &&& trim(input).len() > 0
            &&& state.awaiting_user is Some
            &&& match state.awaiting_user->0@.resume_contract {
                ContractView::CandidateSelection { .. } => resumes(
                    state.awaiting_user->0@,
                    trim(input),
                    entries,
                ),
                ContractView::MissingRequiredInput { .. } => match gate {
                    ResumeGateReply::Decision { resume_existing_loop, .. } => resume_existing_loop,
                    _ => false,
                },
                ContractView::NoAutomaticResume => false,
            }
        },
{
}

/// A reply resumes by selecting, and only a pause for candidates.
pub proof fn law_reply_selects(
    candidates: Seq<Seq<char>>,
    payload: PayloadView,
    reply: Seq<char>,
    entries: Seq<Seq<char>>,
)
    ensures
        payload.resume_contract == (ContractView::CandidateSelection { candidates }) && trim(
            reply,
        ).len() > 0 ==> (resumes(payload, reply, entries) <==> selected(
            trim(reply),
            candidates,
            entries,
        ) is Some),
        !(payload.resume_contract is CandidateSelection) ==> !resumes(payload, reply, entries),
        trim(reply).len() == 0 ==> !resumes(payload, reply, entries),
{
}

/// A model is asked about the fields that are missing, for a reply that is not blank,
/// while the loop waits.
pub proof fn law_gate_is_asked(state: LoopState, input: Seq<char>, fields: Seq<Seq<char>>)
    ensures
        gate_fields(state, input) == Some(fields) ==> state.status == LoopStatus::AwaitingUser
            && trim(input).len() > 0 && state.awaiting_user is Some
            && state.awaiting_user->0@.resume_contract == (ContractView::MissingRequiredInput {
            fields,
        }),
        state.status == LoopStatus::AwaitingUser && trim(input).len() > 0 && state.awaiting_user
            is Some && state.awaiting_user->0@.resume_contract == (
        ContractView::MissingRequiredInput { fields }) ==> gate_fields(state, input) == Some(
            fields,
        ),
{
}

/// The model's own decision and reason are taken over; a model that did not decide leaves
/// the loop paused and says why.
pub proof fn law_gate_decides(gate: ResumeGateReply)
    ensures
        gate matches ResumeGateReply::Decision { resume_existing_loop, reason } ==> gate_assessment(
            gate,
        ).should_resume == resume_existing_loop && gate_assessment(gate).reason == reason@,
        !(gate is Decision) ==> !gate_assessment(gate).should_resume,
        gate matches ResumeGateReply::CallFailed { error } ==> ends_with(
            gate_assessment(gate).reason,
            error@,
        ),
        gate matches ResumeGateReply::InvalidPayload { error } ==> ends_with(
            gate_assessment(gate).reason,
            error@,
        ),
{
    match gate {
        ResumeGateReply::CallFailed { error } => {
            lemma_ends("resume gate could not produce a structured decision: "@, error@);
        },
        ResumeGateReply::InvalidPayload { error } => {
            lemma_ends("resume gate returned an invalid decision payload: "@, error@);
        },
        _ => {},
    }
}

/// That model is shown the question, the reply and the goal, and which fields are missing.
pub proof fn law_gate_prompt(
    goal: Seq<char>,
    message: Seq<char>,
    fields: Seq<Seq<char>>,
    input: Seq<char>,
)
    ensures
        ends_with(
            resume_prompt(goal, message, fields, input),
            "\n\nPaused ask-user message:\n"@ + message + "\n\nLatest user reply:\n"@ + input
                + "\n\nPaused loop goal:\n"@ + goal,
        ),
        fields.len() > 0 ==> contains(
            resume_prompt(goal, message, fields, input),
            "required fields: "@ + join(fields, ", "@) + "."@,
        ),
        fields.len() == 0 ==> contains(
            resume_prompt(goal, message, fields, input),
            "required fields: (none)."@,
        ),
{
    let said = resume_prompt(goal, message, fields, input);
    let rules =
        "Decide whether the latest user message should resume an existing paused runtime loop or start a fresh request.\n\nReturn only JSON with this shape:\n{\n  \"resume_existing_loop\": true,\n  \"reason\": \"short explanation\"\n}\n\nRules:\n- Resume only if the latest user message is best interpreted as answering the current paused clarification for the same task.\n- Do not resume if the latest user message appears to start a new task, switch topics, or issue a fresh standalone request.\n- When unsure, prefer `resume_existing_loop=false`.\n- The paused loop still needs these required fields: "@;
    reveal_strlit(
        "Decide whether the latest user message should resume an existing paused runtime loop or start a fresh request.\n\nReturn only JSON with this shape:\n{\n  \"resume_existing_loop\": true,\n  \"reason\": \"short explanation\"\n}\n\nRules:\n- Resume only if the latest user message is best interpreted as answering the current paused clarification for the same task.\n- Do not resume if the latest user message appears to start a new task, switch topics, or issue a fresh standalone request.\n- When unsure, prefer `resume_existing_loop=false`.\n- The paused loop still needs these required fields: ",
    );
    reveal_strlit("required fields: ");
    reveal_strlit("required fields: (none).");
    reveal_strlit("(none)");
    reveal_strlit(".\n\nPaused ask-user message:\n");
    reveal_strlit("\n\nPaused ask-user message:\n");
    reveal_strlit(".");
    let named = if fields.len() == 0 {
        "(none)"@
    } else {
        join(fields, ", "@)
    };
    let tail = "\n\nPaused ask-user message:\n"@ + message + "\n\nLatest user reply:\n"@ + input
        + "\n\nPaused loop goal:\n"@ + goal;
    assert(".\n\nPaused ask-user message:\n"@ =~= "."@ + "\n\nPaused ask-user message:\n"@);
    assert(said =~= rules + named + "."@ + tail);
    lemma_ends(rules + named + "."@, tail);
    let cut = rules.len() - "required fields: "@.len();
    assert(rules.skip(cut as int) =~= "required fields: "@);
    assert(rules =~= rules.take(cut as int) + "required fields: "@);
    let asked = "required fields: "@ + named + "."@;
    assert(said =~= rules.take(cut as int) + asked + tail);
    lemma_holds(rules.take(cut as int), asked, tail);
    if fields.len() == 0 {
        assert("required fields: (none)."@ =~= asked);
    }
}

/// Why a reply does not go on with a loop, or does.
pub proof fn law_assessment_reasons(
    state: LoopState,
    input: Seq<char>,
    entries: Seq<Seq<char>>,
    gate: ResumeGateReply,
)
    ensures
        ({
            let reason = resume_assessment(state, input, entries, gate).reason;
            let waits = state.status == LoopStatus::AwaitingUser;
            &&& !waits ==> reason == "loop is not currently awaiting user input"@
            &&& waits && trim(input).len() == 0 ==> reason
                == "empty replies cannot resume a paused loop"@
            &&& waits && trim(input).len() > 0 && state.awaiting_user is None ==> reason
                == "paused loop is missing an awaiting-user payload"@
            &&& waits && trim(input).len() > 0 && state.awaiting_user is Some
                && state.awaiting_user->0@.resume_contract is NoAutomaticResume ==> reason
                == "freeform clarification pauses do not auto-resume; treat the next message as a fresh intake"@
            &&& waits && trim(input).len() > 0 && state.awaiting_user is Some
                && state.awaiting_user->0@.resume_contract is CandidateSelection ==> reason == (
            if resumes(state.awaiting_user->0@, trim(input), entries) {
                "user reply selected one of the grounded candidates for the paused loop"@
            } else {
                "user reply did not explicitly select one of the grounded candidates"@
            })
        }),
{
}

} // verus!

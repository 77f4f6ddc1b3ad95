//! What is told of steps, of tool calls and of their results.

use crate::bytes::{byte_len, ellipsized, lemma_floor, prefix_within};
use crate::digest::flattened;
use crate::history::{
    context_size, digest_line, history_prompt, history_summary, outcome_line, outcome_text,
    step_json, step_tool, steps_digest, summary_after,
};
use crate::json::{lookup, JsonView};
use crate::json_text::json_text;
use crate::loop_event::{
    args_summary, distinct_count, file_count, match_files, result_summary, tail_of_path,
};
use crate::number::{decimal, decimal_signed};
use crate::observation::{
    boundary_step, StepAction, StepObservationView, StepView, ToolObservationView,
};
use crate::state::LoopState;
use crate::text::{contains, ends_with, lines, split, starts_with, trim, views};
use crate::text_laws::{lemma_begins, lemma_ends, lemma_holds};
use vstd::prelude::*;

verus! {

/// What came of a step: a tool is told to have succeeded or failed, with its message, a
/// question and a final message are told as such, and a step without an observation says
/// so.
pub proof fn law_outcomes(t: ToolObservationView, message: Seq<char>, max: int)
    requires
        max >= 0,
    ensures
        t.ok && t.message.len() == 0 ==> outcome_line(Some(StepObservationView::Tool(t))) == "ok"@,
        !t.ok && t.message.len() == 0 ==> outcome_line(Some(StepObservationView::Tool(t)))
            == "error"@,
        t.ok ==> starts_with(outcome_line(Some(StepObservationView::Tool(t))), "ok"@),
        !t.ok ==> starts_with(outcome_line(Some(StepObservationView::Tool(t))), "error"@),
        t.ok ==> starts_with(outcome_text(Some(StepObservationView::Tool(t)), max), "ok"@),
        !t.ok ==> starts_with(outcome_text(Some(StepObservationView::Tool(t)), max), "error"@),
        0 < flattened(t.message).len() <= 200 && t.ok ==> outcome_line(
            Some(StepObservationView::Tool(t)),
        ) == "ok: "@ + flattened(t.message),
        0 < flattened(t.message).len() <= 200 && !t.ok ==> outcome_line(
            Some(StepObservationView::Tool(t)),
        ) == "error: "@ + flattened(t.message),
        flattened(message).len() <= 200 ==> outcome_line(
            Some(StepObservationView::AskUser { final_message: message }),
        ) == "ask_user: "@ + flattened(message),
        flattened(message).len() <= 200 ==> outcome_line(
            Some(StepObservationView::FinalMessage { final_message: message }),
        ) == "final: "@ + flattened(message),
        outcome_line(None) == "no observation"@,
        outcome_text(Some(StepObservationView::AskUser { final_message: message }), max)
            == "ask_user: "@ + ellipsized(message, max),
        outcome_text(Some(StepObservationView::FinalMessage { final_message: message }), max)
            == "final: "@ + ellipsized(message, max),
{
    reveal_strlit("ok");
    reveal_strlit("error");
    reveal_strlit("ok: ");
    reveal_strlit("error: ");
    reveal_strlit(": ");
    assert("ok: "@ =~= "ok"@ + ": "@);
    assert("error: "@ =~= "error"@ + ": "@);
    let none = Seq::<char>::empty();
    lemma_flat_nothing();
    assert(t.message.len() == 0 ==> t.message =~= none);
    let line = outcome_line(Some(StepObservationView::Tool(t)));
    let text = outcome_text(Some(StepObservationView::Tool(t)), max);
    let word = if t.ok {
        "ok"@
    } else {
        "error"@
    };
    assert(line.subrange(0, word.len() as int) =~= word);
    assert(text.subrange(0, word.len() as int) =~= word);
}

proof fn lemma_flat_nothing()
    ensures
        flattened(seq![]) == Seq::<char>::empty(),
{
    reveal_strlit("\r\n");
    reveal_strlit("\n");
    assert("\r\n"@.len() == 2);
    assert("\n"@.len() == 1);
}

/// The line of a discarded step names its number, its tool, why it was taken and what
/// came of it, in that order.
pub proof fn law_step_line(step: StepView)
    ensures
        starts_with(digest_line(step), "Step "@ + decimal(step.step_index as nat) + ": "@),
        ends_with(digest_line(step), " — "@ + outcome_line(step.observation)),
        step.tool_name matches Some(tool) ==> starts_with(
            digest_line(step),
            "Step "@ + decimal(step.step_index as nat) + ": "@ + flattened(tool) + " — "@,
        ),
        byte_len(flattened(step.decision_reason)) <= 80 ==> contains(
            digest_line(step),
            " — "@ + flattened(step.decision_reason) + " — "@,
        ),
        step.tool_name is None ==> step_tool(step) == "unknown"@,
{
    let number = "Step "@ + decimal(step.step_index as nat) + ": "@;
    let tool = flattened(step_tool(step));
    let why = ellipsized(flattened(step.decision_reason), 80);
    let what = outcome_line(step.observation);
    let line = digest_line(step);
    lemma_begins(number, tool + " — "@ + why + " — "@ + what);
    assert(line =~= number + (tool + " — "@ + why + " — "@ + what));
    lemma_begins(number + tool + " — "@, why + " — "@ + what);
    assert(line =~= number + tool + " — "@ + (why + " — "@ + what));
    lemma_ends(number + tool + " — "@ + why, " — "@ + what);
    assert(line =~= number + tool + " — "@ + why + (" — "@ + what));
    lemma_holds(number + tool, " — "@ + why + " — "@, what);
    assert(line =~= number + tool + (" — "@ + why + " — "@) + what);
}

/// The summary of the history is what the model wrote, unless that is blank; then it is
/// the digest.
pub proof fn law_history_summary(steps: Seq<StepView>, text: Seq<char>)
    ensures
        trim(text).len() > 0 ==> history_summary(steps, Some(text)) == text,
        trim(text).len() == 0 ==> history_summary(steps, Some(text)) == steps_digest(steps),
        history_summary(steps, None) == steps_digest(steps),
{
}

/// The newer summary stands before the older one, and what does not fit is cut at the
/// end.
pub proof fn law_summaries_accumulate(newer: Seq<char>, older: Seq<char>, max: int)
    requires
        max >= 0,
    ensures
        byte_len(newer) <= max ==> summary_after(newer, seq![], max) == newer,
        older.len() > 0 && byte_len(newer + "\n\n"@ + older) <= max ==> summary_after(
            newer,
            older,
            max,
        ) == newer + "\n\n"@ + older,
        byte_len(summary_after(newer, older, max)) <= max,
{
    let both = newer + "\n\n"@ + older;
    lemma_floor(newer, max);
    lemma_floor(both, max);
    if byte_len(newer) <= max {
        assert(prefix_within(newer, max) =~= newer);
    }
    if byte_len(both) <= max {
        assert(prefix_within(both, max) =~= both);
    }
}

/// The model that summarizes the history is given each step with its number, its tool,
/// its reason and its outcome, and is told how long the summary may be.
pub proof fn law_history_prompt(steps: Seq<StepView>, step: StepView, max: nat)
    ensures
        starts_with(
            history_prompt(steps, max),
            "You are summarizing "@ + decimal(steps.len()) + " agent execution steps"@,
        ),
        contains(
            history_prompt(steps, max),
            "Keep the summary under "@ + decimal(max) + " characters."@,
        ),
        ends_with(history_prompt(steps, max), json_text(crate::history::steps_json(steps))),
        step_json(step).member_unsigned("step"@) == Some(step.step_index as nat),
        step_json(step).member_text("tool"@) == Some(step_tool(step)),
        step_json(step).member_text("reason"@) == Some(ellipsized(step.decision_reason, 100)),
        step_json(step).member_text("outcome"@) == Some(outcome_text(step.observation, 150)),
        crate::history::steps_json(seq![step]) == JsonView::Array(seq![step_json(step)]),
{
    let middle =
        " agent execution steps that are being compacted from history.\nProduce a concise plain-text summary that captures:\n- Key actions taken and their outcomes\n- Any errors encountered\n- Important state changes or discoveries\n\nKeep the summary under "@;
    reveal_strlit(
        " agent execution steps that are being compacted from history.\nProduce a concise plain-text summary that captures:\n- Key actions taken and their outcomes\n- Any errors encountered\n- Important state changes or discoveries\n\nKeep the summary under ",
    );
    reveal_strlit(" agent execution steps");
    reveal_strlit("Keep the summary under ");
    reveal_strlit(" characters. Output plain text only.\n\nSteps:\n");
    reveal_strlit(" characters.");
    let said = history_prompt(steps, max);
    let front = "You are summarizing "@ + decimal(steps.len());
    let list = json_text(crate::history::steps_json(steps));
    let last = " characters. Output plain text only.\n\nSteps:\n"@;
    assert(middle.subrange(0, 22) =~= " agent execution steps"@);
    let start = front + " agent execution steps"@;
    assert(said.subrange(0, start.len() as int) =~= start);
    lemma_ends(front + middle + decimal(max) + last, list);
    let cut = middle.len() - "Keep the summary under "@.len();
    assert(middle.skip(cut as int) =~= "Keep the summary under "@);
    assert(last.take(12) =~= " characters."@);
    let limit = "Keep the summary under "@ + decimal(max) + " characters."@;
    assert(middle =~= middle.take(cut as int) + "Keep the summary under "@);
    assert(last =~= " characters."@ + last.skip(12));
    assert(said =~= front + middle.take(cut as int) + limit + (last.skip(12) + list));
    lemma_holds(front + middle.take(cut as int), limit, last.skip(12) + list);
    reveal_with_fuel(lookup, 5);
    reveal_strlit("outcome");
    reveal_strlit("reason");
    reveal_strlit("step");
    reveal_strlit("tool");
    assert("outcome"@[0] == 'o' && "reason"@[0] == 'r' && "step"@[0] == 's' && "tool"@[0] == 't');
    let fields = step_json(step)->Object_0;
    assert(fields.skip(1)[0] == fields[1]);
    assert(fields.skip(1).skip(1)[0] == fields[2]);
    assert(fields.skip(1).skip(1).skip(1)[0] == fields[3]);
    assert(crate::history::steps_json(seq![step])->Array_0 =~= seq![step_json(step)]);
}

/// The record of a compaction says how many steps are gone and how their summary begins;
/// it names no tool and observes nothing.
pub proof fn law_boundary_record(
    index: u32,
    discarded: nat,
    preview: Seq<char>,
    steps: u32,
    recovery: u32,
    directory: Seq<char>,
)
    ensures
        ({
            let s = boundary_step(index, discarded, preview, steps, recovery, directory);
            &&& s.action == StepAction::CompactBoundary
            &&& s.step_index == index
            &&& s.decision_reason == decimal(discarded)
            &&& s.decision.final_message == Some(preview)
            &&& s.raw_tool_output is Some
            &&& s.raw_tool_output->0.member_unsigned("discarded_count"@) == Some(discarded)
            &&& s.raw_tool_output->0.member_text("summary_preview"@) == Some(preview)
            &&& s.tool_name is None
            &&& s.observation is None
            &&& s.remaining_step_budget == steps
            &&& s.remaining_recovery_budget == recovery
            &&& s.working_directory == directory
        }),
{
    reveal_with_fuel(lookup, 3);
    reveal_strlit("discarded_count");
    reveal_strlit("summary_preview");
    assert("discarded_count"@[0] == 'd' && "summary_preview"@[0] == 's');
    let s = boundary_step(index, discarded, preview, steps, recovery, directory);
    let fields = s.raw_tool_output->0->Object_0;
    assert(fields.skip(1)[0] == fields[1]);
}

/// The size of a context grows with the goal, the summary and the visible tools, one for
/// each character.
pub proof fn law_context_size(state: LoopState)
    requires
        state.visible_tools@.len() == 0,
    ensures
        context_size(state, seq![]) == state.goal@.len() + state.working_summary@.len(),
{
    assert(views(state.visible_tools@) =~= seq![]);
}

proof fn lemma_tool_names()
    ensures
        "Read"@ != "Edit"@,
        "Read"@ != "Write"@,
        "Read"@ != "Bash"@,
        "Read"@ != "Grep"@,
        "Read"@ != "Glob"@,
        "Read"@ != "Agent"@,
        "Edit"@ != "Write"@,
        "Edit"@ != "Bash"@,
        "Edit"@ != "Grep"@,
        "Edit"@ != "Glob"@,
        "Edit"@ != "Agent"@,
        "Write"@ != "Bash"@,
        "Write"@ != "Grep"@,
        "Write"@ != "Glob"@,
        "Write"@ != "Agent"@,
        "Bash"@ != "Grep"@,
        "Bash"@ != "Glob"@,
        "Bash"@ != "Agent"@,
        "Grep"@ != "Glob"@,
        "Grep"@ != "Agent"@,
        "Glob"@ != "Agent"@,
{
    reveal_strlit("Read");
    reveal_strlit("Edit");
    reveal_strlit("Write");
    reveal_strlit("Bash");
    reveal_strlit("Grep");
    reveal_strlit("Glob");
    reveal_strlit("Agent");
    assert("Read"@[0] == 'R' && "Edit"@[0] == 'E' && "Write"@[0] == 'W' && "Bash"@[0] == 'B'
        && "Grep"@[0] == 'G' && "Glob"@[0] == 'G' && "Agent"@[0] == 'A');
    assert("Grep"@[1] == 'r' && "Glob"@[1] == 'l');
}

/// A text within 80 characters is told as it is.
pub open spec fn told(summary: Option<Seq<char>>, text: Seq<char>) -> bool {
    0 < text.len() <= 80 ==> summary == Some(text)
}

/// What is told of a call's arguments: the end of the path of a file that is read or
/// changed, the command, the pattern and where it is looked for, the task of an agent.
pub proof fn law_arguments_told(args: JsonView, text: Seq<char>)
    ensures
        args.member_text("path"@) == Some(text) ==> told(
            args_summary("Read"@, args),
            tail_of_path(text),
        ),
        args.member_text("file_path"@) == Some(text) ==> told(
            args_summary("Edit"@, args),
            tail_of_path(text),
        ) && told(args_summary("Write"@, args), tail_of_path(text)),
        args.member_text("command"@) == Some(text) && byte_len(text) <= 72 ==> told(
            args_summary("Bash"@, args),
            text,
        ),
        args.member_text("pattern"@) == Some(text) && byte_len(text) <= 72 ==> told(
            args_summary("Glob"@, args),
            text,
        ),
        args.member_text("description"@) == Some(text) && byte_len(text) <= 72 ==> told(
            args_summary("Agent"@, args),
            text,
        ),
        args.member_text("pattern"@) == Some(text) && byte_len(text) <= 40 && args.member_text(
            "path"@,
        ) is None ==> told(
            args_summary("Grep"@, args),
            "\""@ + text + "\" in "@ + tail_of_path("."@),
        ),
        args.member_text("pattern"@) == Some(text) && byte_len(text) <= 40 && args.member_text(
            "path"@,
        ) is Some ==> told(
            args_summary("Grep"@, args),
            "\""@ + text + "\" in "@ + tail_of_path(args.member_text("path"@)->0),
        ),
{
    lemma_tool_names();
}

/// The end of a path is its last two pieces, or all of it where there are fewer.
pub proof fn law_end_of_a_path(path: Seq<char>)
    ensures
        ({
            let pieces = split(path, '/');
            &&& pieces.len() == 1 ==> tail_of_path(path) == pieces[0]
            &&& pieces.len() >= 2 ==> tail_of_path(path) == pieces[pieces.len() - 2] + "/"@
                + pieces[pieces.len() - 1]
        }),
{
}

/// What is told of a result: a failure with its error or message; of a file its lines and
/// its size, of a command its exit code and lines, of a search its matches and files, of
/// an edit its replacements.
pub proof fn law_results_told(tool: Seq<char>, data: JsonView, text: Seq<char>, n: nat, code: int)
    ensures
        data.member_text("error"@) == Some(text) && byte_len(text) <= 72 ==> result_summary(
            tool,
            false,
            data,
        ) == Some("error: "@ + text),
        data.member_text("error"@) is None && data.member_text("message"@) == Some(text)
            && byte_len(text) <= 72 ==> result_summary(tool, false, data) == Some(
            "error: "@ + text,
        ),
        result_summary(tool, false, data) matches Some(s) && starts_with(s, "error: "@),
        data.member_text("content"@) == Some(text) && data.member_unsigned("size"@) == Some(n)
            ==> result_summary("Read"@, true, data) == Some(
            decimal(lines(text).len()) + " lines, "@ + decimal(n / 1024) + "KB"@,
        ),
        data.member_text("content"@) == Some(text) && data.member_unsigned("size"@) is None
            ==> result_summary("Read"@, true, data) == Some(
            decimal(lines(text).len()) + " lines"@,
        ),
        data.member_signed("exit_code"@) == Some(code) && data.member_text("stdout"@) == Some(text)
            ==> result_summary("Bash"@, true, data) == Some(
            "exit "@ + decimal_signed(code) + " ("@ + decimal(lines(text).len()) + " lines)"@,
        ),
        data.member_signed("exit_code"@) is None && data.member_text("stdout"@) == Some(text)
            ==> result_summary("Bash"@, true, data) == Some(
            "exit "@ + decimal_signed(-1) + " ("@ + decimal(lines(text).len()) + " lines)"@,
        ),
        data.member_unsigned("match_count"@) == Some(n) ==> result_summary("Grep"@, true, data)
            == Some(decimal(n) + " matches in "@ + decimal(file_count(data)) + " files"@),
        data.member_unsigned("match_count"@) == Some(n) ==> result_summary("Edit"@, true, data)
            == Some(decimal(n) + " replacement(s)"@),
        data.member_unsigned("match_count"@) is None ==> result_summary("Edit"@, true, data)
            == Some("applied"@),
        result_summary("Write"@, true, data) == Some("written"@),
        result_summary("Glob"@, true, data) is None,
        result_summary("Agent"@, true, data) is None,
{
    lemma_tool_names();
    reveal_strlit(" lines");
    reveal_strlit(" lines, ");
    reveal_strlit("exit ");
    reveal_strlit(" matches in ");
    reveal_strlit(" replacement(s)");
    reveal_strlit("applied");
    reveal_strlit("written");
    assert(" lines"@.len() == 6 && " lines, "@.len() == 8 && "exit "@.len() == 5
        && " matches in "@.len() == 12 && " replacement(s)"@.len() == 15 && "applied"@.len() == 7
        && "written"@.len() == 7);
    let failed = result_summary(tool, false, data)->0;
    assert(failed.subrange(0, "error: "@.len() as int) =~= "error: "@);
}

/// The files of a search are counted once each.
pub proof fn law_files_are_counted_once(list: Seq<Seq<char>>, file: Seq<char>)
    ensures
        distinct_count(seq![]) == 0,
        list.contains(file) ==> distinct_count(list.push(file)) == distinct_count(list),
        !list.contains(file) ==> distinct_count(list.push(file)) == distinct_count(list) + 1,
{
    assert(list.push(file).drop_last() =~= list);
}

/// A match counts for the file that it names.
pub proof fn law_matched_files(items: Seq<JsonView>, item: JsonView)
    ensures
        match_files(seq![]).len() == 0,
        item.member_text("file_path"@) matches Some(file) ==> match_files(items.push(item))
            == match_files(items).push(file),
        item.member_text("file_path"@) is None ==> match_files(items.push(item)) == match_files(
            items,
        ),
{
    assert(items.push(item).drop_last() =~= items);
}

} // verus!

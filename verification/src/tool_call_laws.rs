//! What each tool call of a turn is answered with.

use crate::bytes::byte_len;
use crate::events::EventView;
use crate::json::JsonView;
use crate::json_text::json_text;
use crate::message::{MessageView, ToolCallView};
use crate::number::decimal;
use crate::observation::{NextStepAction, StepAction, StepObservationView};
use crate::state::{DeferredTools, LoopState};
use crate::task_tools::{task_answer, task_request, u32_member, TaskRequestView, TaskStoreReply};
use crate::text::{contains, ends_with, starts_with, views};
use crate::text_laws::{lemma_begins, lemma_ends};
use crate::tool_calls::{
    budget_warning, deferred_after, dispatch_of, full_content, loads, run_end_event, run_messages,
    search_answer, shown_result, start_event, too_large_message, tool_step, wanted_tool,
    InterpretedObservation, ToolDispatch, ToolRun,
};
use vstd::prelude::*;

verus! {

proof fn lemma_own_names()
    ensures
        "tool_search"@ != "task_create"@,
        "tool_search"@ != "task_update"@,
        "tool_search"@ != "task_list"@,
        "tool_search"@ != "task_get"@,
        "tool_search"@ != "Agent"@,
        "Agent"@ != "task_create"@,
        "Agent"@ != "task_update"@,
        "Agent"@ != "task_list"@,
        "Agent"@ != "task_get"@,
        "task_create"@ != "task_update"@,
        "task_create"@ != "task_list"@,
        "task_create"@ != "task_get"@,
        "task_update"@ != "task_list"@,
        "task_update"@ != "task_get"@,
        "task_list"@ != "task_get"@,
{
    reveal_strlit("tool_search");
    reveal_strlit("task_create");
    reveal_strlit("task_update");
    reveal_strlit("task_list");
    reveal_strlit("task_get");
    reveal_strlit("Agent");
    assert("tool_search"@[1] == 'o' && "task_create"@[1] == 'a' && "task_update"@[1] == 'a'
        && "task_list"@[1] == 'a' && "task_get"@[1] == 'a' && "Agent"@[1] == 'g');
    assert("task_create"@[5] == 'c' && "task_update"@[5] == 'u' && "task_list"@[5] == 'l'
        && "task_get"@[5] == 'g');
}

/// Which calls the loop answers itself: a search for tools, the four task tools and the
/// start of an agent. Every other call runs a tool, unless it is denied.
pub proof fn law_dispatch_by_name(name: Seq<char>)
    ensures
        dispatch_of("tool_search"@, false) == ToolDispatch::ToolSearch,
        dispatch_of("task_create"@, false) == ToolDispatch::TaskTool,
        dispatch_of("task_update"@, false) == ToolDispatch::TaskTool,
        dispatch_of("task_list"@, false) == ToolDispatch::TaskTool,
        dispatch_of("task_get"@, false) == ToolDispatch::TaskTool,
        dispatch_of("Agent"@, false) == ToolDispatch::Agent,
        name != "tool_search"@ && name != "task_create"@ && name != "task_update"@ && name
            != "task_list"@ && name != "task_get"@ && name != "Agent"@ ==> dispatch_of(name, false)
            == ToolDispatch::Run,
        dispatch_of(name, true) == ToolDispatch::Denied,
{
    lemma_own_names();
}

/// A search loads a deferred tool once, and says that it will be there; it names the
/// deferred tools where the wanted one is not among them.
pub proof fn law_tool_search(
    before: DeferredTools,
    wanted: Seq<char>,
    after: Option<DeferredTools>,
)
    requires
        deferred_after(Some(before), wanted, after),
    ensures
        ({
            let names = views(before.deferred_names@);
            let loaded = views(before.loaded_names@);
            let now = views(after->0.loaded_names@);
            &&& after is Some
            &&& views(after->0.deferred_names@) == names
            &&& names.contains(wanted) ==> now.contains(wanted)
            &&& !names.contains(wanted) || loaded.contains(wanted) ==> now == loaded
            &&& forall|i: int| 0 <= i < loaded.len() ==> now.contains(#[trigger] loaded[i])
            &&& names.contains(wanted) ==> search_answer(Some(before), wanted) == "Tool '"@ + wanted
                + "' schema will be available in the next turn."@
            &&& !names.contains(wanted) ==> starts_with(
                search_answer(Some(before), wanted),
                "Tool '"@ + wanted + "' is not in the deferred list."@,
            )
            &&& search_answer(None, wanted) == "All tools are already loaded. '"@ + wanted
                + "' is available."@
        }),
{
    let loaded = views(before.loaded_names@);
    let now = views(after->0.loaded_names@);
    assert forall|i: int| 0 <= i < loaded.len() implies now.contains(#[trigger] loaded[i]) by {
        assert(now[i] == loaded[i]);
    }
    if loads(Some(before), wanted) {
        assert(now.last() == wanted);
    }
    reveal_strlit("' is not in the deferred list.");
    reveal_strlit("' is not in the deferred list. Available deferred tools: ");
    let front = "Tool '"@ + wanted + "' is not in the deferred list."@;
    let said = search_answer(Some(before), wanted);
    if !views(before.deferred_names@).contains(wanted) {
        assert("' is not in the deferred list. Available deferred tools: "@.subrange(0, 30)
            =~= "' is not in the deferred list."@);
        assert(said.subrange(0, front.len() as int) =~= front);
    }
}

/// The wanted tool is the text of the argument `tool_name`.
pub proof fn law_wanted_tool(arguments: JsonView)
    ensures
        wanted_tool(arguments) == arguments.member_text("tool_name"@).unwrap_or(""@),
{
}

/// A file that was read is shown whole where it has at most 100000 bytes, and is an
/// error otherwise. Every other tool shows what the result store gives back. A result
/// is an error where the tool failed.
pub proof fn law_shown_results(
    name: Seq<char>,
    full: Seq<char>,
    stored: Seq<char>,
    ok: bool,
)
    ensures
        byte_len(full) <= 100000 ==> shown_result("Read"@, full, stored, ok) == (full, !ok),
        byte_len(full) > 100000 ==> shown_result("Read"@, full, stored, ok).1 && starts_with(
            shown_result("Read"@, full, stored, ok).0,
            "Error: file content is too large ("@ + decimal(byte_len(full)) + " chars)"@,
        ),
        name != "Read"@ ==> shown_result(name, full, stored, ok) == (stored, !ok),
{
    if byte_len(full) > 100000 {
        let said = too_large_message(byte_len(full));
        let rest =
            " chars) to include in context. Re-read with a smaller `max_bytes` parameter to retrieve a manageable portion of the file."@;
        reveal_strlit(
            " chars) to include in context. Re-read with a smaller `max_bytes` parameter to retrieve a manageable portion of the file.",
        );
        reveal_strlit(" chars)");
        let front = "Error: file content is too large ("@ + decimal(byte_len(full)) + " chars)"@;
        assert(rest.subrange(0, 7) =~= " chars)"@);
        assert(said.subrange(0, front.len() as int) =~= front);
    }
}

/// What a tool put out is shown as it is where it is a text, as JSON otherwise, and the
/// observation's message stands in for an empty output.
pub proof fn law_full_content(text: Seq<char>, message: Seq<char>, output: JsonView)
    ensures
        full_content(JsonView::Null, message) == message,
        full_content(JsonView::Text(text), message) == text,
        !(output is Null) && !(output is Text) ==> full_content(output, message) == json_text(
            output,
        ),
{
}

/// The first message that a tool run leaves answers its call with what is shown of the
/// output, as an error where the run failed. Where a budget is used up, the model is
/// then told so and asked to end.
pub proof fn law_run_is_answered(call: ToolCallView, run: ToolRun)
    ensures
        ({
            let messages = run_messages(call, run);
            let result = messages[0];
            &&& result matches MessageView::ToolResult { tool_use_id, content, is_error }
                && tool_use_id == call.id
                && (!run.observation.ok ==> is_error)
                && (call.name != "Read"@ ==> content == run.stored@ && is_error
                == !run.observation.ok)
            &&& run.interpreted.budget_exhausted ==> messages.len() == 2
            &&& run.interpreted.recovery_exhausted ==> messages.len() == 2
            &&& messages.len() == 2 ==> messages[1] == (MessageView::User {
                content: budget_warning(run.interpreted),
            })
            &&& messages.len() <= 2
        }),
{
}

/// The warning gives both budgets and asks for an end.
pub proof fn law_budget_warning(i: InterpretedObservation)
    ensures
        starts_with(
            budget_warning(i),
            "System: step budget exhausted (remaining: "@ + decimal(i.remaining_step_budget as nat)
                + ", recovery: "@ + decimal(i.remaining_recovery_budget as nat),
        ),
        ends_with(budget_warning(i), "Please call final_answer or fail now."@),
{
    let front = "System: step budget exhausted (remaining: "@ + decimal(
        i.remaining_step_budget as nat,
    ) + ", recovery: "@ + decimal(i.remaining_recovery_budget as nat);
    lemma_begins(front, "). Please call final_answer or fail now."@);
    reveal_strlit("). Please call final_answer or fail now.");
    reveal_strlit("Please call final_answer or fail now.");
    assert("). Please call final_answer or fail now."@ =~= seq![')', '.', ' ']
        + "Please call final_answer or fail now."@);
    lemma_ends(front + seq![')', '.', ' '], "Please call final_answer or fail now."@);
    assert(budget_warning(i) =~= front + seq![')', '.', ' ']
        + "Please call final_answer or fail now."@);
}

/// The step that records a tool run names the tool and its arguments, and keeps what
/// came of it: the observation, the output, the time, the budgets and the directory.
pub proof fn law_run_is_recorded(state: LoopState, call: ToolCallView, run: ToolRun, step: u32)
    ensures
        ({
            let s = tool_step(state, call, run, step);
            &&& s.step_index == step
            &&& s.action == StepAction::CallTool
            &&& s.tool_name == Some(call.name)
            &&& s.decision.action == NextStepAction::CallTool
            &&& s.decision.tool_name == Some(call.name)
            &&& s.decision.arguments == Some(call.arguments)
            &&& s.decision.final_message is None
            &&& s.observation == Some(StepObservationView::Tool(run.observation@))
            &&& s.raw_tool_output == Some(run.recorded_output@)
            &&& s.elapsed_ms == run.elapsed_ms
            &&& s.visible_tools == views(state.visible_tools@)
            &&& s.remaining_step_budget == run.interpreted.remaining_step_budget
            &&& s.remaining_recovery_budget == run.interpreted.remaining_recovery_budget
            &&& run.interpreted.new_working_directory matches Some(d) ==> s.working_directory == d@
            &&& run.interpreted.new_working_directory is None ==> s.working_directory
                == state.working_directory@
        }),
{
}

/// A tool run is told of at its start and its end, under the tool's name.
pub proof fn law_run_is_told(step: u32, call: ToolCallView, run: ToolRun)
    ensures
        start_event(step, call) matches EventView::ToolStart { step: s, tool_name, .. } && s == step
            && tool_name == call.name,
        run_end_event(step, call, run) matches EventView::ToolEnd {
            step: s,
            tool_name,
            elapsed_ms,
            ..
        } && s == step && tool_name == call.name && elapsed_ms == run.elapsed_ms,
{
}

/// What each task tool asks of the store.
pub proof fn law_task_requests(name: Seq<char>, arguments: JsonView)
    ensures
        task_request("task_create"@, arguments) == (TaskRequestView::Create {
            description: arguments.member_text("description"@).unwrap_or("(no description)"@),
            status: arguments.member_text("status"@),
        }),
        task_request("task_list"@, arguments) is List,
        u32_member(arguments, "task_id"@) matches Some(id) ==> task_request(
            "task_get"@,
            arguments,
        ) == (TaskRequestView::Get { task_id: id as u32 }),
        u32_member(arguments, "task_id"@) matches Some(id) ==> task_request(
            "task_update"@,
            arguments,
        ) == (TaskRequestView::Update {
            task_id: id as u32,
            status: arguments.member_text("status"@),
            output: arguments.member_text("output"@),
        }),
        u32_member(arguments, "task_id"@) is None ==> task_request("task_get"@, arguments)
            is Refused && task_request("task_update"@, arguments) is Refused,
        name != "task_create"@ && name != "task_list"@ && name != "task_get"@ && name
            != "task_update"@ ==> task_request(name, arguments) is Refused,
        task_request(name, arguments) matches TaskRequestView::Refused { answer } ==> starts_with(
            answer,
            "Error: "@,
        ),
{
    lemma_own_names();
    reveal_strlit("Error: ");
    reveal_strlit("Error: invalid or missing task_id.");
    reveal_strlit("Error: unknown task pseudo-tool.");
    assert("Error: invalid or missing task_id."@.subrange(0, 7) =~= "Error: "@);
    assert("Error: unknown task pseudo-tool."@.subrange(0, 7) =~= "Error: "@);
}

/// A number among the arguments is read from a number and from its digits alike.
pub proof fn law_task_number(arguments: JsonView, key: Seq<char>, n: nat)
    requires
        n <= u32::MAX,
    ensures
        arguments.member(key) == Some(
            JsonView::Number(crate::json::NumberView::Unsigned(n)),
        ) ==> u32_member(arguments, key) == Some(n),
        u32_member(arguments, key) matches Some(id) ==> id <= u32::MAX,
        arguments.member(key) is None ==> u32_member(arguments, key) is None,
{
}

/// What the model is told of the store's reply: the number of a task that was created or
/// changed, an error for one that there is not, and the texts of tasks as they are.
pub proof fn law_task_answers(id: u32, text: String)
    ensures
        ({
            let number = decimal(id as nat);
            let missing = "Error: task #"@ + number + " not found."@;
            &&& task_answer(TaskStoreReply::Created { id }) == "Task #"@ + number
                + " created successfully."@
            &&& task_answer(TaskStoreReply::Updated { id, found: true }) == "Task #"@ + number
                + " updated."@
            &&& task_answer(TaskStoreReply::Updated { id, found: false }) == missing
            &&& task_answer(TaskStoreReply::Fetched { id, text: None }) == missing
            &&& task_answer(TaskStoreReply::Fetched { id, text: Some(text) }) == text@
            &&& task_answer(TaskStoreReply::Listed { text }) == text@
        }),
{
}

} // verus!

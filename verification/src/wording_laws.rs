//! The words in which decisions, refusals and steps are told.

use crate::action_words::{filesystem_action, table_action};
use crate::ask_user::payload_for;
use crate::attempt::{pair_of, retry_values, PreCall, RetryPreflight};
use crate::cache_break::CacheBreakReport;
use crate::catalog::{any_begins, executable_skill, DescriptorView};
use crate::classifier::{tool_grounded, ClassifierView, GoalFacts};
use crate::classify::{
    classified, match_reason, named_skill, named_tool, names_tool, pre_classified, skill_route,
    structural_fallback, RequestFacts,
};
use crate::decision::{
    decoded_bool, decoded_confidence, decoded_list, decoded_text, SchemaErrorView,
};
use crate::digest::STRUCTURED_SUMMARY_SYSTEM_PROMPT;
use crate::dispatch::{finish_approved_invocation, PreparedInvocation};
use crate::factory::profile_node;
use crate::filesystem::{followed, FollowUpReasons, HintsView, PathKind};
use crate::filesystem_laws::says;
use crate::filesystem_step::{chosen_reasons, first_step, found_reasons, step_after};
use crate::grounding::web_query;
use crate::history::HISTORY_SUMMARY_SYSTEM_PROMPT;
use crate::json::{texts_of, FieldView, JsonView};
use crate::json_indent::{indent, indented, on_lines};
use crate::json_text::json_text;
use crate::literal::is_number_literal;
use crate::loop_event::failure_text;
use crate::message::ToolCallView;
use crate::number::decimal;
use crate::observation::{NextStepAction, StepObservationView, StepView, ToolObservationView};
use crate::projection::assumptions_of;
use crate::result::{derived_evidence, rejected, CanonicalFact, ToolExecution, ToolFailure};
use crate::resume::{gate_assessment, ResumeGateReply, RESUME_GATE_SYSTEM_PROMPT};
use crate::route::{DirectRouteExecutionResult, RouteResultView};
use crate::route_laws::{
    no_command, no_lookup, no_pattern, no_python, no_table, nothing_missing, open_request, single,
    to_be_done,
};
use crate::snippet::{python_code, shell_code};
use crate::state::{latest_tool, LoopState, LoopStatus};
use crate::status_result::tool_not_enabled_result;
use crate::task::{evidence, NodeView, ResultEnvelope, ResultStatus, SpecView};
use crate::text::{ascii_lower, contains, join, starts_with, trim};
use crate::tokens::script_reference;
use crate::tool_calls::{tool_step, ToolRun};
use crate::turn::{answered, end_without_router, question_payload, LoopEnd, TurnEnd};
use crate::workers::fallback;
use vstd::prelude::*;

verus! {

/// The reason of a route, and how sure it is.
pub open spec fn told_as(r: RouteResultView, confidence: Seq<char>, reason: Seq<char>) -> bool {
    match r {
        RouteResultView::Direct { decision, .. } => decision.confidence == confidence
            && decision.reason == reason,
        RouteResultView::Escalate { decision, .. } => decision.confidence == confidence
            && decision.reason == reason,
    }
}

/// Why a request is not routed to a tool of its own.
pub proof fn law_reasons_without_a_tool(context: ClassifierView, q: RequestFacts)
    ensures
        !single(q) ==> told_as(
            classified(context, q),
            "0.9"@,
            "structured request contains multiple grounded targets or chained commands that cannot be satisfied by a single direct tool invocation"@,
        ),
        single(q) && q.facts.explanatory_shell_command ==> told_as(
            classified(context, q),
            "0.81"@,
            "explicit shell command is referenced for explanation rather than execution; route to direct answer"@,
        ),
        single(q) && !q.facts.explanatory_shell_command && q.facts.explanatory_python_code
            ==> told_as(
            classified(context, q),
            "0.8"@,
            "explicit Python code is referenced for explanation rather than execution; route to direct answer"@,
        ),
        single(q) && to_be_done(q) && q.facts.requests_python_execution
            && context.enabled.contains("python.run"@) && python_code(q.goal@) is None ==> told_as(
            classified(context, q),
            "0.78"@,
            "the request clearly asks to run Python code, but no explicit Python snippet is present in the current turn"@,
        ),
        single(q) && to_be_done(q) && !q.facts.requests_python_execution
            && q.facts.requests_web_lookup && context.enabled.contains("web.search"@) && web_query(
            q.goal@,
        ) is None ==> told_as(
            classified(context, q),
            "0.78"@,
            "the request clearly asks for a web lookup, but no concrete search query is present in the current turn"@,
        ),
        pre_classified(context, q) is None ==> told_as(
            classified(context, q),
            "0.5"@,
            "no deterministic match; forwarding to tool loop"@,
        ),
        open_request(context, q) && no_python(context, q) && no_command(context, q) && no_lookup(
            context,
            q,
        ) && no_pattern(context, q) && no_table(context, q) && q.facts.explicit_paths@.len() == 0
            && named_skill(context, q.goal@) is None && structural_fallback(
            context,
            *q.trimmed_facts,
        ) is None && q.tool_matches@.len() == 0 && !context.has_router ==> told_as(
            classified(context, q),
            "0.68"@,
            "no grounded direct tool route matched; fall back to direct answer in deterministic mode"@,
        ),
{
    assert(q.facts.paths().len() == q.facts.explicit_paths@.len());
}

/// Why a request is routed to a tool.
pub proof fn law_reasons_for_a_tool(context: ClassifierView, q: RequestFacts)
    ensures
        single(q) && to_be_done(q) && nothing_missing(context, q) && names_tool(context, q.goal@)
            && (named_tool(context, q.goal@) matches Some(d) && tool_grounded(
            d.name,
            q.goal@,
            *q.facts,
        )) ==> told_as(
            classified(context, q),
            "0.6"@,
            "classifier hint: explicit tool reference suggests "@ + "`"@ + named_tool(
                context,
                q.goal@,
            )->0.name + "`"@,
        ),
        open_request(context, q) && q.facts.python_code_allows_execution && python_code(q.goal@)
            is Some && context.enabled.contains("python.run"@) ==> told_as(
            classified(context, q),
            "0.6"@,
            "classifier hint: grounded Python code suggests `python.run`"@,
        ),
        open_request(context, q) && no_python(context, q) && q.facts.shell_command_allows_execution
            && shell_code(q.goal@) is Some && context.enabled.contains("command.run"@) ==> told_as(
            classified(context, q),
            "0.6"@,
            "classifier hint: grounded shell command suggests `command.run`"@,
        ),
        open_request(context, q) && no_python(context, q) && no_command(context, q)
            && q.facts.requests_web_lookup && web_query(q.goal@) is Some
            && context.enabled.contains("web.search"@) ==> told_as(
            classified(context, q),
            "0.6"@,
            "classifier hint: web lookup request suggests `web.search`"@,
        ),
        open_request(context, q) && no_python(context, q) && no_command(context, q) && no_lookup(
            context,
            q,
        ) && q.facts.has_glob_pattern && context.enabled.contains("fs.glob"@) ==> told_as(
            classified(context, q),
            "0.6"@,
            "classifier hint: glob pattern suggests `fs.glob`"@,
        ),
{
}

/// Why a request is routed to the tools that look at tables or files.
pub proof fn law_reasons_for_files(context: ClassifierView, q: RequestFacts)
    requires
        open_request(context, q),
        no_python(context, q),
        no_command(context, q),
        no_lookup(context, q),
        no_pattern(context, q),
    ensures
        ({
            let table = q.facts.has_explicit_table_path && any_begins(context.enabled, "table."@);
            let file = q.facts.explicit_paths@.len() > 0 && any_begins(context.enabled, "fs."@);
            let asked = table_action(q.goal@, q.facts.paths());
            let wanted = filesystem_action(q.goal@, q.facts.paths());
            let by_table = q.facts.has_concrete_table_path && asked is Some
                && context.enabled.contains(asked->0);
            let by_path = q.facts.has_concrete_path && wanted is Some && context.enabled.contains(
                wanted->0,
            );
            &&& table && by_table ==> told_as(
                classified(context, q),
                "0.6"@,
                "classifier hint: table path suggests "@ + "`"@ + asked->0 + "`"@,
            )
            &&& table && !by_table ==> told_as(
                classified(context, q),
                "0.86"@,
                "contract-level grounded table input provides a non-authoritative table-family hint"@,
            )
            &&& !table && file && by_path ==> told_as(
                classified(context, q),
                "0.6"@,
                "classifier hint: filesystem path suggests "@ + "`"@ + wanted->0 + "`"@,
            )
            &&& !table && file && !by_path ==> told_as(
                classified(context, q),
                "0.82"@,
                "explicit filesystem resource is present, but the requested action is still broad enough that the live loop should choose among a controlled starter set"@,
            )
        }),
{
    assert(q.facts.paths().len() == q.facts.explicit_paths@.len());
}

/// Why what a request is for cannot be used.
pub proof fn law_reasons_of_unavailability(context: ClassifierView, f: GoalFacts)
    ensures
        ({
            let python = f.python_code_allows_execution && !context.enabled.contains(
                "python.run"@,
            );
            let command = f.shell_command_allows_execution && !context.enabled.contains(
                "command.run"@,
            );
            let lookup = f.requests_web_lookup && !context.enabled.contains("web.search"@);
            let table = f.has_explicit_table_path && !any_begins(context.enabled, "table."@);
            structural_fallback(context, f) matches Some(r) ==> told_as(
                r,
                "0.72"@,
                if python {
                    "explicit Python code was provided, but `python.run` is not enabled in the current runtime inventory"@
                } else if command {
                    "explicit shell command was provided, but `command.run` is not enabled in the current runtime inventory"@
                } else if lookup {
                    "an explicit web lookup request was provided, but `web.search` is not enabled in the current runtime inventory"@
                } else if table {
                    "explicit table input was provided, but core table tools are not enabled in the current runtime inventory"@
                } else {
                    "explicit filesystem input was provided, but core filesystem tools are not enabled in the current runtime inventory"@
                },
            )
        }),
{
}

/// What is said of a skill, and of a tool that the catalog found.
pub proof fn law_reasons_of_skills(
    context: ClassifierView,
    d: DescriptorView,
    asked: bool,
    reason: Seq<char>,
    tool: Seq<char>,
)
    ensures
        executable_skill(d) && asked && !context.skills_run ==> told_as(
            skill_route(context, d, asked, reason),
            "0.88"@,
            "installed skill "@ + "`"@ + d.selector.name + "`"@
                + " matched, but executable skill routes are unavailable in this runtime"@,
        ),
        !(executable_skill(d) && asked) || context.skills_run ==> told_as(
            skill_route(context, d, asked, reason),
            "0.94"@,
            reason,
        ),
        match_reason(tool) == "deterministic catalog retrieval matched contract-backed tool "@
            + "`"@ + tool + "`"@
            + " and the current goal can already ground its required inputs"@,
{
}

/// A skill that the request names is routed to where no model routes.
pub proof fn law_named_skills(context: ClassifierView, q: RequestFacts)
    requires
        open_request(context, q),
        no_python(context, q),
        no_command(context, q),
        no_lookup(context, q),
        no_pattern(context, q),
        no_table(context, q),
        q.facts.explicit_paths@.len() == 0,
        named_skill(context, q.goal@) is Some,
    ensures
        context.has_router ==> pre_classified(context, q) is None,
        !context.has_router ==> pre_classified(context, q) == Some(
            skill_route(
                context,
                named_skill(context, q.goal@)->0,
                false,
                "explicit installed skill reference matched deterministic classifier"@,
            ),
        ),
{
    assert(q.facts.paths().len() == q.facts.explicit_paths@.len());
}

/// What is expected of each member of a decision that cannot be read.
pub proof fn law_expected_kinds(value: JsonView, field: Seq<char>)
    ensures
        !(value is Text) ==> decoded_text(value, field) == Err::<Seq<char>, _>(
            SchemaErrorView::InvalidType { field, expected: "string"@ },
        ),
        !(value is Bool) ==> decoded_bool(value, field) == Err::<bool, _>(
            SchemaErrorView::InvalidType { field, expected: "boolean"@ },
        ),
        !(value is Array) ==> decoded_list(value, field) == Err::<Seq<Seq<char>>, _>(
            SchemaErrorView::InvalidType { field, expected: "array<string>"@ },
        ),
        value matches JsonView::Array(items) && items.len() > 0 && !(items[0] is Text)
            ==> decoded_list(value, field) == Err::<Seq<Seq<char>>, _>(
            SchemaErrorView::InvalidType { field, expected: "string"@ },
        ),
        value matches JsonView::Text(text) && !is_number_literal(text) ==> decoded_confidence(value)
            == Err::<Seq<char>, _>(
            SchemaErrorView::InvalidType { field: "confidence"@, expected: "parseable number"@ },
        ),
        !(value is Text) && !(value is Number) ==> decoded_confidence(value) == Err::<Seq<char>, _>(
            SchemaErrorView::InvalidType { field: "confidence"@, expected: "string or number"@ },
        ),
{
}

/// Why the first step of a loop over the filesystem is taken.
pub proof fn law_first_reasons(path: Seq<char>, name: Seq<char>)
    ensures
        ({
            let none = HintsView { path: None, basename: None };
            let at = HintsView { path: Some(path), basename: None };
            let bare = HintsView { path: Some(name), basename: Some(name) };
            &&& first_step(seq!["fs.list_dir"@], none).reason
                == "Use the shortlisted directory listing tool for the current grounded target."@
            &&& first_step(seq!["fs.inspect"@], none).reason
                == "Use the shortlisted inspection tool to inspect the current grounded target."@
            &&& first_step(seq!["fs.exists"@], at).reason
                == "Check whether the grounded target exists."@
            &&& first_step(seq!["fs.read_text"@], at).reason == "Read the grounded file directly."@
            &&& first_step(seq!["fs.find"@], none).reason
                == "filesystem loop needs more information from the user"@
            &&& first_step(seq!["fs.read_text"@, "fs.find"@], bare).reason
                == "Resolve the basename first before attempting a concrete filesystem action."@
        }),
{
    reveal_strlit("fs.inspect");
    reveal_strlit("fs.list_dir");
    reveal_strlit("fs.read_text");
    reveal_strlit("fs.exists");
    reveal_strlit("fs.find");
    assert("fs.inspect"@[3] == 'i' && "fs.list_dir"@[3] == 'l' && "fs.read_text"@[3] == 'r'
        && "fs.exists"@[3] == 'e' && "fs.find"@[3] == 'f');
    let two = seq!["fs.read_text"@, "fs.find"@];
    assert(two[1] == "fs.find"@);
}

/// Why a later step is taken: an answer has enough to go on, a search recovers a missing
/// path, and what the loop cannot use is named.
pub proof fn law_later_reasons(
    goal: Seq<char>,
    visible: Seq<Seq<char>>,
    budget: u32,
    hints: HintsView,
    o: ToolObservationView,
    reply: Option<Seq<char>>,
    entries: Seq<Seq<char>>,
    kind: PathKind,
    summary: Seq<char>,
    missing: Seq<Seq<char>>,
    tool: Seq<char>,
    path: Seq<char>,
    reasons: FollowUpReasons,
)
    ensures
        ({
            let d = step_after(
                goal,
                visible,
                budget,
                hints,
                o,
                reply,
                entries,
                kind,
                summary,
                missing,
            );
            &&& d.action == NextStepAction::FinalAnswer ==> d.reason
                == "filesystem loop has enough information to answer the user"@
            &&& d.action == NextStepAction::AskUser ==> d.reason
                == "filesystem loop needs more information from the user"@
            &&& !o.ok && o.error_type != Some("multiple_candidates"@) && d.action
                == NextStepAction::CallTool ==> d.reason
                == "Recover from a missing path by grounding the basename within the workspace."@
            &&& o.ok && o.tool_name != "fs.find"@ && d.action == NextStepAction::Fail ==> says(
                d,
                NextStepAction::Fail,
                "unexpected filesystem observation from `"@ + o.tool_name + "`"@,
            )
        }),
        tool != "fs.read_text"@ && tool != "fs.exists"@ && tool != "fs.list_dir"@ && tool
            != "fs.inspect"@ ==> says(
            followed(Some(tool), path, reasons),
            NextStepAction::Fail,
            "filesystem loop cannot continue with unsupported follow-up tool `"@ + tool + "`"@,
        ),
        followed(Some("fs.read_text"@), path, reasons).reason == reasons.read@,
        followed(None, path, reasons).reason == reasons.inspect@,
{
}

/// Why a loop ended.
pub proof fn law_reasons_of_an_end(
    before: LoopState,
    missing: Seq<Seq<char>>,
    end: TurnEnd,
    after: LoopState,
    r: LoopEnd,
)
    requires
        before.step_index < u32::MAX,
        answered(before, missing, end, after, r),
    ensures
        after.history@.last()@.decision_reason == (match end {
            TurnEnd::Text { .. } => "LLM produced a text response with no tool calls."@,
            TurnEnd::FinalAnswer { .. } => "LLM called final_answer."@,
            TurnEnd::AskUser { .. } => "LLM called ask_user."@,
            TurnEnd::Fail { .. } => "LLM called fail."@,
        }),
{
}

/// A loop without a model answers with what it was to work on.
pub proof fn law_end_without_a_model(state: &mut LoopState, reply: Option<&str>, r: LoopEnd)
    requires
        old(state).step_index < u32::MAX,
        call_ensures(end_without_router, (state, reply), r),
    ensures
        reply matches Some(text) ==> r.message@ == text@,
        reply is None ==> r.message@ == old(state).goal@,
        final(state).status == LoopStatus::Succeeded,
        final(state).history@.last()@.decision_reason
            == "No LLM router available; echoing user input as final answer."@,
{
}

/// A tool run is recorded as what the model asked for.
pub proof fn law_reason_of_a_run(state: LoopState, call: ToolCallView, run: ToolRun, step: u32)
    ensures
        tool_step(state, call, run, step).decision_reason == "LLM tool_use"@,
        tool_step(state, call, run, step).decision.reason == "LLM tool_use"@,
{
}

/// What is told where nothing else is: of a failure, of an answer without a worker, of a
/// missing model.
pub proof fn law_last_words(
    data: JsonView,
    spec: SpecView,
    node: NodeView,
    o: ToolObservationView,
    id: Seq<char>,
    capabilities: Seq<Seq<char>>,
)
    ensures
        data.member_text("error"@) is None && data.member_text("message"@) is None ==> failure_text(
            data,
        ) == "failed"@,
        fallback(spec, node).evidence == seq![
            evidence("worker"@, "worker-fallback:no-matching-worker"@),
        ],
        gate_assessment(ResumeGateReply::NoRouter).reason
            == "missing-input clarification requires a live router to distinguish resume from a fresh request"@,
        o.ok && !o.terminal ==> assumptions_of(Some(o), seq![])[0]
            == "The latest successful observation may still require another explicit tool step before completion."@,
        profile_node(id, capabilities).description == "profile-based instance: "@ + id,
        profile_node(id, capabilities).node_id == "profile-node"@,
        profile_node(id, capabilities).capabilities == capabilities,
{
}

/// A script of a skill is told by its directory.
pub proof fn law_script_references(value: Seq<char>)
    ensures
        script_reference(value) <==> contains(ascii_lower(trim(value)), "scripts/"@) || starts_with(
            ascii_lower(trim(value)),
            "./scripts/"@,
        ),
{
}

/// An infinity and what is not a number are number literals too, in any letter case.
pub proof fn law_special_numbers()
    ensures
        is_number_literal("inf"@),
        is_number_literal("infinity"@),
        is_number_literal("nan"@),
        !is_number_literal("abc"@),
{
    reveal_strlit("inf");
    reveal_strlit("infinity");
    reveal_strlit("nan");
    reveal_strlit("abc");
    assert(ascii_lower("inf"@) =~= "inf"@);
    assert(ascii_lower("infinity"@) =~= "infinity"@);
    assert(ascii_lower("nan"@) =~= "nan"@);
    assert(ascii_lower("abc"@) =~= "abc"@);
    assert("inf"@[0] == 'i' && "infinity"@[0] == 'i' && "nan"@[0] == 'n' && "abc"@[0] == 'a');
    reveal_with_fuel(crate::literal::digits_end, 2);
}

/// Each level is two spaces deeper, and each item stands on a line of its own.
pub proof fn law_indentation(depth: nat, item: Seq<char>)
    ensures
        indent(0).len() == 0,
        indent(depth + 1) == indent(depth) + seq![' ', ' '],
        on_lines(seq![], depth).len() == 0,
        on_lines(seq![item], depth) == seq!['\n'] + indent(depth + 1) + item + seq!['\n'] + indent(
            depth,
        ),
        indented(JsonView::Array(seq![]), depth) == seq!['[', ']'],
        indented(JsonView::Null, depth) == json_text(JsonView::Null),
{
    reveal_strlit("  ");
    reveal_strlit("\n");
    reveal_strlit("[");
    reveal_strlit("]");
    assert("  "@ =~= seq![' ', ' ']);
    assert("\n"@ =~= seq!['\n']);
    reveal_with_fuel(join, 2);
    assert(join(seq![item], ",\n"@ + indent(depth + 1)) == item);
    assert(indented(JsonView::Array(seq![]), depth) =~= seq!['[', ']']);
}

/// What is told of a broken cache, line by line.
pub proof fn law_diagnosis(report: &CacheBreakReport, percent: &str, r: String)
    requires
        call_ensures(CacheBreakReport::diagnostic_text, (report, percent), r),
    ensures
        r@ == "reason: "@ + report@.sentence(percent@) + "\ntokens_lost: "@ + decimal(
            report.tokens_lost as nat,
        ) + "\ncomponent_changed: "@ + join(report@.component_changed, ", "@) + "\n"@,
{
}

/// The paths that a run created and the scripts that it ran are its evidence, one by one.
pub proof fn law_listed_evidence(output: JsonView, items: Seq<JsonView>, i: int)
    requires
        output.member("data"@) is None,
        output.member_text("selected_skill"@) is None,
        output.member_text("validation_status"@) is None,
    ensures
        output.member_items("created_paths"@) == Some(items) && output.member_items(
            "executed_scripts"@,
        ) is None ==> derived_evidence(output).len() == texts_of(items).len() && (0 <= i
            < texts_of(items).len() ==> derived_evidence(output)[i] == evidence(
            "created_path"@,
            texts_of(items)[i],
        )),
        output.member_items("executed_scripts"@) == Some(items) && output.member_items(
            "created_paths"@,
        ) is None ==> derived_evidence(output).len() == texts_of(items).len() && (0 <= i
            < texts_of(items).len() ==> derived_evidence(output)[i] == evidence(
            "executed_script"@,
            texts_of(items)[i],
        )),
{
}

/// A task that its budgets do not let run is answered with the reason.
pub proof fn law_rejection_is_told(spec: SpecView, node: NodeView)
    ensures
        rejected(spec, node).payload == json_text(
            JsonView::Object(
                seq![
                    FieldView {
                        name: "error_code"@,
                        value: JsonView::Text("policy_bindings_rejected"@),
                    },
                    FieldView {
                        name: "message"@,
                        value: JsonView::Text("policy bindings rejected execution"@),
                    },
                    FieldView { name: "node_id"@, value: JsonView::Text(node.node_id) },
                ],
            ),
        ),
{
}

/// A tool that is not enabled is answered with an error that says so.
pub proof fn law_tool_not_enabled(task: &str, tool: &str, r: DirectRouteExecutionResult)
    requires
        call_ensures(tool_not_enabled_result, (task, tool), r),
    ensures
        r@.message == "tool `"@ + tool@ + "` is not enabled in the current runtime inventory"@,
        r@.result.status == ResultStatus::Error,
        r@.result.confidence_percent == 0,
        r@.result.task_id == task@,
        r@.result.node_id == "runtime-loop:tool"@,
        r@.result.producer == "runtime-loop"@,
        r@.terminal_step_action is None,
{
}

/// An approved run is told under its own name.
pub proof fn law_approved_result(
    prepared: &PreparedInvocation,
    canonical: &Option<CanonicalFact>,
    outcome: &Result<ToolExecution, ToolFailure>,
    r: ResultEnvelope,
)
    requires
        call_ensures(finish_approved_invocation, (prepared, canonical, outcome), r),
    ensures
        outcome is Ok <==> r@.status == ResultStatus::Success,
        r@.evidence[0] == evidence("runtime"@, "approval-resume"@),
        r@.evidence[1] == evidence("tool"@, prepared.invocation@.tool_name),
        r@.task_id == prepared.spec@.context.task_id,
{
}

/// Why a path that was found, or that the user chose, is worked on.
pub proof fn law_reasons_to_follow()
    ensures
        found_reasons().read@ == "fs.find returned a unique candidate; read the resolved file path."@,
        found_reasons().exists@
            == "fs.find returned a unique candidate; confirm that the resolved path exists."@,
        found_reasons().list@
            == "fs.find returned a unique candidate; list the resolved directory."@,
        found_reasons().inspect@
            == "fs.find returned a unique candidate; inspect the resolved path."@,
        chosen_reasons().read@ == "The user selected one candidate path; read that file."@,
        chosen_reasons().exists@ == "The user selected one candidate path; confirm its existence."@,
        chosen_reasons().list@ == "The user selected one candidate path; list that directory."@,
        chosen_reasons().inspect@ == "The user selected one candidate path; inspect it directly."@,
{
}

/// What the model's own question becomes: the one that the last observation calls for,
/// where there is one.
pub proof fn law_question_of_a_turn(
    state: LoopState,
    missing: Seq<Seq<char>>,
    question: Seq<char>,
)
    ensures
        state.last_observation matches Some(o) ==> question_payload(state, missing, question)
            == payload_for(state.goal@, o@, missing),
        state.last_observation is None ==> question_payload(state, missing, question).final_message
            == question && question_payload(state, missing, question).resume_contract
            is NoAutomaticResume && question_payload(state, missing, question).resume_directive
            is None,
{
}

/// The last observation of a tool stays until another tool is observed.
pub proof fn law_latest_observation(before: Option<ToolObservationView>, step: StepView)
    ensures
        step.observation matches Some(StepObservationView::Tool(t)) ==> latest_tool(before, step)
            == Some(t),
        !(step.observation matches Some(StepObservationView::Tool(_))) ==> latest_tool(before, step)
            == before,
{
}

/// A response that came from another model is held against that model's own counts.
pub proof fn law_retries(pre: PreCall, preflight: RetryPreflight, tokens: u64)
    ensures
        retry_values(pre, true, preflight, tokens).2 == preflight.tool_schema_bytes_len,
        retry_values(pre, false, preflight, tokens).2 == pre.surface.tool_schema_bytes_len,
        retry_values(pre, true, preflight, tokens).3 == preflight.tool_schema_hash,
        retry_values(pre, false, preflight, tokens).3 == preflight.tool_schema_hash,
        (retry_values(pre, true, preflight, tokens).0, retry_values(pre, true, preflight, tokens).1)
            == pair_of(preflight.estimate, tokens),
        (
            retry_values(pre, false, preflight, tokens).0,
            retry_values(pre, false, preflight, tokens).1,
        ) == pair_of(pre.estimate, tokens),
{
}

/// What the models that summarize and that judge replies are told to be.
pub proof fn law_system_prompts()
    ensures
        HISTORY_SUMMARY_SYSTEM_PROMPT@
            == "You are a concise summarizer for an agent runtime's execution history."@,
        RESUME_GATE_SYSTEM_PROMPT@
            == "You are Roku's paused-loop resume gate. Return only valid JSON."@,
        STRUCTURED_SUMMARY_SYSTEM_PROMPT@
            == "You summarize agent conversation history into a strictly structured form. Output ONLY the four sections requested, each headed by a line of the form `<Section>:` and nothing else outside them."@,
{
}

} // verus!

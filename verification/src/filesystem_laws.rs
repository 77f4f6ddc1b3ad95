//! What holds of every step of a loop over the filesystem.

use crate::ask_user::{candidates_question, listed_matches};
use crate::candidates::selected;
use crate::filesystem::{
    find_arguments, first_other_than_find, follow_up, hints_of, path_argument, read_arguments,
    HintsView, PathKind,
};
use crate::filesystem_prompt::{lemma_rules_begin, requirements, step_prompt, PROMPT_RULES};
use crate::filesystem_step::{
    acceptable, asks_model, first_step, has_members, moved_to, required_keys, settled_step,
    step_after, ObservationAnswer,
};
use crate::grounding::path_candidates;
use crate::json::{lookup, texts_of, FieldView, JsonView};
use crate::json_build::text_array;
use crate::json_indent::indented;
use crate::observation::{DecisionView, NextStepAction, ToolObservationView};
use crate::path::file_name;
use crate::state::LoopState;
use crate::text::{ends_with, starts_with, views};
use crate::text_laws::lemma_ends;
use vstd::prelude::*;

verus! {

/// The decision's tool call, if it is one, has all the arguments of its tool.
pub open spec fn complete(d: DecisionView) -> bool {
    d.action == NextStepAction::CallTool ==> match (d.tool_name, d.arguments) {
        (Some(tool), Some(arguments)) => has_members(arguments, required_keys(tool)),
        _ => false,
    }
}

proof fn lemma_names_differ()
    ensures
        "kind"@ != "name"@,
        "max_bytes"@ != "path"@,
{
    reveal_strlit("kind");
    reveal_strlit("name");
    reveal_strlit("max_bytes");
    reveal_strlit("path");
    assert("kind"@[0] == 'k' && "name"@[0] == 'n');
    assert("max_bytes"@[0] == 'm' && "path"@[0] == 'p');
}

proof fn lemma_arguments(path: Seq<char>, kind: Seq<char>)
    ensures
        path_argument(path).member("path"@) is Some,
        read_arguments(path).member("path"@) is Some,
        find_arguments(path, kind).member("name"@) is Some,
{
    lemma_names_differ();
    reveal_with_fuel(lookup, 3);
    let fields = find_arguments(path, kind)->Object_0;
    assert(fields.skip(1)[0] == fields[1]);
    let reads = read_arguments(path)->Object_0;
    assert(reads.skip(1)[0] == reads[1]);
}

proof fn lemma_all_arguments()
    ensures
        forall|path: Seq<char>| (#[trigger] path_argument(path)).member("path"@) is Some,
        forall|path: Seq<char>| (#[trigger] read_arguments(path)).member("path"@) is Some,
        forall|path: Seq<char>, kind: Seq<char>|
            (#[trigger] find_arguments(path, kind)).member("name"@) is Some,
{
    assert forall|path: Seq<char>| (#[trigger] path_argument(path)).member("path"@) is Some by {
        lemma_arguments(path, path);
    }
    assert forall|path: Seq<char>| (#[trigger] read_arguments(path)).member("path"@) is Some by {
        lemma_arguments(path, path);
    }
    assert forall|path: Seq<char>, kind: Seq<char>|
        (#[trigger] find_arguments(path, kind)).member("name"@) is Some by {
        lemma_arguments(path, kind);
    }
}

proof fn lemma_tools_differ()
    ensures
        "fs.find"@ != "fs.inspect"@,
        "fs.find"@ != "fs.list_dir"@,
        "fs.find"@ != "fs.read_text"@,
        "fs.find"@ != "fs.exists"@,
        "fs.glob"@ != "fs.inspect"@,
        "fs.glob"@ != "fs.list_dir"@,
        "fs.glob"@ != "fs.read_text"@,
        "fs.glob"@ != "fs.exists"@,
        "fs.glob"@ != "fs.find"@,
{
    reveal_strlit("fs.find");
    reveal_strlit("fs.inspect");
    reveal_strlit("fs.list_dir");
    reveal_strlit("fs.read_text");
    reveal_strlit("fs.exists");
    reveal_strlit("fs.glob");
    assert("fs.find"@[3] == 'f' && "fs.inspect"@[3] == 'i' && "fs.list_dir"@[3] == 'l'
        && "fs.read_text"@[3] == 'r' && "fs.exists"@[3] == 'e' && "fs.glob"@[3] == 'g');
}

/// The first step calls only visible tools, and with all their arguments.
pub proof fn law_first_step_is_possible(visible: Seq<Seq<char>>, hints: HintsView)
    ensures
        complete(first_step(visible, hints)),
        first_step(visible, hints).action == NextStepAction::CallTool ==> visible.contains(
            first_step(visible, hints).tool_name->0,
        ),
{
    lemma_all_arguments();
    lemma_tools_differ();
    if visible.len() > 0 {
        assert(visible.contains(visible[0]));
    }
}

/// The step after an observation has all the arguments of the tool that it calls.
pub proof fn law_step_after_is_complete(
    goal: Seq<char>,
    visible: Seq<Seq<char>>,
    recovery_budget: u32,
    hints: HintsView,
    o: ToolObservationView,
    reply: Option<Seq<char>>,
    entries: Seq<Seq<char>>,
    kind: PathKind,
    summary: Seq<char>,
    missing: Seq<Seq<char>>,
)
    ensures
        complete(
            step_after(
                goal,
                visible,
                recovery_budget,
                hints,
                o,
                reply,
                entries,
                kind,
                summary,
                missing,
            ),
        ),
{
    lemma_all_arguments();
    lemma_tools_differ();
}

/// Without a recovery budget a missing path is not looked for again: a failed
/// observation is answered, or asks which candidate is meant, or follows the one
/// that was chosen.
pub proof fn law_no_recovery_without_budget(
    goal: Seq<char>,
    visible: Seq<Seq<char>>,
    hints: HintsView,
    o: ToolObservationView,
    reply: Option<Seq<char>>,
    entries: Seq<Seq<char>>,
    kind: PathKind,
    summary: Seq<char>,
    missing: Seq<Seq<char>>,
)
    requires
        !o.ok,
        o.error_type != Some("multiple_candidates"@),
    ensures
        step_after(goal, visible, 0, hints, o, reply, entries, kind, summary, missing).action
            == NextStepAction::FinalAnswer,
{
}

proof fn lemma_argument_texts(path: Seq<char>, kind: Seq<char>)
    ensures
        path_argument(path).member_text("path"@) == Some(path),
        read_arguments(path).member_text("path"@) == Some(path),
        read_arguments(path).member_unsigned("max_bytes"@) == Some(4096nat),
        find_arguments(path, kind).member_text("name"@) == Some(path),
        find_arguments(path, kind).member_text("kind"@) == Some(kind),
{
    lemma_names_differ();
    reveal_with_fuel(lookup, 3);
    let fields = find_arguments(path, kind)->Object_0;
    assert(fields.skip(1)[0] == fields[1]);
    let reads = read_arguments(path)->Object_0;
    assert(reads.skip(1)[0] == reads[1]);
}

/// A tool call on that path: its arguments name the path, and nothing else.
pub open spec fn calls_on(d: DecisionView, tool: Seq<char>, path: Seq<char>) -> bool {
    &&& d.action == NextStepAction::CallTool
    &&& d.tool_name == Some(tool)
    &&& d.arguments is Some
    &&& d.arguments->0.member_text("path"@) == Some(path)
    &&& d.final_message is None
}

/// A search for that name, among paths of that kind.
pub open spec fn searches(d: DecisionView, name: Seq<char>, kind: Seq<char>) -> bool {
    &&& d.action == NextStepAction::CallTool
    &&& d.tool_name == Some("fs.find"@)
    &&& d.arguments is Some
    &&& d.arguments->0.member_text("name"@) == Some(name)
    &&& d.arguments->0.member_text("kind"@) == Some(kind)
    &&& d.final_message is None
}

/// A question to the user or an answer, and nothing that is called.
pub open spec fn says(d: DecisionView, action: NextStepAction, message: Seq<char>) -> bool {
    &&& d.action == action
    &&& d.final_message == Some(message)
    &&& d.tool_name is None
    &&& d.arguments is None
}

proof fn lemma_all_tools_differ()
    ensures
        "fs.list_dir"@ != "fs.inspect"@,
        "fs.list_dir"@ != "fs.exists"@,
        "fs.list_dir"@ != "fs.read_text"@,
        "fs.inspect"@ != "fs.exists"@,
        "fs.inspect"@ != "fs.read_text"@,
        "fs.exists"@ != "fs.read_text"@,
{
    reveal_strlit("fs.inspect");
    reveal_strlit("fs.list_dir");
    reveal_strlit("fs.read_text");
    reveal_strlit("fs.exists");
    assert("fs.inspect"@[3] == 'i' && "fs.list_dir"@[3] == 'l' && "fs.read_text"@[3] == 'r'
        && "fs.exists"@[3] == 'e');
}

/// The path that the user named is the one that the first step works on. The current
/// directory stands in for it only where no path is named, and only for listing and
/// inspecting.
pub proof fn law_named_path_is_used(visible: Seq<Seq<char>>, hints: HintsView)
    requires
        first_step(visible, hints).action == NextStepAction::CallTool,
    ensures
        ({
            let d = first_step(visible, hints);
            let tool = d.tool_name->0;
            &&& tool == "fs.list_dir"@ || tool == "fs.inspect"@ ==> calls_on(
                d,
                tool,
                hints.path.unwrap_or("."@),
            )
            &&& tool == "fs.exists"@ || tool == "fs.read_text"@ ==> hints.path is Some && calls_on(
                d,
                tool,
                hints.path->0,
            )
            &&& tool == "fs.find"@ ==> hints.basename is Some && d.arguments->0.member_text(
                "name"@,
            ) == hints.basename
            &&& tool == "fs.list_dir"@ || tool == "fs.inspect"@ || tool == "fs.exists"@ || tool
                == "fs.read_text"@ || tool == "fs.find"@
        }),
{
    lemma_tools_differ();
    lemma_all_tools_differ();
    let here = hints.path.unwrap_or("."@);
    lemma_argument_texts(here, here);
    if let Some(name) = hints.basename {
        lemma_argument_texts(name, "any"@);
        lemma_argument_texts(name, "file"@);
        lemma_argument_texts(name, "directory"@);
    }
}

/// The first step calls the first of the visible tools, but for a bare name, which is
/// looked for first where that is possible; a listing needs no name.
pub proof fn law_first_step_by_tool(visible: Seq<Seq<char>>, hints: HintsView)
    requires
        visible.len() > 0,
    ensures
        ({
            let d = first_step(visible, hints);
            let tool = visible[0];
            let looks = hints.basename is Some && visible.contains("fs.find"@);
            &&& tool == "fs.list_dir"@ ==> calls_on(d, tool, hints.path.unwrap_or("."@))
            &&& tool == "fs.inspect"@ ==> if looks {
                searches(d, hints.basename->0, "any"@)
            } else {
                calls_on(d, tool, hints.path.unwrap_or("."@))
            }
            &&& tool == "fs.exists"@ ==> if looks {
                searches(d, hints.basename->0, "any"@)
            } else if hints.path is Some {
                calls_on(d, tool, hints.path->0)
            } else {
                d.action == NextStepAction::AskUser
            }
            &&& tool == "fs.read_text"@ ==> if looks {
                searches(d, hints.basename->0, "file"@)
            } else if hints.path is Some {
                calls_on(d, tool, hints.path->0) && d.arguments->0.member_unsigned("max_bytes"@)
                    == Some(4096nat)
            } else {
                d.action == NextStepAction::AskUser
            }
            &&& tool == "fs.find"@ ==> if hints.basename is Some {
                searches(d, hints.basename->0, "any"@)
            } else {
                d.action == NextStepAction::AskUser
            }
            &&& tool != "fs.list_dir"@ && tool != "fs.inspect"@ && tool != "fs.exists"@ && tool
                != "fs.read_text"@ && tool != "fs.find"@ && !looks ==> d.action
                == NextStepAction::Fail
            &&& d.action == NextStepAction::AskUser ==> d.final_message is Some && d.tool_name
                is None
        }),
        first_step(seq![], hints).action == NextStepAction::Fail,
{
    lemma_tools_differ();
    lemma_all_tools_differ();
    assert(visible.contains(visible[0]));
    let here = hints.path.unwrap_or("."@);
    lemma_argument_texts(here, here);
    if let Some(name) = hints.basename {
        lemma_argument_texts(name, "any"@);
        lemma_argument_texts(name, "file"@);
        lemma_argument_texts(name, "directory"@);
    }
}

/// The tool that a found path is worked on with: reading for a file, listing for a
/// directory, where they are visible, and otherwise the first visible tool that is not
/// the search.
pub proof fn law_tool_for_a_found_path(visible: Seq<Seq<char>>, kind: PathKind, other: Seq<char>)
    ensures
        visible.contains("fs.read_text"@) ==> follow_up(visible, PathKind::File) == Some(
            "fs.read_text"@,
        ),
        visible.contains("fs.list_dir"@) ==> follow_up(visible, PathKind::Directory) == Some(
            "fs.list_dir"@,
        ),
        follow_up(visible, kind) matches Some(tool) ==> visible.contains(tool) && tool
            != "fs.find"@,
        follow_up(visible, kind) is None ==> forall|i: int|
            0 <= i < visible.len() ==> #[trigger] visible[i] == "fs.find"@,
        other != "fs.find"@ ==> follow_up(seq![other], PathKind::Other) == Some(other),
        other != "fs.find"@ ==> follow_up(seq!["fs.find"@, other], PathKind::Other) == Some(other),
    decreases visible.len(),
{
    lemma_tools_differ();
    lemma_first_other(visible);
    reveal_with_fuel(first_other_than_find, 3);
    let two = seq!["fs.find"@, other];
    assert(two.skip(1) =~= seq![other]);
}

proof fn lemma_first_other(visible: Seq<Seq<char>>)
    ensures
        first_other_than_find(visible) matches Some(tool) ==> visible.contains(tool) && tool
            != "fs.find"@,
        first_other_than_find(visible) is None ==> forall|i: int|
            0 <= i < visible.len() ==> #[trigger] visible[i] == "fs.find"@,
    decreases visible.len(),
{
    if visible.len() > 0 {
        assert(visible.contains(visible[0]));
        if visible[0] == "fs.find"@ {
            let rest = visible.skip(1);
            lemma_first_other(rest);
            if let Some(tool) = first_other_than_find(visible) {
                let i = choose|i: int| 0 <= i < rest.len() && rest[i] == tool;
                assert(visible[i + 1] == tool);
            } else {
                assert forall|i: int| 0 <= i < visible.len() implies #[trigger] visible[i]
                    == "fs.find"@ by {
                    if i > 0 {
                        assert(rest[i - 1] == visible[i]);
                    }
                }
            }
        }
    }
}

/// The decision works on that path, with the tool that fits, or says which tool it
/// cannot go on with.
pub open spec fn goes_on_with(d: DecisionView, tool: Option<Seq<char>>, path: Seq<char>) -> bool {
    match tool {
        None => calls_on(d, "fs.inspect"@, path),
        Some(tool) => if tool == "fs.read_text"@ || tool == "fs.exists"@ || tool == "fs.list_dir"@
            || tool == "fs.inspect"@ {
            calls_on(d, tool, path)
        } else {
            d.action == NextStepAction::Fail
        },
    }
}

/// A path that was found, and one that the user chose, is worked on next. Any other
/// success of a tool of the loop is told to the user, and what no tool of the loop can
/// have observed is a failure.
pub proof fn law_step_after_success(
    goal: Seq<char>,
    visible: Seq<Seq<char>>,
    budget: u32,
    hints: HintsView,
    o: ToolObservationView,
    reply: Option<Seq<char>>,
    entries: Seq<Seq<char>>,
    kind: PathKind,
    summary: Seq<char>,
    missing: Seq<Seq<char>>,
)
    requires
        o.ok,
    ensures
        ({
            let d = step_after(
                goal,
                visible,
                budget,
                hints,
                o,
                reply,
                entries,
                kind,
                summary,
                missing,
            );
            let known = o.tool_name == "fs.find"@ || o.tool_name == "fs.read_text"@ || o.tool_name
                == "fs.list_dir"@ || o.tool_name == "fs.inspect"@ || o.tool_name == "fs.exists"@
                || o.tool_name == "fs.glob"@;
            &&& o.tool_name == "fs.find"@ && o.data.member_text("resolved_path"@) is Some
                ==> goes_on_with(
                d,
                follow_up(visible, kind),
                o.data.member_text("resolved_path"@)->0,
            )
            &&& known && (o.tool_name != "fs.find"@ || o.data.member_text("resolved_path"@) is None)
                ==> says(d, NextStepAction::FinalAnswer, summary)
            &&& !known ==> d.action == NextStepAction::Fail
        }),
{
    lemma_tools_differ();
    lemma_all_tools_differ();
    if let Some(path) = o.data.member_text("resolved_path"@) {
        lemma_argument_texts(path, path);
    }
}

/// Several candidates are put before the user, unless the reply has chosen one, which is
/// then worked on. A missing path is looked for by its name while there is a budget for
/// it and a search. Every other failure is told to the user.
pub proof fn law_step_after_failure(
    goal: Seq<char>,
    visible: Seq<Seq<char>>,
    budget: u32,
    hints: HintsView,
    o: ToolObservationView,
    reply: Option<Seq<char>>,
    entries: Seq<Seq<char>>,
    kind: PathKind,
    summary: Seq<char>,
    missing: Seq<Seq<char>>,
)
    requires
        !o.ok,
    ensures
        ({
            let d = step_after(
                goal,
                visible,
                budget,
                hints,
                o,
                reply,
                entries,
                kind,
                summary,
                missing,
            );
            let chosen = match (reply, o.data.member_items("matches"@)) {
                (Some(reply), Some(items)) => selected(reply, texts_of(items), entries),
                _ => None,
            };
            let named = match o.data.member_text("path"@) {
                Some(path) if file_name(path) is Some => file_name(path),
                _ => hints.basename,
            };
            let looks = o.error_type == Some("path_not_found"@) && o.tool_name != "fs.find"@
                && budget > 0 && visible.contains("fs.find"@) && named is Some;
            if o.error_type == Some("multiple_candidates"@) {
                if chosen is Some {
                    goes_on_with(d, follow_up(visible, kind), chosen->0)
                } else {
                    says(
                        d,
                        NextStepAction::AskUser,
                        candidates_question(goal, listed_matches(o)),
                    )
                }
            } else if looks {
                searches(
                    d,
                    named->0,
                    if visible[0] == "fs.list_dir"@ {
                        "directory"@
                    } else if visible[0] == "fs.read_text"@ {
                        "file"@
                    } else {
                        "any"@
                    },
                )
            } else {
                says(d, NextStepAction::FinalAnswer, summary)
            }
        }),
{
    lemma_tools_differ();
    lemma_all_tools_differ();
    lemma_error_names();
    if let (Some(reply), Some(items)) = (reply, o.data.member_items("matches"@)) {
        if let Some(path) = selected(reply, texts_of(items), entries) {
            lemma_argument_texts(path, path);
        }
    }
    if let Some(path) = o.data.member_text("path"@) {
        if let Some(name) = file_name(path) {
            lemma_argument_texts(name, "any"@);
            lemma_argument_texts(name, "file"@);
            lemma_argument_texts(name, "directory"@);
        }
    }
    if let Some(name) = hints.basename {
        lemma_argument_texts(name, "any"@);
        lemma_argument_texts(name, "file"@);
        lemma_argument_texts(name, "directory"@);
    }
}

proof fn lemma_error_names()
    ensures
        "multiple_candidates"@ != "path_not_found"@,
        "multiple_candidates"@ != "needs_more_information"@,
{
    reveal_strlit("multiple_candidates");
    reveal_strlit("path_not_found");
    reveal_strlit("needs_more_information");
    assert("multiple_candidates"@[0] == 'm' && "path_not_found"@[0] == 'p'
        && "needs_more_information"@[0] == 'n');
}

/// What the user named is the first path in the text; it is a bare name where it has no
/// slash and is not a directory's own dot.
pub proof fn law_hints_name_the_first_path(goal: Seq<char>, entries: Seq<Seq<char>>)
    ensures
        ({
            let paths = path_candidates(goal, entries);
            let hints = hints_of(goal, entries);
            &&& hints.path is Some <==> paths.len() > 0
            &&& hints.path is Some ==> hints.path->0 == paths[0]
            &&& hints.basename is Some ==> hints.basename == hints.path && !paths[0].contains('/')
                && !paths[0].contains('\\')
            &&& hints.path is Some && hints.basename is None ==> paths[0].contains('/')
                || paths[0].contains('\\') || paths[0] == "."@ || paths[0] == ".."@
                || paths[0].len() == 0
        }),
{
}

/// The reply names the target where there is one; otherwise the goal does. A first step
/// is taken where nothing has been observed yet.
pub proof fn law_settled_step(
    state: LoopState,
    reply: Option<Seq<char>>,
    entries: Seq<Seq<char>>,
    given: ObservationAnswer,
)
    ensures
        state.last_observation is None ==> settled_step(state, reply, entries, given) == first_step(
            views(state.visible_tools@),
            hints_of(
                match reply {
                    Some(reply) => reply,
                    None => state.goal@,
                },
                entries,
            ),
        ),
        state.last_observation matches Some(o) ==> o.ok && o.tool_name@ != "fs.find"@ && (
        o.tool_name@ == "fs.read_text"@ || o.tool_name@ == "fs.list_dir"@ || o.tool_name@
            == "fs.inspect"@ || o.tool_name@ == "fs.exists"@ || o.tool_name@ == "fs.glob"@) ==> says(
            settled_step(state, reply, entries, given),
            NextStepAction::FinalAnswer,
            given.summary@,
        ),
{
}

/// The arguments that each tool needs.
pub proof fn law_required_arguments(tool: Seq<char>)
    ensures
        required_keys("fs.find"@) == seq!["name"@],
        required_keys("fs.inspect"@) == seq!["path"@],
        required_keys("fs.list_dir"@) == seq!["path"@],
        required_keys("fs.read_text"@) == seq!["path"@],
        required_keys("fs.exists"@) == seq!["path"@],
        required_keys("fs.glob"@) == seq!["pattern"@],
        required_keys(tool).len() > 0 ==> tool == "fs.find"@ || tool == "fs.inspect"@ || tool
            == "fs.list_dir"@ || tool == "fs.read_text"@ || tool == "fs.exists"@ || tool
            == "fs.glob"@,
{
    lemma_tools_differ();
    lemma_all_tools_differ();
}

/// A model's tool call is taken over only for a visible tool with all the arguments that
/// it needs; its other decisions are always taken over.
pub proof fn law_acceptable_decisions(d: DecisionView, visible: Seq<Seq<char>>)
    ensures
        d.action != NextStepAction::CallTool ==> acceptable(d, visible),
        d.action == NextStepAction::CallTool && acceptable(d, visible) ==> d.tool_name is Some
            && visible.contains(d.tool_name->0) && d.arguments is Some
            && d.arguments->0 is Object && complete(d),
        d.action == NextStepAction::CallTool && d.tool_name is Some && visible.contains(
            d.tool_name->0,
        ) && d.arguments is Some && d.arguments->0 is Object && complete(d) ==> acceptable(
            d,
            visible,
        ),
{
}

/// The model is asked only before the first observation, and not where the user gave a
/// bare name and there is a search for it.
pub proof fn law_when_the_model_is_asked(
    state: LoopState,
    reply: Option<Seq<char>>,
    entries: Seq<Seq<char>>,
)
    ensures
        asks_model(state, reply, entries) ==> state.last_observation is None,
        state.last_observation is None && !views(state.visible_tools@).contains("fs.find"@)
            ==> asks_model(state, reply, entries),
        state.last_observation is None && views(state.visible_tools@).contains("fs.find"@)
            && reply is None ==> asks_model(state, reply, entries) == (hints_of(
            state.goal@,
            entries,
        ).basename is None),
        state.last_observation is None && views(state.visible_tools@).contains("fs.find"@)
            && reply is Some ==> asks_model(state, reply, entries) == (hints_of(
            reply->0,
            entries,
        ).basename is None),
{
}

/// The loop moves into a directory that was inspected with success, and nowhere else.
pub proof fn law_moving(o: ToolObservationView, current: Seq<char>)
    ensures
        moved_to(o, current) matches Some(path) ==> {
            &&& o.ok
            &&& o.tool_name == "fs.inspect"@
            &&& o.data.member_text("kind"@) == Some("directory"@)
            &&& o.data.member_text("path"@) == Some(path)
            &&& path.len() > 0
            &&& path != current
        },
        o.ok && o.tool_name == "fs.inspect"@ && o.data.member_text("kind"@) == Some("directory"@)
            && o.data.member_text("path"@) is Some && o.data.member_text("path"@)->0.len() > 0
            && o.data.member_text("path"@)->0 != current ==> moved_to(o, current)
            == o.data.member_text("path"@),
{
}

/// What the user is asked for where the first step lacks it, and what is said where a tool
/// is not of this loop.
pub proof fn law_first_questions(tool: Seq<char>, name: Seq<char>)
    requires
        tool != "fs.list_dir"@,
        tool != "fs.inspect"@,
        tool != "fs.exists"@,
        tool != "fs.read_text"@,
        tool != "fs.find"@,
    ensures
        ({
            let none = HintsView { path: None, basename: None };
            let bare = HintsView { path: None, basename: Some(name) };
            &&& says(
                first_step(seq!["fs.exists"@], none),
                NextStepAction::AskUser,
                "I still need a concrete path or file name before I can check whether it exists."@,
            )
            &&& says(
                first_step(seq!["fs.read_text"@], none),
                NextStepAction::AskUser,
                "I still need a concrete file path before I can read it."@,
            )
            &&& says(
                first_step(seq!["fs.read_text"@], bare),
                NextStepAction::AskUser,
                "I need a more specific path for `"@ + name + "` before I can read it."@,
            )
            &&& says(
                first_step(seq!["fs.find"@], none),
                NextStepAction::AskUser,
                "I still need a file or directory name to locate."@,
            )
            &&& says(
                first_step(seq![tool], none),
                NextStepAction::Fail,
                "filesystem loop does not support the shortlisted tool `"@ + tool + "`"@,
            )
            &&& says(
                first_step(seq![], none),
                NextStepAction::Fail,
                "filesystem loop does not have any visible tools"@,
            )
        }),
{
    lemma_tools_differ();
    lemma_all_tools_differ();
    let read = seq!["fs.read_text"@];
    assert(!read.contains("fs.find"@)) by {
        if read.contains("fs.find"@) {
            assert(read[0] == "fs.find"@);
        }
    }
}

/// The prompt for the next step shows the tools and what they need, the directory, the
/// goal, the route, the last observation and the reply, in that order; what is missing is
/// null.
pub proof fn law_step_prompt(
    state: LoopState,
    reply: Option<Seq<char>>,
    route: Seq<char>,
    observation: Option<Seq<char>>,
)
    ensures
        ends_with(
            step_prompt(state, reply, route, observation),
            indented(text_array(views(state.visible_tools@)), 0)
                + "\n\nTool requirements:\n"@
                + indented(JsonView::Object(requirements(views(state.visible_tools@))), 0)
                + "\n\nCurrent working directory:\n"@
                + state.working_directory@
                + "\n\nGoal:\n"@
                + state.goal@
                + "\n\nRoute decision:\n"@
                + route
                + "\n\nLast observation:\n"@
                + observation.unwrap_or("null"@)
                + "\n\nCurrent user follow-up:\n"@
                + reply.unwrap_or("null"@),
        ),
        starts_with(
            step_prompt(state, reply, route, observation),
            "Return only JSON with exactly these keys:"@,
        ),
{
    let rules = PROMPT_RULES@;
    let p0 = indented(text_array(views(state.visible_tools@)), 0);
    let p1 = "\n\nTool requirements:\n"@;
    let p2 = indented(JsonView::Object(requirements(views(state.visible_tools@))), 0);
    let p3 = "\n\nCurrent working directory:\n"@;
    let p4 = state.working_directory@;
    let p5 = "\n\nGoal:\n"@;
    let p6 = state.goal@;
    let p7 = "\n\nRoute decision:\n"@;
    let p8 = route;
    let p9 = "\n\nLast observation:\n"@;
    let p10 = observation.unwrap_or("null"@);
    let p11 = "\n\nCurrent user follow-up:\n"@;
    let p12 = reply.unwrap_or("null"@);
    let s0 = p0;
    let s1 = s0 + p1;
    lemma_shift(rules, s0, p1);
    let s2 = s1 + p2;
    lemma_shift(rules, s1, p2);
    let s3 = s2 + p3;
    lemma_shift(rules, s2, p3);
    let s4 = s3 + p4;
    lemma_shift(rules, s3, p4);
    let s5 = s4 + p5;
    lemma_shift(rules, s4, p5);
    let s6 = s5 + p6;
    lemma_shift(rules, s5, p6);
    let s7 = s6 + p7;
    lemma_shift(rules, s6, p7);
    let s8 = s7 + p8;
    lemma_shift(rules, s7, p8);
    let s9 = s8 + p9;
    lemma_shift(rules, s8, p9);
    let s10 = s9 + p10;
    lemma_shift(rules, s9, p10);
    let s11 = s10 + p11;
    lemma_shift(rules, s10, p11);
    let s12 = s11 + p12;
    lemma_shift(rules, s11, p12);
    let said = step_prompt(state, reply, route, observation);
    assert(said == rules + s12);
    lemma_ends(rules, s12);
    lemma_rules_begin();
    lemma_still_begins(rules, s12, "Return only JSON with exactly these keys:"@);
}

proof fn lemma_shift(a: Seq<char>, b: Seq<char>, c: Seq<char>)
    ensures
        (a + b) + c == a + (b + c),
{
    assert((a + b) + c =~= a + (b + c));
}

proof fn lemma_still_begins(a: Seq<char>, b: Seq<char>, p: Seq<char>)
    requires
        a.len() >= p.len(),
        a.subrange(0, p.len() as int) == p,
    ensures
        starts_with(a + b, p),
{
    assert((a + b).subrange(0, p.len() as int) =~= a.subrange(0, p.len() as int));
}

/// What each tool needs is told under its name.
pub proof fn law_told_requirements(tool: Seq<char>)
    ensures
        requirements(seq![tool]) == seq![
            FieldView {
                name: tool,
                value: JsonView::Object(
                    seq![
                        FieldView {
                            name: "required_arguments"@,
                            value: text_array(required_keys(tool)),
                        },
                    ],
                ),
            },
        ],
        requirements(seq![]).len() == 0,
{
    reveal_with_fuel(requirements, 2);
    let one = seq![tool];
    assert(one.drop_last() =~= seq![]);
    assert(requirements(one) =~= seq![
        FieldView {
            name: tool,
            value: JsonView::Object(
                seq![
                    FieldView {
                        name: "required_arguments"@,
                        value: text_array(required_keys(tool)),
                    },
                ],
            ),
        },
    ]);
}

} // verus!

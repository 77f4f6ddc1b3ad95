//! What a model is shown of a loop and its surroundings, and what is traced of it.

use crate::catalog::{
    capabilities_for, collisions, described, has_name, tool_named, without_collisions,
    DescriptorView, ResourceKind,
};
use crate::environment::{environment_lines, git_line, repo_name, without_git, GitContextView};
use crate::events::{usage_event, EventView};
use crate::number::decimal;
use crate::observation::{
    SelectorView, StepAction, StepObservationView, StepView, ToolObservationView,
};
use crate::projection::{
    action_name, assumptions_of, blockers_of, compact, digest, item_lines, observation_digest,
    recent, step_digest, step_lines,
};
use crate::result::PolicyOutcome;
use crate::state::LoopStatus;
use crate::stream::{after_chunk, chunk_events, StreamChunk, StreamView};
use crate::text::{
    contains, ends_with, find, first_at, join, lemma_find, occurs_at, starts_with, words,
};
use crate::text_laws::{lemma_begins, lemma_ends};
use crate::trace::{
    canonical_member, command_of, executed, stages_of, TraceFacts, TracePolicyView, TraceStage,
};
use crate::visible::{
    disallowed_after, kept, rebuilds, refresh_dirties, schema_sent, visible_after, DefinitionView,
};
use vstd::prelude::*;

verus! {

/// The names of the actions.
pub proof fn law_action_names()
    ensures
        action_name(StepAction::CallTool) == "call_tool"@,
        action_name(StepAction::AskUser) == "ask_user"@,
        action_name(StepAction::FinalAnswer) == "final_answer"@,
        action_name(StepAction::Fail) == "fail"@,
        action_name(StepAction::Stop) == "stop"@,
        action_name(StepAction::CompactBoundary) == "compact_boundary"@,
{
}

/// A text is shown with one space between its words; a long one is cut at 157 characters
/// and ends in three points.
pub proof fn law_compact_text(text: Seq<char>)
    ensures
        ({
            let flat = join(words(text), " "@);
            &&& flat.len() <= 160 ==> compact(text) == flat
            &&& flat.len() > 160 ==> compact(text) == flat.take(157) + "..."@
        }),
{
}

/// What is shown of an observation: a tool's with whether it succeeded and whether it
/// ends the loop, a question, or a final message.
pub proof fn law_observations_shown(t: ToolObservationView, message: Seq<char>)
    ensures
        t.ok && t.terminal ==> observation_digest(StepObservationView::Tool(t))
            == "observation=tool ok=true terminal=true message="@ + compact(t.message),
        t.ok && !t.terminal ==> observation_digest(StepObservationView::Tool(t))
            == "observation=tool ok=true terminal=false message="@ + compact(t.message),
        !t.ok && t.terminal ==> observation_digest(StepObservationView::Tool(t))
            == "observation=tool ok=false terminal=true message="@ + compact(t.message),
        !t.ok && !t.terminal ==> observation_digest(StepObservationView::Tool(t))
            == "observation=tool ok=false terminal=false message="@ + compact(t.message),
        observation_digest(StepObservationView::AskUser { final_message: message })
            == "observation=ask_user message="@ + compact(message),
        observation_digest(StepObservationView::FinalMessage { final_message: message })
            == "observation=final_message message="@ + compact(message),
{
    reveal_strlit("observation=tool ok=");
    reveal_strlit("true");
    reveal_strlit("false");
    reveal_strlit(" terminal=");
    reveal_strlit(" message=");
    reveal_strlit("observation=tool ok=true terminal=true message=");
    reveal_strlit("observation=tool ok=true terminal=false message=");
    reveal_strlit("observation=tool ok=false terminal=true message=");
    reveal_strlit("observation=tool ok=false terminal=false message=");
    let ok = "observation=tool ok="@;
    let end = " terminal="@;
    let said = " message="@;
    assert("observation=tool ok=true terminal=true message="@ =~= ok + "true"@ + end + "true"@
        + said);
    assert("observation=tool ok=true terminal=false message="@ =~= ok + "true"@ + end + "false"@
        + said);
    assert("observation=tool ok=false terminal=true message="@ =~= ok + "false"@ + end + "true"@
        + said);
    assert("observation=tool ok=false terminal=false message="@ =~= ok + "false"@ + end + "false"@
        + said);
}

/// What is shown of a step: its number, its action, its tool, its reason and what was
/// observed, in that order.
pub proof fn law_steps_shown(step: StepView)
    ensures
        ({
            let tool = match step.tool_name {
                Some(name) => name,
                None => "none"@,
            };
            let seen = match step.observation {
                Some(o) => observation_digest(o),
                None => "observation=none"@,
            };
            let begun = "- step "@ + decimal(step.step_index as nat) + ": action="@ + action_name(
                step.action,
            ) + " tool="@ + tool + " reason="@ + compact(step.decision_reason);
            &&& starts_with(step_digest(step), begun)
            &&& ends_with(step_digest(step), " "@ + seen)
            &&& step_digest(step).len() == begun.len() + 1 + seen.len()
        }),
{
    let tool = match step.tool_name {
        Some(name) => name,
        None => "none"@,
    };
    let seen = match step.observation {
        Some(o) => observation_digest(o),
        None => "observation=none"@,
    };
    let begun = "- step "@ + decimal(step.step_index as nat) + ": action="@ + action_name(
        step.action,
    ) + " tool="@ + tool + " reason="@ + compact(step.decision_reason);
    reveal_strlit(" ");
    assert(" "@.len() == 1);
    assert(step_digest(step) =~= begun + (" "@ + seen));
    lemma_begins(begun, " "@ + seen);
    lemma_ends(begun, " "@ + seen);
}

/// The last four steps are shown, oldest first; where there are none, that is said.
pub proof fn law_recent_steps(steps: Seq<StepView>, i: int)
    ensures
        recent(steps).len() <= 4,
        steps.len() <= 4 ==> recent(steps) == steps,
        steps.len() > 4 ==> recent(steps).len() == 4 && (0 <= i < 4 ==> recent(steps)[i]
            == steps[steps.len() - 4 + i]),
        step_lines(seq![]) == seq!["- none"@],
        0 <= i < steps.len() ==> step_lines(steps)[i] == step_digest(steps[i]),
        item_lines(seq![]) == seq!["- none"@],
{
}

/// The digest has three parts, each under its title.
pub proof fn law_digest_of_a_loop(
    steps: Seq<StepView>,
    blockers: Seq<Seq<char>>,
    assumptions: Seq<Seq<char>>,
)
    ensures
        digest(steps, blockers, assumptions) == join(
            seq!["Recent steps:"@] + step_lines(recent(steps)) + seq!["Unresolved blockers:"@]
                + item_lines(blockers) + seq!["Working assumptions:"@] + item_lines(assumptions),
            "\n"@,
        ),
        blockers.len() == 1 ==> item_lines(blockers) == seq!["- "@ + blockers[0]],
{
    if blockers.len() == 1 {
        assert(item_lines(blockers) =~= seq!["- "@ + blockers[0]]);
    }
}

/// A failed observation that does not end the loop is in the way, and so is a reply that
/// is waited for.
pub proof fn law_blockers(o: ToolObservationView, status: LoopStatus)
    ensures
        blockers_of(None, LoopStatus::LoopRunning).len() == 0,
        blockers_of(None, LoopStatus::AwaitingUser) == seq![
            "The loop is awaiting a user reply and should continue from the existing state."@,
        ],
        o.ok || o.terminal ==> blockers_of(Some(o), status) == blockers_of(None, status),
        !o.ok && !o.terminal ==> blockers_of(Some(o), status).len() == blockers_of(
            None,
            status,
        ).len() + 1 && blockers_of(Some(o), status)[0]
            == "Latest observation may need follow-up: error_type="@ + (match o.error_type {
            Some(e) => e,
            None => "unknown_error"@,
        }) + " message="@ + compact(o.message),
{
    let none = Seq::<Seq<char>>::empty();
    let waiting = seq![
        "The loop is awaiting a user reply and should continue from the existing state."@,
    ];
    assert(none + waiting =~= waiting);
}

/// The visible tools bound the next call, and a success that does not end the loop may
/// need another step.
pub proof fn law_assumptions(o: ToolObservationView, visible: Seq<Seq<char>>)
    ensures
        assumptions_of(None, seq![]).len() == 0,
        visible.len() > 0 ==> assumptions_of(None, visible) == seq![
            "Any next tool call must stay within the currently visible tool set: "@ + join(
                visible,
                ", "@,
            ) + "."@,
        ],
        o.ok && !o.terminal ==> assumptions_of(Some(o), visible).len() == assumptions_of(
            None,
            visible,
        ).len() + 1,
        !o.ok || o.terminal ==> assumptions_of(Some(o), visible) == assumptions_of(None, visible),
{
    if visible.len() > 0 {
        let bound = seq![
            "Any next tool call must stay within the currently visible tool set: "@ + join(
                visible,
                ", "@,
            ) + "."@,
        ];
        assert(assumptions_of(None, visible) =~= bound);
    }
}

/// The environment is told line by line: the directory, the repository where there is
/// one, and the tools where there are any.
pub proof fn law_environment_lines(
    directory: Seq<char>,
    git: GitContextView,
    tools: Seq<Seq<char>>,
)
    ensures
        environment_lines(directory, None, seq![]) == seq!["Working directory: "@ + directory],
        environment_lines(directory, Some(git), seq![]) == seq![
            "Working directory: "@ + directory,
            "Git repository: "@ + git.repo_name + " (branch: "@ + git.branch + ", remote: "@
                + git.remote_url + ")"@,
        ],
        tools.len() > 0 ==> environment_lines(directory, None, tools) == seq![
            "Working directory: "@ + directory,
            "Available CLI tools: "@ + join(tools, ", "@),
        ],
        tools.len() > 0 ==> environment_lines(directory, Some(git), tools).len() == 3,
{
    assert(environment_lines(directory, None, seq![]) =~= seq![
        "Working directory: "@ + directory,
    ]);
    assert(environment_lines(directory, Some(git), seq![]) =~= seq![
        "Working directory: "@ + directory,
        git_line(git),
    ]);
    if tools.len() > 0 {
        assert(environment_lines(directory, None, tools) =~= seq![
            "Working directory: "@ + directory,
            "Available CLI tools: "@ + join(tools, ", "@),
        ]);
    }
}

proof fn lemma_after_first(host: Seq<char>, mark: char, path: Seq<char>, separator: Seq<char>)
    requires
        separator == seq![mark],
        !host.contains(mark),
    ensures
        find(host + separator + path, separator) == Some(host.len() as int),
        (host + separator + path).skip(host.len() as int + 1) == path,
{
    let s = host + separator + path;
    let at = host.len() as int;
    assert(s.subrange(at, at + 1) =~= separator);
    assert(occurs_at(s, separator, at));
    assert forall|j: int| 0 <= j < at implies !occurs_at(s, separator, j) by {
        if occurs_at(s, separator, j) {
            assert(s.subrange(j, j + 1)[0] == s[j]);
            assert(host[j] == mark);
        }
    }
    assert(first_at(s, separator, at));
    lemma_find(s, separator, at);
    assert(s.skip(at + 1) =~= path);
}

/// A repository is named by the path behind its host, without the ending `.git`, for
/// addresses of both kinds.
pub proof fn law_repository_names(host: Seq<char>, path: Seq<char>)
    requires
        !host.contains(':'),
        !host.contains('/'),
        !ends_with(path, ".git"@),
    ensures
        repo_name("git@"@ + (host + ":"@ + path)) == path,
        repo_name("https://"@ + (host + "/"@ + path)) == path,
        repo_name("http://"@ + (host + "/"@ + path)) == path,
        repo_name("https://"@ + (host + "/"@ + (path + ".git"@))) == path,
        repo_name("git@"@ + (host + ":"@ + (path + ".git"@))) == path,
{
    reveal_strlit("git@");
    reveal_strlit("https://");
    reveal_strlit("http://");
    reveal_strlit(":");
    reveal_strlit("/");
    reveal_strlit(".git");
    assert(":"@ =~= seq![':']);
    assert("/"@ =~= seq!['/']);
    assert("git@"@[0] == 'g' && "https://"@[0] == 'h' && "http://"@[0] == 'h');
    assert("https://"@[4] == 's' && "http://"@[4] == ':');
    let full = path + ".git"@;
    lemma_without_git(path);
    lemma_remote("git@"@, host + ":"@ + path);
    lemma_remote("https://"@, host + "/"@ + path);
    lemma_remote("http://"@, host + "/"@ + path);
    lemma_remote("git@"@, host + ":"@ + full);
    lemma_remote("https://"@, host + "/"@ + full);
    lemma_after_first(host, ':', path, ":"@);
    lemma_after_first(host, '/', path, "/"@);
    lemma_after_first(host, ':', full, ":"@);
    lemma_after_first(host, '/', full, "/"@);
    lemma_not_prefix("https://"@, host + "/"@ + path, "git@"@, 0);
    lemma_not_prefix("https://"@, host + "/"@ + full, "git@"@, 0);
    lemma_not_prefix("http://"@, host + "/"@ + path, "git@"@, 0);
    lemma_not_prefix("http://"@, host + "/"@ + path, "https://"@, 4);
}

proof fn lemma_remote(front: Seq<char>, rest: Seq<char>)
    ensures
        starts_with(front + rest, front),
        (front + rest).skip(front.len() as int) == rest,
{
    lemma_begins(front, rest);
    assert((front + rest).skip(front.len() as int) =~= rest);
}

proof fn lemma_not_prefix(front: Seq<char>, rest: Seq<char>, other: Seq<char>, k: int)
    requires
        0 <= k < front.len(),
        k < other.len(),
        front[k] != other[k],
    ensures
        !starts_with(front + rest, other),
{
    if starts_with(front + rest, other) {
        assert((front + rest).subrange(0, other.len() as int)[k] == (front + rest)[k]);
    }
}

proof fn lemma_without_git(path: Seq<char>)
    requires
        !ends_with(path, ".git"@),
    ensures
        without_git(path) == path,
        without_git(path + ".git"@) == path,
{
    reveal_strlit(".git");
    let full = path + ".git"@;
    lemma_ends(path, ".git"@);
    reveal_with_fuel(without_git, 2);
    assert(full.take(full.len() - 4) =~= path);
}

/// The canonical command of a payload stands at its top or in its data.
pub proof fn law_canonical_member(payload: crate::json::JsonView, inner: crate::json::JsonView)
    ensures
        payload.member("canonical_execution"@) is Some ==> canonical_member(payload)
            == payload.member("canonical_execution"@),
        payload.member("canonical_execution"@) is None && payload.member("data"@) == Some(inner)
            ==> canonical_member(payload) == inner.member("canonical_execution"@),
        payload.member("canonical_execution"@) is None && payload.member("data"@) is None
            ==> canonical_member(payload) is None,
{
}

/// Only commands are traced, by the canonical form in the output, or the one that the
/// arguments stand for.
pub proof fn law_traced_commands(step: StepView, f: TraceFacts)
    ensures
        step.decision.tool_name != Some("command.run"@) ==> command_of(step, f) is None,
        step.decision.tool_name == Some("command.run"@) && f.from_output is Some ==> command_of(
            step,
            f,
        ) == f.from_output,
        step.decision.tool_name == Some("command.run"@) && f.from_output is None ==> command_of(
            step,
            f,
        ) == f.from_arguments,
{
}

/// A command has run where it has an output and the policy neither denied it nor asked
/// for approval.
pub proof fn law_what_has_run(step: StepView)
    ensures
        !executed(step, Some(PolicyOutcome::Deny)),
        !executed(step, Some(PolicyOutcome::RequireApproval)),
        executed(step, Some(PolicyOutcome::Allow)) == (step.raw_tool_output is Some),
        executed(step, None) == (step.raw_tool_output is Some),
{
}

/// The stages of a command: one that waited is resolved and runs; one that is denied
/// stops at the decision; one that needs approval asks for it; any other runs where it
/// has an output. A tool's observation is the last stage.
pub proof fn law_stages(step: StepView, f: TraceFacts, pending: bool)
    ensures
        ({
            let stages = stages_of(step, f, pending);
            let ran = executed(step, f.outcome());
            let seen = step.observation matches Some(StepObservationView::Tool(_));
            let end = if seen {
                1int
            } else {
                0int
            };
            &&& seen ==> stages.last().stage == TraceStage::ObservationRecorded
            &&& ran && pending ==> {
                &&& stages.len() == 3 + end
                &&& stages[0].stage == TraceStage::ApprovalResolved
                &&& stages[1].stage == TraceStage::ExecutionStarted
                &&& stages[2].stage == TraceStage::ExecutionFinished
            }
            &&& !(ran && pending) ==> {
                &&& stages[0].stage == TraceStage::Canonicalized
                &&& stages[1].stage == TraceStage::PolicyDecided
                &&& f.policy is None ==> stages[1].policy == Some(TracePolicyView::AllowedByPolicy)
                &&& f.policy matches Some(p) ==> stages[1].policy == Some(
                    TracePolicyView::Decided { outcome: p.outcome, decision: p.decision@ },
                )
                &&& f.outcome() == Some(PolicyOutcome::Deny) ==> stages.len() == 2 + end
                &&& f.outcome() == Some(PolicyOutcome::RequireApproval) ==> stages.len() == 3 + end
                    && stages[2].stage == TraceStage::ApprovalRequested
                &&& ran ==> stages.len() == 4 + end && stages[2].stage
                    == TraceStage::ExecutionStarted && stages[3].stage
                    == TraceStage::ExecutionFinished
            }
        }),
{
}

/// In plan mode only the tools that read are visible, and no task can be created or
/// changed; otherwise every offered tool is that is not disallowed.
pub proof fn law_visible_tools(
    offered: Seq<Seq<char>>,
    read_only: Seq<Seq<char>>,
    disallowed: Seq<Seq<char>>,
    tool: Seq<char>,
)
    ensures
        visible_after(offered, read_only, disallowed, false).contains(tool) <==> offered.contains(
            tool,
        ) && !disallowed.contains(tool),
        visible_after(offered, read_only, disallowed, true).contains(tool) <==> offered.contains(
            tool,
        ) && read_only.contains(tool) && !disallowed.contains(tool) && tool != "task_create"@ && tool
            != "task_update"@,
        disallowed_after(disallowed, false) == disallowed,
        disallowed_after(disallowed, true).contains("task_create"@),
        disallowed_after(disallowed, true).contains("task_update"@),
{
    let blocked = disallowed_after(disallowed, true);
    lemma_kept(offered, disallowed, false, tool);
    lemma_kept(offered, read_only, true, tool);
    lemma_kept(kept(offered, read_only, true), blocked, false, tool);
    let two = seq!["task_create"@, "task_update"@];
    crate::task_laws::lemma_with_new(disallowed, two);
    assert(two[0] == "task_create"@ && two[1] == "task_update"@);
    assert(blocked.contains(tool) <==> disallowed.contains(tool) || tool == "task_create"@ || tool
        == "task_update"@) by {
        if blocked.contains(tool) {
            let i = choose|i: int| 0 <= i < blocked.len() && blocked[i] == tool;
            assert(disallowed.contains(blocked[i]) || two.contains(blocked[i]));
        }
        if disallowed.contains(tool) {
            let i = choose|i: int| 0 <= i < disallowed.len() && disallowed[i] == tool;
            assert(blocked.contains(disallowed[i]));
        }
    }
}

proof fn lemma_kept(list: Seq<Seq<char>>, names: Seq<Seq<char>>, keep: bool, tool: Seq<char>)
    ensures
        kept(list, names, keep).contains(tool) <==> list.contains(tool) && names.contains(tool)
            == keep,
    decreases list.len(),
{
    if list.len() > 0 {
        let front = list.drop_last();
        lemma_kept(front, names, keep, tool);
        let before = kept(front, names, keep);
        let after = kept(list, names, keep);
        if before.contains(tool) {
            let i = choose|i: int| 0 <= i < before.len() && before[i] == tool;
            assert(after[i] == tool);
        }
        if list.contains(tool) && !front.contains(tool) {
            let i = choose|i: int| 0 <= i < list.len() && list[i] == tool;
            if i < front.len() {
                assert(front[i] == tool);
            }
            if names.contains(tool) == keep {
                assert(after[after.len() - 1] == tool);
            }
        }
        if front.contains(tool) {
            let i = choose|i: int| 0 <= i < front.len() && front[i] == tool;
            assert(list[i] == tool);
        }
        if after.contains(tool) && !before.contains(tool) {
            let i = choose|i: int| 0 <= i < after.len() && after[i] == tool;
            if i < before.len() {
                assert(before[i] == tool);
            }
            assert(list[list.len() - 1] == tool);
        }
    }
}

/// The tools that are sent are built anew where there are none yet or the visible tools
/// have changed, and stay the same otherwise.
pub proof fn law_sent_tools(frozen: Seq<DefinitionView>, fresh: Seq<DefinitionView>)
    ensures
        schema_sent(None, false, fresh) == fresh,
        schema_sent(None, true, fresh) == fresh,
        schema_sent(Some(frozen), true, fresh) == fresh,
        schema_sent(Some(frozen), false, fresh) == frozen,
        rebuilds(Some(frozen), true),
        rebuilds(None, false),
        !rebuilds(Some(frozen), false),
{
}

/// A change of the mode and a change of the visible tools both call for a new schema.
pub proof fn law_what_dirties(
    visible: Seq<Seq<char>>,
    offered: Seq<Seq<char>>,
    read_only: Seq<Seq<char>>,
    disallowed: Seq<Seq<char>>,
    plan: bool,
)
    ensures
        refresh_dirties(Some(!plan), visible, offered, read_only, disallowed, plan),
        visible_after(offered, read_only, disallowed, plan) != visible ==> refresh_dirties(
            Some(plan),
            visible,
            offered,
            read_only,
            disallowed,
            plan,
        ),
        visible_after(offered, read_only, disallowed, false) == visible ==> !refresh_dirties(
            Some(false),
            visible,
            offered,
            read_only,
            disallowed,
            false,
        ),
{
}

/// The text of a stream is its pieces in order; a piece of a call that was not begun is
/// left out, and so is the end of one.
pub proof fn law_streamed_pieces(before: StreamView, text: String, id: String, piece: String)
    ensures
        ({
            let after = after_chunk(before, StreamChunk::TextDelta { text });
            &&& after.text == before.text + text@
            &&& after.pending == before.pending
            &&& after.finished == before.finished
            &&& after_chunk(before, StreamChunk::Done) == before
            &&& !before.pending.dom().contains(id@) ==> after_chunk(
                before,
                StreamChunk::ToolCallDelta { id, arguments_chunk: piece },
            ) == before && after_chunk(before, StreamChunk::ToolCallDone { id }) == before
        }),
{
}

/// Only a piece of text is told of, as it is.
pub proof fn law_streamed_events(step: u32, text: String, chunk: StreamChunk)
    ensures
        chunk_events(step, StreamChunk::TextDelta { text }) == seq![
            EventView::LlmTextDelta { step, text: text@, agent_id: None },
        ],
        !(chunk is TextDelta) ==> chunk_events(step, chunk).len() == 0,
{
}

/// What a call took is told with the sum of its tokens.
pub proof fn law_usage_is_told(
    step: u32,
    prompt: u64,
    output: u64,
    model: Option<Seq<char>>,
    created: u64,
    read: u64,
    compaction: bool,
)
    ensures
        usage_event(step, prompt, output, model, created, read, compaction) matches
            EventView::TokenUsage {
            step: s,
            prompt_tokens,
            output_tokens,
            total_tokens,
            model_id,
            cache_creation_input_tokens,
            cache_read_input_tokens,
            is_compaction,
        } && s == step && prompt_tokens == prompt && output_tokens == output && model_id == model
            && cache_creation_input_tokens == created && cache_read_input_tokens == read
            && is_compaction == compaction && (prompt + output <= u64::MAX ==> total_tokens == prompt
            + output),
{
}

/// A tool is found in a catalog by its name, the first of that name; a skill of the same
/// name is not it.
pub proof fn law_tools_by_catalog_name(entries: Seq<DescriptorView>, name: Seq<char>)
    ensures
        match tool_named(entries, name) {
            Some(s) => exists|i: int|
                0 <= i < entries.len() && (#[trigger] entries[i]).name == name && entries[i].kind
                    == ResourceKind::Tool && entries[i].selector == s,
            None => forall|i: int|
                0 <= i < entries.len() ==> !((#[trigger] entries[i]).name == name && entries[i].kind
                    == ResourceKind::Tool),
        },
    decreases entries.len(),
{
    if entries.len() > 0 {
        let rest = entries.skip(1);
        law_tools_by_catalog_name(rest, name);
        if !(entries[0].kind == ResourceKind::Tool && entries[0].name == name) {
            match tool_named(rest, name) {
                Some(s) => {
                    let i = choose|i: int|
                        0 <= i < rest.len() && (#[trigger] rest[i]).name == name && rest[i].kind
                            == ResourceKind::Tool && rest[i].selector == s;
                    assert(entries[i + 1].name == name);
                },
                None => {
                    assert forall|i: int| 0 <= i < entries.len() implies !((
                    #[trigger] entries[i]).name == name && entries[i].kind
                        == ResourceKind::Tool) by {
                        if i > 0 {
                            assert(rest[i - 1] == entries[i]);
                        }
                    }
                },
            }
        } else {
            assert(entries[0].name == name);
        }
    }
}

/// The capabilities of resources are those that their descriptions ask for.
pub proof fn law_required_capabilities(
    entries: Seq<DescriptorView>,
    list: Seq<SelectorView>,
    s: SelectorView,
    i: int,
)
    ensures
        capabilities_for(entries, seq![]).len() == 0,
        described(entries, s) is None ==> capabilities_for(entries, list.push(s))
            == capabilities_for(entries, list),
        described(entries, s) matches Some(d) ==> (0 <= i < d.required_capabilities.len()
            ==> capabilities_for(entries, list.push(s)).contains(d.required_capabilities[i])),
{
    assert(list.push(s).drop_last() =~= list);
    if let Some(d) = described(entries, s) {
        crate::task_laws::lemma_with_new(
            capabilities_for(entries, list),
            d.required_capabilities,
        );
    }
}

/// A new entry is taken into a catalog unless its name is taken; then it is reported.
pub proof fn law_catalog_grows(
    existing: Seq<DescriptorView>,
    incoming: Seq<DescriptorView>,
    d: DescriptorView,
)
    ensures
        has_name(existing, d.name) ==> without_collisions(existing, incoming.push(d))
            == without_collisions(existing, incoming) && collisions(existing, incoming.push(d))
            == collisions(existing, incoming).push(d.name),
        !has_name(existing, d.name) ==> without_collisions(existing, incoming.push(d))
            == without_collisions(existing, incoming).push(d) && collisions(
            existing,
            incoming.push(d),
        ) == collisions(existing, incoming),
        without_collisions(existing, seq![]).len() == 0,
        collisions(existing, seq![]).len() == 0,
{
    assert(incoming.push(d).drop_last() =~= incoming);
}

} // verus!

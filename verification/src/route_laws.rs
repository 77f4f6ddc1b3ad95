//! Where each kind of request is sent.

use crate::action_words::{filesystem_action, table_action};
use crate::catalog::{
    any_begins, executable_skill, filtered_candidates, plugin_names, plugins_of, route_risk,
    with_enabled, DescriptorView, ResourceRisk,
};
use crate::classifier::{
    broad_filesystem, broad_table, family_of_tool, merged_seed, tool_grounded, CatalogMatch,
    ClassifierView, GoalFacts,
};
use crate::classify::{
    can_start, classified, contract_match, grounded_family, named_skill, named_tool, names_tool,
    selected_match, skill_route, structural_fallback, usable_match, usable_upto, RequestFacts,
};
use crate::decision::{IntentFamily, RouteRisk};
use crate::grounding::web_query;
use crate::route::{EscalationAction, EscalationReason, RouteResultView};
use crate::snippet::{python_code, shell_code};
use crate::split::with_new;
use crate::task_laws::lemma_with_new;
use crate::text::{contains, starts_with};
use vstd::prelude::*;

verus! {

/// One command at most, and one target.
pub open spec fn single(q: RequestFacts) -> bool {
    &&& !contains(q.goal@, "&&"@)
    &&& !contains(q.goal@, "||"@)
    &&& !q.goal@.contains(';')
    &&& python_code(q.goal@) is Some || q.facts.has_glob_pattern || q.facts.explicit_paths@.len()
        <= 1
}

/// Nothing is to be explained rather than done.
pub open spec fn to_be_done(q: RequestFacts) -> bool {
    !q.facts.explanatory_shell_command && !q.facts.explanatory_python_code
}

/// What the request asks for is in it: the code to run, and the query to look up.
pub open spec fn nothing_missing(context: ClassifierView, q: RequestFacts) -> bool {
    &&& q.facts.requests_python_execution && context.enabled.contains("python.run"@)
        ==> python_code(q.goal@) is Some
    &&& q.facts.requests_web_lookup && context.enabled.contains("web.search"@) ==> web_query(
        q.goal@,
    ) is Some
}

/// The request can be routed by what it gives, and names no tool.
pub open spec fn open_request(context: ClassifierView, q: RequestFacts) -> bool {
    single(q) && to_be_done(q) && nothing_missing(context, q) && !names_tool(context, q.goal@)
}

/// The route leads into the tool loop with that one tool.
pub open spec fn routed_to(
    r: RouteResultView,
    family: IntentFamily,
    risk: RouteRisk,
    tool: Seq<char>,
) -> bool {
    &&& r matches RouteResultView::Direct { decision, kind, bound }
    &&& decision.intent_family == family
    &&& decision.candidate_tools == seq![tool]
    &&& decision.risk == risk
    &&& !decision.requires_multi_step
    &&& decision.missing_arguments.len() == 0
    &&& kind is ToolLoop
    &&& bound.len() == 0
}

/// The route leads into the tool loop without any tool.
pub open spec fn only_talk(r: RouteResultView) -> bool {
    &&& r matches RouteResultView::Direct { decision, kind, bound }
    &&& decision.intent_family == IntentFamily::Chat
    &&& decision.candidate_tools.len() == 0
    &&& !decision.requires_multi_step
    &&& decision.risk == RouteRisk::Low
    &&& kind is ToolLoop
    &&& bound.len() == 0
}

proof fn lemma_one(tool: Seq<char>, enabled: Seq<Seq<char>>)
    requires
        enabled.contains(tool),
    ensures
        filtered_candidates(None, seq![tool], enabled) == seq![tool],
{
    reveal_with_fuel(with_enabled, 2);
    let one = seq![tool];
    let none = Seq::<Seq<char>>::empty();
    assert(one.drop_last() =~= none);
    assert(with_enabled(none, one, enabled) =~= one);
}

proof fn lemma_none(enabled: Seq<Seq<char>>)
    ensures
        filtered_candidates(None, seq![], enabled).len() == 0,
{
}

/// Several commands or several targets are too much for one tool: the route goes into
/// the loop without a tool, and says so.
pub proof fn law_several_things_to_do(context: ClassifierView, q: RequestFacts)
    requires
        !single(q),
    ensures
        classified(context, q) matches RouteResultView::Direct { decision, kind, bound } && {
            &&& decision.intent_family == IntentFamily::MultiStep
            &&& decision.requires_multi_step
            &&& decision.risk == RouteRisk::Medium
            &&& decision.candidate_tools.len() == 0
            &&& kind is ToolLoop
            &&& bound.len() == 0
        },
{
    lemma_none(context.enabled);
}

/// A single request is never taken for several.
pub proof fn law_one_thing_to_do(context: ClassifierView, q: RequestFacts)
    requires
        single(q),
    ensures
        match classified(context, q) {
            RouteResultView::Direct { decision, .. } => !decision.requires_multi_step,
            RouteResultView::Escalate { decision, .. } => !decision.requires_multi_step,
        },
{
}

/// What is to be explained is answered without a tool.
pub proof fn law_explanations_are_answered(context: ClassifierView, q: RequestFacts)
    requires
        single(q),
        !to_be_done(q),
    ensures
        only_talk(classified(context, q)),
{
    lemma_none(context.enabled);
}

/// Code that is asked to be run but not given is asked for, and so is a query that is
/// not given; only where the tool for it is enabled.
pub proof fn law_missing_inputs_are_asked_for(context: ClassifierView, q: RequestFacts)
    requires
        single(q),
        to_be_done(q),
    ensures
        q.facts.requests_python_execution && context.enabled.contains("python.run"@)
            && python_code(q.goal@) is None ==> (classified(context, q) matches
            RouteResultView::Escalate { decision, reason, action } && decision.intent_family
            == IntentFamily::CodeExec && decision.missing_arguments == seq!["code"@] && reason
            == EscalationReason::MissingArguments && action == EscalationAction::AskForMoreInfo),
        (!q.facts.requests_python_execution || !context.enabled.contains("python.run"@)
            || python_code(q.goal@) is Some) && q.facts.requests_web_lookup
            && context.enabled.contains("web.search"@) && web_query(q.goal@) is None ==> (
        classified(context, q) matches RouteResultView::Escalate { decision, reason, action }
            && decision.intent_family == IntentFamily::WebLookup && decision.missing_arguments
            == seq!["query"@] && reason == EscalationReason::MissingArguments && action
            == EscalationAction::AskForMoreInfo),
        nothing_missing(context, q) ==> (classified(context, q) matches RouteResultView::Escalate {
            decision,
            reason,
            action,
        } ==> decision.missing_arguments.len() == 0 && reason
            == EscalationReason::NoEnabledRouteTarget),
{
}

/// Python code that may be run goes to `python.run`.
pub proof fn law_python_code_is_run(context: ClassifierView, q: RequestFacts)
    requires
        open_request(context, q),
        q.facts.python_code_allows_execution,
        python_code(q.goal@) is Some,
        context.enabled.contains("python.run"@),
    ensures
        routed_to(
            classified(context, q),
            IntentFamily::CodeExec,
            RouteRisk::Medium,
            "python.run"@,
        ),
{
    lemma_one("python.run"@, context.enabled);
}

/// No Python code is to be run, or it cannot be.
pub open spec fn no_python(context: ClassifierView, q: RequestFacts) -> bool {
    !q.facts.python_code_allows_execution || python_code(q.goal@) is None
        || !context.enabled.contains("python.run"@)
}

pub open spec fn no_command(context: ClassifierView, q: RequestFacts) -> bool {
    !q.facts.shell_command_allows_execution || shell_code(q.goal@) is None
        || !context.enabled.contains("command.run"@)
}

pub open spec fn no_lookup(context: ClassifierView, q: RequestFacts) -> bool {
    !q.facts.requests_web_lookup || web_query(q.goal@) is None || !context.enabled.contains(
        "web.search"@,
    )
}

pub open spec fn no_pattern(context: ClassifierView, q: RequestFacts) -> bool {
    !q.facts.has_glob_pattern || !context.enabled.contains("fs.glob"@)
}

pub open spec fn no_table(context: ClassifierView, q: RequestFacts) -> bool {
    !q.facts.has_explicit_table_path || !any_begins(context.enabled, "table."@)
}

/// A shell command that may be run goes to `command.run`.
pub proof fn law_command_is_run(context: ClassifierView, q: RequestFacts)
    requires
        open_request(context, q),
        no_python(context, q),
        q.facts.shell_command_allows_execution,
        shell_code(q.goal@) is Some,
        context.enabled.contains("command.run"@),
    ensures
        routed_to(
            classified(context, q),
            IntentFamily::CodeExec,
            RouteRisk::Medium,
            "command.run"@,
        ),
{
    lemma_one("command.run"@, context.enabled);
}

/// A web lookup with a query goes to `web.search`.
pub proof fn law_lookup_is_searched(context: ClassifierView, q: RequestFacts)
    requires
        open_request(context, q),
        no_python(context, q),
        no_command(context, q),
        q.facts.requests_web_lookup,
        web_query(q.goal@) is Some,
        context.enabled.contains("web.search"@),
    ensures
        routed_to(
            classified(context, q),
            IntentFamily::WebLookup,
            RouteRisk::Low,
            "web.search"@,
        ),
{
    lemma_one("web.search"@, context.enabled);
}

/// A pattern of paths goes to `fs.glob`.
pub proof fn law_pattern_is_matched(context: ClassifierView, q: RequestFacts)
    requires
        open_request(context, q),
        no_python(context, q),
        no_command(context, q),
        no_lookup(context, q),
        q.facts.has_glob_pattern,
        context.enabled.contains("fs.glob"@),
    ensures
        routed_to(
            classified(context, q),
            IntentFamily::FilesystemRead,
            RouteRisk::Low,
            "fs.glob"@,
        ),
{
    lemma_one("fs.glob"@, context.enabled);
}

/// The candidates are those of the starters that are enabled, in their order.
pub open spec fn starts_with_tools(
    r: RouteResultView,
    family: IntentFamily,
    starters: Seq<Seq<char>>,
    enabled: Seq<Seq<char>>,
) -> bool {
    &&& r matches RouteResultView::Direct { decision, kind, bound }
    &&& decision.intent_family == family
    &&& decision.risk == RouteRisk::Low
    &&& !decision.requires_multi_step
    &&& kind is ToolLoop
    &&& bound.len() == 0
    &&& forall|i: int|
        0 <= i < decision.candidate_tools.len() ==> starters.contains(
            #[trigger] decision.candidate_tools[i],
        )
    &&& forall|i: int|
        0 <= i < starters.len() && enabled.contains(#[trigger] starters[i])
            ==> decision.candidate_tools.contains(starters[i])
}

proof fn lemma_some_of(names: Seq<Seq<char>>, enabled: Seq<Seq<char>>)
    ensures
        ({
            let chosen = with_enabled(seq![], names, enabled);
            &&& forall|i: int|
                0 <= i < chosen.len() ==> names.contains(#[trigger] chosen[i])
            &&& forall|i: int|
                0 <= i < names.len() && enabled.contains(#[trigger] names[i]) ==> chosen.contains(
                    names[i],
                )
        }),
    decreases names.len(),
{
    let none = Seq::<Seq<char>>::empty();
    let chosen = with_enabled(none, names, enabled);
    if names.len() > 0 {
        let before = with_enabled(none, names.drop_last(), enabled);
        lemma_some_of(names.drop_last(), enabled);
        assert forall|i: int| 0 <= i < chosen.len() implies names.contains(#[trigger] chosen[i]) by {
            if i < before.len() {
                assert(chosen[i] == before[i]);
                let k = choose|k: int|
                    0 <= k < names.drop_last().len() && names.drop_last()[k] == before[i];
                assert(names[k] == chosen[i]);
            } else {
                assert(names[names.len() - 1] == chosen[i]);
            }
        }
        assert forall|i: int| 0 <= i < names.len() && enabled.contains(
            #[trigger] names[i],
        ) implies chosen.contains(names[i]) by {
            if i < names.len() - 1 {
                assert(names.drop_last()[i] == names[i]);
                let k = choose|k: int| 0 <= k < before.len() && before[k] == names[i];
                assert(chosen[k] == names[i]);
            } else if before.contains(names.last()) {
                let k = choose|k: int| 0 <= k < before.len() && before[k] == names.last();
                assert(chosen[k] == names[i]);
            } else {
                assert(chosen[chosen.len() - 1] == names[i]);
            }
        }
    }
}

/// A table that the request names goes to the table tool that its words ask for, where
/// the table can be used as it stands and the tool is enabled, and otherwise to the
/// tools that look at tables first.
pub proof fn law_table_is_looked_at(context: ClassifierView, q: RequestFacts)
    requires
        open_request(context, q),
        no_python(context, q),
        no_command(context, q),
        no_lookup(context, q),
        no_pattern(context, q),
        q.facts.has_explicit_table_path,
        any_begins(context.enabled, "table."@),
    ensures
        ({
            let asked = table_action(q.goal@, q.facts.paths());
            if q.facts.has_concrete_table_path && asked is Some && context.enabled.contains(
                asked->0,
            ) {
                routed_to(
                    classified(context, q),
                    IntentFamily::TableRead,
                    RouteRisk::Low,
                    asked->0,
                )
            } else {
                starts_with_tools(
                    classified(context, q),
                    IntentFamily::TableRead,
                    seq!["table.inspect"@, "table.preview"@, "table.list_sheets"@],
                    context.enabled,
                )
            }
        }),
{
    let asked = table_action(q.goal@, q.facts.paths());
    if let Some(tool) = asked {
        if context.enabled.contains(tool) {
            lemma_one(tool, context.enabled);
        }
    }
    lemma_some_of(broad_table(), context.enabled);
}

/// The tools that a broad request over the filesystem starts with.
pub open spec fn filesystem_starters(f: GoalFacts) -> Seq<Seq<char>> {
    if f.has_glob_pattern {
        seq!["fs.glob"@, "fs.find"@, "fs.inspect"@]
    } else if f.has_concrete_path {
        seq!["fs.inspect"@, "fs.read_text"@, "fs.list_dir"@]
    } else {
        seq!["fs.find"@, "fs.glob"@, "fs.inspect"@]
    }
}

/// A path that the request names goes to the tool that its words ask for, where the path
/// can be used as it stands and the tool is enabled, and otherwise to the tools that look
/// at files first.
pub proof fn law_path_is_looked_at(context: ClassifierView, q: RequestFacts)
    requires
        open_request(context, q),
        no_python(context, q),
        no_command(context, q),
        no_lookup(context, q),
        no_pattern(context, q),
        no_table(context, q),
        q.facts.explicit_paths@.len() > 0,
        any_begins(context.enabled, "fs."@),
    ensures
        ({
            let asked = filesystem_action(q.goal@, q.facts.paths());
            if q.facts.has_concrete_path && asked is Some && context.enabled.contains(asked->0) {
                routed_to(
                    classified(context, q),
                    IntentFamily::FilesystemRead,
                    RouteRisk::Low,
                    asked->0,
                )
            } else {
                starts_with_tools(
                    classified(context, q),
                    IntentFamily::FilesystemRead,
                    filesystem_starters(*q.facts),
                    context.enabled,
                )
            }
        }),
{
    assert(q.facts.paths().len() == q.facts.explicit_paths@.len());
    let asked = filesystem_action(q.goal@, q.facts.paths());
    if let Some(tool) = asked {
        if context.enabled.contains(tool) {
            lemma_one(tool, context.enabled);
        }
    }
    lemma_some_of(broad_filesystem(*q.facts), context.enabled);
    assert(broad_filesystem(*q.facts) =~= filesystem_starters(*q.facts));
}

/// A tool that the request names, and gives what it needs for, is the one candidate, in
/// the family of its name and with its own risk.
pub proof fn law_named_tool_is_taken(context: ClassifierView, q: RequestFacts)
    requires
        single(q),
        to_be_done(q),
        nothing_missing(context, q),
        names_tool(context, q.goal@),
        named_tool(context, q.goal@) is Some,
        context.enabled.contains(named_tool(context, q.goal@)->0.name),
        tool_grounded(named_tool(context, q.goal@)->0.name, q.goal@, *q.facts),
    ensures
        ({
            let d = named_tool(context, q.goal@)->0;
            routed_to(
                classified(context, q),
                family_of_tool(d.name),
                match d.risk {
                    ResourceRisk::Low => RouteRisk::Low,
                    ResourceRisk::Medium => RouteRisk::Medium,
                    ResourceRisk::High => RouteRisk::High,
                },
                d.name,
            )
        }),
{
    lemma_one(named_tool(context, q.goal@)->0.name, context.enabled);
}

proof fn lemma_prefix_clash(name: Seq<char>, p: Seq<char>, q: Seq<char>)
    requires
        starts_with(name, p),
        p.len() > 0,
        q.len() > 0,
        p[0] != q[0],
    ensures
        !starts_with(name, q),
{
    assert(name.subrange(0, p.len() as int)[0] == name[0]);
    if starts_with(name, q) {
        assert(name.subrange(0, q.len() as int)[0] == name[0]);
    }
}

/// The family of a tool is told by the beginning of its name.
pub proof fn law_family_by_name(tool: Seq<char>)
    ensures
        starts_with(tool, "fs."@) ==> family_of_tool(tool) == IntentFamily::FilesystemRead,
        starts_with(tool, "table."@) ==> family_of_tool(tool) == IntentFamily::TableRead,
        starts_with(tool, "web."@) ==> family_of_tool(tool) == IntentFamily::WebLookup,
        starts_with(tool, "python."@) ==> family_of_tool(tool) == IntentFamily::CodeExec,
        starts_with(tool, "command."@) ==> family_of_tool(tool) == IntentFamily::CodeExec,
        !starts_with(tool, "fs."@) && !starts_with(tool, "table."@) && !starts_with(tool, "web."@)
            && !starts_with(tool, "python."@) && !starts_with(tool, "command."@)
            ==> family_of_tool(tool) == IntentFamily::TextTransform,
{
    reveal_strlit("fs.");
    reveal_strlit("table.");
    reveal_strlit("web.");
    reveal_strlit("python.");
    reveal_strlit("command.");
    assert("fs."@[0] == 'f' && "table."@[0] == 't' && "web."@[0] == 'w' && "python."@[0] == 'p'
        && "command."@[0] == 'c');
    if starts_with(tool, "table."@) {
        lemma_prefix_clash(tool, "table."@, "fs."@);
    }
    if starts_with(tool, "web."@) {
        lemma_prefix_clash(tool, "web."@, "fs."@);
        lemma_prefix_clash(tool, "web."@, "table."@);
    }
    if starts_with(tool, "python."@) {
        lemma_prefix_clash(tool, "python."@, "fs."@);
        lemma_prefix_clash(tool, "python."@, "table."@);
        lemma_prefix_clash(tool, "python."@, "web."@);
    }
    if starts_with(tool, "command."@) {
        lemma_prefix_clash(tool, "command."@, "fs."@);
        lemma_prefix_clash(tool, "command."@, "table."@);
        lemma_prefix_clash(tool, "command."@, "web."@);
    }
}

/// What a request has to give for the tool that it names.
pub proof fn law_what_grounds_a_tool(goal: Seq<char>, f: GoalFacts, tool: Seq<char>)
    ensures
        tool_grounded("fs.exists"@, goal, f) == f.has_concrete_path,
        tool_grounded("fs.inspect"@, goal, f) == f.has_concrete_path,
        tool_grounded("fs.list_dir"@, goal, f) == f.has_concrete_path,
        tool_grounded("fs.read_text"@, goal, f) == f.has_concrete_path,
        tool_grounded("fs.find"@, goal, f) == (f.explicit_paths@.len() > 0),
        tool_grounded("fs.glob"@, goal, f) == f.has_glob_pattern,
        tool_grounded("table.inspect"@, goal, f) == f.has_concrete_table_path,
        tool_grounded("table.list_sheets"@, goal, f) == f.has_concrete_table_path,
        tool_grounded("table.preview"@, goal, f) == f.has_concrete_table_path,
        tool_grounded("table.schema"@, goal, f) == f.has_concrete_table_path,
        tool_grounded("web.search"@, goal, f) == (f.requests_web_lookup && web_query(goal) is Some),
        tool_grounded("command.run"@, goal, f) == f.shell_command_allows_execution,
        tool_grounded("python.run"@, goal, f) == f.python_code_allows_execution,
        tool_grounded("skill.install"@, goal, f) == f.has_skill_source_url,
        tool_grounded("skill.ensure_installed"@, goal, f) == f.has_skill_source_url,
{
    reveal_strlit("fs.exists");
    reveal_strlit("fs.inspect");
    reveal_strlit("fs.list_dir");
    reveal_strlit("fs.read_text");
    reveal_strlit("fs.find");
    reveal_strlit("fs.glob");
    reveal_strlit("table.inspect");
    reveal_strlit("table.list_sheets");
    reveal_strlit("table.preview");
    reveal_strlit("table.schema");
    reveal_strlit("web.search");
    reveal_strlit("command.run");
    reveal_strlit("python.run");
    reveal_strlit("skill.install");
    reveal_strlit("skill.ensure_installed");
    assert("fs.exists"@[3] == 'e' && "fs.inspect"@[3] == 'i' && "fs.list_dir"@[3] == 'l'
        && "fs.read_text"@[3] == 'r' && "fs.find"@[3] == 'f' && "fs.glob"@[3] == 'g');
    assert("fs.exists"@[0] == 'f' && "fs.inspect"@[0] == 'f' && "fs.list_dir"@[0] == 'f'
        && "fs.read_text"@[0] == 'f' && "fs.find"@[0] == 'f' && "fs.glob"@[0] == 'f');
    assert("table.inspect"@[0] == 't' && "table.list_sheets"@[0] == 't' && "table.preview"@[0]
        == 't' && "table.schema"@[0] == 't');
    assert("web.search"@[0] == 'w' && "command.run"@[0] == 'c' && "python.run"@[0] == 'p');
    assert("skill.install"@[0] == 's' && "skill.ensure_installed"@[0] == 's');
    assert("skill.install"@[6] == 'i' && "skill.ensure_installed"@[6] == 'e');
    assert(f.paths().len() == f.explicit_paths@.len());
}

/// What the request is for cannot be used: it is answered without tools, in the family
/// that it is for.
pub open spec fn is_unavailable(r: RouteResultView, family: IntentFamily) -> bool {
    &&& r matches RouteResultView::Escalate { decision, reason, action }
    &&& decision.intent_family == family
    &&& decision.candidate_tools.len() == 0
    &&& decision.missing_arguments.len() == 0
    &&& decision.risk == RouteRisk::Low
    &&& reason == EscalationReason::NoEnabledRouteTarget
    &&& action == EscalationAction::FallbackAnswer
}

/// A request that gives something for which no tool is enabled falls back to an answer:
/// code, a command, a lookup, a table or a path, whichever comes first.
pub proof fn law_unavailable_families(context: ClassifierView, f: GoalFacts)
    ensures
        ({
            let python = f.python_code_allows_execution && !context.enabled.contains(
                "python.run"@,
            );
            let command = f.shell_command_allows_execution && !context.enabled.contains(
                "command.run"@,
            );
            let lookup = f.requests_web_lookup && !context.enabled.contains("web.search"@);
            let table = f.has_explicit_table_path && !any_begins(context.enabled, "table."@);
            let path = (f.has_glob_pattern || f.explicit_paths@.len() > 0) && !any_begins(
                context.enabled,
                "fs."@,
            );
            match structural_fallback(context, f) {
                None => !python && !command && !lookup && !table && !path,
                Some(r) => if python || command {
                    is_unavailable(r, IntentFamily::CodeExec)
                } else if lookup {
                    is_unavailable(r, IntentFamily::WebLookup)
                } else if table {
                    is_unavailable(r, IntentFamily::TableRead)
                } else {
                    path && is_unavailable(r, IntentFamily::FilesystemRead)
                },
            }
        }),
{
    assert(f.paths().len() == f.explicit_paths@.len());
}

/// A skill is bound to the route. It is run by the skill tool where that is asked for
/// and possible; where it is asked for and not possible, the request is answered
/// without tools.
pub proof fn law_skill_routes(
    context: ClassifierView,
    d: DescriptorView,
    asked: bool,
    reason: Seq<char>,
)
    ensures
        ({
            let r = skill_route(context, d, asked, reason);
            let runs = executable_skill(d) && asked;
            match r {
                RouteResultView::Direct { decision, kind, bound } => {
                    &&& !runs || context.skills_run
                    &&& decision.intent_family == IntentFamily::TextTransform
                    &&& decision.risk == route_risk(d.risk)
                    &&& decision.reason == reason
                    &&& bound == seq![d.selector]
                    &&& kind is ToolLoop
                    &&& !runs ==> decision.candidate_tools.len() == 0
                    &&& runs && context.enabled.contains(context.skill_tool)
                        ==> decision.candidate_tools == seq![context.skill_tool]
                    &&& !runs ==> decision.candidate_plugins == seq!["skill-source-local"@]
                    &&& runs ==> decision.candidate_plugins == seq![
                        "builtin-tools"@,
                        "skill-source-local"@,
                    ]
                },
                RouteResultView::Escalate { decision, reason, action } => {
                    &&& runs && !context.skills_run
                    &&& reason == EscalationReason::NoEnabledRouteTarget
                    &&& action == EscalationAction::FallbackAnswer
                    &&& decision.candidate_tools.len() == 0
                    &&& decision.risk == route_risk(d.risk)
                },
            }
        }),
{
    if context.enabled.contains(context.skill_tool) {
        reveal_with_fuel(with_enabled, 2);
        let one = seq![context.skill_tool];
        let none = Seq::<Seq<char>>::empty();
        assert(one.drop_last() =~= none);
        assert(with_enabled(none, one, context.enabled) =~= one);
        assert(with_enabled(one, one, context.enabled) =~= one);
    }
}

/// A skill's scripts make it one that can be run.
pub proof fn law_executable_skills(d: DescriptorView)
    ensures
        d.tags.contains("executable-skill"@) ==> executable_skill(d),
        d.tags.contains("has-scripts"@) ==> executable_skill(d),
        d.tags.len() == 0 && d.key_commands.len() == 0 ==> !executable_skill(d),
{
}

/// The risk of a resource is the risk of its route.
pub proof fn law_risk_is_taken_over()
    ensures
        route_risk(ResourceRisk::Low) == RouteRisk::Low,
        route_risk(ResourceRisk::Medium) == RouteRisk::Medium,
        route_risk(ResourceRisk::High) == RouteRisk::High,
{
}

/// A request that fits nothing is only talked about, with or without a model that
/// routes.
pub proof fn law_unmatched_requests_are_talked_about(context: ClassifierView, q: RequestFacts)
    requires
        open_request(context, q),
        no_python(context, q),
        no_command(context, q),
        no_lookup(context, q),
        no_pattern(context, q),
        no_table(context, q),
        q.facts.explicit_paths@.len() == 0,
        named_skill(context, q.goal@) is None,
        structural_fallback(context, *q.trimmed_facts) is None,
        q.tool_matches@.len() == 0,
    ensures
        only_talk(classified(context, q)),
{
    assert(q.facts.paths().len() == q.facts.explicit_paths@.len());
    lemma_none(context.enabled);
}

proof fn lemma_plugin(tool: Seq<char>, prefix: Seq<char>)
    requires
        starts_with(tool, prefix),
        prefix == "fs."@ || prefix == "table."@ || prefix == "web."@ || prefix == "command."@
            || prefix == "python."@,
    ensures
        prefix != "fs."@ ==> !starts_with(tool, "fs."@),
        prefix != "table."@ ==> !starts_with(tool, "table."@),
        prefix != "web."@ ==> !starts_with(tool, "web."@),
        prefix != "command."@ ==> !starts_with(tool, "command."@),
        prefix != "python."@ ==> !starts_with(tool, "python."@),
        !starts_with(tool, "skill."@),
        tool != "skill.install"@,
        tool != "skill.ensure_installed"@,
        tool != "skill.execute"@,
{
    reveal_strlit("fs.");
    reveal_strlit("table.");
    reveal_strlit("web.");
    reveal_strlit("python.");
    reveal_strlit("command.");
    reveal_strlit("skill.");
    reveal_strlit("skill.install");
    reveal_strlit("skill.ensure_installed");
    reveal_strlit("skill.execute");
    assert("fs."@[0] == 'f' && "table."@[0] == 't' && "web."@[0] == 'w' && "python."@[0] == 'p'
        && "command."@[0] == 'c' && "skill."@[0] == 's' && "skill.install"@[0] == 's'
        && "skill.ensure_installed"@[0] == 's' && "skill.execute"@[0] == 's');
    assert(tool.subrange(0, prefix.len() as int)[0] == tool[0]);
    if prefix != "fs."@ {
        lemma_prefix_clash(tool, prefix, "fs."@);
    }
    if prefix != "table."@ {
        lemma_prefix_clash(tool, prefix, "table."@);
    }
    if prefix != "web."@ {
        lemma_prefix_clash(tool, prefix, "web."@);
    }
    if prefix != "command."@ {
        lemma_prefix_clash(tool, prefix, "command."@);
    }
    if prefix != "python."@ {
        lemma_prefix_clash(tool, prefix, "python."@);
    }
    lemma_prefix_clash(tool, prefix, "skill."@);
}

/// The plugin that brings the tools of each family.
pub proof fn law_plugin_by_name(tool: Seq<char>)
    ensures
        starts_with(tool, "fs."@) ==> plugin_names(tool) == seq!["core-fs"@],
        starts_with(tool, "table."@) ==> plugin_names(tool) == seq!["core-table"@],
        starts_with(tool, "web."@) ==> plugin_names(tool) == seq!["core-web"@],
        starts_with(tool, "command."@) ==> plugin_names(tool) == seq!["core-command"@],
        starts_with(tool, "python."@) ==> plugin_names(tool) == seq!["core-python"@],
        starts_with(tool, "skill."@) ==> plugin_names(tool).contains("skill-source-local"@),
{
    reveal_strlit("fs.");
    reveal_strlit("table.");
    reveal_strlit("web.");
    reveal_strlit("python.");
    reveal_strlit("command.");
    assert("fs."@[0] == 'f' && "table."@[0] == 't' && "web."@[0] == 'w' && "python."@[0] == 'p'
        && "command."@[0] == 'c');
    if starts_with(tool, "fs."@) {
        lemma_plugin(tool, "fs."@);
        assert(plugin_names(tool) =~= seq!["core-fs"@]);
    }
    if starts_with(tool, "table."@) {
        lemma_plugin(tool, "table."@);
        assert(plugin_names(tool) =~= seq!["core-table"@]);
    }
    if starts_with(tool, "web."@) {
        lemma_plugin(tool, "web."@);
        assert(plugin_names(tool) =~= seq!["core-web"@]);
    }
    if starts_with(tool, "command."@) {
        lemma_plugin(tool, "command."@);
        assert(plugin_names(tool) =~= seq!["core-command"@]);
    }
    if starts_with(tool, "python."@) {
        lemma_plugin(tool, "python."@);
        assert(plugin_names(tool) =~= seq!["core-python"@]);
    }
    if starts_with(tool, "skill."@) {
        let all = plugin_names(tool);
        let k = if tool == "skill.install"@ || tool == "skill.ensure_installed"@ || tool
            == "skill.execute"@ {
            1int
        } else {
            0int
        };
        assert(all[k] == "skill-source-local"@);
    }
}

/// How sure each kind of route is.
pub proof fn law_confidences(context: ClassifierView, q: RequestFacts)
    ensures
        !single(q) ==> (classified(context, q) matches RouteResultView::Direct { decision, .. }
            && decision.confidence == "0.9"@),
        single(q) && q.facts.explanatory_shell_command ==> (classified(context, q) matches
            RouteResultView::Direct { decision, .. } && decision.confidence == "0.81"@),
        single(q) && !q.facts.explanatory_shell_command && q.facts.explanatory_python_code ==> (
        classified(context, q) matches RouteResultView::Direct { decision, .. }
            && decision.confidence == "0.8"@),
        classified(context, q) matches RouteResultView::Escalate { decision, reason, .. } ==> (
        reason == EscalationReason::MissingArguments ==> decision.confidence == "0.78"@),
        open_request(context, q) && q.facts.requests_web_lookup && web_query(q.goal@) is Some
            && context.enabled.contains("web.search"@) && no_python(context, q) && no_command(
            context,
            q,
        ) ==> (classified(context, q) matches RouteResultView::Direct { decision, .. }
            && decision.confidence == "0.6"@),
        open_request(context, q) && q.facts.python_code_allows_execution && python_code(q.goal@)
            is Some && context.enabled.contains("python.run"@) ==> (classified(context, q) matches
            RouteResultView::Direct { decision, .. } && decision.confidence == "0.6"@),
{
}

/// The family that a request is for by what it gives: code before a lookup, a lookup before
/// a table, a table before any other file.
pub proof fn law_family_of_a_request(goal: Seq<char>, f: GoalFacts)
    ensures
        ({
            let code = f.python_code_allows_execution || f.shell_command_allows_execution;
            let lookup = f.requests_web_lookup && web_query(goal) is Some;
            let files = f.has_glob_pattern || f.explicit_paths@.len() > 0;
            &&& code ==> grounded_family(goal, f) == Some(IntentFamily::CodeExec)
            &&& !code && lookup ==> grounded_family(goal, f) == Some(IntentFamily::WebLookup)
            &&& !code && !lookup && f.has_explicit_table_path ==> grounded_family(goal, f) == Some(
                IntentFamily::TableRead,
            )
            &&& !code && !lookup && !f.has_explicit_table_path && files ==> grounded_family(goal, f)
                == Some(IntentFamily::FilesystemRead)
            &&& !code && !lookup && !f.has_explicit_table_path && !files ==> grounded_family(
                goal,
                f,
            ) is None
        }),
{
    assert(f.paths().len() == f.explicit_paths@.len());
}

/// A tool that the catalog found is used only where it may be offered, is enabled, states
/// its contract, can be started with what the request gives, and is of the request's
/// family.
pub proof fn law_usable_matches(
    context: ClassifierView,
    m: CatalogMatch,
    goal: Seq<char>,
    f: GoalFacts,
)
    ensures
        usable_match(context, m, goal, f) ==> {
            &&& m.descriptor.discoverable
            &&& m.descriptor.has_contract
            &&& context.enabled.contains(m.descriptor.name@)
            &&& can_start(m, goal, f)
            &&& grounded_family(goal, f) matches Some(family) ==> family_of_tool(m.descriptor.name@)
                == family
        },
        m.descriptor.discoverable && m.descriptor.has_contract && context.enabled.contains(
            m.descriptor.name@,
        ) && can_start(m, goal, f) && grounded_family(goal, f) is None ==> usable_match(
            context,
            m,
            goal,
            f,
        ),
{
}

/// What a request has to give before a tool that was found can be started.
pub proof fn law_what_starts_a_tool(m: CatalogMatch, goal: Seq<char>, f: GoalFacts)
    ensures
        ({
            let tool = m.descriptor.name@;
            let by_path = tool == "fs.exists"@ || tool == "fs.inspect"@ || tool == "fs.list_dir"@
                || tool == "fs.read_text"@;
            let by_table = tool == "table.inspect"@ || tool == "table.list_sheets"@ || tool
                == "table.preview"@ || tool == "table.schema"@;
            let special = tool == "python.run"@ || tool == "command.run"@ || tool == "web.search"@
                || tool == "fs.glob"@ || tool == "fs.find"@ || by_path || by_table;
            &&& tool == "python.run"@ ==> can_start(m, goal, f) == (f.python_code_allows_execution
                && m.arguments_grounded)
            &&& tool == "command.run"@ ==> can_start(m, goal, f) == (
            f.shell_command_allows_execution && m.arguments_grounded)
            &&& tool == "web.search"@ ==> can_start(m, goal, f) == (f.requests_web_lookup
                && web_query(goal) is Some)
            &&& tool == "fs.glob"@ ==> can_start(m, goal, f) == f.has_glob_pattern
            &&& tool == "fs.find"@ ==> can_start(m, goal, f) == (f.explicit_paths@.len() > 0
                && filesystem_action(goal, f.paths()) == Some(tool))
            &&& by_path ==> can_start(m, goal, f) == (f.has_concrete_path && filesystem_action(
                goal,
                f.paths(),
            ) == Some(tool))
            &&& by_table ==> can_start(m, goal, f) == (f.has_concrete_table_path && table_action(
                goal,
                f.paths(),
            ) == Some(tool))
            &&& !special ==> can_start(m, goal, f) == (!m.requires_arguments
                || m.arguments_grounded)
        }),
{
    reveal_strlit("fs.exists");
    reveal_strlit("fs.inspect");
    reveal_strlit("fs.list_dir");
    reveal_strlit("fs.read_text");
    reveal_strlit("fs.find");
    reveal_strlit("fs.glob");
    reveal_strlit("table.inspect");
    reveal_strlit("table.list_sheets");
    reveal_strlit("table.preview");
    reveal_strlit("table.schema");
    reveal_strlit("web.search");
    reveal_strlit("command.run");
    reveal_strlit("python.run");
    assert("fs.exists"@[3] == 'e' && "fs.inspect"@[3] == 'i' && "fs.list_dir"@[3] == 'l'
        && "fs.read_text"@[3] == 'r' && "fs.find"@[3] == 'f' && "fs.glob"@[3] == 'g');
    assert("fs.exists"@[0] == 'f' && "fs.inspect"@[0] == 'f' && "fs.list_dir"@[0] == 'f'
        && "fs.read_text"@[0] == 'f' && "fs.find"@[0] == 'f' && "fs.glob"@[0] == 'f');
    assert("table.inspect"@[0] == 't' && "table.list_sheets"@[0] == 't' && "table.preview"@[0]
        == 't' && "table.schema"@[0] == 't');
    assert("web.search"@[0] == 'w' && "command.run"@[0] == 'c' && "python.run"@[0] == 'p');
    assert(f.paths().len() == f.explicit_paths@.len());
}

/// Of the tools that the catalog found, the first that can be used is taken, where no
/// model routes and the match is good enough.
pub proof fn law_first_match_is_taken(
    context: ClassifierView,
    matches: Seq<CatalogMatch>,
    goal: Seq<char>,
    f: GoalFacts,
    good: bool,
    i: int,
)
    requires
        0 <= i < matches.len(),
        usable_match(context, matches[i], goal, f),
        forall|j: int| 0 <= j < i ==> !usable_match(context, #[trigger] matches[j], goal, f),
    ensures
        good ==> selected_match(context, matches, goal, f, good) == Some(i),
        !good ==> selected_match(context, matches, goal, f, good) is None,
        context.has_router ==> contract_match(context, matches, goal, f, good) is None,
        good && !context.has_router && !names_tool(context, goal) ==> (contract_match(
            context,
            matches,
            goal,
            f,
            good,
        ) matches Some(RouteResultView::Direct { decision, .. }) && decision.intent_family
            == family_of_tool(matches[i].descriptor.name@) && decision.confidence == "0.82"@
            && decision.risk == route_risk(matches[i].descriptor.risk)),
{
    lemma_first_usable(context, matches, goal, f, matches.len() as int, i);
}

proof fn lemma_first_usable(
    context: ClassifierView,
    matches: Seq<CatalogMatch>,
    goal: Seq<char>,
    f: GoalFacts,
    n: int,
    i: int,
)
    requires
        0 <= n <= matches.len(),
        0 <= i < matches.len(),
        usable_match(context, matches[i], goal, f),
        forall|j: int| 0 <= j < i ==> !usable_match(context, #[trigger] matches[j], goal, f),
    ensures
        n <= i ==> usable_upto(context, matches, goal, f, n).len() == 0,
        n > i ==> usable_upto(context, matches, goal, f, n).len() > 0 && usable_upto(
            context,
            matches,
            goal,
            f,
            n,
        )[0] == i,
    decreases n,
{
    if n > 0 {
        lemma_first_usable(context, matches, goal, f, n - 1, i);
        if n - 1 < i {
            assert(!usable_match(context, matches[n - 1], goal, f));
        }
    }
}

/// The starters of its family join a tool that was found, three candidates at most, the
/// tool first.
pub proof fn law_seeds(seed: Seq<char>, starters: Seq<Seq<char>>)
    ensures
        merged_seed(seq![seed], starters).len() <= 3,
        merged_seed(seq![seed], starters).len() > 0,
        merged_seed(seq![seed], starters)[0] == seed,
        merged_seed(seq![], seq![]).len() == 0,
{
    let none = Seq::<Seq<char>>::empty();
    let one = seq![seed];
    let first = with_new(none, one);
    lemma_with_new(none, one);
    lemma_with_new(first, starters);
    reveal_with_fuel(with_new, 2);
    assert(one.drop_last() =~= none);
    assert(first =~= one);
    assert(with_new(first, starters)[0] == first[0]);
}

proof fn lemma_one_plugin(tool: Seq<char>, plugin: Seq<char>, plugins: Seq<Seq<char>>)
    requires
        plugin_names(tool) == seq![plugin],
    ensures
        plugins_of(tool, plugins) == (if plugins.contains(plugin) {
            seq![plugin]
        } else {
            seq![]
        }),
{
    reveal_with_fuel(with_enabled, 2);
    let one = seq![plugin];
    let none = Seq::<Seq<char>>::empty();
    assert(one.drop_last() =~= none);
    assert(with_enabled(none, one, plugins) =~= (if plugins.contains(plugin) {
        one
    } else {
        none
    }));
}

/// The plugins of a route into the tool loop.
pub open spec fn brought_by(r: RouteResultView, plugin: Seq<char>, plugins: Seq<Seq<char>>) -> bool {
    r matches RouteResultView::Direct { decision, .. } && decision.candidate_plugins == (
    if plugins.contains(plugin) {
        seq![plugin]
    } else {
        Seq::<Seq<char>>::empty()
    })
}

/// A route names the plugin that brings its tool, where it is enabled.
pub proof fn law_plugins_of_routes(context: ClassifierView, q: RequestFacts)
    requires
        open_request(context, q),
    ensures
        q.facts.python_code_allows_execution && python_code(q.goal@) is Some
            && context.enabled.contains("python.run"@) ==> brought_by(
            classified(context, q),
            "core-python"@,
            context.plugins,
        ),
        no_python(context, q) && q.facts.shell_command_allows_execution && shell_code(q.goal@)
            is Some && context.enabled.contains("command.run"@) ==> brought_by(
            classified(context, q),
            "core-command"@,
            context.plugins,
        ),
        no_python(context, q) && no_command(context, q) && q.facts.requests_web_lookup && web_query(
            q.goal@,
        ) is Some && context.enabled.contains("web.search"@) ==> brought_by(
            classified(context, q),
            "core-web"@,
            context.plugins,
        ),
        no_python(context, q) && no_command(context, q) && no_lookup(context, q)
            && q.facts.has_glob_pattern && context.enabled.contains("fs.glob"@) ==> brought_by(
            classified(context, q),
            "core-fs"@,
            context.plugins,
        ),
{
    reveal_strlit("python.run");
    reveal_strlit("command.run");
    reveal_strlit("web.search");
    reveal_strlit("fs.glob");
    reveal_strlit("python.");
    reveal_strlit("command.");
    reveal_strlit("web.");
    reveal_strlit("fs.");
    assert("python.run"@.subrange(0, 7) =~= "python."@);
    assert("command.run"@.subrange(0, 8) =~= "command."@);
    assert("web.search"@.subrange(0, 4) =~= "web."@);
    assert("fs.glob"@.subrange(0, 3) =~= "fs."@);
    law_plugin_by_name("python.run"@);
    law_plugin_by_name("command.run"@);
    law_plugin_by_name("web.search"@);
    law_plugin_by_name("fs.glob"@);
    lemma_one_plugin("python.run"@, "core-python"@, context.plugins);
    lemma_one_plugin("command.run"@, "core-command"@, context.plugins);
    lemma_one_plugin("web.search"@, "core-web"@, context.plugins);
    lemma_one_plugin("fs.glob"@, "core-fs"@, context.plugins);
    if context.enabled.contains("python.run"@) {
        lemma_one("python.run"@, context.enabled);
    }
    if context.enabled.contains("command.run"@) {
        lemma_one("command.run"@, context.enabled);
    }
    if context.enabled.contains("web.search"@) {
        lemma_one("web.search"@, context.enabled);
    }
    if context.enabled.contains("fs.glob"@) {
        lemma_one("fs.glob"@, context.enabled);
    }
}

} // verus!

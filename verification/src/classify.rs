//! The route of a request, from what was found in its text.

use crate::action_words::{
    explicit_filesystem_action_tool, explicit_table_action_tool, filesystem_action, table_action,
};
use crate::catalog::{
    any_begins, candidate_plugins_for_tool, described, executable_skill, find_descriptor,
    find_reference, plugins_of, reference, resource_risk, route_risk,
    skill_descriptor_is_executable, CatalogDescriptor, DescriptorView, ResourceKind,
};
use crate::classifier::{
    bare_decision, broad_filesystem, broad_filesystem_candidate_tools, broad_table,
    broad_table_candidate_tools, build_loop_hint_route, build_tool_loop_route,
    coarse_intent_hint_for_tool, explicit_tool_hint_is_grounded, family_of_tool, loop_hint,
    missing_argument, missing_argument_route, normalize_direct_route_seed, seeded, tool_grounded,
    tool_loop_route, unavailable, unavailable_family_route, CatalogMatch, ClassifierView, GoalFacts,
    RouteClassifierContext,
};
use crate::decision::{IntentFamily, RouteDecision, RouteDecisionView, RouteRisk};
use crate::grounding::{extract_web_query, web_query};
use crate::observation::{selectors_view, ResourceSelector};
use crate::route::{
    EscalationAction, EscalationReason, RouteDecisionResult, RouteEscalationPlan, RouteResultView,
};
use crate::snippet::{
    extract_explicit_python_code, extract_explicit_shell_command, python_code, shell_code,
};
use crate::text::{opt_str_view, str_eq, views};
use crate::tokens::{
    command_chain, explicit_skill_tokens, has_shell_command_chain, reference_tokens,
};
use vstd::prelude::*;

verus! {

pub open spec fn opt_route(r: Option<RouteDecisionResult>) -> Option<RouteResultView> {
    match r {
        Some(r) => Some(r@),
        None => None,
    }
}

/// A hint towards one tool.
pub open spec fn tool_hint(
    context: ClassifierView,
    family: IntentFamily,
    risk: RouteRisk,
    tool: Seq<char>,
    reason: Seq<char>,
) -> RouteResultView {
    loop_hint(
        context,
        RouteDecisionView {
            candidate_tools: seq![tool],
            candidate_plugins: plugins_of(tool, context.plugins),
            ..bare_decision(family, "0.6"@, risk, reason)
        },
    )
}

fn build_tool_hint(
    context: &RouteClassifierContext,
    family: IntentFamily,
    risk: RouteRisk,
    tool: &str,
    reason: &str,
) -> (r: RouteDecisionResult)
    ensures
        r@ == tool_hint(context@, family, risk, tool@, reason@),
{
    let mut tools: Vec<String> = Vec::new();
    tools.push(tool.to_owned());
    let plugins: Vec<String> = candidate_plugins_for_tool(context.enabled_plugins, tool);
    let decision: RouteDecision = RouteDecision::new(
        family,
        "0.6",
        false,
        risk,
        tools,
        plugins,
        Vec::new(),
        reason,
    );
    assert(decision@ =~= RouteDecisionView {
        candidate_tools: seq![tool@],
        candidate_plugins: plugins_of(tool@, context@.plugins),
        ..bare_decision(family, "0.6"@, risk, reason@)
    });
    build_loop_hint_route(context, decision)
}

/// A reason that ends in the name of a tool.
pub open spec fn tool_reason(prefix: Seq<char>, tool: Seq<char>) -> Seq<char> {
    prefix + "`"@ + tool + "`"@
}

fn tool_reason_text(prefix: &str, tool: &str) -> (r: String)
    ensures
        r@ == tool_reason(prefix@, tool@),
{
    let mut out: String = prefix.to_owned();
    out.append("`");
    out.append(tool);
    out.append("`");
    out
}

/// A hint towards several tools.
pub open spec fn broad_hint(
    context: ClassifierView,
    family: IntentFamily,
    confidence: Seq<char>,
    tools: Seq<Seq<char>>,
    reason: Seq<char>,
) -> RouteResultView {
    loop_hint(
        context,
        RouteDecisionView {
            candidate_tools: tools,
            ..bare_decision(family, confidence, RouteRisk::Low, reason)
        },
    )
}

fn build_broad_hint(
    context: &RouteClassifierContext,
    family: IntentFamily,
    confidence: &str,
    tools: Vec<String>,
    reason: &str,
) -> (r: RouteDecisionResult)
    ensures
        r@ == broad_hint(context@, family, confidence@, views(tools@), reason@),
{
    let decision: RouteDecision = RouteDecision::new(
        family,
        confidence,
        false,
        RouteRisk::Low,
        tools,
        Vec::new(),
        Vec::new(),
        reason,
    );
    assert(decision@ =~= RouteDecisionView {
        candidate_tools: views(tools@),
        ..bare_decision(family, confidence@, RouteRisk::Low, reason@)
    });
    build_loop_hint_route(context, decision)
}

/// An answer without tools.
pub open spec fn direct_answer(
    context: ClassifierView,
    confidence: Seq<char>,
    reason: Seq<char>,
) -> RouteResultView {
    broad_hint(context, IntentFamily::Chat, confidence, seq![], reason)
}

fn build_direct_answer(context: &RouteClassifierContext, confidence: &str, reason: &str) -> (r:
    RouteDecisionResult)
    ensures
        r@ == direct_answer(context@, confidence@, reason@),
{
    let none: Vec<String> = Vec::new();
    assert(views(none@) =~= seq![]);
    build_broad_hint(context, IntentFamily::Chat, confidence, none, reason)
}

/// Several commands or several targets in one request.
pub open spec fn multi_step_route(
    context: ClassifierView,
    goal: Seq<char>,
    f: GoalFacts,
) -> Option<RouteResultView> {
    if command_chain(goal) || (python_code(goal) is None && !f.has_glob_pattern && f.paths().len()
        > 1) {
        Some(
            loop_hint(
                context,
                RouteDecisionView {
                    requires_multi_step: true,
                    ..bare_decision(
                        IntentFamily::MultiStep,
                        "0.9"@,
                        RouteRisk::Medium,
                        "structured request contains multiple grounded targets or chained commands that cannot be satisfied by a single direct tool invocation"@,
                    )
                },
            ),
        )
    } else {
        None
    }
}

pub fn classify_structured_multi_step_request(
    context: &RouteClassifierContext,
    goal: &str,
    facts: &GoalFacts,
) -> (r: Option<RouteDecisionResult>)
    ensures
        opt_route(r) == multi_step_route(context@, goal@, *facts),
{
    assert(facts.paths().len() == facts.explicit_paths@.len());
    let has_explicit_code: bool = extract_explicit_python_code(goal).is_some();
    if !(has_shell_command_chain(goal) || (!has_explicit_code && !facts.has_glob_pattern
        && facts.explicit_paths.len() > 1)) {
        return None;
    }
    let decision: RouteDecision = RouteDecision::new(
        IntentFamily::MultiStep,
        "0.9",
        true,
        RouteRisk::Medium,
        Vec::new(),
        Vec::new(),
        Vec::new(),
        "structured request contains multiple grounded targets or chained commands that cannot be satisfied by a single direct tool invocation",
    );
    assert(decision@ =~= RouteDecisionView {
        requires_multi_step: true,
        ..bare_decision(
            IntentFamily::MultiStep,
            "0.9"@,
            RouteRisk::Medium,
            "structured request contains multiple grounded targets or chained commands that cannot be satisfied by a single direct tool invocation"@,
        )
    });
    Some(build_loop_hint_route(context, decision))
}

/// The tool that the request names.
pub open spec fn named_tool(context: ClassifierView, goal: Seq<char>) -> Option<DescriptorView> {
    match reference(context.catalog, reference_tokens(goal), ResourceKind::Tool, context.enabled) {
        Some(i) => described(context.catalog, context.catalog[i].selector),
        None => None,
    }
}

/// Some tool is named in the request.
pub open spec fn names_tool(context: ClassifierView, goal: Seq<char>) -> bool {
    reference(context.catalog, reference_tokens(goal), ResourceKind::Tool, context.enabled) is Some
}

pub fn explicit_tool_selector<'a>(context: &RouteClassifierContext<'a>, goal: &str) -> (r: Option<
    &'a CatalogDescriptor,
>)
    ensures
        match r {
            Some(d) => named_tool(context@, goal@) == Some(d@),
            None => !names_tool(context@, goal@),
        },
{
    let tokens: Vec<String> = explicit_skill_tokens(goal);
    match find_reference(
        context.catalog,
        &tokens,
        ResourceKind::Tool,
        &context.availability_snapshot.enabled_tools,
    ) {
        None => None,
        Some(i) => {
            assert(context@.catalog[i as int] == context.catalog@[i as int]@);
            proof {
                lemma_described(context@.catalog, i as int);
            }
            find_descriptor(context.catalog, &context.catalog[i].selector)
        },
    }
}

/// An entry's own selector finds an entry.
proof fn lemma_described(entries: Seq<DescriptorView>, i: int)
    requires
        0 <= i < entries.len(),
    ensures
        described(entries, entries[i].selector) is Some,
    decreases i,
{
    if entries[0].selector != entries[i].selector {
        assert(entries.skip(1)[i - 1] == entries[i]);
        lemma_described(entries.skip(1), i - 1);
    }
}

/// A hint from a table that the request names.
pub open spec fn table_hint(context: ClassifierView, goal: Seq<char>, f: GoalFacts) -> RouteResultView {
    match table_action(goal, f.paths()) {
        Some(tool) if f.has_concrete_table_path && context.enabled.contains(tool) => tool_hint(
            context,
            IntentFamily::TableRead,
            RouteRisk::Low,
            tool,
            tool_reason("classifier hint: table path suggests "@, tool),
        ),
        _ => broad_hint(
            context,
            IntentFamily::TableRead,
            "0.86"@,
            broad_table(),
            "contract-level grounded table input provides a non-authoritative table-family hint"@,
        ),
    }
}

fn build_table_hint(context: &RouteClassifierContext, goal: &str, facts: &GoalFacts) -> (r:
    RouteDecisionResult)
    ensures
        r@ == table_hint(context@, goal@, *facts),
{
    if facts.has_concrete_table_path {
        if let Some(tool) = explicit_table_action_tool(goal, &facts.explicit_paths) {
            if context.availability_snapshot.is_tool_enabled(tool) {
                let reason: String = tool_reason_text(
                    "classifier hint: table path suggests ",
                    tool,
                );
                return build_tool_hint(
                    context,
                    IntentFamily::TableRead,
                    RouteRisk::Low,
                    tool,
                    reason.as_str(),
                );
            }
        }
    }
    build_broad_hint(
        context,
        IntentFamily::TableRead,
        "0.86",
        broad_table_candidate_tools(),
        "contract-level grounded table input provides a non-authoritative table-family hint",
    )
}

/// A hint from a path that the request names.
pub open spec fn path_hint(context: ClassifierView, goal: Seq<char>, f: GoalFacts) -> RouteResultView {
    match filesystem_action(goal, f.paths()) {
        Some(tool) if f.has_concrete_path && context.enabled.contains(tool) => tool_hint(
            context,
            IntentFamily::FilesystemRead,
            RouteRisk::Low,
            tool,
            tool_reason("classifier hint: filesystem path suggests "@, tool),
        ),
        _ => broad_hint(
            context,
            IntentFamily::FilesystemRead,
            "0.82"@,
            broad_filesystem(f),
            "explicit filesystem resource is present, but the requested action is still broad enough that the live loop should choose among a controlled starter set"@,
        ),
    }
}

fn build_path_hint(context: &RouteClassifierContext, goal: &str, facts: &GoalFacts) -> (r:
    RouteDecisionResult)
    ensures
        r@ == path_hint(context@, goal@, *facts),
{
    if facts.has_concrete_path {
        if let Some(tool) = explicit_filesystem_action_tool(goal, &facts.explicit_paths) {
            if context.availability_snapshot.is_tool_enabled(tool) {
                let reason: String = tool_reason_text(
                    "classifier hint: filesystem path suggests ",
                    tool,
                );
                return build_tool_hint(
                    context,
                    IntentFamily::FilesystemRead,
                    RouteRisk::Low,
                    tool,
                    reason.as_str(),
                );
            }
        }
    }
    build_broad_hint(
        context,
        IntentFamily::FilesystemRead,
        "0.82",
        broad_filesystem_candidate_tools(facts),
        "explicit filesystem resource is present, but the requested action is still broad enough that the live loop should choose among a controlled starter set",
    )
}

/// A hint from what the request itself gives: a tool that it names, code, a
/// command, a lookup, a pattern, a table or a path, in that order.
pub open spec fn grounded_hint(context: ClassifierView, goal: Seq<char>, f: GoalFacts) -> Option<
    RouteResultView,
> {
    if names_tool(context, goal) {
        match named_tool(context, goal) {
            Some(d) if tool_grounded(d.name, goal, f) => Some(
                tool_hint(
                    context,
                    family_of_tool(d.name),
                    route_risk(d.risk),
                    d.name,
                    tool_reason("classifier hint: explicit tool reference suggests "@, d.name),
                ),
            ),
            _ => None,
        }
    } else if f.python_code_allows_execution && python_code(goal) is Some
        && context.enabled.contains("python.run"@) {
        Some(
            tool_hint(
                context,
                IntentFamily::CodeExec,
                RouteRisk::Medium,
                "python.run"@,
                "classifier hint: grounded Python code suggests `python.run`"@,
            ),
        )
    } else if f.shell_command_allows_execution && shell_code(goal) is Some
        && context.enabled.contains("command.run"@) {
        Some(
            tool_hint(
                context,
                IntentFamily::CodeExec,
                RouteRisk::Medium,
                "command.run"@,
                "classifier hint: grounded shell command suggests `command.run`"@,
            ),
        )
    } else if f.requests_web_lookup && web_query(goal) is Some && context.enabled.contains(
        "web.search"@,
    ) {
        Some(
            tool_hint(
                context,
                IntentFamily::WebLookup,
                RouteRisk::Low,
                "web.search"@,
                "classifier hint: web lookup request suggests `web.search`"@,
            ),
        )
    } else if f.has_glob_pattern && context.enabled.contains("fs.glob"@) {
        Some(
            tool_hint(
                context,
                IntentFamily::FilesystemRead,
                RouteRisk::Low,
                "fs.glob"@,
                "classifier hint: glob pattern suggests `fs.glob`"@,
            ),
        )
    } else if f.has_explicit_table_path && any_begins(context.enabled, "table."@) {
        Some(table_hint(context, goal, f))
    } else if f.paths().len() > 0 && any_begins(context.enabled, "fs."@) {
        Some(path_hint(context, goal, f))
    } else {
        None
    }
}

pub fn classify_contract_level_grounded_hint(
    context: &RouteClassifierContext,
    goal: &str,
    facts: &GoalFacts,
) -> (r: Option<RouteDecisionResult>)
    ensures
        opt_route(r) == grounded_hint(context@, goal@, *facts),
{
    assert(facts.paths().len() == facts.explicit_paths@.len());
    if let Some(descriptor) = explicit_tool_selector(context, goal) {
        let tool: &str = descriptor.name.as_str();
        if !explicit_tool_hint_is_grounded(tool, goal, facts) {
            return None;
        }
        let reason: String = tool_reason_text(
            "classifier hint: explicit tool reference suggests ",
            tool,
        );
        return Some(
            build_tool_hint(
                context,
                coarse_intent_hint_for_tool(tool),
                resource_risk(descriptor),
                tool,
                reason.as_str(),
            ),
        );
    }
    if facts.python_code_allows_execution && extract_explicit_python_code(goal).is_some()
        && context.availability_snapshot.is_tool_enabled("python.run") {
        return Some(
            build_tool_hint(
                context,
                IntentFamily::CodeExec,
                RouteRisk::Medium,
                "python.run",
                "classifier hint: grounded Python code suggests `python.run`",
            ),
        );
    }
    if facts.shell_command_allows_execution && extract_explicit_shell_command(goal).is_some()
        && context.availability_snapshot.is_tool_enabled("command.run") {
        return Some(
            build_tool_hint(
                context,
                IntentFamily::CodeExec,
                RouteRisk::Medium,
                "command.run",
                "classifier hint: grounded shell command suggests `command.run`",
            ),
        );
    }
    if facts.requests_web_lookup && extract_web_query(goal).is_some()
        && context.availability_snapshot.is_tool_enabled("web.search") {
        return Some(
            build_tool_hint(
                context,
                IntentFamily::WebLookup,
                RouteRisk::Low,
                "web.search",
                "classifier hint: web lookup request suggests `web.search`",
            ),
        );
    }
    if facts.has_glob_pattern && context.availability_snapshot.is_tool_enabled("fs.glob") {
        return Some(
            build_tool_hint(
                context,
                IntentFamily::FilesystemRead,
                RouteRisk::Low,
                "fs.glob",
                "classifier hint: glob pattern suggests `fs.glob`",
            ),
        );
    }
    if facts.has_explicit_table_path && context.availability_snapshot.has_enabled_tool_with_prefix(
        "table.",
    ) {
        return Some(build_table_hint(context, goal, facts));
    }
    if facts.explicit_paths.len() > 0 && context.availability_snapshot.has_enabled_tool_with_prefix(
        "fs.",
    ) {
        return Some(build_path_hint(context, goal, facts));
    }
    None
}

/// The request is for tools that are not enabled. The facts are those of the
/// request without spaces around it.
pub open spec fn structural_fallback(context: ClassifierView, f: GoalFacts) -> Option<
    RouteResultView,
> {
    if f.python_code_allows_execution && !context.enabled.contains("python.run"@) {
        Some(
            unavailable(
                IntentFamily::CodeExec,
                "explicit Python code was provided, but `python.run` is not enabled in the current runtime inventory"@,
            ),
        )
    } else if f.shell_command_allows_execution && !context.enabled.contains("command.run"@) {
        Some(
            unavailable(
                IntentFamily::CodeExec,
                "explicit shell command was provided, but `command.run` is not enabled in the current runtime inventory"@,
            ),
        )
    } else if f.requests_web_lookup && !context.enabled.contains("web.search"@) {
        Some(
            unavailable(
                IntentFamily::WebLookup,
                "an explicit web lookup request was provided, but `web.search` is not enabled in the current runtime inventory"@,
            ),
        )
    } else if f.has_explicit_table_path && !any_begins(context.enabled, "table."@) {
        Some(
            unavailable(
                IntentFamily::TableRead,
                "explicit table input was provided, but core table tools are not enabled in the current runtime inventory"@,
            ),
        )
    } else if (f.has_glob_pattern || f.paths().len() > 0) && !any_begins(context.enabled, "fs."@) {
        Some(
            unavailable(
                IntentFamily::FilesystemRead,
                "explicit filesystem input was provided, but core filesystem tools are not enabled in the current runtime inventory"@,
            ),
        )
    } else {
        None
    }
}

pub fn classify_structural_fallback(
    context: &RouteClassifierContext,
    trimmed_facts: &GoalFacts,
) -> (r: Option<RouteDecisionResult>)
    ensures
        opt_route(r) == structural_fallback(context@, *trimmed_facts),
{
    let facts: &GoalFacts = trimmed_facts;
    assert(facts.paths().len() == facts.explicit_paths@.len());
    if facts.python_code_allows_execution && !context.availability_snapshot.is_tool_enabled(
        "python.run",
    ) {
        return Some(
            unavailable_family_route(
                IntentFamily::CodeExec,
                "explicit Python code was provided, but `python.run` is not enabled in the current runtime inventory",
            ),
        );
    }
    if facts.shell_command_allows_execution && !context.availability_snapshot.is_tool_enabled(
        "command.run",
    ) {
        return Some(
            unavailable_family_route(
                IntentFamily::CodeExec,
                "explicit shell command was provided, but `command.run` is not enabled in the current runtime inventory",
            ),
        );
    }
    if facts.requests_web_lookup && !context.availability_snapshot.is_tool_enabled("web.search") {
        return Some(
            unavailable_family_route(
                IntentFamily::WebLookup,
                "an explicit web lookup request was provided, but `web.search` is not enabled in the current runtime inventory",
            ),
        );
    }
    if facts.has_explicit_table_path && !context.availability_snapshot.has_enabled_tool_with_prefix(
        "table.",
    ) {
        return Some(
            unavailable_family_route(
                IntentFamily::TableRead,
                "explicit table input was provided, but core table tools are not enabled in the current runtime inventory",
            ),
        );
    }
    if (facts.has_glob_pattern || facts.explicit_paths.len() > 0)
        && !context.availability_snapshot.has_enabled_tool_with_prefix("fs.") {
        return Some(
            unavailable_family_route(
                IntentFamily::FilesystemRead,
                "explicit filesystem input was provided, but core filesystem tools are not enabled in the current runtime inventory",
            ),
        );
    }
    None
}

/// The family that a request belongs to by what it gives.
pub open spec fn grounded_family(goal: Seq<char>, f: GoalFacts) -> Option<IntentFamily> {
    if f.python_code_allows_execution || f.shell_command_allows_execution {
        Some(IntentFamily::CodeExec)
    } else if f.requests_web_lookup && web_query(goal) is Some {
        Some(IntentFamily::WebLookup)
    } else if f.has_explicit_table_path {
        Some(IntentFamily::TableRead)
    } else if f.has_glob_pattern || f.paths().len() > 0 {
        Some(IntentFamily::FilesystemRead)
    } else {
        None
    }
}

pub fn deterministic_grounded_intent(goal: &str, facts: &GoalFacts) -> (r: Option<IntentFamily>)
    ensures
        r == grounded_family(goal@, *facts),
{
    assert(facts.paths().len() == facts.explicit_paths@.len());
    if facts.python_code_allows_execution || facts.shell_command_allows_execution {
        return Some(IntentFamily::CodeExec);
    }
    if facts.requests_web_lookup && extract_web_query(goal).is_some() {
        return Some(IntentFamily::WebLookup);
    }
    if facts.has_explicit_table_path {
        return Some(IntentFamily::TableRead);
    }
    if facts.has_glob_pattern || facts.explicit_paths.len() > 0 {
        return Some(IntentFamily::FilesystemRead);
    }
    None
}

/// A tool that is used for one kind of action on a path or a table.
pub open spec fn is_path_tool(tool: Seq<char>) -> bool {
    tool == "fs.exists"@ || tool == "fs.inspect"@ || tool == "fs.list_dir"@ || tool
        == "fs.read_text"@
}

pub open spec fn is_table_tool(tool: Seq<char>) -> bool {
    tool == "table.inspect"@ || tool == "table.list_sheets"@ || tool == "table.preview"@ || tool
        == "table.schema"@
}

/// The request gives enough to start with the tool.
pub open spec fn can_start(m: CatalogMatch, goal: Seq<char>, f: GoalFacts) -> bool {
    let tool = m.descriptor.name@;
    if tool == "python.run"@ {
        f.python_code_allows_execution && m.arguments_grounded
    } else if tool == "command.run"@ {
        f.shell_command_allows_execution && m.arguments_grounded
    } else if tool == "web.search"@ {
        f.requests_web_lookup && web_query(goal) is Some
    } else if tool == "fs.glob"@ {
        f.has_glob_pattern
    } else if tool == "fs.find"@ {
        f.paths().len() > 0 && filesystem_action(goal, f.paths()) == Some(tool)
    } else if is_path_tool(tool) {
        f.has_concrete_path && filesystem_action(goal, f.paths()) == Some(tool)
    } else if is_table_tool(tool) {
        f.has_concrete_table_path && table_action(goal, f.paths()) == Some(tool)
    } else {
        !m.requires_arguments || m.arguments_grounded
    }
}

fn is_tool(action: Option<&'static str>, tool: &str) -> (r: bool)
    ensures
        r == (opt_str_view(action) == Some(tool@)),
{
    match action {
        Some(a) => str_eq(a, tool),
        None => false,
    }
}

pub fn deterministic_match_can_start(m: &CatalogMatch, goal: &str, facts: &GoalFacts) -> (r: bool)
    ensures
        r == can_start(*m, goal@, *facts),
{
    assert(facts.paths().len() == facts.explicit_paths@.len());
    let tool: &str = m.descriptor.name.as_str();
    if str_eq(tool, "python.run") {
        facts.python_code_allows_execution && m.arguments_grounded
    } else if str_eq(tool, "command.run") {
        facts.shell_command_allows_execution && m.arguments_grounded
    } else if str_eq(tool, "web.search") {
        facts.requests_web_lookup && extract_web_query(goal).is_some()
    } else if str_eq(tool, "fs.glob") {
        facts.has_glob_pattern
    } else if str_eq(tool, "fs.find") {
        facts.explicit_paths.len() > 0 && is_tool(
            explicit_filesystem_action_tool(goal, &facts.explicit_paths),
            tool,
        )
    } else if str_eq(tool, "fs.exists") || str_eq(tool, "fs.inspect") || str_eq(
        tool,
        "fs.list_dir",
    ) || str_eq(tool, "fs.read_text") {
        facts.has_concrete_path && is_tool(
            explicit_filesystem_action_tool(goal, &facts.explicit_paths),
            tool,
        )
    } else if str_eq(tool, "table.inspect") || str_eq(tool, "table.list_sheets") || str_eq(
        tool,
        "table.preview",
    ) || str_eq(tool, "table.schema") {
        facts.has_concrete_table_path && is_tool(
            explicit_table_action_tool(goal, &facts.explicit_paths),
            tool,
        )
    } else {
        !m.requires_arguments || m.arguments_grounded
    }
}

/// A match that may be offered, that states its contract, that can start, and that
/// is of the request's family.
pub open spec fn usable_match(
    context: ClassifierView,
    m: CatalogMatch,
    goal: Seq<char>,
    f: GoalFacts,
) -> bool {
    &&& m.descriptor.discoverable
    &&& context.enabled.contains(m.descriptor.name@)
    &&& m.descriptor.has_contract
    &&& can_start(m, goal, f)
    &&& match grounded_family(goal, f) {
        Some(family) => family_of_tool(m.descriptor.name@) == family,
        None => true,
    }
}

/// The indices of the usable ones of the first `n` matches.
pub open spec fn usable_upto(
    context: ClassifierView,
    matches: Seq<CatalogMatch>,
    goal: Seq<char>,
    f: GoalFacts,
    n: int,
) -> Seq<int>
    decreases n,
{
    if n <= 0 {
        seq![]
    } else {
        let before = usable_upto(context, matches, goal, f, n - 1);
        if usable_match(context, matches[n - 1], goal, f) {
            before.push(n - 1)
        } else {
            before
        }
    }
}

pub open spec fn indices(list: Seq<usize>) -> Seq<int> {
    list.map_values(|i: usize| i as int)
}

/// The indices of the usable matches, in the order in which the catalog gave them.
pub fn grounded_matches(
    context: &RouteClassifierContext,
    matches: &Vec<CatalogMatch>,
    goal: &str,
    facts: &GoalFacts,
) -> (r: Vec<usize>)
    ensures
        indices(r@) == usable_upto(context@, matches@, goal@, *facts, matches.len() as int),
        forall|k: int| 0 <= k < r.len() ==> #[trigger] r@[k] < matches.len(),
{
    let family: Option<IntentFamily> = deterministic_grounded_intent(goal, facts);
    let mut out: Vec<usize> = Vec::new();
    let mut i: usize = 0;
    assert(indices(out@) =~= seq![]);
    while i < matches.len()
        invariant
            i <= matches.len(),
            family == grounded_family(goal@, *facts),
            indices(out@) == usable_upto(context@, matches@, goal@, *facts, i as int),
            forall|k: int| 0 <= k < out.len() ==> #[trigger] out@[k] < matches.len(),
        decreases matches.len() - i,
    {
        let m: &CatalogMatch = &matches[i];
        let own: IntentFamily = coarse_intent_hint_for_tool(m.descriptor.name.as_str());
        let same_family: bool = match family {
            Some(f) => own == f,
            None => true,
        };
        if m.descriptor.discoverable && context.availability_snapshot.is_tool_enabled(
            m.descriptor.name.as_str(),
        ) && m.descriptor.has_contract && deterministic_match_can_start(m, goal, facts)
            && same_family {
            assert(indices(out@.push(i)) =~= indices(out@).push(i as int));
            out.push(i);
        }
        i = i + 1;
    }
    out
}

/// The match that the request is for: the first usable one, where its score has
/// been found good enough.
pub open spec fn selected_match(
    context: ClassifierView,
    matches: Seq<CatalogMatch>,
    goal: Seq<char>,
    f: GoalFacts,
    score_ok: bool,
) -> Option<int> {
    let usable = usable_upto(context, matches, goal, f, matches.len() as int);
    if usable.len() > 0 && score_ok {
        Some(usable[0])
    } else {
        None
    }
}

pub fn select_deterministic_contract_tool_match(
    context: &RouteClassifierContext,
    matches: &Vec<CatalogMatch>,
    goal: &str,
    facts: &GoalFacts,
    score_ok: bool,
) -> (r: Option<usize>)
    ensures
        match r {
            Some(i) => selected_match(context@, matches@, goal@, *facts, score_ok) == Some(
                i as int,
            ) && i < matches.len(),
            None => selected_match(context@, matches@, goal@, *facts, score_ok) is None,
        },
{
    let usable: Vec<usize> = grounded_matches(context, matches, goal, facts);
    assert(indices(usable@).len() == usable@.len());
    if usable.len() > 0 && score_ok {
        assert(indices(usable@)[0] == usable@[0]);
        Some(usable[0])
    } else {
        None
    }
}

pub open spec fn match_reason(tool: Seq<char>) -> Seq<char> {
    tool_reason("deterministic catalog retrieval matched contract-backed tool "@, tool)
        + " and the current goal can already ground its required inputs"@
}

/// The route of a request that the catalog has a tool for; only where no model
/// routes.
pub open spec fn contract_match(
    context: ClassifierView,
    matches: Seq<CatalogMatch>,
    goal: Seq<char>,
    f: GoalFacts,
    score_ok: bool,
) -> Option<RouteResultView> {
    if context.has_router {
        None
    } else {
        match selected_match(context, matches, goal, f, score_ok) {
            None => None,
            Some(i) => match named_tool(context, goal) {
                Some(d) if names_tool(context, goal) && !tool_grounded(d.name, goal, f) => None,
                _ => {
                    let m = matches[i];
                    let tool = m.descriptor.name@;
                    Some(
                        loop_hint(
                            context,
                            seeded(
                                RouteDecisionView {
                                    candidate_tools: seq![tool],
                                    candidate_plugins: plugins_of(tool, context.plugins),
                                    ..bare_decision(
                                        family_of_tool(tool),
                                        "0.82"@,
                                        route_risk(m.descriptor.risk),
                                        match_reason(tool),
                                    )
                                },
                                f,
                            ),
                        ),
                    )
                },
            },
        }
    }
}

pub fn classify_deterministic_contract_tool_match(
    context: &RouteClassifierContext,
    matches: &Vec<CatalogMatch>,
    goal: &str,
    facts: &GoalFacts,
    score_ok: bool,
) -> (r: Option<RouteDecisionResult>)
    ensures
        opt_route(r) == contract_match(context@, matches@, goal@, *facts, score_ok),
{
    if context.has_route_router {
        return None;
    }
    let index: usize = match select_deterministic_contract_tool_match(
        context,
        matches,
        goal,
        facts,
        score_ok,
    ) {
        Some(i) => i,
        None => {
            return None;
        },
    };
    if let Some(descriptor) = explicit_tool_selector(context, goal) {
        if !explicit_tool_hint_is_grounded(descriptor.name.as_str(), goal, facts) {
            return None;
        }
    }
    let best: &CatalogMatch = &matches[index];
    let tool: &str = best.descriptor.name.as_str();
    let mut reason: String = tool_reason_text(
        "deterministic catalog retrieval matched contract-backed tool ",
        tool,
    );
    reason.append(" and the current goal can already ground its required inputs");
    let mut tools: Vec<String> = Vec::new();
    tools.push(tool.to_owned());
    let mut decision: RouteDecision = RouteDecision::new(
        coarse_intent_hint_for_tool(tool),
        "0.82",
        false,
        resource_risk(&best.descriptor),
        tools,
        candidate_plugins_for_tool(context.enabled_plugins, tool),
        Vec::new(),
        reason.as_str(),
    );
    assert(decision@ =~= RouteDecisionView {
        candidate_tools: seq![tool@],
        candidate_plugins: plugins_of(tool@, context@.plugins),
        ..bare_decision(
            family_of_tool(tool@),
            "0.82"@,
            route_risk(best.descriptor.risk),
            match_reason(tool@),
        )
    });
    normalize_direct_route_seed(facts, &mut decision);
    Some(build_loop_hint_route(context, decision))
}

/// The skill that the request names.
pub open spec fn named_skill(context: ClassifierView, goal: Seq<char>) -> Option<DescriptorView> {
    match reference(context.catalog, reference_tokens(goal), ResourceKind::Skill, context.enabled) {
        Some(i) => described(context.catalog, context.catalog[i].selector),
        None => None,
    }
}

pub fn explicit_skill_selector<'a>(context: &RouteClassifierContext<'a>, goal: &str) -> (r: Option<
    &'a CatalogDescriptor,
>)
    ensures
        match r {
            Some(d) => named_skill(context@, goal@) == Some(d@),
            None => named_skill(context@, goal@) is None,
        },
{
    let tokens: Vec<String> = explicit_skill_tokens(goal);
    match find_reference(
        context.catalog,
        &tokens,
        ResourceKind::Skill,
        &context.availability_snapshot.enabled_tools,
    ) {
        None => None,
        Some(i) => {
            assert(context@.catalog[i as int] == context.catalog@[i as int]@);
            proof {
                lemma_described(context@.catalog, i as int);
            }
            find_descriptor(context.catalog, &context.catalog[i].selector)
        },
    }
}

/// The route of a request that names a skill. A skill that is to be run goes
/// through the tool that runs skills, and cannot be run where that is off.
pub open spec fn skill_route(
    context: ClassifierView,
    d: DescriptorView,
    execution_requested: bool,
    reason: Seq<char>,
) -> RouteResultView {
    let runs = executable_skill(d) && execution_requested;
    if runs && !context.skills_run {
        RouteResultView::Escalate {
            decision: RouteDecisionView {
                candidate_plugins: seq!["skill-source-local"@],
                ..bare_decision(
                    IntentFamily::TextTransform,
                    "0.88"@,
                    route_risk(d.risk),
                    tool_reason("installed skill "@, d.selector.name)
                        + " matched, but executable skill routes are unavailable in this runtime"@,
                )
            },
            reason: EscalationReason::NoEnabledRouteTarget,
            action: EscalationAction::FallbackAnswer,
        }
    } else {
        let base = bare_decision(
            IntentFamily::TextTransform,
            "0.94"@,
            route_risk(d.risk),
            reason,
        );
        if runs {
            tool_loop_route(
                context,
                RouteDecisionView {
                    candidate_tools: seq![context.skill_tool],
                    candidate_plugins: seq!["builtin-tools"@, "skill-source-local"@],
                    ..base
                },
                Some(context.skill_tool),
                seq![d.selector],
            )
        } else {
            tool_loop_route(
                context,
                RouteDecisionView { candidate_plugins: seq!["skill-source-local"@], ..base },
                None,
                seq![d.selector],
            )
        }
    }
}

pub fn build_skill_route_result(
    context: &RouteClassifierContext,
    descriptor: &CatalogDescriptor,
    execution_requested: bool,
    reason: &str,
) -> (r: RouteDecisionResult)
    ensures
        r@ == skill_route(context@, descriptor@, execution_requested, reason@),
{
    let executable: bool = skill_descriptor_is_executable(descriptor) && execution_requested;
    let mut plugins: Vec<String> = Vec::new();
    if executable && !context.skill_execution_available {
        let mut text: String = tool_reason_text(
            "installed skill ",
            descriptor.selector.name.as_str(),
        );
        text.append(" matched, but executable skill routes are unavailable in this runtime");
        plugins.push("skill-source-local".to_owned());
        let decision: RouteDecision = RouteDecision::new(
            IntentFamily::TextTransform,
            "0.88",
            false,
            resource_risk(descriptor),
            Vec::new(),
            plugins,
            Vec::new(),
            text.as_str(),
        );
        assert(decision@ =~= skill_route(
            context@,
            descriptor@,
            execution_requested,
            reason@,
        )->Escalate_decision);
        return RouteDecisionResult::Escalate(
            RouteEscalationPlan {
                decision,
                reason: EscalationReason::NoEnabledRouteTarget,
                action: EscalationAction::FallbackAnswer,
            },
        );
    }
    let mut tools: Vec<String> = Vec::new();
    if executable {
        tools.push(context.skill_execute_tool.to_owned());
        plugins.push("builtin-tools".to_owned());
    }
    plugins.push("skill-source-local".to_owned());
    let decision: RouteDecision = RouteDecision::new(
        IntentFamily::TextTransform,
        "0.94",
        false,
        resource_risk(descriptor),
        tools,
        plugins,
        Vec::new(),
        reason,
    );
    let mut bound: Vec<ResourceSelector> = Vec::new();
    bound.push(descriptor.selector.clone());
    assert(selectors_view(bound@) =~= seq![descriptor@.selector]);
    let ghost base = bare_decision(
        IntentFamily::TextTransform,
        "0.94"@,
        route_risk(descriptor.risk),
        reason@,
    );
    if executable {
        assert(decision@ =~= RouteDecisionView {
            candidate_tools: seq![context@.skill_tool],
            candidate_plugins: seq!["builtin-tools"@, "skill-source-local"@],
            ..base
        });
        build_tool_loop_route(context, decision, Some(context.skill_execute_tool), bound)
    } else {
        assert(decision@ =~= RouteDecisionView {
            candidate_plugins: seq!["skill-source-local"@],
            ..base
        });
        build_tool_loop_route(context, decision, None, bound)
    }
}

/// What a request is classified by: its text, what was found in it with and
/// without the spaces around it, the tools that the catalog found for it, and
/// whether the best of them scores well enough.
pub struct RequestFacts<'a> {
    pub goal: &'a str,
    pub facts: &'a GoalFacts,
    pub trimmed_facts: &'a GoalFacts,
    pub tool_matches: &'a Vec<CatalogMatch>,
    pub score_ok: bool,
}

/// The route that is settled without a model.
pub open spec fn pre_classified(context: ClassifierView, q: RequestFacts) -> Option<
    RouteResultView,
> {
    let goal = q.goal@;
    let f = *q.facts;
    if let Some(route) = multi_step_route(context, goal, f) {
        Some(route)
    } else if f.explanatory_shell_command {
        Some(
            direct_answer(
                context,
                "0.81"@,
                "explicit shell command is referenced for explanation rather than execution; route to direct answer"@,
            ),
        )
    } else if f.explanatory_python_code {
        Some(
            direct_answer(
                context,
                "0.8"@,
                "explicit Python code is referenced for explanation rather than execution; route to direct answer"@,
            ),
        )
    } else if f.requests_python_execution && context.enabled.contains("python.run"@) && python_code(
        goal,
    ) is None {
        Some(
            missing_argument(
                IntentFamily::CodeExec,
                seq!["code"@],
                "the request clearly asks to run Python code, but no explicit Python snippet is present in the current turn"@,
            ),
        )
    } else if f.requests_web_lookup && context.enabled.contains("web.search"@) && web_query(
        goal,
    ) is None {
        Some(
            missing_argument(
                IntentFamily::WebLookup,
                seq!["query"@],
                "the request clearly asks for a web lookup, but no concrete search query is present in the current turn"@,
            ),
        )
    } else if let Some(route) = grounded_hint(context, goal, f) {
        Some(route)
    } else if let Some(d) = named_skill(context, goal) {
        if context.has_router {
            None
        } else {
            Some(
                skill_route(
                    context,
                    d,
                    false,
                    "explicit installed skill reference matched deterministic classifier"@,
                ),
            )
        }
    } else if let Some(route) = structural_fallback(context, *q.trimmed_facts) {
        Some(route)
    } else if let Some(route) = contract_match(
        context,
        q.tool_matches@,
        goal,
        f,
        q.score_ok,
    ) {
        Some(route)
    } else if !context.has_router {
        Some(
            direct_answer(
                context,
                "0.68"@,
                "no grounded direct tool route matched; fall back to direct answer in deterministic mode"@,
            ),
        )
    } else {
        None
    }
}

pub fn deterministic_pre_classify(context: &RouteClassifierContext, request: &RequestFacts) -> (r:
    Option<RouteDecisionResult>)
    ensures
        opt_route(r) == pre_classified(context@, *request),
{
    let goal: &str = request.goal;
    let facts: &GoalFacts = request.facts;
    if let Some(result) = classify_structured_multi_step_request(context, goal, facts) {
        return Some(result);
    }
    if facts.explanatory_shell_command {
        return Some(
            build_direct_answer(
                context,
                "0.81",
                "explicit shell command is referenced for explanation rather than execution; route to direct answer",
            ),
        );
    }
    if facts.explanatory_python_code {
        return Some(
            build_direct_answer(
                context,
                "0.8",
                "explicit Python code is referenced for explanation rather than execution; route to direct answer",
            ),
        );
    }
    if facts.requests_python_execution && context.availability_snapshot.is_tool_enabled(
        "python.run",
    ) && extract_explicit_python_code(goal).is_none() {
        let mut missing: Vec<String> = Vec::new();
        missing.push("code".to_owned());
        assert(views(missing@) =~= seq!["code"@]);
        return Some(
            missing_argument_route(
                IntentFamily::CodeExec,
                missing,
                "the request clearly asks to run Python code, but no explicit Python snippet is present in the current turn",
            ),
        );
    }
    if facts.requests_web_lookup && context.availability_snapshot.is_tool_enabled("web.search")
        && extract_web_query(goal).is_none() {
        let mut missing: Vec<String> = Vec::new();
        missing.push("query".to_owned());
        assert(views(missing@) =~= seq!["query"@]);
        return Some(
            missing_argument_route(
                IntentFamily::WebLookup,
                missing,
                "the request clearly asks for a web lookup, but no concrete search query is present in the current turn",
            ),
        );
    }
    if let Some(result) = classify_contract_level_grounded_hint(context, goal, facts) {
        return Some(result);
    }
    if let Some(descriptor) = explicit_skill_selector(context, goal) {
        if !context.has_route_router {
            return Some(
                build_skill_route_result(
                    context,
                    descriptor,
                    false,
                    "explicit installed skill reference matched deterministic classifier",
                ),
            );
        }
        return None;
    }
    if let Some(result) = classify_structural_fallback(context, request.trimmed_facts) {
        return Some(result);
    }
    if let Some(result) = classify_deterministic_contract_tool_match(
        context,
        request.tool_matches,
        goal,
        facts,
        request.score_ok,
    ) {
        return Some(result);
    }
    if !context.has_route_router {
        return Some(
            build_direct_answer(
                context,
                "0.68",
                "no grounded direct tool route matched; fall back to direct answer in deterministic mode",
            ),
        );
    }
    None
}

/// The route of a request; where nothing settles it, the tool loop without
/// candidates.
pub open spec fn classified(context: ClassifierView, q: RequestFacts) -> RouteResultView {
    match pre_classified(context, q) {
        Some(route) => route,
        None => direct_answer(
            context,
            "0.5"@,
            "no deterministic match; forwarding to tool loop"@,
        ),
    }
}

pub fn classify_request(context: &RouteClassifierContext, request: &RequestFacts) -> (r:
    RouteDecisionResult)
    ensures
        r@ == classified(context@, *request),
{
    if let Some(result) = deterministic_pre_classify(context, request) {
        return result;
    }
    build_direct_answer(context, "0.5", "no deterministic match; forwarding to tool loop")
}

} // verus!

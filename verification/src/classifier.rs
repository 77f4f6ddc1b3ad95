//! How a new request enters the runtime.

use crate::catalog::{
    candidate_plugins_for_tool, catalog_view, filtered_candidates, plugins_of, CatalogDescriptor,
    DescriptorView, RuntimeVisibleToolAvailabilitySnapshot,
};
use crate::decision::{IntentFamily, RouteDecision, RouteDecisionView, RouteRisk};
use crate::grounding::{extract_web_query, web_query};
use crate::observation::{selectors_view, ResourceSelector, SelectorView};
use crate::route::{
    DirectRouteKind, DirectRoutePlan, EscalationAction, EscalationReason, RouteDecisionResult,
    RouteEscalationPlan, RouteResultView,
};
use crate::split::{extend_new, with_new};
use crate::text::{opt_str_view, starts_with, starts_with_text, str_eq, views};
use vstd::prelude::*;

verus! {

/// What was found in the text of a request.
#[derive(Debug)]
pub struct GoalFacts {
    /// It speaks of a shell command to have it explained.
    pub explanatory_shell_command: bool,
    /// It speaks of Python code to have it explained.
    pub explanatory_python_code: bool,
    pub requests_python_execution: bool,
    pub requests_web_lookup: bool,
    /// It holds Python code that may be run.
    pub python_code_allows_execution: bool,
    /// It holds a shell command that may be run.
    pub shell_command_allows_execution: bool,
    /// The paths that it names.
    pub explicit_paths: Vec<String>,
    /// One of the paths can be used as it stands.
    pub has_concrete_path: bool,
    pub has_explicit_table_path: bool,
    pub has_concrete_table_path: bool,
    pub has_glob_pattern: bool,
    pub has_skill_source_url: bool,
}

impl GoalFacts {
    pub open spec fn paths(self) -> Seq<Seq<char>> {
        views(self.explicit_paths@)
    }
}

/// A tool that the catalog found for a request.
#[derive(Debug)]
pub struct CatalogMatch {
    pub descriptor: CatalogDescriptor,
    /// The tool cannot be called without arguments.
    pub requires_arguments: bool,
    /// The request gives the arguments that the tool needs.
    pub arguments_grounded: bool,
}

/// What a request is classified against.
pub struct RouteClassifierContext<'a> {
    pub catalog: &'a Vec<CatalogDescriptor>,
    pub enabled_plugins: &'a Vec<String>,
    pub availability_snapshot: &'a RuntimeVisibleToolAvailabilitySnapshot,
    /// There is a model that can route requests.
    pub has_route_router: bool,
    pub skill_execution_available: bool,
    /// The tool that runs skills.
    pub skill_execute_tool: &'a str,
}

#[verifier::ext_equal]
pub struct ClassifierView {
    pub catalog: Seq<DescriptorView>,
    pub plugins: Seq<Seq<char>>,
    pub enabled: Seq<Seq<char>>,
    pub has_router: bool,
    pub skills_run: bool,
    pub skill_tool: Seq<char>,
}

impl<'a> View for RouteClassifierContext<'a> {
    type V = ClassifierView;

    open spec fn view(&self) -> ClassifierView {
        ClassifierView {
            catalog: catalog_view(self.catalog@),
            plugins: views(self.enabled_plugins@),
            enabled: views(self.availability_snapshot.enabled_tools@),
            has_router: self.has_route_router,
            skills_run: self.skill_execution_available,
            skill_tool: self.skill_execute_tool@,
        }
    }
}

/// A decision for one step without candidates.
pub open spec fn bare_decision(
    family: IntentFamily,
    confidence: Seq<char>,
    risk: RouteRisk,
    reason: Seq<char>,
) -> RouteDecisionView {
    RouteDecisionView {
        intent_family: family,
        confidence,
        requires_multi_step: false,
        risk,
        candidate_tools: seq![],
        candidate_plugins: seq![],
        missing_arguments: seq![],
        reason,
    }
}

fn bare(family: IntentFamily, confidence: &str, risk: RouteRisk, reason: &str) -> (r: RouteDecision)
    ensures
        r@ == bare_decision(family, confidence@, risk, reason@),
{
    let r: RouteDecision = RouteDecision::new(
        family,
        confidence,
        false,
        risk,
        Vec::new(),
        Vec::new(),
        Vec::new(),
        reason,
    );
    assert(r@ =~= bare_decision(family, confidence@, risk, reason@));
    r
}

fn one(s: &str) -> (r: Vec<String>)
    ensures
        views(r@) == seq![s@],
{
    let mut r: Vec<String> = Vec::new();
    r.push(s.to_owned());
    assert(views(r@) =~= seq![s@]);
    r
}

fn three(a: &str, b: &str, c: &str) -> (r: Vec<String>)
    ensures
        views(r@) == seq![a@, b@, c@],
{
    let mut r: Vec<String> = Vec::new();
    r.push(a.to_owned());
    r.push(b.to_owned());
    r.push(c.to_owned());
    assert(views(r@) =~= seq![a@, b@, c@]);
    r
}

/// The route into the tool loop: only enabled tools stay candidates, and the
/// plugins are those of the first one where none are given.
pub open spec fn tool_loop_route(
    context: ClassifierView,
    decision: RouteDecisionView,
    preferred: Option<Seq<char>>,
    bound: Seq<SelectorView>,
) -> RouteResultView {
    let tools = filtered_candidates(preferred, decision.candidate_tools, context.enabled);
    RouteResultView::Direct {
        decision: RouteDecisionView {
            candidate_tools: tools,
            candidate_plugins: if decision.candidate_plugins.len() > 0 {
                decision.candidate_plugins
            } else if tools.len() > 0 {
                plugins_of(tools[0], context.plugins)
            } else {
                seq![]
            },
            ..decision
        },
        kind: DirectRouteKind::ToolLoop,
        bound,
    }
}

pub fn build_tool_loop_route(
    context: &RouteClassifierContext,
    decision: RouteDecision,
    preferred_tool: Option<&str>,
    bound_resources: Vec<ResourceSelector>,
) -> (r: RouteDecisionResult)
    ensures
        r@ == tool_loop_route(
            context@,
            decision@,
            opt_str_view(preferred_tool),
            selectors_view(bound_resources@),
        ),
{
    let mut decision: RouteDecision = decision;
    let ghost given = decision@;
    decision.candidate_tools = context.availability_snapshot.filter_candidate_tools(
        preferred_tool,
        &decision.candidate_tools,
    );
    assert(views(decision.candidate_plugins@).len() == decision.candidate_plugins@.len());
    assert(views(decision.candidate_tools@).len() == decision.candidate_tools@.len());
    if decision.candidate_plugins.len() == 0 {
        decision.candidate_plugins = if decision.candidate_tools.len() > 0 {
            assert(views(decision.candidate_tools@)[0] == decision.candidate_tools@[0]@);
            candidate_plugins_for_tool(
                context.enabled_plugins,
                decision.candidate_tools[0].as_str(),
            )
        } else {
            Vec::new()
        };
    }
    let r: RouteDecisionResult = RouteDecisionResult::Direct(
        DirectRoutePlan { decision, kind: DirectRouteKind::ToolLoop, bound_resources },
    );
    assert(r@->Direct_decision =~= tool_loop_route(
        context@,
        given,
        opt_str_view(preferred_tool),
        selectors_view(bound_resources@),
    )->Direct_decision);
    r
}

/// The route into the tool loop with nothing bound.
pub open spec fn loop_hint(context: ClassifierView, decision: RouteDecisionView) -> RouteResultView {
    tool_loop_route(context, decision, None, seq![])
}

pub fn build_loop_hint_route(context: &RouteClassifierContext, decision: RouteDecision) -> (r:
    RouteDecisionResult)
    ensures
        r@ == loop_hint(context@, decision@),
{
    let none: Vec<ResourceSelector> = Vec::new();
    assert(selectors_view(none@) =~= seq![]);
    build_tool_loop_route(context, decision, None, none)
}

/// The family whose tools the request is for cannot be used.
pub open spec fn unavailable(family: IntentFamily, reason: Seq<char>) -> RouteResultView {
    RouteResultView::Escalate {
        decision: bare_decision(family, "0.72"@, RouteRisk::Low, reason),
        reason: EscalationReason::NoEnabledRouteTarget,
        action: EscalationAction::FallbackAnswer,
    }
}

pub fn unavailable_family_route(intent_family: IntentFamily, reason: &str) -> (r:
    RouteDecisionResult)
    ensures
        r@ == unavailable(intent_family, reason@),
{
    RouteDecisionResult::Escalate(
        RouteEscalationPlan {
            decision: bare(intent_family, "0.72", RouteRisk::Low, reason),
            reason: EscalationReason::NoEnabledRouteTarget,
            action: EscalationAction::FallbackAnswer,
        },
    )
}

/// The request lacks something that its tool needs.
pub open spec fn missing_argument(
    family: IntentFamily,
    missing: Seq<Seq<char>>,
    reason: Seq<char>,
) -> RouteResultView {
    RouteResultView::Escalate {
        decision: RouteDecisionView {
            missing_arguments: missing,
            ..bare_decision(family, "0.78"@, RouteRisk::Low, reason)
        },
        reason: EscalationReason::MissingArguments,
        action: EscalationAction::AskForMoreInfo,
    }
}

pub fn missing_argument_route(
    intent_family: IntentFamily,
    missing_arguments: Vec<String>,
    reason: &str,
) -> (r: RouteDecisionResult)
    ensures
        r@ == missing_argument(intent_family, views(missing_arguments@), reason@),
{
    let mut decision: RouteDecision = bare(intent_family, "0.78", RouteRisk::Low, reason);
    decision.missing_arguments = missing_arguments;
    RouteDecisionResult::Escalate(
        RouteEscalationPlan {
            decision,
            reason: EscalationReason::MissingArguments,
            action: EscalationAction::AskForMoreInfo,
        },
    )
}

pub open spec fn family_of_tool(tool: Seq<char>) -> IntentFamily {
    if starts_with(tool, "fs."@) {
        IntentFamily::FilesystemRead
    } else if starts_with(tool, "table."@) {
        IntentFamily::TableRead
    } else if starts_with(tool, "web."@) {
        IntentFamily::WebLookup
    } else if starts_with(tool, "python."@) || starts_with(tool, "command."@) {
        IntentFamily::CodeExec
    } else {
        IntentFamily::TextTransform
    }
}

pub fn coarse_intent_hint_for_tool(tool_name: &str) -> (r: IntentFamily)
    ensures
        r == family_of_tool(tool_name@),
{
    if starts_with_text(tool_name, "fs.") {
        IntentFamily::FilesystemRead
    } else if starts_with_text(tool_name, "table.") {
        IntentFamily::TableRead
    } else if starts_with_text(tool_name, "web.") {
        IntentFamily::WebLookup
    } else if starts_with_text(tool_name, "python.") || starts_with_text(tool_name, "command.") {
        IntentFamily::CodeExec
    } else {
        IntentFamily::TextTransform
    }
}

/// The request gives what a tool that it names needs.
pub open spec fn tool_grounded(tool: Seq<char>, goal: Seq<char>, f: GoalFacts) -> bool {
    if tool == "fs.exists"@ || tool == "fs.inspect"@ || tool == "fs.list_dir"@ || tool
        == "fs.read_text"@ {
        f.has_concrete_path
    } else if tool == "fs.find"@ {
        f.paths().len() > 0
    } else if tool == "fs.glob"@ {
        f.has_glob_pattern
    } else if tool == "table.inspect"@ || tool == "table.list_sheets"@ || tool == "table.preview"@
        || tool == "table.schema"@ {
        f.has_concrete_table_path
    } else if tool == "web.search"@ {
        f.requests_web_lookup && web_query(goal) is Some
    } else if tool == "command.run"@ {
        f.shell_command_allows_execution
    } else if tool == "python.run"@ {
        f.python_code_allows_execution
    } else if tool == "skill.install"@ || tool == "skill.ensure_installed"@ {
        f.has_skill_source_url
    } else {
        false
    }
}

pub fn explicit_tool_hint_is_grounded(tool_name: &str, goal: &str, facts: &GoalFacts) -> (r: bool)
    ensures
        r == tool_grounded(tool_name@, goal@, *facts),
{
    assert(facts.paths().len() == facts.explicit_paths@.len());
    if str_eq(tool_name, "fs.exists") || str_eq(tool_name, "fs.inspect") || str_eq(
        tool_name,
        "fs.list_dir",
    ) || str_eq(tool_name, "fs.read_text") {
        facts.has_concrete_path
    } else if str_eq(tool_name, "fs.find") {
        facts.explicit_paths.len() > 0
    } else if str_eq(tool_name, "fs.glob") {
        facts.has_glob_pattern
    } else if str_eq(tool_name, "table.inspect") || str_eq(tool_name, "table.list_sheets")
        || str_eq(tool_name, "table.preview") || str_eq(tool_name, "table.schema") {
        facts.has_concrete_table_path
    } else if str_eq(tool_name, "web.search") {
        facts.requests_web_lookup && extract_web_query(goal).is_some()
    } else if str_eq(tool_name, "command.run") {
        facts.shell_command_allows_execution
    } else if str_eq(tool_name, "python.run") {
        facts.python_code_allows_execution
    } else if str_eq(tool_name, "skill.install") || str_eq(tool_name, "skill.ensure_installed") {
        facts.has_skill_source_url
    } else {
        false
    }
}

/// The filesystem tools that a broad request starts with.
pub open spec fn broad_filesystem(f: GoalFacts) -> Seq<Seq<char>> {
    if f.has_glob_pattern {
        seq!["fs.glob"@, "fs.find"@, "fs.inspect"@]
    } else if f.has_concrete_path {
        seq!["fs.inspect"@, "fs.read_text"@, "fs.list_dir"@]
    } else {
        seq!["fs.find"@, "fs.glob"@, "fs.inspect"@]
    }
}

pub fn broad_filesystem_candidate_tools(facts: &GoalFacts) -> (r: Vec<String>)
    ensures
        views(r@) == broad_filesystem(*facts),
{
    if facts.has_glob_pattern {
        three("fs.glob", "fs.find", "fs.inspect")
    } else if facts.has_concrete_path {
        three("fs.inspect", "fs.read_text", "fs.list_dir")
    } else {
        three("fs.find", "fs.glob", "fs.inspect")
    }
}

/// The table tools that a broad request starts with.
pub open spec fn broad_table() -> Seq<Seq<char>> {
    seq!["table.inspect"@, "table.preview"@, "table.list_sheets"@]
}

pub fn broad_table_candidate_tools() -> (r: Vec<String>)
    ensures
        views(r@) == broad_table(),
{
    three("table.inspect", "table.preview", "table.list_sheets")
}

/// The first three of both lists, each tool once.
pub open spec fn merged_seed(seeds: Seq<Seq<char>>, starters: Seq<Seq<char>>) -> Seq<Seq<char>> {
    let all = with_new(with_new(seq![], seeds), starters);
    if all.len() > 3 {
        all.take(3)
    } else {
        all
    }
}

pub fn merge_preserving_seed(seeds: &Vec<String>, starter_set: &Vec<String>) -> (r: Vec<String>)
    ensures
        views(r@) == merged_seed(views(seeds@), views(starter_set@)),
{
    let mut tools: Vec<String> = Vec::new();
    assert(views(tools@) =~= seq![]);
    extend_new(&mut tools, seeds);
    extend_new(&mut tools, starter_set);
    let ghost all = views(tools@);
    assert(all.len() == tools@.len());
    if tools.len() > 3 {
        tools.truncate(3);
        assert(views(tools@) =~= all.take(3));
    }
    tools
}

/// The candidates with the starters of their family.
pub open spec fn seeded(decision: RouteDecisionView, f: GoalFacts) -> RouteDecisionView {
    match decision.intent_family {
        IntentFamily::FilesystemRead => RouteDecisionView {
            candidate_tools: merged_seed(decision.candidate_tools, broad_filesystem(f)),
            ..decision
        },
        IntentFamily::TableRead => RouteDecisionView {
            candidate_tools: merged_seed(decision.candidate_tools, broad_table()),
            ..decision
        },
        _ => decision,
    }
}

pub fn normalize_direct_route_seed(facts: &GoalFacts, decision: &mut RouteDecision)
    ensures
        final(decision)@ == seeded(old(decision)@, *facts),
{
    match decision.intent_family {
        IntentFamily::FilesystemRead => {
            let starters: Vec<String> = broad_filesystem_candidate_tools(facts);
            decision.candidate_tools = merge_preserving_seed(&decision.candidate_tools, &starters);
        },
        IntentFamily::TableRead => {
            let starters: Vec<String> = broad_table_candidate_tools();
            decision.candidate_tools = merge_preserving_seed(&decision.candidate_tools, &starters);
        },
        _ => {},
    }
}

} // verus!

//! Agent instances from capability profiles.

use crate::json::{Json, JsonView};
use crate::observation::selectors_view;
use crate::order::{
    is_before, lemma_before_irreflexive, lemma_before_total, lemma_before_transitive, text_before,
};
use crate::split::{clone_list, extend_new, with_new};
use crate::task::{
    clone_turns, turns_view, AgentContext, AgentInstanceSpec, ContextView, ConversationTurn,
    NodeBudgetSnapshot, NodeView, PolicyBindings, SpecView, TaskNode, TaskNodeKind, TurnView,
};
use crate::text::{starts_with, starts_with_text, str_eq, views};
use vstd::prelude::*;

verus! {

pub const PROFILE_RESEARCH: &'static str = "research";

pub const PROFILE_DATA: &'static str = "data";

pub const PROFILE_REVIEW: &'static str = "review";

pub const PROFILE_GENERAL: &'static str = "general";

#[derive(Debug, Clone, Copy, PartialEq, Eq, Structural)]
pub enum DefaultProfile {
    Research,
    Data,
    Review,
    General,
}

impl DefaultProfile {
    pub open spec fn id(self) -> Seq<char> {
        match self {
            DefaultProfile::Research => "research"@,
            DefaultProfile::Data => "data"@,
            DefaultProfile::Review => "review"@,
            DefaultProfile::General => "general"@,
        }
    }

    pub fn profile_id(self) -> (r: &'static str)
        ensures
            r@ == self.id(),
    {
        match self {
            DefaultProfile::Research => PROFILE_RESEARCH,
            DefaultProfile::Data => PROFILE_DATA,
            DefaultProfile::Review => PROFILE_REVIEW,
            DefaultProfile::General => PROFILE_GENERAL,
        }
    }
}

/// What an agent of a profile can do by default, and which capabilities it is for.
#[derive(Debug)]
pub struct CapabilityProfile {
    pub profile_id: String,
    pub capability_prefixes: Vec<String>,
    pub default_capabilities: Vec<String>,
    pub default_budget_tokens: u64,
    pub default_time_budget_ms: u64,
}

#[verifier::ext_equal]
pub struct ProfileView {
    pub profile_id: Seq<char>,
    pub capability_prefixes: Seq<Seq<char>>,
    pub default_capabilities: Seq<Seq<char>>,
    pub default_budget_tokens: u64,
    pub default_time_budget_ms: u64,
}

impl View for CapabilityProfile {
    type V = ProfileView;

    open spec fn view(&self) -> ProfileView {
        ProfileView {
            profile_id: self.profile_id@,
            capability_prefixes: views(self.capability_prefixes@),
            default_capabilities: views(self.default_capabilities@),
            default_budget_tokens: self.default_budget_tokens,
            default_time_budget_ms: self.default_time_budget_ms,
        }
    }
}

pub open spec fn profiles_view(profiles: Seq<CapabilityProfile>) -> Seq<ProfileView> {
    profiles.map_values(|p: CapabilityProfile| p@)
}

/// The text starts with one of the prefixes.
pub open spec fn has_prefix(s: Seq<char>, prefixes: Seq<Seq<char>>) -> bool {
    exists|i: int| 0 <= i < prefixes.len() && starts_with(s, #[trigger] prefixes[i])
}

/// How many of the capabilities start with one of the prefixes.
pub open spec fn matching(capabilities: Seq<Seq<char>>, prefixes: Seq<Seq<char>>) -> nat
    decreases capabilities.len(),
{
    if capabilities.len() == 0 {
        0
    } else {
        matching(capabilities.drop_last(), prefixes) + if has_prefix(
            capabilities.last(),
            prefixes,
        ) {
            1nat
        } else {
            0
        }
    }
}

impl ProfileView {
    pub open spec fn score(self, capabilities: Seq<Seq<char>>) -> nat {
        matching(capabilities, self.capability_prefixes)
    }
}

impl CapabilityProfile {
    pub fn new(
        profile_id: &str,
        capability_prefixes: Vec<String>,
        default_capabilities: Vec<String>,
        default_budget_tokens: u64,
        default_time_budget_ms: u64,
    ) -> (r: Self)
        ensures
            r@ == (ProfileView {
                profile_id: profile_id@,
                capability_prefixes: views(capability_prefixes@),
                default_capabilities: views(default_capabilities@),
                default_budget_tokens,
                default_time_budget_ms,
            }),
    {
        CapabilityProfile {
            profile_id: profile_id.to_owned(),
            capability_prefixes,
            default_capabilities,
            default_budget_tokens,
            default_time_budget_ms,
        }
    }

    fn serves(&self, capability: &str) -> (r: bool)
        ensures
            r == has_prefix(capability@, self@.capability_prefixes),
    {
        let ghost prefixes = self@.capability_prefixes;
        let mut i: usize = 0;
        while i < self.capability_prefixes.len()
            invariant
                i <= self.capability_prefixes.len(),
                prefixes == views(self.capability_prefixes@),
                forall|j: int| 0 <= j < i ==> !starts_with(capability@, #[trigger] prefixes[j]),
            decreases self.capability_prefixes.len() - i,
        {
            assert(prefixes[i as int] == self.capability_prefixes@[i as int]@);
            if starts_with_text(capability, self.capability_prefixes[i].as_str()) {
                return true;
            }
            i = i + 1;
        }
        false
    }

    /// How many of the capabilities the profile is for.
    pub fn match_score(&self, capabilities: &Vec<String>) -> (r: usize)
        ensures
            r == self@.score(views(capabilities@)),
    {
        let ghost all = views(capabilities@);
        let ghost prefixes = self@.capability_prefixes;
        let mut count: usize = 0;
        let mut i: usize = 0;
        assert(all.take(0) =~= seq![]);
        while i < capabilities.len()
            invariant
                i <= capabilities.len(),
                count <= i,
                all == views(capabilities@),
                prefixes == self@.capability_prefixes,
                count == matching(all.take(i as int), prefixes),
            decreases capabilities.len() - i,
        {
            assert(all.take(i + 1).drop_last() =~= all.take(i as int));
            assert(all.take(i + 1).last() == capabilities@[i as int]@);
            if self.serves(capabilities[i].as_str()) {
                count = count + 1;
            }
            i = i + 1;
        }
        assert(all.take(i as int) =~= all);
        count
    }
}

/// The profiles by their ids, and the one for nodes that none of them is for.
#[derive(Debug)]
pub struct AgentInstanceFactory {
    profiles: Vec<CapabilityProfile>,
    fallback_profile_id: String,
}

#[verifier::ext_equal]
pub struct FactoryView {
    pub profiles: Seq<ProfileView>,
    pub fallback: Seq<char>,
}

impl View for AgentInstanceFactory {
    type V = FactoryView;

    closed spec fn view(&self) -> FactoryView {
        FactoryView {
            profiles: profiles_view(self.profiles@),
            fallback: self.fallback_profile_id@,
        }
    }
}

/// The index of the profile with that id.
pub open spec fn named(profiles: Seq<ProfileView>, id: Seq<char>) -> Option<int> {
    if exists|i: int| 0 <= i < profiles.len() && (#[trigger] profiles[i]).profile_id == id {
        Some(choose|i: int| 0 <= i < profiles.len() && (#[trigger] profiles[i]).profile_id == id)
    } else {
        None
    }
}

impl FactoryView {
    /// No id occurs twice, and the fallback is there.
    pub open spec fn well_formed(self) -> bool {
        &&& forall|i: int, j: int|
            0 <= i < j < self.profiles.len() ==> (#[trigger] self.profiles[i]).profile_id != (
            #[trigger] self.profiles[j]).profile_id
        &&& named(self.profiles, self.fallback) is Some
    }

    /// `p` is the profile for these capabilities: the one that is for most of them,
    /// of several the one whose id comes first; the fallback where none is for any.
    pub open spec fn selects(self, capabilities: Seq<Seq<char>>, p: ProfileView) -> bool {
        &&& self.profiles.contains(p)
        &&& if p.score(capabilities) == 0 {
            &&& p.profile_id == self.fallback
            &&& forall|i: int|
                0 <= i < self.profiles.len() ==> (#[trigger] self.profiles[i]).score(capabilities)
                    == 0
        } else {
            forall|i: int|
                0 <= i < self.profiles.len() ==> {
                    let q = #[trigger] self.profiles[i];
                    ||| q.score(capabilities) < p.score(capabilities)
                    ||| q.score(capabilities) == p.score(capabilities) && !text_before(
                        q.profile_id,
                        p.profile_id,
                    )
                }
        }
    }
}

/// Whether a profile with that id is there, and where.
fn profile_index(profiles: &Vec<CapabilityProfile>, id: &str) -> (r: Option<usize>)
    ensures
        match r {
            Some(i) => i < profiles.len() && profiles@[i as int].profile_id@ == id@,
            None => forall|i: int|
                0 <= i < profiles.len() ==> (#[trigger] profiles@[i]).profile_id@ != id@,
        },
{
    let mut i: usize = 0;
    while i < profiles.len()
        invariant
            i <= profiles.len(),
            forall|j: int| 0 <= j < i ==> (#[trigger] profiles@[j]).profile_id@ != id@,
        decreases profiles.len() - i,
    {
        if str_eq(profiles[i].profile_id.as_str(), id) {
            return Some(i);
        }
        i = i + 1;
    }
    None
}

/// The capabilities of the profile and of the node, each once.
pub open spec fn merged_capabilities(
    profile: Seq<Seq<char>>,
    node: Seq<Seq<char>>,
) -> Seq<Seq<char>> {
    with_new(with_new(seq![], profile), node)
}

pub fn merge_capabilities(profile_caps: &Vec<String>, node_caps: &Vec<String>) -> (r: Vec<String>)
    ensures
        views(r@) == merged_capabilities(views(profile_caps@), views(node_caps@)),
{
    let mut merged: Vec<String> = Vec::new();
    assert(views(merged@) =~= seq![]);
    extend_new(&mut merged, profile_caps);
    extend_new(&mut merged, node_caps);
    merged
}

/// The smaller of the sum and the largest number there is.
pub open spec fn capped_sum(base: u64, count: nat, each: nat) -> u64 {
    if base + count * each > u64::MAX {
        u64::MAX
    } else {
        (base + count * each) as u64
    }
}

pub open spec fn at_most(n: u64, limit: u64) -> u64 {
    if n < limit {
        n
    } else {
        limit
    }
}

/// The budgets of a node under a profile: each capability adds to the profile's
/// own, and validation and aggregation are kept small.
pub open spec fn bindings_for(node: NodeView, profile: ProfileView) -> PolicyBindings {
    let count = node.capabilities.len();
    let tokens = capped_sum(profile.default_budget_tokens, count, 500);
    let time = capped_sum(profile.default_time_budget_ms, count, 1_000);
    if node.kind == TaskNodeKind::Execution {
        PolicyBindings { budget_tokens: tokens, time_budget_ms: time }
    } else {
        PolicyBindings {
            budget_tokens: at_most(tokens, 6_000),
            time_budget_ms: at_most(time, 15_000),
        }
    }
}

fn capped_total(base: u64, count: usize, each: u64) -> (r: u64)
    requires
        each > 0,
    ensures
        r == capped_sum(base, count as nat, each as nat),
{
    proof {
        if count * each > u64::MAX {
            assert(base + count * each > u64::MAX);
        }
        assert((count as nat) * (each as nat) == count * each) by (nonlinear_arith);
    }
    let more: u64 = match (count as u64).checked_mul(each) {
        Some(n) => n,
        None => u64::MAX,
    };
    base.saturating_add(more)
}

pub fn derive_policy_bindings(node: &TaskNode, profile: &CapabilityProfile) -> (r: PolicyBindings)
    ensures
        r == bindings_for(node@, profile@),
{
    let count: usize = node.capabilities.len();
    let mut budget_tokens: u64 = capped_total(profile.default_budget_tokens, count, 500);
    let mut time_budget_ms: u64 = capped_total(profile.default_time_budget_ms, count, 1_000);
    let small: bool = match node.kind {
        TaskNodeKind::Execution => false,
        TaskNodeKind::Validation => true,
        TaskNodeKind::Aggregation => true,
    };
    if small {
        if budget_tokens > 6_000 {
            budget_tokens = 6_000;
        }
        if time_budget_ms > 15_000 {
            time_budget_ms = 15_000;
        }
    }
    PolicyBindings { budget_tokens, time_budget_ms }
}

/// The instance that runs a node under a profile.
pub open spec fn instance_of(
    task_id: Seq<char>,
    node: NodeView,
    profile: ProfileView,
    history: Seq<TurnView>,
) -> SpecView {
    SpecView {
        instance_id: "agent-"@ + profile.profile_id + "-"@ + node.node_id,
        context: ContextView {
            task_id,
            node_id: node.node_id,
            summary: node.description,
            resources: seq![],
            conversation_history: history,
            runtime_memory_sections: JsonView::Null,
        },
        capabilities: merged_capabilities(profile.default_capabilities, node.capabilities),
        policy_bindings: bindings_for(node, profile),
    }
}

/// The node that a default profile's instance is built for.
pub open spec fn profile_node(profile_id: Seq<char>, capabilities: Seq<Seq<char>>) -> NodeView {
    NodeView {
        node_id: "profile-node"@,
        kind: TaskNodeKind::Execution,
        description: "profile-based instance: "@ + profile_id,
        resources: seq![],
        capabilities,
        budget_snapshot: NodeBudgetSnapshot { token_budget: 0, time_budget_ms: 0 },
        capability_requirements_snapshot: seq![],
    }
}

fn build_instance(
    task_id: &str,
    node: &TaskNode,
    profile: &CapabilityProfile,
    history: &Vec<ConversationTurn>,
) -> (r: AgentInstanceSpec)
    ensures
        r@ == instance_of(task_id@, node@, profile@, turns_view(history@)),
{
    let mut instance_id: String = "agent-".to_owned();
    instance_id.append(profile.profile_id.as_str());
    instance_id.append("-");
    instance_id.append(node.node_id.as_str());
    let r: AgentInstanceSpec = AgentInstanceSpec {
        instance_id,
        context: AgentContext {
            task_id: task_id.to_owned(),
            node_id: node.node_id.clone(),
            summary: node.description.clone(),
            resources: Vec::new(),
            conversation_history: clone_turns(history),
            runtime_memory_sections: Json::Null,
        },
        capabilities: merge_capabilities(&profile.default_capabilities, &node.capabilities),
        policy_bindings: derive_policy_bindings(node, profile),
    };
    assert(selectors_view(r.context.resources@) =~= seq![]);
    r
}

/// The profile of that id replaces the one that has it, or comes last.
pub open spec fn registered(profiles: Seq<ProfileView>, p: ProfileView) -> Seq<ProfileView> {
    match named(profiles, p.profile_id) {
        Some(i) => profiles.update(i, p),
        None => profiles.push(p),
    }
}

proof fn lemma_named(profiles: Seq<ProfileView>, id: Seq<char>, i: int)
    requires
        0 <= i < profiles.len(),
        profiles[i].profile_id == id,
        forall|a: int, b: int|
            0 <= a < b < profiles.len() ==> (#[trigger] profiles[a]).profile_id != (
            #[trigger] profiles[b]).profile_id,
    ensures
        named(profiles, id) == Some(i),
{
    let k = named(profiles, id)->0;
    assert(profiles[k].profile_id == id);
    if k < i {
        assert(profiles[k].profile_id != profiles[i].profile_id);
    } else if i < k {
        assert(profiles[i].profile_id != profiles[k].profile_id);
    }
}

proof fn lemma_registered(before: FactoryView, p: ProfileView)
    requires
        before.well_formed(),
    ensures
        (FactoryView { profiles: registered(before.profiles, p), ..before }).well_formed(),
{
    let after = registered(before.profiles, p);
    let f = named(before.profiles, before.fallback)->0;
    match named(before.profiles, p.profile_id) {
        Some(k) => {
            assert(before.profiles[k].profile_id == p.profile_id);
            assert forall|a: int, b: int| 0 <= a < b < after.len() implies (
            #[trigger] after[a]).profile_id != (#[trigger] after[b]).profile_id by {
                assert(before.profiles[a].profile_id == after[a].profile_id);
                assert(before.profiles[b].profile_id == after[b].profile_id);
            }
            assert(after[f].profile_id == before.fallback);
        },
        None => {
            assert forall|a: int, b: int| 0 <= a < b < after.len() implies (
            #[trigger] after[a]).profile_id != (#[trigger] after[b]).profile_id by {
                assert(after[a] == before.profiles[a]);
                if b < before.profiles.len() {
                    assert(after[b] == before.profiles[b]);
                }
            }
            assert(after[f].profile_id == before.fallback);
        },
    }
}

/// Only one profile can be the one for given capabilities.
pub proof fn law_selection_unique(
    factory: FactoryView,
    capabilities: Seq<Seq<char>>,
    p: ProfileView,
    q: ProfileView,
)
    requires
        factory.well_formed(),
        factory.selects(capabilities, p),
        factory.selects(capabilities, q),
    ensures
        p == q,
{
    let i = choose|i: int| 0 <= i < factory.profiles.len() && factory.profiles[i] == p;
    let j = choose|j: int| 0 <= j < factory.profiles.len() && factory.profiles[j] == q;
    assert(factory.profiles[i] == p && factory.profiles[j] == q);
    lemma_before_total(p.profile_id, q.profile_id);
    assert(p.profile_id == q.profile_id);
    if i < j {
        assert(factory.profiles[i].profile_id != factory.profiles[j].profile_id);
    } else if j < i {
        assert(factory.profiles[j].profile_id != factory.profiles[i].profile_id);
    }
}

/// A profile registered under an id is the one that the id names.
pub proof fn law_registered_is_named(factory: FactoryView, p: ProfileView)
    requires
        factory.well_formed(),
    ensures
        named(registered(factory.profiles, p), p.profile_id) matches Some(i) && registered(
            factory.profiles,
            p,
        )[i] == p,
{
    lemma_registered(factory, p);
    let after = registered(factory.profiles, p);
    match named(factory.profiles, p.profile_id) {
        Some(k) => {
            assert(factory.profiles[k].profile_id == p.profile_id);
            lemma_named(after, p.profile_id, k);
        },
        None => {
            lemma_named(after, p.profile_id, factory.profiles.len() as int);
        },
    }
}

impl AgentInstanceFactory {
    /// Adds a profile, and gives the one that had its id.
    pub fn register_profile(&mut self, profile: CapabilityProfile) -> (r: Option<CapabilityProfile>)
        requires
            old(self)@.well_formed(),
        ensures
            final(self)@ == (FactoryView {
                profiles: registered(old(self)@.profiles, profile@),
                ..old(self)@
            }),
            final(self)@.well_formed(),
            match named(old(self)@.profiles, profile@.profile_id) {
                Some(i) => r matches Some(p) && p@ == old(self)@.profiles[i],
                None => r is None,
            },
    {
        let ghost before = self@;
        let ghost view = profile@;
        proof {
            lemma_registered(before, view);
        }
        match profile_index(&self.profiles, profile.profile_id.as_str()) {
            Some(i) => {
                assert(before.profiles[i as int].profile_id == view.profile_id);
                proof {
                    lemma_named(before.profiles, view.profile_id, i as int);
                }
                let mut replaced: CapabilityProfile = profile;
                core::mem::swap(&mut self.profiles[i], &mut replaced);
                assert(self@.profiles =~= before.profiles.update(i as int, view));
                Some(replaced)
            },
            None => {
                assert forall|i: int| 0 <= i < before.profiles.len() implies (
                #[trigger] before.profiles[i]).profile_id != view.profile_id by {
                    assert(before.profiles[i] == self.profiles@[i]@);
                }
                self.profiles.push(profile);
                assert(self@.profiles =~= before.profiles.push(view));
                None
            },
        }
    }

    /// The profile for a node.
    pub fn select_profile_for_node(&self, node: &TaskNode) -> (r: &CapabilityProfile)
        requires
            self@.well_formed(),
        ensures
            self@.selects(node@.capabilities, r@),
    {
        let ghost all = self@.profiles;
        let ghost capabilities = node@.capabilities;
        let fallback: Option<usize> = profile_index(
            &self.profiles,
            self.fallback_profile_id.as_str(),
        );
        proof {
            let k = named(all, self@.fallback)->0;
            assert(all[k].profile_id == self@.fallback);
            assert(self.profiles@[k].profile_id@ == self@.fallback);
        }
        let mut selected: usize = match fallback {
            Some(i) => i,
            None => 0,
        };
        let mut selected_score: usize = 0;
        let mut i: usize = 0;
        while i < self.profiles.len()
            invariant
                i <= self.profiles.len(),
                selected < self.profiles.len(),
                all == self@.profiles,
                capabilities == node@.capabilities,
                forall|j: int|
                    0 <= j < i ==> {
                        let q = #[trigger] all[j];
                        ||| q.score(capabilities) < selected_score
                        ||| q.score(capabilities) == selected_score && (selected_score == 0
                            || !text_before(q.profile_id, all[selected as int].profile_id))
                    },
                selected_score == 0 ==> all[selected as int].profile_id == self@.fallback,
                selected_score > 0 ==> all[selected as int].score(capabilities) == selected_score,
            decreases self.profiles.len() - i,
        {
            let profile: &CapabilityProfile = &self.profiles[i];
            assert(all[i as int] == profile@);
            assert(all[selected as int] == self.profiles@[selected as int]@);
            let score: usize = profile.match_score(&node.capabilities);
            if score > selected_score || (score == selected_score && score > 0 && is_before(
                profile.profile_id.as_str(),
                self.profiles[selected].profile_id.as_str(),
            )) {
                proof {
                    lemma_before_irreflexive(profile@.profile_id);
                    assert forall|j: int| 0 <= j < i && all[j].score(capabilities)
                        == score implies !text_before(
                        (#[trigger] all[j]).profile_id,
                        profile@.profile_id,
                    ) by {
                        let q = all[j];
                        let s = all[selected as int].profile_id;
                        if score == selected_score && text_before(
                            q.profile_id,
                            profile@.profile_id,
                        ) {
                            lemma_before_transitive(q.profile_id, profile@.profile_id, s);
                        }
                    }
                }
                selected = i;
                selected_score = score;
            }
            i = i + 1;
        }
        assert(all[selected as int] == self.profiles@[selected as int]@);
        proof {
            if selected_score == 0 {
                assert(all[selected as int].score(capabilities) == 0);
            }
        }
        &self.profiles[selected]
    }

    /// The id of the profile for a node.
    pub fn inferred_profile_id(&self, node: &TaskNode) -> (r: String)
        requires
            self@.well_formed(),
        ensures
            exists|p: ProfileView| #[trigger] self@.selects(node@.capabilities, p) && p.profile_id
                == r@,
    {
        let profile: &CapabilityProfile = self.select_profile_for_node(node);
        assert(self@.selects(node@.capabilities, profile@));
        profile.profile_id.clone()
    }

    /// The instance that runs a node, with what was said before.
    pub fn build_for_node_with_history(
        &self,
        task_id: &str,
        node: &TaskNode,
        history: &Vec<ConversationTurn>,
    ) -> (r: AgentInstanceSpec)
        requires
            self@.well_formed(),
        ensures
            exists|p: ProfileView| #[trigger] self@.selects(node@.capabilities, p) && r@
                == instance_of(task_id@, node@, p, turns_view(history@)),
    {
        let profile: &CapabilityProfile = self.select_profile_for_node(node);
        assert(self@.selects(node@.capabilities, profile@));
        build_instance(task_id, node, profile, history)
    }

    /// The instance that runs a node.
    pub fn build_for_node(&self, task_id: &str, node: &TaskNode) -> (r: AgentInstanceSpec)
        requires
            self@.well_formed(),
        ensures
            exists|p: ProfileView| #[trigger] self@.selects(node@.capabilities, p) && r@
                == instance_of(task_id@, node@, p, seq![]),
    {
        let history: Vec<ConversationTurn> = Vec::new();
        assert(turns_view(history@) =~= seq![]);
        self.build_for_node_with_history(task_id, node, &history)
    }

    /// The instance of a default profile, or of the fallback where the profile has
    /// no entry.
    pub fn build_from_profile(&self, task_id: &str, profile: DefaultProfile) -> (r:
        AgentInstanceSpec)
        requires
            self@.well_formed(),
        ensures
            ({
                let chosen = match named(self@.profiles, profile.id()) {
                    Some(i) => self@.profiles[i],
                    None => self@.profiles[named(self@.profiles, self@.fallback)->0],
                };
                r@ == instance_of(
                    task_id@,
                    profile_node(profile.id(), chosen.default_capabilities),
                    chosen,
                    seq![],
                )
            }),
    {
        let ghost all = self@.profiles;
        let profile_id: &str = profile.profile_id();
        let own: Option<usize> = profile_index(&self.profiles, profile_id);
        let fallback: Option<usize> = profile_index(
            &self.profiles,
            self.fallback_profile_id.as_str(),
        );
        proof {
            let k = named(all, self@.fallback)->0;
            assert(all[k].profile_id == self@.fallback);
            assert(self.profiles@[k].profile_id@ == self@.fallback);
            let f = fallback->0 as int;
            assert(all[f].profile_id == self@.fallback);
            lemma_named(all, self@.fallback, f);
            match own {
                Some(i) => {
                    assert(all[i as int].profile_id == profile.id());
                    lemma_named(all, profile.id(), i as int);
                },
                None => {
                    assert forall|i: int| 0 <= i < all.len() implies (
                    #[trigger] all[i]).profile_id != profile.id() by {
                        assert(all[i] == self.profiles@[i]@);
                    }
                },
            }
        }
        let index: usize = match own {
            Some(i) => i,
            None => match fallback {
                Some(i) => i,
                None => 0,
            },
        };
        let chosen: &CapabilityProfile = &self.profiles[index];
        let mut description: String = "profile-based instance: ".to_owned();
        description.append(profile_id);
        let node: TaskNode = TaskNode {
            node_id: "profile-node".to_owned(),
            kind: TaskNodeKind::Execution,
            description,
            resources: Vec::new(),
            capabilities: clone_list(&chosen.default_capabilities),
            budget_snapshot: NodeBudgetSnapshot { token_budget: 0, time_budget_ms: 0 },
            capability_requirements_snapshot: Vec::new(),
        };
        assert(node@ =~= profile_node(profile.id(), chosen@.default_capabilities));
        let history: Vec<ConversationTurn> = Vec::new();
        assert(turns_view(history@) =~= seq![]);
        build_instance(task_id, &node, chosen, &history)
    }
}

/// The profiles that a factory starts with.
pub open spec fn initial_profiles() -> Seq<ProfileView> {
    seq![
        ProfileView {
            profile_id: "research"@,
            capability_prefixes: seq!["information."@, "research."@],
            default_capabilities: seq!["information.read"@],
            default_budget_tokens: 10_000,
            default_time_budget_ms: 30_000,
        },
        ProfileView {
            profile_id: "data"@,
            capability_prefixes: seq!["data."@],
            default_capabilities: seq!["data.read"@, "data.write"@],
            default_budget_tokens: 12_000,
            default_time_budget_ms: 35_000,
        },
        ProfileView {
            profile_id: "review"@,
            capability_prefixes: seq!["review."@, "validation."@],
            default_capabilities: seq!["review.check"@],
            default_budget_tokens: 8_000,
            default_time_budget_ms: 20_000,
        },
        ProfileView {
            profile_id: "general"@,
            capability_prefixes: seq![],
            default_capabilities: seq![],
            default_budget_tokens: 8_000,
            default_time_budget_ms: 20_000,
        },
    ]
}

fn list_of(first: Option<&str>, second: Option<&str>) -> (r: Vec<String>)
    ensures
        views(r@) == (match first {
            Some(a) => seq![a@],
            None => Seq::<Seq<char>>::empty(),
        }) + (match second {
            Some(b) => seq![b@],
            None => Seq::<Seq<char>>::empty(),
        }),
{
    let mut r: Vec<String> = Vec::new();
    if let Some(a) = first {
        r.push(a.to_owned());
    }
    if let Some(b) = second {
        r.push(b.to_owned());
    }
    assert(views(r@) =~= (match first {
        Some(a) => seq![a@],
        None => Seq::<Seq<char>>::empty(),
    }) + (match second {
        Some(b) => seq![b@],
        None => Seq::<Seq<char>>::empty(),
    }));
    r
}

fn default_profiles() -> (r: Vec<CapabilityProfile>)
    ensures
        profiles_view(r@) == initial_profiles(),
{
    let mut r: Vec<CapabilityProfile> = Vec::new();
    r.push(
        CapabilityProfile::new(
            PROFILE_RESEARCH,
            list_of(Some("information."), Some("research.")),
            list_of(Some("information.read"), None),
            10_000,
            30_000,
        ),
    );
    r.push(
        CapabilityProfile::new(
            PROFILE_DATA,
            list_of(Some("data."), None),
            list_of(Some("data.read"), Some("data.write")),
            12_000,
            35_000,
        ),
    );
    r.push(
        CapabilityProfile::new(
            PROFILE_REVIEW,
            list_of(Some("review."), Some("validation.")),
            list_of(Some("review.check"), None),
            8_000,
            20_000,
        ),
    );
    r.push(
        CapabilityProfile::new(
            PROFILE_GENERAL,
            list_of(None, None),
            list_of(None, None),
            8_000,
            20_000,
        ),
    );
    proof {
        let found = profiles_view(r@);
        let wanted = initial_profiles();
        assert forall|i: int| 0 <= i < 4 implies #[trigger] found[i] == wanted[i] by {
            assert(found[i] =~= wanted[i]);
        }
        assert(found =~= wanted);
    }
    r
}

impl Default for AgentInstanceFactory {
    fn default() -> (r: Self)
        ensures
            r@.profiles == initial_profiles(),
            r@.fallback == "general"@,
            r@.well_formed(),
    {
        let r: AgentInstanceFactory = AgentInstanceFactory {
            profiles: default_profiles(),
            fallback_profile_id: PROFILE_GENERAL.to_owned(),
        };
        proof {
            reveal_strlit("research");
            reveal_strlit("data");
            reveal_strlit("review");
            reveal_strlit("general");
            let all = r@.profiles;
            assert(all[3].profile_id == r@.fallback);
            assert forall|i: int, j: int| 0 <= i < j < all.len() implies (
            #[trigger] all[i]).profile_id != (#[trigger] all[j]).profile_id by {
                assert("research"@[2] == 's' && "review"@[2] == 'v');
                assert("research"@.len() == 8 && "data"@.len() == 4 && "review"@.len() == 6
                    && "general"@.len() == 7);
            }
        }
        r
    }
}

} // verus!

//! The tools that the model may see, and the schema that it is sent of them.

use crate::cache_break::ToolDefinition;
use crate::split::{clone_list, lemma_views_push, list_has, with_new};
use crate::state::LoopState;
use crate::text::{str_eq, views};
use vstd::prelude::*;

verus! {

/// The loop's own tools, which no registry holds.
pub const PSEUDO_TASK_CREATE: &'static str = "task_create";

pub const PSEUDO_TASK_UPDATE: &'static str = "task_update";

pub const PSEUDO_TASK_LIST: &'static str = "task_list";

pub const PSEUDO_TASK_GET: &'static str = "task_get";

pub const PSEUDO_TOOL_SEARCH: &'static str = "tool_search";

pub const PSEUDO_AGENT: &'static str = "Agent";

/// Whether the loop may change things or only plan.
#[derive(Debug, Clone, Copy, PartialEq, Eq, Structural)]
pub enum LoopMode {
    Normal,
    Plan,
}

/// Those of the list that stand in `names` (`keep`) or do not.
pub open spec fn kept(
    list: Seq<Seq<char>>,
    names: Seq<Seq<char>>,
    keep: bool,
) -> Seq<Seq<char>>
    decreases list.len(),
{
    if list.len() == 0 {
        seq![]
    } else {
        let before = kept(list.drop_last(), names, keep);
        if names.contains(list.last()) == keep {
            before.push(list.last())
        } else {
            before
        }
    }
}

fn retain(list: &Vec<String>, names: &Vec<String>, keep: bool) -> (r: Vec<String>)
    ensures
        views(r@) == kept(views(list@), views(names@), keep),
{
    let ghost all = views(list@);
    let mut out: Vec<String> = Vec::new();
    let mut i: usize = 0;
    assert(all.take(0) =~= seq![]);
    assert(views(out@) =~= seq![]);
    while i < list.len()
        invariant
            i <= list.len(),
            all == views(list@),
            views(out@) == kept(all.take(i as int), views(names@), keep),
        decreases list.len() - i,
    {
        assert(all.take(i + 1).drop_last() =~= all.take(i as int));
        assert(all.take(i + 1).last() == list@[i as int]@);
        if list_has(names, list[i].as_str()) == keep {
            let s: String = list[i].clone();
            proof {
                lemma_views_push(out@, s);
            }
            out.push(s);
        }
        i = i + 1;
    }
    assert(all.take(i as int) =~= all);
    out
}

/// The two lists hold the same texts.
fn lists_eq(a: &Vec<String>, b: &Vec<String>) -> (r: bool)
    ensures
        r == (views(a@) == views(b@)),
{
    assert(views(a@).len() == a@.len());
    assert(views(b@).len() == b@.len());
    if a.len() != b.len() {
        return false;
    }
    let mut i: usize = 0;
    while i < a.len()
        invariant
            i <= a.len(),
            a.len() == b.len(),
            forall|j: int| 0 <= j < i ==> (#[trigger] a@[j])@ == b@[j]@,
        decreases a.len() - i,
    {
        if !str_eq(a[i].as_str(), b[i].as_str()) {
            assert(views(a@)[i as int] != views(b@)[i as int]);
            return false;
        }
        i = i + 1;
    }
    assert(views(a@) =~= views(b@));
    true
}

/// What plan mode takes away from the model.
pub open spec fn plan_blocked() -> Seq<Seq<char>> {
    seq![PSEUDO_TASK_CREATE@, PSEUDO_TASK_UPDATE@]
}

/// The disallowed tools after a refresh.
pub open spec fn disallowed_after(disallowed: Seq<Seq<char>>, plan_mode: bool) -> Seq<Seq<char>> {
    if plan_mode {
        with_new(disallowed, plan_blocked())
    } else {
        disallowed
    }
}

/// The tools that are visible after a refresh: those offered, in plan mode only
/// the read-only ones, and none that is disallowed.
pub open spec fn visible_after(
    offered: Seq<Seq<char>>,
    read_only: Seq<Seq<char>>,
    disallowed: Seq<Seq<char>>,
    plan_mode: bool,
) -> Seq<Seq<char>> {
    kept(
        if plan_mode {
            kept(offered, read_only, true)
        } else {
            offered
        },
        disallowed_after(disallowed, plan_mode),
        false,
    )
}

/// Something that the schema depends on has changed with the refresh.
pub open spec fn refresh_dirties(
    observed_plan_mode: Option<bool>,
    visible: Seq<Seq<char>>,
    offered: Seq<Seq<char>>,
    read_only: Seq<Seq<char>>,
    disallowed: Seq<Seq<char>>,
    plan_mode: bool,
) -> bool {
    ||| observed_plan_mode == Some(!plan_mode)
    ||| disallowed_after(disallowed, plan_mode) != disallowed
    ||| visible_after(offered, read_only, disallowed, plan_mode) != visible
}

/// Takes over the tools that are offered now. The schema is marked dirty where the
/// mode, the disallowed tools or the visible tools have changed.
pub fn refresh_tool_loop_visible_tools(
    loop_state: &mut LoopState,
    mode: LoopMode,
    offered: &Vec<String>,
    read_only: &Vec<String>,
)
    ensures
        *final(loop_state) == (LoopState {
            observed_plan_mode: Some(mode == LoopMode::Plan),
            disallowed_tools: final(loop_state).disallowed_tools,
            visible_tools: final(loop_state).visible_tools,
            tool_schema_dirty: final(loop_state).tool_schema_dirty,
            ..*old(loop_state)
        }),
        views(final(loop_state).disallowed_tools@) == disallowed_after(
            views(old(loop_state).disallowed_tools@),
            mode == LoopMode::Plan,
        ),
        views(final(loop_state).visible_tools@) == visible_after(
            views(offered@),
            views(read_only@),
            views(old(loop_state).disallowed_tools@),
            mode == LoopMode::Plan,
        ),
        final(loop_state).tool_schema_dirty == (old(loop_state).tool_schema_dirty
            || refresh_dirties(
            old(loop_state).observed_plan_mode,
            views(old(loop_state).visible_tools@),
            views(offered@),
            views(read_only@),
            views(old(loop_state).disallowed_tools@),
            mode == LoopMode::Plan,
        )),
{
    let plan_mode: bool = mode == LoopMode::Plan;
    let ghost before = views(loop_state.disallowed_tools@);
    match loop_state.observed_plan_mode {
        Some(observed) => {
            if observed != plan_mode {
                loop_state.mark_tool_schema_dirty();
            }
        },
        None => {},
    }
    loop_state.observed_plan_mode = Some(plan_mode);
    let mut visible: Vec<String> = Vec::new();
    if plan_mode {
        visible = retain(offered, read_only, true);
        proof {
            let one = plan_blocked().drop_last();
            assert(one.last() == PSEUDO_TASK_CREATE@);
            assert(one.drop_last() =~= seq![]);
            reveal_with_fuel(with_new, 3);
        }
        let ghost first = with_new(before, seq![PSEUDO_TASK_CREATE@]);
        assert(plan_blocked().drop_last() =~= seq![PSEUDO_TASK_CREATE@]);
        if !list_has(&loop_state.disallowed_tools, PSEUDO_TASK_CREATE) {
            let name: String = PSEUDO_TASK_CREATE.to_owned();
            proof {
                lemma_views_push(loop_state.disallowed_tools@, name);
            }
            loop_state.disallowed_tools.push(name);
            loop_state.mark_tool_schema_dirty();
        }
        assert(views(loop_state.disallowed_tools@) == first);
        assert(first != before ==> first.len() == before.len() + 1);
        if !list_has(&loop_state.disallowed_tools, PSEUDO_TASK_UPDATE) {
            let name: String = PSEUDO_TASK_UPDATE.to_owned();
            proof {
                lemma_views_push(loop_state.disallowed_tools@, name);
            }
            loop_state.disallowed_tools.push(name);
            loop_state.mark_tool_schema_dirty();
        }
        assert(views(loop_state.disallowed_tools@) == disallowed_after(before, true));
        assert(first != before || disallowed_after(before, true) != first
            <==> disallowed_after(before, true) != before) by {
            if disallowed_after(before, true) != before {
            } else {
                assert(disallowed_after(before, true).len() == before.len());
            }
        }
    } else {
        visible = clone_list(offered);
    }
    visible = retain(&visible, &loop_state.disallowed_tools, false);
    if !lists_eq(&loop_state.visible_tools, &visible) {
        loop_state.mark_tool_schema_dirty();
    }
    loop_state.visible_tools = visible;
}

#[verifier::ext_equal]
pub struct DefinitionView {
    pub name: Seq<char>,
    pub description: Seq<char>,
    pub parameters: Seq<char>,
}

impl View for ToolDefinition {
    type V = DefinitionView;

    open spec fn view(&self) -> DefinitionView {
        DefinitionView {
            name: self.name@,
            description: self.description@,
            parameters: self.parameters@,
        }
    }
}

pub open spec fn definitions_view(definitions: Seq<ToolDefinition>) -> Seq<DefinitionView> {
    definitions.map_values(|d: ToolDefinition| d@)
}

pub open spec fn opt_definitions(frozen: Option<Vec<ToolDefinition>>) -> Option<
    Seq<DefinitionView>,
> {
    match frozen {
        Some(definitions) => Some(definitions_view(definitions@)),
        None => None,
    }
}

pub fn clone_definitions(definitions: &Vec<ToolDefinition>) -> (r: Vec<ToolDefinition>)
    ensures
        definitions_view(r@) == definitions_view(definitions@),
{
    let mut out: Vec<ToolDefinition> = Vec::new();
    let mut i: usize = 0;
    while i < definitions.len()
        invariant
            i <= definitions.len(),
            out.len() == i,
            forall|j: int| 0 <= j < i ==> (#[trigger] out@[j])@ == definitions@[j]@,
        decreases definitions.len() - i,
    {
        out.push(
            ToolDefinition {
                name: definitions[i].name.clone(),
                description: definitions[i].description.clone(),
                parameters: definitions[i].parameters.clone(),
            },
        );
        i = i + 1;
    }
    assert(definitions_view(out@) =~= definitions_view(definitions@));
    out
}

/// The schema is built anew: there is none yet, or it is dirty.
pub open spec fn rebuilds(frozen: Option<Seq<DefinitionView>>, dirty: bool) -> bool {
    dirty || frozen is None
}

/// The definitions that a call sends.
pub open spec fn schema_sent(
    frozen: Option<Seq<DefinitionView>>,
    dirty: bool,
    fresh: Seq<DefinitionView>,
) -> Seq<DefinitionView> {
    if rebuilds(frozen, dirty) {
        fresh
    } else {
        frozen->0
    }
}

impl LoopState {
    /// Whether the next freeze takes over the fresh definitions.
    pub fn tool_schema_rebuilds(&self) -> (r: bool)
        ensures
            r == rebuilds(opt_definitions(self.frozen_tool_schema), self.tool_schema_dirty),
    {
        self.tool_schema_dirty || self.frozen_tool_schema.is_none()
    }

    /// Freezes the fresh definitions where there is no clean frozen schema, and
    /// gives what the call is to send.
    pub fn freeze_or_reuse_tool_schema(&mut self, fresh: Vec<ToolDefinition>) -> (r: Vec<
        ToolDefinition,
    >)
        ensures
            definitions_view(r@) == schema_sent(
                opt_definitions(old(self).frozen_tool_schema),
                old(self).tool_schema_dirty,
                definitions_view(fresh@),
            ),
            *final(self) == (LoopState {
                frozen_tool_schema: final(self).frozen_tool_schema,
                tool_schema_dirty: false,
                ..*old(self)
            }),
            opt_definitions(final(self).frozen_tool_schema) == Some(definitions_view(r@)),
    {
        if self.tool_schema_rebuilds() {
            let copy: Vec<ToolDefinition> = clone_definitions(&fresh);
            self.frozen_tool_schema = Some(fresh);
            self.tool_schema_dirty = false;
            return copy;
        }
        self.tool_schema_dirty = false;
        match &self.frozen_tool_schema {
            Some(definitions) => clone_definitions(definitions),
            None => fresh,
        }
    }
}

/// While nothing marks the schema dirty, every call sends the definitions that the
/// first one sent, whatever is built afresh in the meantime.
pub proof fn law_clean_turn_reuses(
    frozen: Option<Seq<DefinitionView>>,
    dirty: bool,
    first: Seq<DefinitionView>,
    second: Seq<DefinitionView>,
)
    ensures
        ({
            let sent = schema_sent(frozen, dirty, first);
            schema_sent(Some(sent), false, second) == sent
        }),
{
}

/// A refresh that finds everything as it was leaves the schema as it was: after a
/// refresh, the same refresh again marks nothing.
pub proof fn law_refresh_settles(
    offered: Seq<Seq<char>>,
    read_only: Seq<Seq<char>>,
    disallowed: Seq<Seq<char>>,
    plan_mode: bool,
)
    ensures
        ({
            let blocked = disallowed_after(disallowed, plan_mode);
            let visible = visible_after(offered, read_only, disallowed, plan_mode);
            !refresh_dirties(
                Some(plan_mode),
                visible,
                offered,
                read_only,
                blocked,
                plan_mode,
            )
        }),
{
    assert(plan_blocked().drop_last() =~= seq![PSEUDO_TASK_CREATE@]);
    assert(plan_blocked().last() == PSEUDO_TASK_UPDATE@);
    let one = seq![PSEUDO_TASK_CREATE@];
    assert(one.drop_last() =~= seq![]);
    reveal_with_fuel(with_new, 3);
    let first = with_new(disallowed, one);
    let blocked = with_new(disallowed, plan_blocked());
    assert(first.contains(PSEUDO_TASK_CREATE@)) by {
        if !disallowed.contains(PSEUDO_TASK_CREATE@) {
            assert(first[disallowed.len() as int] == PSEUDO_TASK_CREATE@);
        }
    }
    assert(blocked.contains(PSEUDO_TASK_UPDATE@)) by {
        if !first.contains(PSEUDO_TASK_UPDATE@) {
            assert(blocked[first.len() as int] == PSEUDO_TASK_UPDATE@);
        }
    }
    assert(blocked.contains(PSEUDO_TASK_CREATE@)) by {
        let i = choose|i: int| 0 <= i < first.len() && first[i] == PSEUDO_TASK_CREATE@;
        assert(blocked[i] == PSEUDO_TASK_CREATE@);
    }
    assert(with_new(blocked, one) == blocked);
}

/// No disallowed tool is visible after a refresh, in plan mode none that changes
/// things, and every visible tool is one of those offered.
pub proof fn law_visible_tools_are_allowed(
    offered: Seq<Seq<char>>,
    read_only: Seq<Seq<char>>,
    disallowed: Seq<Seq<char>>,
    plan_mode: bool,
    tool: Seq<char>,
)
    requires
        visible_after(offered, read_only, disallowed, plan_mode).contains(tool),
    ensures
        offered.contains(tool),
        !disallowed.contains(tool),
        plan_mode ==> read_only.contains(tool),
{
    let blocked = disallowed_after(disallowed, plan_mode);
    if plan_mode {
        lemma_kept(kept(offered, read_only, true), blocked, false, tool);
        lemma_kept(offered, read_only, true, tool);
        lemma_with_new(disallowed, plan_blocked(), tool);
    } else {
        lemma_kept(offered, blocked, false, tool);
    }
}

proof fn lemma_kept(list: Seq<Seq<char>>, names: Seq<Seq<char>>, keep: bool, one: Seq<char>)
    requires
        kept(list, names, keep).contains(one),
    ensures
        list.contains(one),
        names.contains(one) == keep,
    decreases list.len(),
{
    if list.len() > 0 {
        let before = kept(list.drop_last(), names, keep);
        let all = kept(list, names, keep);
        let i = choose|i: int| 0 <= i < all.len() && all[i] == one;
        if i < before.len() {
            assert(before[i] == one);
            lemma_kept(list.drop_last(), names, keep, one);
            let j = choose|j: int| 0 <= j < list.drop_last().len() && list.drop_last()[j] == one;
            assert(list[j] == one);
        } else {
            assert(list[list.len() - 1] == one);
        }
    }
}

proof fn lemma_with_new(list: Seq<Seq<char>>, more: Seq<Seq<char>>, one: Seq<char>)
    ensures
        list.contains(one) ==> with_new(list, more).contains(one),
    decreases more.len(),
{
    if more.len() > 0 && list.contains(one) {
        lemma_with_new(list, more.drop_last(), one);
        let before = with_new(list, more.drop_last());
        let i = choose|i: int| 0 <= i < before.len() && before[i] == one;
        assert(with_new(list, more)[i] == one);
    }
}

} // verus!

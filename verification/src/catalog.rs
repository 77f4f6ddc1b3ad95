//! The tools and skills that a runtime knows, and those of them that it can use.

use crate::bytes::{byte_count, byte_len};
use crate::decision::RouteRisk;
use crate::observation::{selector_eq, selectors_view, ResourceSelector, SelectorView};
use crate::split::{extend_new, lemma_views_push, list_has, with_new};
use crate::text::{opt_str_view, starts_with, starts_with_text, str_eq, views};
use crate::tokens::{looks_like_script_reference, normalize, normalized, script_reference};
use vstd::prelude::*;

verus! {

#[derive(Debug, Clone, Copy, PartialEq, Eq, Structural)]
pub enum ResourceKind {
    Tool,
    Skill,
}

#[derive(Debug, Clone, Copy, PartialEq, Eq, Structural)]
pub enum ResourceRisk {
    Low,
    Medium,
    High,
}

/// One tool or skill of the catalog.
#[derive(Debug)]
pub struct CatalogDescriptor {
    pub selector: ResourceSelector,
    pub kind: ResourceKind,
    pub name: String,
    /// It may be offered without having been named.
    pub discoverable: bool,
    pub tags: Vec<String>,
    pub examples: Vec<String>,
    pub key_commands: Vec<String>,
    pub risk: ResourceRisk,
    pub required_capabilities: Vec<String>,
    /// It states what its arguments are grounded in.
    pub has_contract: bool,
}

#[verifier::ext_equal]
pub struct DescriptorView {
    pub selector: SelectorView,
    pub kind: ResourceKind,
    pub name: Seq<char>,
    pub discoverable: bool,
    pub tags: Seq<Seq<char>>,
    pub examples: Seq<Seq<char>>,
    pub key_commands: Seq<Seq<char>>,
    pub risk: ResourceRisk,
    pub required_capabilities: Seq<Seq<char>>,
    pub has_contract: bool,
}

impl View for CatalogDescriptor {
    type V = DescriptorView;

    open spec fn view(&self) -> DescriptorView {
        DescriptorView {
            selector: self.selector@,
            kind: self.kind,
            name: self.name@,
            discoverable: self.discoverable,
            tags: views(self.tags@),
            examples: views(self.examples@),
            key_commands: views(self.key_commands@),
            risk: self.risk,
            required_capabilities: views(self.required_capabilities@),
            has_contract: self.has_contract,
        }
    }
}

pub open spec fn catalog_view(entries: Seq<CatalogDescriptor>) -> Seq<DescriptorView> {
    entries.map_values(|d: CatalogDescriptor| d@)
}

/// The first entry with that selector.
pub open spec fn described(entries: Seq<DescriptorView>, selector: SelectorView) -> Option<
    DescriptorView,
>
    decreases entries.len(),
{
    if entries.len() == 0 {
        None
    } else if entries[0].selector == selector {
        Some(entries[0])
    } else {
        described(entries.skip(1), selector)
    }
}

pub fn find_descriptor<'a>(
    entries: &'a Vec<CatalogDescriptor>,
    selector: &ResourceSelector,
) -> (r: Option<&'a CatalogDescriptor>)
    ensures
        match r {
            Some(d) => described(catalog_view(entries@), selector@) == Some(d@),
            None => described(catalog_view(entries@), selector@) is None,
        },
{
    let ghost all = catalog_view(entries@);
    let mut i: usize = 0;
    assert(all.skip(0) =~= all);
    while i < entries.len()
        invariant
            i <= entries.len(),
            all == catalog_view(entries@),
            described(all, selector@) == described(all.skip(i as int), selector@),
        decreases entries.len() - i,
    {
        assert(all.skip(i as int)[0] == entries@[i as int]@);
        assert(all.skip(i as int).skip(1) =~= all.skip(i + 1));
        if selector_eq(&entries[i].selector, selector) {
            return Some(&entries[i]);
        }
        i = i + 1;
    }
    None
}

/// The first tool of that name.
pub open spec fn tool_named(entries: Seq<DescriptorView>, name: Seq<char>) -> Option<SelectorView>
    decreases entries.len(),
{
    if entries.len() == 0 {
        None
    } else if entries[0].kind == ResourceKind::Tool && entries[0].name == name {
        Some(entries[0].selector)
    } else {
        tool_named(entries.skip(1), name)
    }
}

pub open spec fn opt_selector(s: Option<ResourceSelector>) -> Option<SelectorView> {
    match s {
        Some(s) => Some(s@),
        None => None,
    }
}

pub fn tool_selector_by_name(entries: &Vec<CatalogDescriptor>, tool_name: &str) -> (r: Option<
    ResourceSelector,
>)
    ensures
        opt_selector(r) == tool_named(catalog_view(entries@), tool_name@),
{
    let ghost all = catalog_view(entries@);
    let mut i: usize = 0;
    assert(all.skip(0) =~= all);
    while i < entries.len()
        invariant
            i <= entries.len(),
            all == catalog_view(entries@),
            tool_named(all, tool_name@) == tool_named(all.skip(i as int), tool_name@),
        decreases entries.len() - i,
    {
        assert(all.skip(i as int)[0] == entries@[i as int]@);
        assert(all.skip(i as int).skip(1) =~= all.skip(i + 1));
        let is_tool: bool = match entries[i].kind {
            ResourceKind::Tool => true,
            ResourceKind::Skill => false,
        };
        if is_tool && str_eq(entries[i].name.as_str(), tool_name) {
            return Some(entries[i].selector.clone());
        }
        i = i + 1;
    }
    None
}

/// The capabilities that the resources need, each once.
pub open spec fn capabilities_for(
    entries: Seq<DescriptorView>,
    resources: Seq<SelectorView>,
) -> Seq<Seq<char>>
    decreases resources.len(),
{
    if resources.len() == 0 {
        seq![]
    } else {
        let before = capabilities_for(entries, resources.drop_last());
        match described(entries, resources.last()) {
            Some(d) => with_new(before, d.required_capabilities),
            None => before,
        }
    }
}

pub fn route_capabilities(
    entries: &Vec<CatalogDescriptor>,
    resources: &Vec<ResourceSelector>,
) -> (r: Vec<String>)
    ensures
        views(r@) == capabilities_for(
            catalog_view(entries@),
            selectors_view(resources@),
        ),
{
    let ghost all = selectors_view(resources@);
    let mut capabilities: Vec<String> = Vec::new();
    let mut i: usize = 0;
    assert(all.take(0) =~= seq![]);
    assert(views(capabilities@) =~= seq![]);
    while i < resources.len()
        invariant
            i <= resources.len(),
            all == selectors_view(resources@),
            views(capabilities@) == capabilities_for(catalog_view(entries@), all.take(i as int)),
        decreases resources.len() - i,
    {
        assert(all.take(i + 1).drop_last() =~= all.take(i as int));
        assert(all.take(i + 1).last() == resources@[i as int]@);
        if let Some(descriptor) = find_descriptor(entries, &resources[i]) {
            extend_new(&mut capabilities, &descriptor.required_capabilities);
        }
        i = i + 1;
    }
    assert(all.take(i as int) =~= all);
    capabilities
}

/// The tools that can be used now, and those that every loop sees.
#[derive(Debug)]
pub struct RuntimeVisibleToolAvailabilitySnapshot {
    pub enabled_tools: Vec<String>,
    pub baseline_visible_tools: Vec<String>,
}

/// Those of the names that are enabled, each once, after the ones that are there.
pub open spec fn with_enabled(
    list: Seq<Seq<char>>,
    names: Seq<Seq<char>>,
    enabled: Seq<Seq<char>>,
) -> Seq<Seq<char>>
    decreases names.len(),
{
    if names.len() == 0 {
        list
    } else {
        let before = with_enabled(list, names.drop_last(), enabled);
        let name = names.last();
        if enabled.contains(name) && !before.contains(name) {
            before.push(name)
        } else {
            before
        }
    }
}

fn extend_enabled(list: &mut Vec<String>, names: &Vec<String>, enabled: &Vec<String>)
    ensures
        views(final(list)@) == with_enabled(
            views(old(list)@),
            views(names@),
            views(enabled@),
        ),
{
    let ghost before = views(list@);
    let ghost all = views(names@);
    let mut i: usize = 0;
    assert(all.take(0) =~= seq![]);
    while i < names.len()
        invariant
            i <= names.len(),
            all == views(names@),
            views(list@) == with_enabled(before, all.take(i as int), views(enabled@)),
        decreases names.len() - i,
    {
        assert(all.take(i + 1).drop_last() =~= all.take(i as int));
        assert(all.take(i + 1).last() == names@[i as int]@);
        if list_has(enabled, names[i].as_str()) && !list_has(list, names[i].as_str()) {
            let s: String = names[i].clone();
            proof {
                lemma_views_push(list@, s);
            }
            list.push(s);
        }
        i = i + 1;
    }
    assert(all.take(i as int) =~= all);
}

/// One of the names begins so.
pub open spec fn any_begins(names: Seq<Seq<char>>, prefix: Seq<char>) -> bool {
    exists|i: int| 0 <= i < names.len() && starts_with(#[trigger] names[i], prefix)
}

/// The preferred tool, where it is enabled, and the enabled ones of the seeds.
pub open spec fn filtered_candidates(
    preferred: Option<Seq<char>>,
    seeds: Seq<Seq<char>>,
    enabled: Seq<Seq<char>>,
) -> Seq<Seq<char>> {
    let first = match preferred {
        Some(p) => with_enabled(seq![], seq![p], enabled),
        None => seq![],
    };
    with_enabled(first, seeds, enabled)
}

/// The enabled candidates, then the tools that every loop sees, then the other
/// enabled tools; each once.
pub open spec fn composed_tools(
    candidates: Seq<Seq<char>>,
    enabled: Seq<Seq<char>>,
    baseline: Seq<Seq<char>>,
) -> Seq<Seq<char>> {
    with_new(with_new(with_enabled(seq![], candidates, enabled), baseline), enabled)
}

impl RuntimeVisibleToolAvailabilitySnapshot {
    pub fn is_tool_enabled(&self, name: &str) -> (r: bool)
        ensures
            r == views(self.enabled_tools@).contains(name@),
    {
        list_has(&self.enabled_tools, name)
    }

    pub fn has_enabled_tool_with_prefix(&self, prefix: &str) -> (r: bool)
        ensures
            r == any_begins(views(self.enabled_tools@), prefix@),
    {
        let ghost all = views(self.enabled_tools@);
        let mut i: usize = 0;
        while i < self.enabled_tools.len()
            invariant
                i <= self.enabled_tools.len(),
                all == views(self.enabled_tools@),
                forall|j: int| 0 <= j < i ==> !starts_with(#[trigger] all[j], prefix@),
            decreases self.enabled_tools.len() - i,
        {
            assert(all[i as int] == self.enabled_tools@[i as int]@);
            if starts_with_text(self.enabled_tools[i].as_str(), prefix) {
                return true;
            }
            i = i + 1;
        }
        false
    }

    pub fn filter_candidate_tools(&self, preferred: Option<&str>, seeds: &Vec<String>) -> (r: Vec<
        String,
    >)
        ensures
            views(r@) == filtered_candidates(
                opt_str_view(preferred),
                views(seeds@),
                views(self.enabled_tools@),
            ),
    {
        let mut out: Vec<String> = Vec::new();
        assert(views(out@) =~= seq![]);
        if let Some(name) = preferred {
            let mut first: Vec<String> = Vec::new();
            first.push(name.to_owned());
            assert(views(first@) =~= seq![name@]);
            extend_enabled(&mut out, &first, &self.enabled_tools);
        }
        extend_enabled(&mut out, seeds, &self.enabled_tools);
        out
    }

    /// The tools that a loop with these candidates sees.
    pub fn compose_visible_tools(&self, candidates: &Vec<String>) -> (r: Vec<String>)
        ensures
            views(r@) == composed_tools(
                views(candidates@),
                views(self.enabled_tools@),
                views(self.baseline_visible_tools@),
            ),
    {
        let mut out: Vec<String> = Vec::new();
        assert(views(out@) =~= seq![]);
        extend_enabled(&mut out, candidates, &self.enabled_tools);
        extend_new(&mut out, &self.baseline_visible_tools);
        extend_new(&mut out, &self.enabled_tools);
        out
    }
}

/// The plugins that a tool comes from, as far as they are enabled.
pub open spec fn plugins_of(tool: Seq<char>, enabled: Seq<Seq<char>>) -> Seq<Seq<char>> {
    with_enabled(seq![], plugin_names(tool), enabled)
}

/// The plugins that a tool comes from.
pub open spec fn plugin_names(tool: Seq<char>) -> Seq<Seq<char>> {
    let none = Seq::<Seq<char>>::empty();
    (if tool == "skill.install"@ || tool == "skill.ensure_installed"@ || tool == "skill.execute"@ {
        seq!["builtin-tools"@]
    } else {
        none
    }) + (if starts_with(tool, "skill."@) {
        seq!["skill-source-local"@]
    } else {
        none
    }) + (if starts_with(tool, "fs."@) {
        seq!["core-fs"@]
    } else {
        none
    }) + (if starts_with(tool, "table."@) {
        seq!["core-table"@]
    } else {
        none
    }) + (if starts_with(tool, "web."@) {
        seq!["core-web"@]
    } else {
        none
    }) + (if starts_with(tool, "command."@) {
        seq!["core-command"@]
    } else {
        none
    }) + (if starts_with(tool, "python."@) {
        seq!["core-python"@]
    } else {
        none
    })
}

fn push_if(list: &mut Vec<String>, add: bool, name: &str)
    ensures
        views(final(list)@) == views(old(list)@) + (if add {
            seq![name@]
        } else {
            Seq::<Seq<char>>::empty()
        }),
{
    let ghost before = views(list@);
    if add {
        let s: String = name.to_owned();
        proof {
            lemma_views_push(list@, s);
        }
        list.push(s);
        assert(views(list@) =~= before + seq![name@]);
    } else {
        assert(before =~= before + Seq::<Seq<char>>::empty());
    }
}

pub fn candidate_plugins_for_tool(enabled_plugins: &Vec<String>, tool_name: &str) -> (r: Vec<
    String,
>)
    ensures
        views(r@) == plugins_of(tool_name@, views(enabled_plugins@)),
{
    let mut names: Vec<String> = Vec::new();
    let builtin: bool = str_eq(tool_name, "skill.install") || str_eq(
        tool_name,
        "skill.ensure_installed",
    ) || str_eq(tool_name, "skill.execute");
    push_if(&mut names, builtin, "builtin-tools");
    push_if(&mut names, starts_with_text(tool_name, "skill."), "skill-source-local");
    push_if(&mut names, starts_with_text(tool_name, "fs."), "core-fs");
    push_if(&mut names, starts_with_text(tool_name, "table."), "core-table");
    push_if(&mut names, starts_with_text(tool_name, "web."), "core-web");
    push_if(&mut names, starts_with_text(tool_name, "command."), "core-command");
    push_if(&mut names, starts_with_text(tool_name, "python."), "core-python");
    assert(views(names@) =~= plugin_names(tool_name@));
    let mut out: Vec<String> = Vec::new();
    assert(views(out@) =~= seq![]);
    extend_enabled(&mut out, &names, enabled_plugins);
    out
}

pub open spec fn route_risk(risk: ResourceRisk) -> RouteRisk {
    match risk {
        ResourceRisk::Low => RouteRisk::Low,
        ResourceRisk::Medium => RouteRisk::Medium,
        ResourceRisk::High => RouteRisk::High,
    }
}

pub fn resource_risk(descriptor: &CatalogDescriptor) -> (r: RouteRisk)
    ensures
        r == route_risk(descriptor.risk),
{
    match descriptor.risk {
        ResourceRisk::Low => RouteRisk::Low,
        ResourceRisk::Medium => RouteRisk::Medium,
        ResourceRisk::High => RouteRisk::High,
    }
}

/// A skill that runs scripts: its tags or its commands say so.
pub open spec fn executable_skill(d: DescriptorView) -> bool {
    ||| d.tags.contains("executable-skill"@)
    ||| d.tags.contains("has-scripts"@)
    ||| exists|i: int| 0 <= i < d.key_commands.len() && script_reference(#[trigger] d.key_commands[i])
}

pub fn skill_descriptor_is_executable(descriptor: &CatalogDescriptor) -> (r: bool)
    ensures
        r == executable_skill(descriptor@),
{
    if list_has(&descriptor.tags, "executable-skill") || list_has(&descriptor.tags, "has-scripts") {
        return true;
    }
    let ghost all = descriptor@.key_commands;
    let mut i: usize = 0;
    while i < descriptor.key_commands.len()
        invariant
            i <= descriptor.key_commands.len(),
            all == views(descriptor.key_commands@),
            all == descriptor@.key_commands,
            forall|j: int| 0 <= j < i ==> !script_reference(#[trigger] all[j]),
        decreases descriptor.key_commands.len() - i,
    {
        assert(all[i as int] == descriptor.key_commands@[i as int]@);
        if looks_like_script_reference(descriptor.key_commands[i].as_str()) {
            return true;
        }
        i = i + 1;
    }
    false
}

/// One of the words refers to the entry by its name.
pub open spec fn referred_to(d: DescriptorView, tokens: Seq<Seq<char>>) -> bool {
    byte_len(normalized(d.name)) > 2 && tokens.contains(normalized(d.name))
}

/// An entry that a word may refer to: a tool must be enabled.
pub open spec fn eligible(
    d: DescriptorView,
    kind: ResourceKind,
    enabled: Seq<Seq<char>>,
) -> bool {
    d.kind == kind && (kind == ResourceKind::Tool ==> enabled.contains(d.name))
}

/// The entry at `i` is referred to, and has the longest name of those that are; of
/// several it is the first.
pub open spec fn best_reference(
    entries: Seq<DescriptorView>,
    tokens: Seq<Seq<char>>,
    kind: ResourceKind,
    enabled: Seq<Seq<char>>,
    i: int,
) -> bool {
    &&& 0 <= i < entries.len()
    &&& eligible(entries[i], kind, enabled)
    &&& referred_to(entries[i], tokens)
    &&& forall|j: int|
        0 <= j < entries.len() && eligible(#[trigger] entries[j], kind, enabled) && referred_to(
            entries[j],
            tokens,
        ) ==> byte_len(entries[j].name) < byte_len(entries[i].name) || (byte_len(entries[j].name)
            == byte_len(entries[i].name) && i <= j)
}

/// No entry is referred to.
pub open spec fn no_reference(
    entries: Seq<DescriptorView>,
    tokens: Seq<Seq<char>>,
    kind: ResourceKind,
    enabled: Seq<Seq<char>>,
) -> bool {
    forall|j: int|
        0 <= j < entries.len() && eligible(#[trigger] entries[j], kind, enabled) ==> !referred_to(
            entries[j],
            tokens,
        )
}

/// The entry that the words refer to.
pub open spec fn reference(
    entries: Seq<DescriptorView>,
    tokens: Seq<Seq<char>>,
    kind: ResourceKind,
    enabled: Seq<Seq<char>>,
) -> Option<int> {
    if no_reference(entries, tokens, kind, enabled) {
        None
    } else {
        Some(choose|i: int| best_reference(entries, tokens, kind, enabled, i))
    }
}

/// Finds the entry that the words refer to.
pub fn find_reference(
    entries: &Vec<CatalogDescriptor>,
    tokens: &Vec<String>,
    kind: ResourceKind,
    enabled: &Vec<String>,
) -> (r: Option<usize>)
    ensures
        match r {
            Some(i) => reference(
                catalog_view(entries@),
                views(tokens@),
                kind,
                views(enabled@),
            ) == Some(i as int) && i < entries.len(),
            None => reference(
                catalog_view(entries@),
                views(tokens@),
                kind,
                views(enabled@),
            ) is None,
        },
{
    let ghost all = catalog_view(entries@);
    let ghost names = views(tokens@);
    let ghost on = views(enabled@);
    let mut best: Option<usize> = None;
    let mut best_len: usize = 0;
    let mut i: usize = 0;
    while i < entries.len()
        invariant
            i <= entries.len(),
            all == catalog_view(entries@),
            names == views(tokens@),
            on == views(enabled@),
            match best {
                Some(b) => {
                    &&& b < i
                    &&& best_len == byte_len(all[b as int].name)
                    &&& eligible(all[b as int], kind, on)
                    &&& referred_to(all[b as int], names)
                    &&& forall|j: int|
                        0 <= j < i && eligible(#[trigger] all[j], kind, on) && referred_to(
                            all[j],
                            names,
                        ) ==> byte_len(all[j].name) < best_len || (byte_len(all[j].name)
                            == best_len && b <= j)
                },
                None => forall|j: int|
                    0 <= j < i && eligible(#[trigger] all[j], kind, on) ==> !referred_to(
                        all[j],
                        names,
                    ),
            },
        decreases entries.len() - i,
    {
        let entry: &CatalogDescriptor = &entries[i];
        assert(all[i as int] == entry@);
        let fits: bool = match (entry.kind, kind) {
            (ResourceKind::Tool, ResourceKind::Tool) => list_has(enabled, entry.name.as_str()),
            (ResourceKind::Skill, ResourceKind::Skill) => true,
            _ => false,
        };
        assert(fits == eligible(all[i as int], kind, on));
        if fits {
            let name: String = normalize(entry.name.as_str());
            if byte_count(name.as_str()) > 2 && list_has(tokens, name.as_str()) {
                let len: usize = byte_count(entry.name.as_str());
                let longer: bool = match best {
                    Some(_) => len > best_len,
                    None => true,
                };
                if longer {
                    best = Some(i);
                    best_len = len;
                }
            }
        }
        i = i + 1;
    }
    proof {
        match best {
            Some(b) => {
                assert(best_reference(all, names, kind, on, b as int));
                assert(!no_reference(all, names, kind, on));
                let c = reference(all, names, kind, on)->0;
                assert(best_reference(all, names, kind, on, c));
                assert(all[c] == all[c] && all[b as int] == all[b as int]);
            },
            None => {
                assert(no_reference(all, names, kind, on));
            },
        }
    }
    best
}

/// Those of the entries whose names the catalog does not have yet.
pub open spec fn without_collisions(
    existing: Seq<DescriptorView>,
    incoming: Seq<DescriptorView>,
) -> Seq<DescriptorView>
    decreases incoming.len(),
{
    if incoming.len() == 0 {
        seq![]
    } else {
        let before = without_collisions(existing, incoming.drop_last());
        if has_name(existing, incoming.last().name) {
            before
        } else {
            before.push(incoming.last())
        }
    }
}

pub open spec fn has_name(entries: Seq<DescriptorView>, name: Seq<char>) -> bool {
    exists|i: int| 0 <= i < entries.len() && (#[trigger] entries[i]).name == name
}

fn has_entry_named(entries: &Vec<CatalogDescriptor>, upto: usize, name: &str) -> (r: bool)
    requires
        upto <= entries.len(),
    ensures
        r == has_name(catalog_view(entries@).take(upto as int), name@),
{
    let ghost all = catalog_view(entries@).take(upto as int);
    let mut i: usize = 0;
    while i < upto
        invariant
            i <= upto <= entries.len(),
            all == catalog_view(entries@).take(upto as int),
            forall|j: int| 0 <= j < i ==> (#[trigger] all[j]).name != name@,
        decreases upto - i,
    {
        assert(all[i as int] == entries@[i as int]@);
        if str_eq(entries[i].name.as_str(), name) {
            return true;
        }
        i = i + 1;
    }
    false
}

/// Adds the entries of another source; one whose name is already taken is left
/// out, and its name is given back.
pub fn extend_catalog(entries: &mut Vec<CatalogDescriptor>, incoming: Vec<CatalogDescriptor>) -> (r:
    Vec<String>)
    ensures
        catalog_view(final(entries)@) == catalog_view(old(entries)@) + without_collisions(
            catalog_view(old(entries)@),
            catalog_view(incoming@),
        ),
        views(r@) == collisions(catalog_view(old(entries)@), catalog_view(incoming@)),
{
    let ghost before = catalog_view(entries@);
    let ghost all = catalog_view(incoming@);
    let own: usize = entries.len();
    let mut skipped: Vec<String> = Vec::new();
    let mut rest: Vec<CatalogDescriptor> = incoming;
    let mut done: usize = 0;
    let count: usize = rest.len();
    assert(all.take(0) =~= seq![]);
    assert(before =~= before + without_collisions(before, all.take(0)));
    assert(views(skipped@) =~= seq![]);
    assert(all.skip(0) =~= all);
    while done < count
        invariant
            done <= count,
            count == all.len(),
            own == before.len(),
            own <= entries.len(),
            catalog_view(entries@) == before + without_collisions(before, all.take(done as int)),
            views(skipped@) == collisions(before, all.take(done as int)),
            catalog_view(rest@) == all.skip(done as int),
        decreases count - done,
    {
        assert(catalog_view(rest@).len() == rest.len());
        let ghost pending = rest@;
        let entry: CatalogDescriptor = rest.remove(0);
        assert(entry@ == all[done as int]) by {
            assert(all.skip(done as int)[0] == all[done as int]);
            assert(catalog_view(pending)[0] == pending[0]@);
        }
        assert(catalog_view(rest@) =~= catalog_view(pending).skip(1));
        assert(all.skip(done as int).skip(1) =~= all.skip(done + 1));
        assert(all.take(done + 1).drop_last() =~= all.take(done as int));
        assert(catalog_view(entries@).take(own as int) =~= before);
        if has_entry_named(entries, own, entry.name.as_str()) {
            let name: String = entry.name.clone();
            proof {
                lemma_views_push(skipped@, name);
            }
            skipped.push(name);
        } else {
            let ghost old_view = catalog_view(entries@);
            entries.push(entry);
            assert(catalog_view(entries@) =~= old_view.push(entry@));
            assert(old_view.push(entry@) =~= before + without_collisions(
                before,
                all.take(done as int),
            ).push(entry@));
        }
        done = done + 1;
    }
    assert(all.take(done as int) =~= all);
    skipped
}

/// The names of the entries that are left out.
pub open spec fn collisions(
    existing: Seq<DescriptorView>,
    incoming: Seq<DescriptorView>,
) -> Seq<Seq<char>>
    decreases incoming.len(),
{
    if incoming.len() == 0 {
        seq![]
    } else {
        let before = collisions(existing, incoming.drop_last());
        if has_name(existing, incoming.last().name) {
            before.push(incoming.last().name)
        } else {
            before
        }
    }
}

} // verus!

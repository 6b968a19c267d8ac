use vstd::prelude::*;

use crate::ast::{FuncId, Ident, ItemVisibility, ModuleId, Span, StructId, TraitId, TypeAliasId};
use crate::pairs::{
    keys_distinct, lemma_absent_key, lemma_distinct_push, lemma_distinct_remove, lemma_lookup_pair,
    lemma_push_pair, lemma_remove_pair, pairs_to_map,
};

verus! {

/// A declaration that may turn out to be unused.
#[derive(Clone, Copy, PartialEq, Eq, Structural, Debug)]
pub enum UnusedItem {
    Import,
    Function(FuncId),
    Struct(StructId),
    Trait(TraitId),
    TypeAlias(TypeAliasId),
}

/// The word a warning uses for each kind of declaration.
pub open spec fn item_label(item: UnusedItem) -> Seq<char> {
    match item {
        UnusedItem::Import => "import"@,
        UnusedItem::Function(_) => "function"@,
        UnusedItem::Struct(_) => "struct"@,
        UnusedItem::Trait(_) => "trait"@,
        UnusedItem::TypeAlias(_) => "type alias"@,
    }
}

impl UnusedItem {
    /// The word that a warning about this declaration uses.
    pub fn item_type(&self) -> (r: &'static str)
        ensures
            r@ == item_label(*self),
    {
        match self {
            UnusedItem::Import => "import",
            UnusedItem::Function(_) => "function",
            UnusedItem::Struct(_) => "struct",
            UnusedItem::Trait(_) => "trait",
            UnusedItem::TypeAlias(_) => "type alias",
        }
    }
}


/// What is known of the declarations of one module: name text to the span of
/// the declaring name and the declaration itself.
pub type EntriesView = Map<Seq<char>, (Span, UnusedItem)>;

/// What the tracker holds: each module with a candidate to its candidates.
pub type TrackerView = Map<ModuleId, EntriesView>;

/// A declaration not referenced so far, under the name that declared it.
#[derive(Clone, Debug)]
pub struct UnusedEntry {
    pub name: Ident,
    pub item: UnusedItem,
}

/// The candidates of one module.
#[derive(Clone, Debug)]
pub struct ModuleUnusedItems {
    pub module_id: ModuleId,
    pub items: Vec<UnusedEntry>,
}

pub open spec fn entry_pair(e: UnusedEntry) -> (Seq<char>, (Span, UnusedItem)) {
    (e.name.contents@, (e.name.span, e.item))
}

pub open spec fn entry_pairs(items: Seq<UnusedEntry>) -> Seq<(Seq<char>, (Span, UnusedItem))> {
    items.map_values(|e: UnusedEntry| entry_pair(e))
}

pub open spec fn entries_view(items: Seq<UnusedEntry>) -> EntriesView {
    pairs_to_map(entry_pairs(items))
}

pub open spec fn group_pair(g: ModuleUnusedItems) -> (ModuleId, EntriesView) {
    (g.module_id, entries_view(g.items@))
}

pub open spec fn group_pairs(groups: Seq<ModuleUnusedItems>) -> Seq<(ModuleId, EntriesView)> {
    groups.map_values(|g: ModuleUnusedItems| group_pair(g))
}

pub open spec fn groups_view(groups: Seq<ModuleUnusedItems>) -> TrackerView {
    pairs_to_map(group_pairs(groups))
}

/// One module's candidates: at least one, each name once, each with a span
/// that covers source text.
pub open spec fn group_wf(g: ModuleUnusedItems) -> bool {
    &&& g.items@.len() > 0
    &&& keys_distinct(entry_pairs(g.items@))
    &&& spans_nonempty(g.items@)
}

/// Every name covers some source text.
pub open spec fn spans_nonempty(items: Seq<UnusedEntry>) -> bool {
    forall|i: int| 0 <= i < items.len() ==> !(#[trigger] items[i]).name.span.spec_is_empty()
}

/// Each module once, each well formed.
pub open spec fn groups_wf(groups: Seq<ModuleUnusedItems>) -> bool {
    &&& keys_distinct(group_pairs(groups))
    &&& forall|i: int| 0 <= i < groups.len() ==> group_wf(#[trigger] groups[i])
}

/// The candidates recorded for `module_id`, none where it has no entry.
pub open spec fn entries_of(v: TrackerView, module_id: ModuleId) -> EntriesView {
    if v.contains_key(module_id) {
        v[module_id]
    } else {
        Map::empty()
    }
}

/// `v` with the candidates of `module_id` replaced by `entries`; a module
/// left without candidates has no entry.
pub open spec fn with_entries(v: TrackerView, module_id: ModuleId, entries: EntriesView) -> TrackerView {
    if entries == Map::<Seq<char>, (Span, UnusedItem)>::empty() {
        v.remove(module_id)
    } else {
        v.insert(module_id, entries)
    }
}

/// The tracker after a declaration: public declarations and names that the
/// compiler made up are not tracked; any other replaces what was recorded
/// under the same name in the same module.
pub open spec fn after_register(
    v: TrackerView,
    module_id: ModuleId,
    name: Seq<char>,
    span: Span,
    item: UnusedItem,
    visibility: ItemVisibility,
) -> TrackerView {
    if visibility == ItemVisibility::Public || span.spec_is_empty() {
        v
    } else {
        v.insert(module_id, entries_of(v, module_id).insert(name, (span, item)))
    }
}

/// The tracker after a reference: the candidate under that name in that
/// module, if any, is no longer unused.
pub open spec fn after_mark_used(v: TrackerView, module_id: ModuleId, name: Seq<char>) -> TrackerView {
    if entries_of(v, module_id).contains_key(name) {
        with_entries(v, module_id, entries_of(v, module_id).remove(name))
    } else {
        v
    }
}

/// Declarations believed unused so far, grouped by module.
pub struct UsageTracker {
    unused_items: Vec<ModuleUnusedItems>,
}

impl View for UsageTracker {
    type V = TrackerView;

    closed spec fn view(&self) -> TrackerView {
        groups_view(self.unused_items@)
    }
}


proof fn lemma_entries_absent(items: Seq<UnusedEntry>, name: Seq<char>)
    requires
        forall|j: int| 0 <= j < items.len() ==> items[j].name.contents@ != name,
    ensures
        !entries_view(items).contains_key(name),
{
    let s = entry_pairs(items);
    assert forall|j: int| 0 <= j < s.len() implies s[j].0 != name by {
        assert(s[j] == entry_pair(items[j]));
    }
    lemma_absent_key(s, name);
}

proof fn lemma_entries_remove(items: Seq<UnusedEntry>, i: int)
    requires
        keys_distinct(entry_pairs(items)),
        0 <= i < items.len(),
    ensures
        keys_distinct(entry_pairs(items.remove(i))),
        entries_view(items.remove(i)) == entries_view(items).remove(items[i].name.contents@),
        spans_nonempty(items) ==> spans_nonempty(items.remove(i)),
{
    let s = entry_pairs(items);
    assert(entry_pairs(items.remove(i)) =~= s.remove(i));
    assert(s[i] == entry_pair(items[i]));
    lemma_distinct_remove(s, i);
    lemma_remove_pair(s, i);
    let t = items.remove(i);
    assert forall|j: int| 0 <= j < t.len() implies t[j] == items[if j < i { j } else { j + 1 }] by {}
}

proof fn lemma_entries_push(items: Seq<UnusedEntry>, e: UnusedEntry)
    requires
        keys_distinct(entry_pairs(items)),
        !entries_view(items).contains_key(e.name.contents@),
    ensures
        keys_distinct(entry_pairs(items.push(e))),
        entries_view(items.push(e)) == entries_view(items).insert(
            e.name.contents@,
            (e.name.span, e.item),
        ),
{
    let s = entry_pairs(items);
    assert(entry_pairs(items.push(e)) =~= s.push(entry_pair(e)));
    lemma_distinct_push(s, entry_pair(e));
    lemma_push_pair(s, entry_pair(e));
}

/// A module has candidates exactly when some group lists it, and then they are
/// that group's.
proof fn lemma_group_lookup(groups: Seq<ModuleUnusedItems>, i: int)
    requires
        groups_wf(groups),
        0 <= i < groups.len(),
    ensures
        groups_view(groups).contains_key(groups[i].module_id),
        groups_view(groups)[groups[i].module_id] == entries_view(groups[i].items@),
{
    assert(group_pairs(groups)[i] == group_pair(groups[i]));
    lemma_lookup_pair(group_pairs(groups), i);
}

proof fn lemma_group_absent(groups: Seq<ModuleUnusedItems>, module_id: ModuleId)
    requires
        forall|j: int| 0 <= j < groups.len() ==> groups[j].module_id != module_id,
    ensures
        !groups_view(groups).contains_key(module_id),
{
    let s = group_pairs(groups);
    assert forall|j: int| 0 <= j < s.len() implies s[j].0 != module_id by {
        assert(s[j] == group_pair(groups[j]));
    }
    lemma_absent_key(s, module_id);
}

proof fn lemma_drop_group(groups: Seq<ModuleUnusedItems>, i: int)
    requires
        groups_wf(groups),
        0 <= i < groups.len(),
    ensures
        groups_wf(groups.remove(i)),
        groups_view(groups.remove(i)) == groups_view(groups).remove(groups[i].module_id),
{
    let s = group_pairs(groups);
    let t = groups.remove(i);
    assert(group_pairs(t) =~= s.remove(i));
    assert(s[i] == group_pair(groups[i]));
    lemma_distinct_remove(s, i);
    lemma_remove_pair(s, i);
    assert forall|j: int| 0 <= j < t.len() implies group_wf(#[trigger] t[j]) by {
        let j0 = if j < i { j } else { j + 1 };
        assert(t[j] == groups[j0]);
    }
}

proof fn lemma_add_group(groups: Seq<ModuleUnusedItems>, g: ModuleUnusedItems)
    requires
        groups_wf(groups),
        group_wf(g),
        !groups_view(groups).contains_key(g.module_id),
    ensures
        groups_wf(groups.push(g)),
        groups_view(groups.push(g)) == groups_view(groups).insert(
            g.module_id,
            entries_view(g.items@),
        ),
{
    let s = group_pairs(groups);
    let t = groups.push(g);
    assert(group_pairs(t) =~= s.push(group_pair(g)));
    lemma_distinct_push(s, group_pair(g));
    lemma_push_pair(s, group_pair(g));
    assert forall|j: int| 0 <= j < t.len() implies group_wf(#[trigger] t[j]) by {
        if j < groups.len() {
            assert(t[j] == groups[j]);
        }
    }
}

/// Entries of a group that is not empty make a map that is not empty.
proof fn lemma_entries_nonempty(items: Seq<UnusedEntry>)
    requires
        items.len() > 0,
    ensures
        entries_view(items).contains_key(items.last().name.contents@),
{
    let s = entry_pairs(items);
    assert(s.last() == entry_pair(items.last()));
}

proof fn lemma_entries_empty(items: Seq<UnusedEntry>)
    requires
        items.len() == 0,
    ensures
        entries_view(items) == EntriesView::empty(),
{
    assert(entry_pairs(items).len() == 0);
}

fn find_group(groups: &Vec<ModuleUnusedItems>, module_id: ModuleId) -> (r: Option<usize>)
    ensures
        match r {
            Some(i) => i < groups@.len() && groups@[i as int].module_id == module_id,
            None => forall|j: int| 0 <= j < groups@.len() ==> groups@[j].module_id != module_id,
        },
{
    let mut i: usize = 0;
    while i < groups.len()
        invariant
            i <= groups@.len(),
            forall|j: int| 0 <= j < i ==> groups@[j].module_id != module_id,
        decreases groups@.len() - i,
    {
        if groups[i].module_id == module_id {
            return Some(i);
        }
        i = i + 1;
    }
    None
}

fn find_entry(items: &Vec<UnusedEntry>, name: &String) -> (r: Option<usize>)
    ensures
        match r {
            Some(i) => i < items@.len() && items@[i as int].name.contents@ == name@,
            None => forall|j: int| 0 <= j < items@.len() ==> items@[j].name.contents@ != name@,
        },
{
    let mut i: usize = 0;
    while i < items.len()
        invariant
            i <= items@.len(),
            forall|j: int| 0 <= j < i ==> items@[j].name.contents@ != name@,
        decreases items@.len() - i,
    {
        if items[i].name.contents == *name {
            return Some(i);
        }
        i = i + 1;
    }
    None
}

impl UsageTracker {
    pub closed spec fn wf(&self) -> bool {
        groups_wf(self.unused_items@)
    }

    /// A tracker with no candidates, for the start of a pass.
    pub fn new() -> (r: UsageTracker)
        ensures
            r.wf(),
            r@ == TrackerView::empty(),
    {
        UsageTracker { unused_items: Vec::new() }
    }

    /// Every module that still has candidates, with them.
    pub fn unused_items(&self) -> (r: &Vec<ModuleUnusedItems>)
        requires
            self.wf(),
        ensures
            groups_wf(r@),
            groups_view(r@) == self@,
    {
        &self.unused_items
    }

    /// Records a declaration as unused until a reference to it is seen.
    pub fn add_unused_item(
        &mut self,
        module_id: ModuleId,
        name: Ident,
        item: UnusedItem,
        visibility: ItemVisibility,
    )
        requires
            old(self).wf(),
        ensures
            final(self).wf(),
            final(self)@ == after_register(
                old(self)@,
                module_id,
                name.contents@,
                name.span,
                item,
                visibility,
            ),
    {
        // An empty span marks a declaration that the compiler injected itself.
        if visibility == ItemVisibility::Public || name.span.is_empty() {
            return;
        }
        let ghost groups = self.unused_items@;
        let ghost key = name.contents@;
        let entry = UnusedEntry { name, item };
        match find_group(&self.unused_items, module_id) {
            None => {
                let group = ModuleUnusedItems { module_id, items: vec![entry] };
                proof {
                    lemma_group_absent(groups, module_id);
                    assert(group.items@ =~= Seq::<UnusedEntry>::empty().push(entry));
                    lemma_entries_absent(Seq::empty(), key);
                    lemma_entries_push(Seq::empty(), entry);
                    lemma_entries_empty(Seq::empty());
                    lemma_add_group(groups, group);
                    assert(entries_view(group.items@) == entries_of(groups_view(groups), module_id).insert(
                        key,
                        (entry.name.span, item),
                    ));
                }
                self.unused_items.push(group);
            },
            Some(gi) => {
                let ghost old_items = groups[gi as int].items@;
                proof {
                    lemma_group_lookup(groups, gi as int);
                    lemma_drop_group(groups, gi as int);
                }
                let mut group = self.unused_items.remove(gi);
                match find_entry(&group.items, &entry.name.contents) {
                    Some(ni) => {
                        proof {
                            lemma_entries_remove(old_items, ni as int);
                        }
                        group.items.remove(ni);
                    },
                    None => {
                        proof {
                            lemma_entries_absent(old_items, key);
                            assert(entries_view(old_items).remove(key) =~= entries_view(old_items));
                        }
                    },
                }
                let ghost kept = group.items@;
                proof {
                    assert(entries_view(kept) == entries_view(old_items).remove(key));
                    lemma_entries_push(kept, entry);
                    lemma_entries_nonempty(kept.push(entry));
                    assert forall|j: int| 0 <= j < kept.len() implies kept.push(entry)[j] == kept[j] by {}
                }
                group.items.push(entry);
                proof {
                    lemma_add_group(groups.remove(gi as int), group);
                    assert(groups_view(groups).remove(module_id).insert(
                        module_id,
                        entries_view(group.items@),
                    ) =~= groups_view(groups).insert(module_id, entries_view(group.items@)));
                    assert(entries_view(group.items@) == entries_of(groups_view(groups), module_id).insert(
                        key,
                        (entry.name.span, item),
                    ));
                }
                self.unused_items.push(group);
            },
        }
    }

    /// Records a reference: the declaration of `name` in `current_mod_id`, if
    /// tracked, is unused no longer.
    pub fn mark_as_used(&mut self, current_mod_id: ModuleId, name: &Ident)
        requires
            old(self).wf(),
        ensures
            final(self).wf(),
            final(self)@ == after_mark_used(old(self)@, current_mod_id, name.contents@),
    {
        let ghost groups = self.unused_items@;
        let ghost key = name.contents@;
        let gi = match find_group(&self.unused_items, current_mod_id) {
            Some(gi) => gi,
            None => {
                proof {
                    lemma_group_absent(groups, current_mod_id);
                    assert(!EntriesView::empty().contains_key(key));
                }
                return;
            },
        };
        let ghost old_items = groups[gi as int].items@;
        proof {
            lemma_group_lookup(groups, gi as int);
        }
        let ni = match find_entry(&self.unused_items[gi].items, &name.contents) {
            Some(ni) => ni,
            None => {
                proof {
                    lemma_entries_absent(old_items, key);
                }
                return;
            },
        };
        proof {
            lemma_drop_group(groups, gi as int);
            lemma_entries_remove(old_items, ni as int);
            assert(entry_pairs(old_items)[ni as int] == entry_pair(old_items[ni as int]));
            lemma_lookup_pair(entry_pairs(old_items), ni as int);
        }
        let mut group = self.unused_items.remove(gi);
        group.items.remove(ni);
        if group.items.len() > 0 {
            proof {
                let kept = group.items@;
                lemma_entries_nonempty(kept);
                lemma_add_group(groups.remove(gi as int), group);
                assert(groups_view(groups).remove(current_mod_id).insert(
                    current_mod_id,
                    entries_view(kept),
                ) =~= groups_view(groups).insert(current_mod_id, entries_view(kept)));
            }
            self.unused_items.push(group);
            assert(entries_of(groups_view(groups), current_mod_id).remove(key) == entries_view(group.items@));
            assert(!EntriesView::empty().contains_key(group.items@.last().name.contents@));
            assert(entries_view(group.items@) != EntriesView::empty());
        } else {
            proof {
                lemma_entries_empty(group.items@);
            }
        }
    }
}

impl Default for UsageTracker {
    fn default() -> (r: UsageTracker)
        ensures
            r.wf(),
            r@ == TrackerView::empty(),
    {
        UsageTracker::new()
    }
}

} // verus!

use usage_tracker::{
    FuncId, Ident, ItemVisibility, ModuleId, Span, StructId, TraitId, TypeAliasId, UnusedItem,
    UsageTracker,
};

fn module(local_id: usize) -> ModuleId {
    ModuleId { krate: 0, local_id }
}

fn ident(text: &str, start: u32, end: u32) -> Ident {
    Ident::new(text.to_string(), Span { start, end })
}

fn lookup(tracker: &UsageTracker, module_id: ModuleId, name: &str) -> Option<(Span, UnusedItem)> {
    for group in tracker.unused_items() {
        if group.module_id == module_id {
            for entry in &group.items {
                if entry.name.contents == name {
                    return Some((entry.name.span, entry.item));
                }
            }
        }
    }
    None
}

fn candidate_count(tracker: &UsageTracker) -> usize {
    tracker.unused_items().iter().map(|g| g.items.len()).sum()
}

#[test]
fn private_function_is_reported_until_used() {
    let mut tracker = UsageTracker::new();
    let m1 = module(1);
    tracker.add_unused_item(m1, ident("foo", 10, 13), UnusedItem::Function(FuncId(1)), ItemVisibility::Private);
    let groups = tracker.unused_items();
    assert_eq!(groups.len(), 1);
    assert_eq!(groups[0].module_id, m1);
    assert_eq!(groups[0].items.len(), 1);
    assert_eq!(groups[0].items[0].name.contents, "foo");
    assert_eq!(groups[0].items[0].item, UnusedItem::Function(FuncId(1)));

    tracker.mark_as_used(m1, &ident("foo", 40, 43));
    assert!(tracker.unused_items().is_empty());
}

#[test]
fn public_struct_is_not_tracked() {
    let mut tracker = UsageTracker::new();
    tracker.add_unused_item(module(1), ident("Bar", 0, 3), UnusedItem::Struct(StructId(1)), ItemVisibility::Public);
    assert_eq!(lookup(&tracker, module(1), "Bar"), None);
    assert!(tracker.unused_items().is_empty());
}

#[test]
fn public_declaration_stays_absent_after_later_calls() {
    let mut tracker = UsageTracker::new();
    tracker.add_unused_item(module(1), ident("Bar", 0, 3), UnusedItem::Struct(StructId(1)), ItemVisibility::Public);
    tracker.mark_as_used(module(1), &ident("Bar", 9, 12));
    tracker.add_unused_item(module(1), ident("baz", 20, 23), UnusedItem::Import, ItemVisibility::Private);
    tracker.mark_as_used(module(2), &ident("Bar", 30, 33));
    assert_eq!(lookup(&tracker, module(1), "Bar"), None);
    assert_eq!(candidate_count(&tracker), 1);
}

#[test]
fn synthesized_import_is_not_tracked() {
    let mut tracker = UsageTracker::new();
    tracker.add_unused_item(module(1), ident("std", 5, 5), UnusedItem::Import, ItemVisibility::Private);
    assert_eq!(lookup(&tracker, module(1), "std"), None);
    assert!(tracker.unused_items().is_empty());
}

#[test]
fn inverted_span_is_not_tracked() {
    let mut tracker = UsageTracker::new();
    tracker.add_unused_item(module(1), ident("x", 7, 3), UnusedItem::Import, ItemVisibility::Private);
    assert!(tracker.unused_items().is_empty());
}

#[test]
fn crate_visible_declaration_is_tracked() {
    let mut tracker = UsageTracker::new();
    tracker.add_unused_item(module(3), ident("helper", 1, 7), UnusedItem::Trait(TraitId(4)), ItemVisibility::PublicCrate);
    assert_eq!(
        lookup(&tracker, module(3), "helper"),
        Some((Span { start: 1, end: 7 }, UnusedItem::Trait(TraitId(4))))
    );
}

#[test]
fn declare_then_use_leaves_no_entry() {
    let mut tracker = UsageTracker::new();
    tracker.add_unused_item(module(1), ident("Alias", 2, 7), UnusedItem::TypeAlias(TypeAliasId(2)), ItemVisibility::Private);
    tracker.add_unused_item(module(1), ident("other", 8, 13), UnusedItem::Import, ItemVisibility::Private);
    tracker.mark_as_used(module(1), &ident("Alias", 50, 55));
    assert_eq!(lookup(&tracker, module(1), "Alias"), None);
    assert_eq!(lookup(&tracker, module(1), "other"), Some((Span { start: 8, end: 13 }, UnusedItem::Import)));
}

#[test]
fn use_of_unknown_name_changes_nothing() {
    let mut tracker = UsageTracker::new();
    tracker.add_unused_item(module(1), ident("a", 0, 1), UnusedItem::Function(FuncId(7)), ItemVisibility::Private);
    tracker.add_unused_item(module(2), ident("b", 2, 3), UnusedItem::Struct(StructId(8)), ItemVisibility::Private);
    tracker.mark_as_used(module(1), &ident("b", 4, 5));
    tracker.mark_as_used(module(9), &ident("a", 6, 7));
    assert_eq!(tracker.unused_items().len(), 2);
    assert_eq!(lookup(&tracker, module(1), "a"), Some((Span { start: 0, end: 1 }, UnusedItem::Function(FuncId(7)))));
    assert_eq!(lookup(&tracker, module(2), "b"), Some((Span { start: 2, end: 3 }, UnusedItem::Struct(StructId(8)))));
}

#[test]
fn second_declaration_wins() {
    let mut tracker = UsageTracker::new();
    tracker.add_unused_item(module(1), ident("dup", 0, 3), UnusedItem::Function(FuncId(1)), ItemVisibility::Private);
    tracker.add_unused_item(module(1), ident("dup", 10, 13), UnusedItem::Struct(StructId(2)), ItemVisibility::Private);
    assert_eq!(candidate_count(&tracker), 1);
    assert_eq!(
        lookup(&tracker, module(1), "dup"),
        Some((Span { start: 10, end: 13 }, UnusedItem::Struct(StructId(2))))
    );
}

#[test]
fn redeclaration_after_use_is_tracked_again() {
    let mut tracker = UsageTracker::new();
    tracker.add_unused_item(module(1), ident("f", 0, 1), UnusedItem::Function(FuncId(1)), ItemVisibility::Private);
    tracker.mark_as_used(module(1), &ident("f", 5, 6));
    tracker.add_unused_item(module(1), ident("f", 9, 10), UnusedItem::Function(FuncId(2)), ItemVisibility::Private);
    assert_eq!(lookup(&tracker, module(1), "f"), Some((Span { start: 9, end: 10 }, UnusedItem::Function(FuncId(2)))));
}

#[test]
fn same_name_in_two_modules_is_kept_apart() {
    let mut tracker = UsageTracker::new();
    tracker.add_unused_item(module(1), ident("x", 0, 1), UnusedItem::Import, ItemVisibility::Private);
    tracker.add_unused_item(module(2), ident("x", 3, 4), UnusedItem::Import, ItemVisibility::Private);
    tracker.mark_as_used(module(2), &ident("x", 8, 9));
    assert_eq!(lookup(&tracker, module(1), "x"), Some((Span { start: 0, end: 1 }, UnusedItem::Import)));
    assert_eq!(lookup(&tracker, module(2), "x"), None);
    assert_eq!(tracker.unused_items().len(), 1);
}

#[test]
fn new_tracker_has_no_candidates() {
    let tracker = UsageTracker::new();
    assert!(tracker.unused_items().is_empty());
    let tracker = UsageTracker::default();
    assert!(tracker.unused_items().is_empty());
}

#[test]
fn item_labels() {
    assert_eq!(UnusedItem::Import.item_type(), "import");
    assert_eq!(UnusedItem::Function(FuncId(0)).item_type(), "function");
    assert_eq!(UnusedItem::Struct(StructId(0)).item_type(), "struct");
    assert_eq!(UnusedItem::Trait(TraitId(0)).item_type(), "trait");
    assert_eq!(UnusedItem::TypeAlias(TypeAliasId(0)).item_type(), "type alias");
}

#[test]
fn empty_span_detection() {
    assert!(Span { start: 4, end: 4 }.is_empty());
    assert!(!Span { start: 4, end: 5 }.is_empty());
    assert_eq!(ident("n", 2, 6).span(), Span { start: 2, end: 6 });
}

use vstd::prelude::*;

use crate::ast::{ItemVisibility, ModuleId, Span};
use crate::usage_tracker::{
    after_mark_used, after_register, entries_of, TrackerView, UnusedItem,
};

verus! {

/// `name` is a candidate of `module_id` in `v`.
pub open spec fn is_candidate(v: TrackerView, module_id: ModuleId, name: Seq<char>) -> bool {
    entries_of(v, module_id).contains_key(name)
}

/// A public declaration leaves the tracker as it was.
pub proof fn lemma_public_declaration_ignored(
    v: TrackerView,
    module_id: ModuleId,
    name: Seq<char>,
    span: Span,
    item: UnusedItem,
)
    ensures
        after_register(v, module_id, name, span, item, ItemVisibility::Public) == v,
{
}

/// A reference never makes a name a candidate, so nothing that follows a
/// public declaration, other than a new declaration, brings it back.
pub proof fn lemma_mark_used_adds_nothing(
    v: TrackerView,
    module_id: ModuleId,
    name: Seq<char>,
    other_module: ModuleId,
    other_name: Seq<char>,
)
    ensures
        is_candidate(after_mark_used(v, module_id, name), other_module, other_name)
            ==> is_candidate(v, other_module, other_name),
{
}

/// A declaration whose name covers no source text leaves the tracker as it
/// was.
pub proof fn lemma_synthesized_declaration_ignored(
    v: TrackerView,
    module_id: ModuleId,
    name: Seq<char>,
    span: Span,
    item: UnusedItem,
    visibility: ItemVisibility,
)
    requires
        span.spec_is_empty(),
    ensures
        after_register(v, module_id, name, span, item, visibility) == v,
{
}

/// A non-public declaration that is referenced right away is no candidate.
pub proof fn lemma_declare_then_use(
    v: TrackerView,
    module_id: ModuleId,
    name: Seq<char>,
    span: Span,
    item: UnusedItem,
    visibility: ItemVisibility,
)
    requires
        visibility != ItemVisibility::Public,
    ensures
        !is_candidate(
            after_mark_used(after_register(v, module_id, name, span, item, visibility), module_id, name),
            module_id,
            name,
        ),
{
}

/// A reference to a name that is no candidate changes nothing.
pub proof fn lemma_use_of_unknown_name(v: TrackerView, module_id: ModuleId, name: Seq<char>)
    requires
        !is_candidate(v, module_id, name),
    ensures
        after_mark_used(v, module_id, name) == v,
{
}

/// Of two non-public declarations of one name in one module, with spans that
/// cover source text, the second is what the tracker holds.
pub proof fn lemma_last_declaration_wins(
    v: TrackerView,
    module_id: ModuleId,
    name: Seq<char>,
    first_span: Span,
    first_item: UnusedItem,
    first_visibility: ItemVisibility,
    second_span: Span,
    second_item: UnusedItem,
    second_visibility: ItemVisibility,
)
    requires
        first_visibility != ItemVisibility::Public,
        second_visibility != ItemVisibility::Public,
        !first_span.spec_is_empty(),
        !second_span.spec_is_empty(),
    ensures
        after_register(
            after_register(v, module_id, name, first_span, first_item, first_visibility),
            module_id,
            name,
            second_span,
            second_item,
            second_visibility,
        ) == after_register(v, module_id, name, second_span, second_item, second_visibility),
        entries_of(
            after_register(
                after_register(v, module_id, name, first_span, first_item, first_visibility),
                module_id,
                name,
                second_span,
                second_item,
                second_visibility,
            ),
            module_id,
        )[name] == (second_span, second_item),
{
    let once = after_register(v, module_id, name, first_span, first_item, first_visibility);
    assert(entries_of(once, module_id).insert(name, (second_span, second_item)) =~= entries_of(
        v,
        module_id,
    ).insert(name, (second_span, second_item)));
    assert(after_register(once, module_id, name, second_span, second_item, second_visibility)
        =~= after_register(v, module_id, name, second_span, second_item, second_visibility));
}

} // verus!

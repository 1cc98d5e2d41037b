//! What holds of the display order, proved over the definitions of
//! `ordering`: the sort is a stable sort, the order is a fixed point of
//! itself, and orphans never show.

use crate::models::TodoItemView;
use crate::ordering::{
    children_of, families, family, has_id, has_sort_order, hierarchical_order, insertion_point,
    is_ascending, is_child_of, is_top_level, sorted_by_order, top_level_items,
};
use vstd::prelude::*;

verus! {

/// A filter keeps everything when every element passes.
proof fn lemma_filter_keeps_all(items: Seq<TodoItemView>, pred: spec_fn(TodoItemView) -> bool)
    requires
        forall|i: int| 0 <= i < items.len() ==> pred(#[trigger] items[i]),
    ensures
        items.filter(pred) == items,
    decreases items.len(),
{
    reveal(Seq::filter);
    if items.len() > 0 {
        lemma_filter_keeps_all(items.drop_last(), pred);
        assert(items.drop_last().push(items.last()) =~= items);
    }
}

/// A filter keeps nothing when no element passes.
proof fn lemma_filter_keeps_none(items: Seq<TodoItemView>, pred: spec_fn(TodoItemView) -> bool)
    requires
        forall|i: int| 0 <= i < items.len() ==> !pred(#[trigger] items[i]),
    ensures
        items.filter(pred) == Seq::<TodoItemView>::empty(),
    decreases items.len(),
{
    reveal(Seq::filter);
    if items.len() > 0 {
        lemma_filter_keeps_none(items.drop_last(), pred);
    }
}

/// Every element of a filtered sequence passes the test and comes from the
/// sequence that was filtered.
proof fn lemma_filter_members(items: Seq<TodoItemView>, pred: spec_fn(TodoItemView) -> bool)
    ensures
        forall|i: int|
            0 <= i < items.filter(pred).len() ==> pred(#[trigger] items.filter(pred)[i])
                && items.contains(items.filter(pred)[i]),
{
    let kept = items.filter(pred);
    assert forall|i: int| 0 <= i < kept.len() implies pred(#[trigger] kept[i]) && items.contains(
        kept[i],
    ) by {
        items.lemma_filter_pred(pred, i);
        assert(kept.contains(kept[i]));
        items.lemma_filter_contains_rev(pred, kept[i]);
    }
}

/// The insertion point lies within the sequence, everything from it on has
/// a greater key, and the item right before it has not.
proof fn lemma_insertion_point(sorted: Seq<TodoItemView>, key: i32)
    ensures
        insertion_point(sorted, key) <= sorted.len(),
        forall|i: int|
            insertion_point(sorted, key) <= i < sorted.len() ==> (#[trigger] sorted[i]).sort_order
                > key,
        insertion_point(sorted, key) > 0 ==> sorted[insertion_point(sorted, key) - 1].sort_order
            <= key,
    decreases sorted.len(),
{
    if sorted.len() > 0 && sorted.last().sort_order > key {
        let rest = sorted.drop_last();
        lemma_insertion_point(rest, key);
        assert forall|i: int| insertion_point(sorted, key) <= i < sorted.len() implies (
        #[trigger] sorted[i]).sort_order > key by {
            if i < rest.len() {
                assert(sorted[i] == rest[i]);
            }
        }
        if insertion_point(sorted, key) > 0 {
            assert(sorted[insertion_point(sorted, key) - 1] == rest[insertion_point(rest, key)
                - 1]);
        }
    }
}

/// Sorting keeps the length.
pub proof fn lemma_sorted_len(items: Seq<TodoItemView>)
    ensures
        sorted_by_order(items).len() == items.len(),
    decreases items.len(),
{
    if items.len() > 0 {
        let rest = sorted_by_order(items.drop_last());
        lemma_sorted_len(items.drop_last());
        lemma_insertion_point(rest, items.last().sort_order);
    }
}

/// Sorting rearranges: the result holds the same items, each as often as
/// the input.
pub proof fn lemma_sorted_is_permutation(items: Seq<TodoItemView>)
    ensures
        sorted_by_order(items).to_multiset() == items.to_multiset(),
    decreases items.len(),
{
    broadcast use {vstd::seq_lib::to_multiset_build, vstd::seq_lib::to_multiset_insert};

    if items.len() > 0 {
        let rest = sorted_by_order(items.drop_last());
        lemma_sorted_is_permutation(items.drop_last());
        lemma_insertion_point(rest, items.last().sort_order);
        assert(items.drop_last().push(items.last()) =~= items);
    } else {
        assert(sorted_by_order(items) =~= items);
    }
}

/// The sorted sequence holds exactly the items of the input.
proof fn lemma_sorted_members(items: Seq<TodoItemView>, item: TodoItemView)
    ensures
        sorted_by_order(items).contains(item) <==> items.contains(item),
{
    lemma_sorted_is_permutation(items);
    vstd::seq_lib::to_multiset_contains(sorted_by_order(items), item);
    vstd::seq_lib::to_multiset_contains(items, item);
}

/// The sort keys never decrease along the sorted sequence.
pub proof fn lemma_sorted_is_ascending(items: Seq<TodoItemView>)
    ensures
        is_ascending(sorted_by_order(items)),
    decreases items.len(),
{
    if items.len() > 0 {
        let rest = sorted_by_order(items.drop_last());
        let key = items.last().sort_order;
        let at = insertion_point(rest, key) as int;
        lemma_sorted_is_ascending(items.drop_last());
        lemma_insertion_point(rest, key);
        let sorted = rest.insert(at, items.last());
        assert forall|i: int, j: int| 0 <= i <= j < sorted.len() implies (
        #[trigger] sorted[i]).sort_order <= (#[trigger] sorted[j]).sort_order by {
            if i < at {
                assert(sorted[i] == rest[i]);
                assert(rest[i].sort_order <= rest[at - 1].sort_order);
            } else if i > at {
                assert(sorted[i] == rest[i - 1]);
            }
            if j < at {
                assert(sorted[j] == rest[j]);
            } else if j > at {
                assert(sorted[j] == rest[j - 1]);
            }
        }
    }
}

/// Sorting leaves an ascending sequence as it is.
pub proof fn lemma_sorted_of_ascending(items: Seq<TodoItemView>)
    requires
        is_ascending(items),
    ensures
        sorted_by_order(items) == items,
    decreases items.len(),
{
    if items.len() > 0 {
        let rest = items.drop_last();
        assert forall|i: int, j: int| 0 <= i <= j < rest.len() implies (
        #[trigger] rest[i]).sort_order <= (#[trigger] rest[j]).sort_order by {
            assert(rest[i] == items[i] && rest[j] == items[j]);
        }
        lemma_sorted_of_ascending(rest);
        if rest.len() > 0 {
            assert(rest.last() == items[rest.len() - 1]);
            assert(items[rest.len() - 1].sort_order <= items[items.len() - 1].sort_order);
        }
        assert(rest.insert(rest.len() as int, items.last()) =~= items);
    } else {
        assert(sorted_by_order(items) =~= items);
    }
}

/// In an ascending sequence, the insertion point of a key among the items
/// that pass a test is the number of such items before its insertion point
/// among all.
proof fn lemma_insertion_point_filtered(
    sorted: Seq<TodoItemView>,
    pred: spec_fn(TodoItemView) -> bool,
    key: i32,
)
    requires
        is_ascending(sorted),
    ensures
        insertion_point(sorted.filter(pred), key) == sorted.subrange(
            0,
            insertion_point(sorted, key) as int,
        ).filter(pred).len(),
    decreases sorted.len(),
{
    reveal(Seq::filter);
    if sorted.len() == 0 {
        assert(sorted.subrange(0, 0) =~= sorted);
    } else {
        let rest = sorted.drop_last();
        let last = sorted.last();
        assert forall|i: int, j: int| 0 <= i <= j < rest.len() implies (
        #[trigger] rest[i]).sort_order <= (#[trigger] rest[j]).sort_order by {
            assert(rest[i] == sorted[i] && rest[j] == sorted[j]);
        }
        if last.sort_order <= key {
            assert(sorted.subrange(0, sorted.len() as int) =~= sorted);
            if !pred(last) {
                let kept = rest.filter(pred);
                if kept.len() > 0 {
                    lemma_filter_members(rest, pred);
                    let tail = kept[kept.len() - 1];
                    assert(rest.contains(tail));
                    let at = choose|at: int| 0 <= at < rest.len() && rest[at] == tail;
                    assert(sorted[at] == tail);
                    assert(sorted[at].sort_order <= sorted[sorted.len() - 1].sort_order);
                }
            }
        } else {
            lemma_insertion_point_filtered(rest, pred, key);
            lemma_insertion_point(rest, key);
            assert(sorted.subrange(0, insertion_point(rest, key) as int) =~= rest.subrange(
                0,
                insertion_point(rest, key) as int,
            ));
            if pred(last) {
                assert(rest.filter(pred).push(last).drop_last() =~= rest.filter(pred));
            }
        }
    }
}

/// Filtering a sequence into which an item was inserted: the item, if it
/// passes, stands behind what passes of the part before it.
proof fn lemma_insert_filter(
    items: Seq<TodoItemView>,
    at: int,
    item: TodoItemView,
    pred: spec_fn(TodoItemView) -> bool,
)
    requires
        0 <= at <= items.len(),
    ensures
        items.subrange(0, at).filter(pred).len() <= items.filter(pred).len(),
        items.insert(at, item).filter(pred) == if pred(item) {
            items.filter(pred).insert(items.subrange(0, at).filter(pred).len() as int, item)
        } else {
            items.filter(pred)
        },
{
    let front = items.subrange(0, at);
    let back = items.subrange(at, items.len() as int);
    let single = Seq::<TodoItemView>::empty().push(item);
    assert(items =~= front + back);
    assert(items.insert(at, item) =~= (front + single) + back);
    Seq::filter_distributes_over_add(front, back, pred);
    Seq::filter_distributes_over_add(front + single, back, pred);
    Seq::filter_distributes_over_add(front, single, pred);
    Seq::<TodoItemView>::empty().lemma_filter_push(item, pred);
    lemma_filter_keeps_none(Seq::<TodoItemView>::empty(), pred);
    if pred(item) {
        assert((front.filter(pred) + back.filter(pred)).insert(
            front.filter(pred).len() as int,
            item,
        ) =~= (front.filter(pred) + single) + back.filter(pred));
    } else {
        assert(front.filter(pred) + Seq::<TodoItemView>::empty() =~= front.filter(pred));
    }
}

/// Filtering commutes with sorting: what passes a test, taken out of the
/// sorted sequence, is what passes it in the input, sorted.
pub proof fn lemma_sorted_filter(items: Seq<TodoItemView>, pred: spec_fn(TodoItemView) -> bool)
    ensures
        sorted_by_order(items).filter(pred) == sorted_by_order(items.filter(pred)),
    decreases items.len(),
{
    if items.len() > 0 {
        let rest = sorted_by_order(items.drop_last());
        let last = items.last();
        let key = last.sort_order;
        let at = insertion_point(rest, key) as int;
        lemma_sorted_filter(items.drop_last(), pred);
        lemma_insertion_point(rest, key);
        lemma_sorted_is_ascending(items.drop_last());
        lemma_insert_filter(rest, at, last, pred);
        items.drop_last().lemma_filter_push(last, pred);
        assert(items.drop_last().push(last) =~= items);
        if pred(last) {
            lemma_insertion_point_filtered(rest, pred, key);
            assert(items.filter(pred).drop_last() =~= items.drop_last().filter(pred));
        }
    } else {
        lemma_filter_keeps_none(items, pred);
        lemma_filter_keeps_none(sorted_by_order(items), pred);
    }
}

/// The sort is stable: the items of one sort key stand in the sorted
/// sequence as they stood in the input.
pub proof fn lemma_sorted_is_stable(items: Seq<TodoItemView>, key: i32)
    ensures
        sorted_by_order(items).filter(has_sort_order(key)) == items.filter(has_sort_order(key)),
{
    let same = items.filter(has_sort_order(key));
    lemma_sorted_filter(items, has_sort_order(key));
    lemma_filter_members(items, has_sort_order(key));
    assert forall|i: int, j: int| 0 <= i <= j < same.len() implies (
    #[trigger] same[i]).sort_order <= (#[trigger] same[j]).sort_order by {
        assert(has_sort_order(key)(same[i]));
        assert(has_sort_order(key)(same[j]));
    }
    lemma_sorted_of_ascending(same);
}

/// Whether every item of `items` is a top-level item.
pub open spec fn all_top_level(items: Seq<TodoItemView>) -> bool {
    forall|i: int| 0 <= i < items.len() ==> (#[trigger] items[i]).parent_id is None
}

/// Whether no id that a child refers to belongs to two top-level items.
/// With two such parents the children would be shown under each of them.
pub open spec fn parents_are_unambiguous(items: Seq<TodoItemView>) -> bool {
    forall|parent: Option<i64>|
        (#[trigger] children_of(items, parent)).len() > 0 ==> top_level_items(items).filter(
            has_id(parent),
        ).len() <= 1
}

/// The sorted top-level items are top-level items.
proof fn lemma_sorted_parents_are_top_level(items: Seq<TodoItemView>)
    ensures
        all_top_level(sorted_by_order(top_level_items(items))),
{
    let top = top_level_items(items);
    let parents = sorted_by_order(top);
    lemma_filter_members(items, is_top_level());
    assert forall|i: int| 0 <= i < parents.len() implies (#[trigger] parents[i]).parent_id
        is None by {
        assert(parents.contains(parents[i]));
        lemma_sorted_members(top, parents[i]);
        let at = choose|at: int| 0 <= at < top.len() && top[at] == parents[i];
        assert(is_top_level()(top[at]));
    }
}

/// The children of `of` within one family: the family's own children if the
/// parent has that id, nothing otherwise.
proof fn lemma_family_children(parent: TodoItemView, items: Seq<TodoItemView>, of: Option<i64>)
    requires
        parent.parent_id is None,
    ensures
        children_of(family(parent, items), of) == if parent.id == of {
            sorted_by_order(children_of(items, of))
        } else {
            Seq::<TodoItemView>::empty()
        },
{
    let own = children_of(items, parent.id);
    let head = seq![parent];
    Seq::filter_distributes_over_add(head, sorted_by_order(own), is_child_of(of));
    lemma_filter_keeps_none(head, is_child_of(of));
    lemma_sorted_filter(own, is_child_of(of));
    lemma_filter_members(items, is_child_of(parent.id));
    if parent.id == of {
        lemma_filter_keeps_all(own, is_child_of(of));
    } else {
        assert forall|i: int| 0 <= i < own.len() implies !is_child_of(of)(#[trigger] own[i]) by {
            assert(is_child_of(parent.id)(own[i]));
        }
        lemma_filter_keeps_none(own, is_child_of(of));
        lemma_sorted_len(Seq::<TodoItemView>::empty());
    }
    assert(Seq::<TodoItemView>::empty() + sorted_by_order(children_of(items, of))
        =~= sorted_by_order(children_of(items, of)));
    assert(Seq::<TodoItemView>::empty() + Seq::<TodoItemView>::empty() =~= Seq::<
        TodoItemView,
    >::empty());
    assert(sorted_by_order(Seq::<TodoItemView>::empty()) =~= Seq::<TodoItemView>::empty());
}

/// The top-level items of one family: the parent alone.
proof fn lemma_family_top_level(parent: TodoItemView, items: Seq<TodoItemView>)
    requires
        parent.parent_id is None,
    ensures
        top_level_items(family(parent, items)) == seq![parent],
{
    let own = children_of(items, parent.id);
    let head = seq![parent];
    Seq::filter_distributes_over_add(head, sorted_by_order(own), is_top_level());
    lemma_filter_keeps_all(head, is_top_level());
    lemma_sorted_filter(own, is_top_level());
    lemma_filter_members(items, is_child_of(parent.id));
    assert forall|i: int| 0 <= i < own.len() implies !is_top_level()(#[trigger] own[i]) by {
        assert(is_child_of(parent.id)(own[i]));
    }
    lemma_filter_keeps_none(own, is_top_level());
    assert(sorted_by_order(Seq::<TodoItemView>::empty()) =~= Seq::<TodoItemView>::empty());
    assert(head + Seq::<TodoItemView>::empty() =~= head);
}

/// The top-level items of a run of families are the parents, in order.
proof fn lemma_families_top_level(parents: Seq<TodoItemView>, items: Seq<TodoItemView>)
    requires
        all_top_level(parents),
    ensures
        top_level_items(families(parents, items)) == parents,
    decreases parents.len(),
{
    if parents.len() > 0 {
        let rest = parents.drop_last();
        assert forall|i: int| 0 <= i < rest.len() implies (#[trigger] rest[i]).parent_id
            is None by {
            assert(rest[i] == parents[i]);
        }
        lemma_families_top_level(rest, items);
        lemma_family_top_level(parents.last(), items);
        Seq::filter_distributes_over_add(
            families(rest, items),
            family(parents.last(), items),
            is_top_level(),
        );
        assert(rest + seq![parents.last()] =~= parents);
    } else {
        lemma_filter_keeps_none(families(parents, items), is_top_level());
        assert(families(parents, items) =~= parents);
    }
}

/// The children of `of` within a run of families, where at most one of the
/// parents has that id or `of` has no children at all: the sorted children
/// if a parent has the id, nothing otherwise.
proof fn lemma_families_children(
    parents: Seq<TodoItemView>,
    items: Seq<TodoItemView>,
    of: Option<i64>,
)
    requires
        all_top_level(parents),
        children_of(items, of).len() == 0 || parents.filter(has_id(of)).len() <= 1,
    ensures
        children_of(families(parents, items), of) == if parents.filter(has_id(of)).len() >= 1 {
            sorted_by_order(children_of(items, of))
        } else {
            Seq::<TodoItemView>::empty()
        },
    decreases parents.len(),
{
    let none = Seq::<TodoItemView>::empty();
    let sorted_children = sorted_by_order(children_of(items, of));
    lemma_sorted_len(children_of(items, of));
    if parents.len() > 0 {
        let rest = parents.drop_last();
        let last = parents.last();
        assert forall|i: int| 0 <= i < rest.len() implies (#[trigger] rest[i]).parent_id
            is None by {
            assert(rest[i] == parents[i]);
        }
        assert(rest.push(last) =~= parents);
        rest.lemma_filter_push(last, has_id(of));
        lemma_families_children(rest, items, of);
        lemma_family_children(last, items, of);
        Seq::filter_distributes_over_add(
            families(rest, items),
            family(last, items),
            is_child_of(of),
        );
        assert(none + sorted_children =~= sorted_children);
        assert(sorted_children + none =~= sorted_children);
        assert(none + none =~= none);
        if children_of(items, of).len() == 0 {
            assert(sorted_children =~= none);
        }
    } else {
        lemma_filter_keeps_none(families(parents, items), is_child_of(of));
        lemma_filter_keeps_none(parents, has_id(of));
    }
}

/// A run of families depends on the collection only through the sorted
/// children of each parent.
proof fn lemma_families_same_children(
    parents: Seq<TodoItemView>,
    a: Seq<TodoItemView>,
    b: Seq<TodoItemView>,
)
    requires
        forall|i: int|
            0 <= i < parents.len() ==> sorted_by_order(
                children_of(a, (#[trigger] parents[i]).id),
            ) == sorted_by_order(children_of(b, parents[i].id)),
    ensures
        families(parents, a) == families(parents, b),
    decreases parents.len(),
{
    if parents.len() > 0 {
        let rest = parents.drop_last();
        assert forall|i: int| 0 <= i < rest.len() implies sorted_by_order(
            children_of(a, (#[trigger] rest[i]).id),
        ) == sorted_by_order(children_of(b, rest[i].id)) by {
            assert(rest[i] == parents[i]);
        }
        lemma_families_same_children(rest, a, b);
        assert(parents.last() == parents[parents.len() - 1]);
    }
}

/// The top-level items of the display order are the sorted top-level items
/// of the input.
pub proof fn lemma_order_top_level(items: Seq<TodoItemView>)
    ensures
        top_level_items(hierarchical_order(items)) == sorted_by_order(top_level_items(items)),
{
    lemma_sorted_parents_are_top_level(items);
    lemma_families_top_level(sorted_by_order(top_level_items(items)), items);
}

/// The children of `parent` in the display order, where exactly one
/// top-level item of the input has that id: the sorted children of the
/// input.
pub proof fn lemma_order_children(items: Seq<TodoItemView>, parent: Option<i64>)
    requires
        top_level_items(items).filter(has_id(parent)).len() == 1,
    ensures
        children_of(hierarchical_order(items), parent) == sorted_by_order(
            children_of(items, parent),
        ),
{
    let top = top_level_items(items);
    lemma_sorted_parents_are_top_level(items);
    lemma_sorted_filter(top, has_id(parent));
    lemma_sorted_len(top.filter(has_id(parent)));
    lemma_families_children(sorted_by_order(top), items, parent);
}

/// The display order is idempotent: ordering what is already ordered
/// changes nothing. This holds of every collection in which no id that a
/// child refers to is shared by two top-level items.
pub proof fn lemma_order_is_idempotent(items: Seq<TodoItemView>)
    requires
        parents_are_unambiguous(items),
    ensures
        hierarchical_order(hierarchical_order(items)) == hierarchical_order(items),
{
    let top = top_level_items(items);
    let parents = sorted_by_order(top);
    let ordered = hierarchical_order(items);
    lemma_sorted_parents_are_top_level(items);
    lemma_order_top_level(items);
    lemma_sorted_is_ascending(top);
    lemma_sorted_of_ascending(parents);
    assert forall|i: int| 0 <= i < parents.len() implies sorted_by_order(
        children_of(ordered, (#[trigger] parents[i]).id),
    ) == sorted_by_order(children_of(items, parents[i].id)) by {
        let of = parents[i].id;
        lemma_sorted_filter(top, has_id(of));
        lemma_sorted_len(top.filter(has_id(of)));
        assert(has_id(of)(parents[i]));
        parents.lemma_filter_contains(has_id(of), i);
        assert(parents.filter(has_id(of)).len() >= 1);
        assert(children_of(items, of).len() > 0 ==> top.filter(has_id(of)).len() <= 1);
        lemma_families_children(parents, items, of);
        lemma_sorted_is_ascending(children_of(items, of));
        lemma_sorted_of_ascending(sorted_by_order(children_of(items, of)));
    }
    lemma_families_same_children(parents, ordered, items);
}

/// The display order is a stable sort of the top-level items: they stand
/// in ascending sort key, and those of one sort key stand as they stood in
/// the input.
pub proof fn lemma_top_level_order_is_stable(items: Seq<TodoItemView>, key: i32)
    ensures
        is_ascending(top_level_items(hierarchical_order(items))),
        top_level_items(hierarchical_order(items)).filter(has_sort_order(key)) == top_level_items(
            items,
        ).filter(has_sort_order(key)),
{
    lemma_order_top_level(items);
    lemma_sorted_is_ascending(top_level_items(items));
    lemma_sorted_is_stable(top_level_items(items), key);
}

/// The display order is a stable sort of the children of each parent: where
/// exactly one top-level item has the id `parent`, its children stand in
/// ascending sort key, and those of one sort key stand as they stood in the
/// input.
pub proof fn lemma_sibling_order_is_stable(
    items: Seq<TodoItemView>,
    parent: Option<i64>,
    key: i32,
)
    requires
        top_level_items(items).filter(has_id(parent)).len() == 1,
    ensures
        is_ascending(children_of(hierarchical_order(items), parent)),
        children_of(hierarchical_order(items), parent).filter(has_sort_order(key)) == children_of(
            items,
            parent,
        ).filter(has_sort_order(key)),
{
    lemma_order_children(items, parent);
    lemma_sorted_is_ascending(children_of(items, parent));
    lemma_sorted_is_stable(children_of(items, parent), key);
}

/// Orphans never show: an item whose parent is not the id of any top-level
/// item of the input does not occur in the display order.
pub proof fn lemma_orphans_are_left_out(items: Seq<TodoItemView>, orphan: TodoItemView)
    requires
        orphan.parent_id is Some,
        forall|i: int|
            0 <= i < items.len() && (#[trigger] items[i]).parent_id is None ==> items[i].id
                != orphan.parent_id,
    ensures
        !hierarchical_order(items).contains(orphan),
{
    let of = orphan.parent_id;
    let top = top_level_items(items);
    let ordered = hierarchical_order(items);
    lemma_sorted_parents_are_top_level(items);
    lemma_filter_members(items, is_top_level());
    assert forall|i: int| 0 <= i < top.len() implies !has_id(of)(#[trigger] top[i]) by {
        assert(is_top_level()(top[i]));
        assert(items.contains(top[i]));
    }
    lemma_filter_keeps_none(top, has_id(of));
    lemma_sorted_filter(top, has_id(of));
    assert(sorted_by_order(Seq::<TodoItemView>::empty()) =~= Seq::<TodoItemView>::empty());
    lemma_families_children(sorted_by_order(top), items, of);
    if ordered.contains(orphan) {
        let at = choose|at: int| 0 <= at < ordered.len() && ordered[at] == orphan;
        assert(is_child_of(of)(ordered[at]));
        ordered.lemma_filter_contains(is_child_of(of), at);
    }
}

/// What passes a filter: the items of the sequence that pass the test.
proof fn lemma_filter_contains(
    items: Seq<TodoItemView>,
    pred: spec_fn(TodoItemView) -> bool,
    item: TodoItemView,
)
    ensures
        items.filter(pred).contains(item) <==> items.contains(item) && pred(item),
{
    lemma_filter_members(items, pred);
    if items.filter(pred).contains(item) {
        let at = choose|at: int| 0 <= at < items.filter(pred).len() && items.filter(pred)[at] == item;
        assert(pred(items.filter(pred)[at]));
    }
    if items.contains(item) && pred(item) {
        let at = choose|at: int| 0 <= at < items.len() && items[at] == item;
        items.lemma_filter_contains(pred, at);
    }
}

/// What one family holds: the parent and those items of the collection
/// that name its id as their parent.
proof fn lemma_family_members(parent: TodoItemView, items: Seq<TodoItemView>, item: TodoItemView)
    ensures
        family(parent, items).contains(item) <==> item == parent || (items.contains(item)
            && item.parent_id is Some && item.parent_id == parent.id),
{
    let own = children_of(items, parent.id);
    vstd::seq_lib::lemma_seq_concat_contains_all_elements(seq![parent], sorted_by_order(own), item);
    lemma_sorted_members(own, item);
    lemma_filter_contains(items, is_child_of(parent.id), item);
    if item == parent {
        assert(seq![parent][0] == item);
    }
}

/// What a run of families holds: what its families hold.
proof fn lemma_families_members(
    parents: Seq<TodoItemView>,
    items: Seq<TodoItemView>,
    item: TodoItemView,
)
    ensures
        families(parents, items).contains(item) <==> exists|i: int|
            0 <= i < parents.len() && family(#[trigger] parents[i], items).contains(item),
    decreases parents.len(),
{
    if parents.len() > 0 {
        let rest = parents.drop_last();
        lemma_families_members(rest, items, item);
        vstd::seq_lib::lemma_seq_concat_contains_all_elements(
            families(rest, items),
            family(parents.last(), items),
            item,
        );
        if families(rest, items).contains(item) {
            let at = choose|i: int|
                0 <= i < rest.len() && family(#[trigger] rest[i], items).contains(item);
            assert(parents[at] == rest[at]);
        }
        if family(parents.last(), items).contains(item) {
            assert(parents[parents.len() - 1] == parents.last());
        }
        if exists|i: int|
            0 <= i < parents.len() && family(#[trigger] parents[i], items).contains(item) {
            let at = choose|i: int|
                0 <= i < parents.len() && family(#[trigger] parents[i], items).contains(item);
            if at < rest.len() {
                assert(rest[at] == parents[at]);
            }
        }
    }
}

/// What the display order keeps: exactly the items of the input that are
/// top-level items or children of a top-level item of the input.
pub proof fn lemma_order_members(items: Seq<TodoItemView>, item: TodoItemView)
    ensures
        hierarchical_order(items).contains(item) <==> items.contains(item) && (item.parent_id
            is None || exists|i: int|
            0 <= i < items.len() && (#[trigger] items[i]).parent_id is None && items[i].id
                == item.parent_id),
{
    let top = top_level_items(items);
    let parents = sorted_by_order(top);
    lemma_families_members(parents, items, item);
    if hierarchical_order(items).contains(item) {
        let at = choose|i: int|
            0 <= i < parents.len() && family(#[trigger] parents[i], items).contains(item);
        lemma_family_members(parents[at], items, item);
        assert(parents.contains(parents[at]));
        lemma_sorted_members(top, parents[at]);
        lemma_filter_contains(items, is_top_level(), parents[at]);
        if item != parents[at] {
            let of = choose|i: int| 0 <= i < items.len() && items[i] == parents[at];
            assert(items[of].parent_id is None && items[of].id == item.parent_id);
        }
    }
    if items.contains(item) && item.parent_id is None {
        lemma_filter_contains(items, is_top_level(), item);
        lemma_sorted_members(top, item);
        let at = choose|i: int| 0 <= i < parents.len() && parents[i] == item;
        lemma_family_members(parents[at], items, item);
    }
    if items.contains(item) && item.parent_id is Some && exists|i: int|
        0 <= i < items.len() && (#[trigger] items[i]).parent_id is None && items[i].id
            == item.parent_id {
        let of = choose|i: int|
            0 <= i < items.len() && (#[trigger] items[i]).parent_id is None && items[i].id
                == item.parent_id;
        assert(items.contains(items[of]));
        lemma_filter_contains(items, is_top_level(), items[of]);
        lemma_sorted_members(top, items[of]);
        let at = choose|i: int| 0 <= i < parents.len() && parents[i] == items[of];
        lemma_family_members(parents[at], items, item);
    }
}

} // verus!

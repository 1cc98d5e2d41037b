//! The display order of a two-level list.
//!
//! Top-level items come in ascending sort key; each is followed at once by
//! its children, again in ascending sort key. Equal keys keep the order in
//! which the items came in, and a child whose parent is not a top-level item
//! of the same collection is left out.

use crate::models::{item_views, TodoItem, TodoItemView};
use vstd::prelude::*;

verus! {

/// The test "has no parent".
pub open spec fn is_top_level() -> spec_fn(TodoItemView) -> bool {
    |item: TodoItemView| item.parent_id is None
}

/// The test "has a parent, and it is `parent`".
pub open spec fn is_child_of(parent: Option<i64>) -> spec_fn(TodoItemView) -> bool {
    |item: TodoItemView| item.parent_id is Some && item.parent_id == parent
}

/// The test "has sort key `key`".
pub open spec fn has_sort_order(key: i32) -> spec_fn(TodoItemView) -> bool {
    |item: TodoItemView| item.sort_order == key
}

/// The test "has the id `id`".
pub open spec fn has_id(id: Option<i64>) -> spec_fn(TodoItemView) -> bool {
    |item: TodoItemView| item.id == id
}

/// The items without a parent, in the order in which they stand in `items`.
pub open spec fn top_level_items(items: Seq<TodoItemView>) -> Seq<TodoItemView> {
    items.filter(is_top_level())
}

/// The items that name `parent` as their parent, in the order in which they
/// stand in `items`. Nothing is a child of `None`.
pub open spec fn children_of(items: Seq<TodoItemView>, parent: Option<i64>) -> Seq<TodoItemView> {
    items.filter(is_child_of(parent))
}

/// Whether the sort keys never decrease along `items`.
pub open spec fn is_ascending(items: Seq<TodoItemView>) -> bool {
    forall|i: int, j: int|
        0 <= i <= j < items.len() ==> (#[trigger] items[i]).sort_order <= (
        #[trigger] items[j]).sort_order
}

/// Where an item with sort key `key` goes into `sorted`: right behind the last
/// item whose key is not greater.
pub open spec fn insertion_point(sorted: Seq<TodoItemView>, key: i32) -> nat
    decreases sorted.len(),
{
    if sorted.len() == 0 {
        0
    } else if sorted.last().sort_order <= key {
        sorted.len()
    } else {
        insertion_point(sorted.drop_last(), key)
    }
}

/// `items` in ascending sort key, items of equal key in their given order.
pub open spec fn sorted_by_order(items: Seq<TodoItemView>) -> Seq<TodoItemView>
    decreases items.len(),
{
    if items.len() == 0 {
        Seq::empty()
    } else {
        let rest = sorted_by_order(items.drop_last());
        rest.insert(insertion_point(rest, items.last().sort_order) as int, items.last())
    }
}

/// A parent followed by its children out of `items`, the children sorted.
pub open spec fn family(parent: TodoItemView, items: Seq<TodoItemView>) -> Seq<TodoItemView> {
    seq![parent] + sorted_by_order(children_of(items, parent.id))
}

/// The families of `parents`, one after the other.
pub open spec fn families(parents: Seq<TodoItemView>, items: Seq<TodoItemView>) -> Seq<
    TodoItemView,
>
    decreases parents.len(),
{
    if parents.len() == 0 {
        Seq::empty()
    } else {
        families(parents.drop_last(), items) + family(parents.last(), items)
    }
}

/// The display order of `items`: the sorted top-level items, each with its
/// sorted children right behind it.
pub open spec fn hierarchical_order(items: Seq<TodoItemView>) -> Seq<TodoItemView> {
    families(sorted_by_order(top_level_items(items)), items)
}

proof fn lemma_views_push(items: Seq<TodoItem>, item: TodoItem)
    ensures
        item_views(items.push(item)) == item_views(items).push(item@),
{
    assert(item_views(items.push(item)) =~= item_views(items).push(item@));
}

/// Copies of the top-level items of `items`, in their given order.
pub fn top_level_of(items: &Vec<TodoItem>) -> (top: Vec<TodoItem>)
    ensures
        item_views(top@) == top_level_items(item_views(items@)),
{
    let ghost all = item_views(items@);
    let mut top: Vec<TodoItem> = Vec::new();
    let mut i: usize = 0;
    proof {
        reveal(Seq::filter);
        assert(all.subrange(0, 0) =~= Seq::empty());
        assert(item_views(top@) =~= Seq::empty());
    }
    while i < items.len()
        invariant
            i <= items.len(),
            all == item_views(items@),
            item_views(top@) == all.subrange(0, i as int).filter(is_top_level()),
        decreases items.len() - i,
    {
        proof {
            all.subrange(0, i as int).lemma_filter_push(all[i as int], is_top_level());
            assert(all.subrange(0, i as int).push(all[i as int]) =~= all.subrange(0, i + 1));
        }
        if items[i].parent_id.is_none() {
            proof {
                lemma_views_push(top@, items[i as int]);
            }
            let copy = items[i].clone();
            proof {
                lemma_views_push(top@, copy);
            }
            top.push(copy);
        }
        i += 1;
    }
    proof {
        assert(all.subrange(0, i as int) =~= all);
    }
    top
}

/// Copies of the items of `items` whose parent is `parent`, in their given
/// order.
pub fn children_in(items: &Vec<TodoItem>, parent: Option<i64>) -> (children: Vec<TodoItem>)
    ensures
        item_views(children@) == children_of(item_views(items@), parent),
{
    let ghost all = item_views(items@);
    let mut children: Vec<TodoItem> = Vec::new();
    let mut i: usize = 0;
    proof {
        reveal(Seq::filter);
        assert(all.subrange(0, 0) =~= Seq::empty());
        assert(item_views(children@) =~= Seq::empty());
    }
    while i < items.len()
        invariant
            i <= items.len(),
            all == item_views(items@),
            item_views(children@) == all.subrange(0, i as int).filter(is_child_of(parent)),
        decreases items.len() - i,
    {
        proof {
            all.subrange(0, i as int).lemma_filter_push(all[i as int], is_child_of(parent));
            assert(all.subrange(0, i as int).push(all[i as int]) =~= all.subrange(0, i + 1));
        }
        let matches_parent = match (items[i].parent_id, parent) {
            (Some(of_item), Some(wanted)) => of_item == wanted,
            _ => false,
        };
        if matches_parent {
            let copy = items[i].clone();
            proof {
                lemma_views_push(children@, copy);
            }
            children.push(copy);
        }
        i += 1;
    }
    proof {
        assert(all.subrange(0, i as int) =~= all);
    }
    children
}

/// Copies of `items` in ascending sort key; items of equal key keep their
/// order.
pub fn sort_items(items: &Vec<TodoItem>) -> (sorted: Vec<TodoItem>)
    ensures
        item_views(sorted@) == sorted_by_order(item_views(items@)),
{
    let ghost all = item_views(items@);
    let mut sorted: Vec<TodoItem> = Vec::new();
    let mut i: usize = 0;
    proof {
        assert(all.subrange(0, 0) =~= Seq::empty());
        assert(item_views(sorted@) =~= Seq::empty());
    }
    while i < items.len()
        invariant
            i <= items.len(),
            all == item_views(items@),
            item_views(sorted@) == sorted_by_order(all.subrange(0, i as int)),
        decreases items.len() - i,
    {
        let key: i32 = items[i].sort_order;
        let ghost before = item_views(sorted@);
        let mut pos: usize = sorted.len();
        proof {
            assert(before.subrange(0, pos as int) =~= before);
        }
        while pos > 0 && sorted[pos - 1].sort_order > key
            invariant
                pos <= sorted.len(),
                before == item_views(sorted@),
                insertion_point(before, key) == insertion_point(
                    before.subrange(0, pos as int),
                    key,
                ),
            decreases pos,
        {
            proof {
                assert(before.subrange(0, pos as int).drop_last() =~= before.subrange(
                    0,
                    pos - 1,
                ));
            }
            pos -= 1;
        }
        let copy = items[i].clone();
        proof {
            assert(insertion_point(before.subrange(0, pos as int), key) == pos);
            assert(all.subrange(0, i + 1).drop_last() =~= all.subrange(0, i as int));
            assert(item_views(sorted@.insert(pos as int, copy)) =~= before.insert(
                pos as int,
                copy@,
            ));
        }
        sorted.insert(pos, copy);
        i += 1;
    }
    proof {
        assert(all.subrange(0, i as int) =~= all);
    }
    sorted
}

/// Puts `items` into display order: top-level items by ascending sort key,
/// each followed at once by its children by ascending sort key. Children of
/// anything that is not a top-level item of `items` are dropped.
pub fn sort_todos_hierarchically(items: Vec<TodoItem>) -> (ordered: Vec<TodoItem>)
    ensures
        item_views(ordered@) == hierarchical_order(item_views(items@)),
{
    let ghost all = item_views(items@);
    let top_level = top_level_of(&items);
    let parents = sort_items(&top_level);
    let ghost heads = item_views(parents@);
    let mut ordered: Vec<TodoItem> = Vec::new();
    let mut k: usize = 0;
    proof {
        assert(heads.subrange(0, 0) =~= Seq::empty());
        assert(item_views(ordered@) =~= Seq::empty());
    }
    while k < parents.len()
        invariant
            k <= parents.len(),
            all == item_views(items@),
            heads == item_views(parents@),
            item_views(ordered@) == families(heads.subrange(0, k as int), all),
        decreases parents.len() - k,
    {
        let ghost done = item_views(ordered@);
        let head = parents[k].clone();
        let children = children_in(&items, head.id);
        let mut sorted_children = sort_items(&children);
        proof {
            lemma_views_push(ordered@, head);
            assert(heads.subrange(0, k + 1).drop_last() =~= heads.subrange(0, k as int));
            assert(item_views(ordered@.push(head) + sorted_children@) =~= done + family(
                heads[k as int],
                all,
            ));
        }
        ordered.push(head);
        ordered.append(&mut sorted_children);
        k += 1;
    }
    proof {
        assert(heads.subrange(0, k as int) =~= heads);
    }
    ordered
}

} // verus!

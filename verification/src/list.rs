//! A list of items with at most one of them selected, and the operations
//! that work on the selected position: navigation, reordering, removal.

use crate::models::{item_views, TodoItem, TodoItemView};
use chrono::NaiveDateTime;
use vstd::prelude::*;

verus! {

/// A flat sequence of items and the selected position, if any.
#[derive(Debug, PartialEq)]
pub struct TodoList {
    pub items: Vec<TodoItem>,
    pub selected: Option<usize>,
}

/// A `TodoList` as a mathematical value.
pub struct TodoListView {
    pub items: Seq<TodoItemView>,
    pub selected: Option<nat>,
}

impl View for TodoList {
    type V = TodoListView;

    open spec fn view(&self) -> TodoListView {
        TodoListView {
            items: item_views(self.items@),
            selected: match self.selected {
                Some(index) => Some(index as nat),
                None => None,
            },
        }
    }
}

/// A wanted selection brought within a list of `len` items: nothing can be
/// selected in an empty list, and a position beyond the end becomes the last.
pub open spec fn clamp_selection(wanted: Option<nat>, len: nat) -> Option<nat> {
    match wanted {
        Some(index) if len > 0 => if index < len {
            Some(index)
        } else {
            Some((len - 1) as nat)
        },
        _ => None,
    }
}

/// `items` with the items at `a` and `b` trading places while the two sort
/// keys stay where they were.
pub open spec fn swapped(items: Seq<TodoItemView>, a: int, b: int) -> Seq<TodoItemView> {
    items.update(a, items[b].with_sort_order(items[a].sort_order)).update(
        b,
        items[a].with_sort_order(items[b].sort_order),
    )
}

impl TodoListView {
    /// The selection, if there is one, points at an item.
    pub open spec fn wf(self) -> bool {
        self.selected matches Some(index) ==> index < self.items.len()
    }

    /// The selected position, provided it holds an item.
    pub open spec fn selected_index(self) -> Option<nat> {
        match self.selected {
            Some(index) if index < self.items.len() => Some(index),
            _ => None,
        }
    }

    /// The list with `wanted` selected, as far as the list reaches.
    pub open spec fn select(self, wanted: Option<nat>) -> TodoListView {
        TodoListView { selected: clamp_selection(wanted, self.items.len()), ..self }
    }

    /// Nothing selected.
    pub open spec fn select_none(self) -> TodoListView {
        self.select(None)
    }

    /// The first item selected.
    pub open spec fn select_first(self) -> TodoListView {
        self.select(Some(0))
    }

    /// The last item selected.
    pub open spec fn select_last(self) -> TodoListView {
        self.select(Some(self.items.len()))
    }

    /// The item after the selected one selected; the first, if none was.
    pub open spec fn select_next(self) -> TodoListView {
        self.select(
            Some(
                match self.selected {
                    Some(index) => index + 1,
                    None => 0,
                },
            ),
        )
    }

    /// The item before the selected one selected; the last, if none was.
    pub open spec fn select_previous(self) -> TodoListView {
        self.select(
            Some(
                match self.selected {
                    Some(index) => if index > 0 {
                        (index - 1) as nat
                    } else {
                        0
                    },
                    None => self.items.len(),
                },
            ),
        )
    }

    /// Whether the selected item has an item before it to trade places with.
    pub open spec fn can_move_up(self) -> bool {
        self.selected matches Some(index) && 0 < index < self.items.len()
    }

    /// Whether the selected item has an item behind it to trade places with.
    pub open spec fn can_move_down(self) -> bool {
        self.selected matches Some(index) && index + 1 < self.items.len()
    }

    /// The selected item one place up: it trades places with the item before
    /// it, the sort keys stay with the places, and the selection follows the
    /// item. Unchanged where there is nothing to trade with.
    pub open spec fn move_up(self) -> TodoListView {
        if self.can_move_up() {
            let index = self.selected->0 as int;
            TodoListView {
                items: swapped(self.items, index - 1, index),
                selected: Some((index - 1) as nat),
            }
        } else {
            self
        }
    }

    /// The selected item one place down, in the same way.
    pub open spec fn move_down(self) -> TodoListView {
        if self.can_move_down() {
            let index = self.selected->0 as int;
            TodoListView {
                items: swapped(self.items, index, index + 1),
                selected: Some((index + 1) as nat),
            }
        } else {
            self
        }
    }

    /// The list without its selected item. The selection keeps its position,
    /// moves to the new last item if that position is gone, and is dropped
    /// if the list is now empty. Unchanged where no item is selected.
    pub open spec fn remove_selected(self) -> TodoListView {
        match self.selected_index() {
            Some(index) => {
                let rest = self.items.remove(index as int);
                TodoListView {
                    items: rest,
                    selected: if rest.len() == 0 {
                        None
                    } else if index >= rest.len() {
                        Some((rest.len() - 1) as nat)
                    } else {
                        Some(index)
                    },
                }
            },
            None => self,
        }
    }

    /// The list with the item at `index` under the title `todo`.
    pub open spec fn with_title(self, index: int, todo: Seq<char>) -> TodoListView {
        TodoListView { items: self.items.update(index, self.items[index].with_todo(todo)), ..self }
    }

    /// The list with the completion of its selected item flipped at `now`.
    /// Unchanged where no item is selected.
    pub open spec fn toggle_selected(self, now: NaiveDateTime) -> TodoListView {
        match self.selected_index() {
            Some(index) => TodoListView {
                items: self.items.update(index as int, self.items[index as int].toggled(now)),
                ..self
            },
            None => self,
        }
    }

    /// The list with other items, the selection kept as far as they reach.
    pub open spec fn with_items(self, items: Seq<TodoItemView>) -> TodoListView {
        TodoListView { items, selected: clamp_selection(self.selected, items.len()) }
    }
}

impl TodoList {
    /// A list of `items` with nothing selected.
    pub fn new(items: Vec<TodoItem>) -> (list: TodoList)
        ensures
            list@ == (TodoListView { items: item_views(items@), selected: None }),
    {
        TodoList { items, selected: None }
    }

    /// The selected position, provided it holds an item.
    pub fn selected_index(&self) -> (index: Option<usize>)
        ensures
            match index {
                Some(at) => self@.selected_index() == Some(at as nat),
                None => self@.selected_index() is None,
            },
    {
        match self.selected {
            Some(index) => if index < self.items.len() {
                Some(index)
            } else {
                None
            },
            None => None,
        }
    }

    /// Selects `wanted`, or the last item if `wanted` lies beyond it, or
    /// nothing if the list is empty.
    pub fn select(&mut self, wanted: Option<usize>)
        ensures
            final(self)@ == old(self)@.select(
                match wanted {
                    Some(index) => Some(index as nat),
                    None => None,
                },
            ),
            final(self)@.wf(),
    {
        let len: usize = self.items.len();
        self.selected = match wanted {
            Some(index) => if len == 0 {
                None
            } else if index < len {
                Some(index)
            } else {
                Some(len - 1)
            },
            None => None,
        };
    }

    /// Drops the selection.
    pub fn select_none(&mut self)
        ensures
            final(self)@ == old(self)@.select_none(),
            final(self)@.wf(),
    {
        self.select(None);
    }

    /// Selects the first item.
    pub fn select_first(&mut self)
        ensures
            final(self)@ == old(self)@.select_first(),
            final(self)@.wf(),
    {
        self.select(Some(0));
    }

    /// Selects the last item.
    pub fn select_last(&mut self)
        ensures
            final(self)@ == old(self)@.select_last(),
            final(self)@.wf(),
    {
        let len: usize = self.items.len();
        self.select(Some(len));
    }

    /// Selects the item after the selected one, or the first if none is
    /// selected; on the last item the selection stays.
    pub fn select_next(&mut self)
        ensures
            final(self)@ == old(self)@.select_next(),
            final(self)@.wf(),
    {
        let len: usize = self.items.len();
        let wanted: usize = match self.selected {
            Some(index) => if index < len {
                index + 1
            } else {
                len
            },
            None => 0,
        };
        self.select(Some(wanted));
    }

    /// Selects the item before the selected one, or the last if none is
    /// selected; on the first item the selection stays.
    pub fn select_previous(&mut self)
        ensures
            final(self)@ == old(self)@.select_previous(),
            final(self)@.wf(),
    {
        let wanted: usize = match self.selected {
            Some(index) => if index > 0 {
                index - 1
            } else {
                0
            },
            None => self.items.len(),
        };
        self.select(Some(wanted));
    }

    /// Trades the places of the items at `index - 1` and `index` and leaves
    /// the sort keys with the places.
    fn swap_with_previous(&mut self, index: usize)
        requires
            0 < index < old(self).items.len(),
        ensures
            item_views(final(self).items@) == swapped(
                item_views(old(self).items@),
                index - 1,
                index as int,
            ),
            final(self).selected == old(self).selected,
    {
        let ghost before = item_views(self.items@);
        let upper_key: i32 = self.items[index - 1].sort_order;
        let lower_key: i32 = self.items[index].sort_order;
        self.items[index].sort_order = upper_key;
        self.items[index - 1].sort_order = lower_key;
        let lower = self.items.remove(index);
        self.items.insert(index - 1, lower);
        proof {
            assert(item_views(self.items@) =~= swapped(before, index - 1, index as int));
        }
    }

    /// Moves the selected item one place up: it trades places with the item
    /// before it, the two sort keys stay where they were, and the selection
    /// follows the item. Says whether anything moved; nothing does without
    /// a selection or with the first item selected.
    pub fn move_up(&mut self) -> (moved: bool)
        ensures
            final(self)@ == old(self)@.move_up(),
            moved == old(self)@.can_move_up(),
    {
        match self.selected {
            Some(index) => {
                if index > 0 && index < self.items.len() {
                    self.swap_with_previous(index);
                    self.selected = Some(index - 1);
                    true
                } else {
                    false
                }
            },
            None => false,
        }
    }

    /// Moves the selected item one place down, in the same way. Nothing
    /// moves without a selection or with the last item selected.
    pub fn move_down(&mut self) -> (moved: bool)
        ensures
            final(self)@ == old(self)@.move_down(),
            moved == old(self)@.can_move_down(),
    {
        match self.selected {
            Some(index) => {
                if index < self.items.len() && index + 1 < self.items.len() {
                    self.swap_with_previous(index + 1);
                    self.selected = Some(index + 1);
                    true
                } else {
                    false
                }
            },
            None => false,
        }
    }

    /// Takes the selected item out of the list and hands it back. The
    /// selection keeps its position, moves to the new last item if that
    /// position is gone, and is dropped if the list is now empty.
    pub fn remove_selected(&mut self) -> (removed: Option<TodoItem>)
        ensures
            final(self)@ == old(self)@.remove_selected(),
            match removed {
                Some(item) => old(self)@.selected_index() matches Some(index) && item@ == old(
                    self,
                )@.items[index as int],
                None => old(self)@.selected_index() is None,
            },
            old(self)@.wf() ==> final(self)@.wf(),
    {
        let ghost before = item_views(self.items@);
        match self.selected {
            Some(index) => {
                if index < self.items.len() {
                    let item = self.items.remove(index);
                    proof {
                        assert(item_views(self.items@) =~= before.remove(index as int));
                    }
                    if self.items.len() == 0 {
                        self.selected = None;
                    } else if index >= self.items.len() {
                        self.selected = Some(self.items.len() - 1);
                    }
                    Some(item)
                } else {
                    None
                }
            },
            None => None,
        }
    }

    /// The selected item, if there is one.
    pub fn selected_item(&self) -> (item: Option<&TodoItem>)
        ensures
            match item {
                Some(item) => self@.selected_index() matches Some(index) && item@
                    == self@.items[index as int],
                None => self@.selected_index() is None,
            },
    {
        match self.selected_index() {
            Some(index) => Some(&self.items[index]),
            None => None,
        }
    }

    /// Gives the item at `index` the title `todo`.
    pub fn set_title(&mut self, index: usize, todo: String)
        requires
            index < old(self).items.len(),
        ensures
            final(self)@ == old(self)@.with_title(index as int, todo@),
    {
        let ghost before = item_views(self.items@);
        self.items[index].todo = todo;
        proof {
            assert(item_views(self.items@) =~= before.update(
                index as int,
                before[index as int].with_todo(todo@),
            ));
        }
    }

    /// Flips the completion of the selected item, with `now` as the time of
    /// completion, and says whether there was an item to flip.
    pub fn toggle_selected_at(&mut self, now: NaiveDateTime) -> (toggled: bool)
        ensures
            final(self)@ == old(self)@.toggle_selected(now),
            toggled == old(self)@.selected_index() is Some,
    {
        let ghost before = item_views(self.items@);
        match self.selected_index() {
            Some(index) => {
                self.items[index].toggle_completion_at(now);
                proof {
                    assert(item_views(self.items@) =~= before.update(
                        index as int,
                        before[index as int].toggled(now),
                    ));
                }
                true
            },
            None => false,
        }
    }

    /// Replaces the items and keeps the selection as far as they reach.
    pub fn set_items(&mut self, items: Vec<TodoItem>)
        ensures
            final(self)@ == old(self)@.with_items(item_views(items@)),
            final(self)@.wf(),
    {
        let wanted = self.selected;
        self.items = items;
        self.select(wanted);
    }
}

/// Moving an item up and then down again restores the list: the sequence,
/// every sort key and the selection.
pub proof fn lemma_move_up_then_down(list: TodoListView)
    requires
        list.can_move_up(),
    ensures
        list.move_up().can_move_down(),
        list.move_up().move_down() == list,
{
    assert(list.move_up().move_down().items =~= list.items);
}

/// Moving an item down and then up again restores the list.
pub proof fn lemma_move_down_then_up(list: TodoListView)
    requires
        list.can_move_down(),
    ensures
        list.move_down().can_move_up(),
        list.move_down().move_up() == list,
{
    assert(list.move_down().move_up().items =~= list.items);
}

/// A move touches nothing but the two items that trade places, keeps the
/// sort key of every position, and keeps the selection on an item.
pub proof fn lemma_move_is_local(list: TodoListView)
    requires
        list.wf(),
    ensures
        list.move_up().wf(),
        list.move_down().wf(),
        list.move_up().items.len() == list.items.len(),
        list.move_down().items.len() == list.items.len(),
        forall|i: int|
            0 <= i < list.items.len() ==> (#[trigger] list.move_up().items[i]).sort_order
                == list.items[i].sort_order,
        forall|i: int|
            0 <= i < list.items.len() ==> (#[trigger] list.move_down().items[i]).sort_order
                == list.items[i].sort_order,
        forall|i: int|
            0 <= i < list.items.len() && list.selected != Some(i as nat) && list.selected != Some(
                (i + 1) as nat,
            ) ==> #[trigger] list.move_up().items[i] == list.items[i],
        forall|i: int|
            0 <= i < list.items.len() && list.selected != Some(i as nat) && (i > 0
                ==> list.selected != Some((i - 1) as nat)) ==> #[trigger] list.move_down().items[i]
                == list.items[i],
{
}

} // verus!

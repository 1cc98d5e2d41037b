//! The item model: what one entry of the list is, the row it is stored as,
//! and the small enums that say where the interaction currently stands.

use crate::clock::{date_read_at, local_now, parse_date_string_at};
use chrono::NaiveDateTime;
use vstd::prelude::*;

pub use crate::clock::parse_date_string;
pub use crate::list::TodoList;
pub use crate::ordering::sort_todos_hierarchically;

verus! {

/// Whether keys drive the list (`Normal`) or feed the edit buffer (`Insert`).
#[derive(Clone, Copy, Debug, PartialEq, Eq, Structural)]
pub enum InputMode {
    Normal,
    Insert,
}

impl InputMode {
    /// The other mode.
    pub open spec fn flipped(self) -> InputMode {
        match self {
            InputMode::Normal => InputMode::Insert,
            InputMode::Insert => InputMode::Normal,
        }
    }

    /// Switches between `Normal` and `Insert`.
    pub fn toggle(&mut self)
        ensures
            *final(self) == old(self).flipped(),
    {
        *self = match self {
            InputMode::Normal => InputMode::Insert,
            InputMode::Insert => InputMode::Normal,
        }
    }
}

/// Which of the two lists has the focus.
#[derive(Clone, Copy, Debug, PartialEq, Eq, Structural)]
pub enum WhichList {
    Uncompleted,
    Completed,
}

impl WhichList {
    /// The list that is not `self`.
    pub open spec fn other(self) -> WhichList {
        match self {
            WhichList::Uncompleted => WhichList::Completed,
            WhichList::Completed => WhichList::Uncompleted,
        }
    }
}

/// One task.
///
/// `completed_at` is the whole status: a timestamp means done, `None` means
/// pending. `parent_id` is `None` for a top-level item and otherwise names
/// the `id` of the item it hangs under. `id` stays `None` until storage has
/// assigned one.
#[derive(Debug, PartialEq)]
pub struct TodoItem {
    pub id: Option<i64>,
    pub todo: String,
    pub details: String,
    pub completed_at: Option<NaiveDateTime>,
    pub date: NaiveDateTime,
    pub parent_id: Option<i64>,
    pub sort_order: i32,
}

/// A `TodoItem` as a mathematical value: the two texts are sequences of
/// characters, everything else is as in the item.
pub struct TodoItemView {
    pub id: Option<i64>,
    pub todo: Seq<char>,
    pub details: Seq<char>,
    pub completed_at: Option<NaiveDateTime>,
    pub date: NaiveDateTime,
    pub parent_id: Option<i64>,
    pub sort_order: i32,
}

impl View for TodoItem {
    type V = TodoItemView;

    open spec fn view(&self) -> TodoItemView {
        TodoItemView {
            id: self.id,
            todo: self.todo@,
            details: self.details@,
            completed_at: self.completed_at,
            date: self.date,
            parent_id: self.parent_id,
            sort_order: self.sort_order,
        }
    }
}

impl TodoItemView {
    /// A new item: unsaved, pending, created at `now`, with sort key 0.
    pub open spec fn new(
        todo: Seq<char>,
        details: Seq<char>,
        parent_id: Option<i64>,
        now: NaiveDateTime,
    ) -> TodoItemView {
        TodoItemView {
            id: None,
            todo,
            details,
            completed_at: None,
            date: now,
            parent_id,
            sort_order: 0,
        }
    }

    /// An item whose completion timestamp is set.
    pub open spec fn is_completed(self) -> bool {
        self.completed_at is Some
    }

    /// The item with its completion flipped: done at `now` if it was pending,
    /// pending if it was done.
    pub open spec fn toggled(self, now: NaiveDateTime) -> TodoItemView {
        TodoItemView {
            completed_at: if self.completed_at is None {
                Some(now)
            } else {
                None
            },
            ..self
        }
    }

    /// The item under another sort key.
    pub open spec fn with_sort_order(self, sort_order: i32) -> TodoItemView {
        TodoItemView { sort_order, ..self }
    }

    /// The item under another title.
    pub open spec fn with_todo(self, todo: Seq<char>) -> TodoItemView {
        TodoItemView { todo, ..self }
    }
}

/// The views of a sequence of items, position by position.
pub open spec fn item_views(items: Seq<TodoItem>) -> Seq<TodoItemView> {
    items.map_values(|item: TodoItem| item@)
}

impl Clone for TodoItem {
    fn clone(&self) -> (copy: TodoItem)
        ensures
            copy@ == self@,
    {
        TodoItem {
            id: self.id,
            todo: self.todo.clone(),
            details: self.details.clone(),
            completed_at: self.completed_at,
            date: self.date,
            parent_id: self.parent_id,
            sort_order: self.sort_order,
        }
    }
}

impl TodoItem {
    /// Flips the completion of the item, with `now` as the time of completion.
    pub fn toggle_completion_at(&mut self, now: NaiveDateTime)
        ensures
            final(self)@ == old(self)@.toggled(now),
    {
        if self.completed_at.is_none() {
            self.completed_at = Some(now);
        } else {
            self.completed_at = None;
        }
    }

    /// Flips the completion of the item. A pending item becomes done as of the
    /// current local time; a done item becomes pending.
    pub fn toggle_completion(&mut self)
        ensures
            final(self)@.is_completed() == !old(self)@.is_completed(),
            exists|now: NaiveDateTime| final(self)@ == old(self)@.toggled(now),
    {
        let now = local_now();
        self.toggle_completion_at(now);
    }
}

/// A new, unsaved, pending item created at `now`: no id, sort key 0.
pub fn new_todo_item_at(
    todo: &str,
    details: &str,
    parent_id: Option<i64>,
    now: NaiveDateTime,
) -> (item: TodoItem)
    ensures
        item@ == TodoItemView::new(todo@, details@, parent_id, now),
{
    TodoItem {
        id: None,
        todo: todo.to_owned(),
        details: details.to_owned(),
        completed_at: None,
        date: now,
        parent_id,
        sort_order: 0,
    }
}

/// A new, unsaved, pending item created now: no id, sort key 0.
pub fn new_todo_item(todo: &str, details: &str, parent_id: Option<i64>) -> (item: TodoItem)
    ensures
        item@ == TodoItemView::new(todo@, details@, parent_id, item@.date),
{
    new_todo_item_at(todo, details, parent_id, local_now())
}

/// An item as storage hands it out: both timestamps are text, and an empty
/// `completed_at` means that the item is pending.
#[derive(Debug, PartialEq)]
pub struct TodoRow {
    pub id: i64,
    pub todo: String,
    pub details: String,
    pub completed_at: String,
    pub date: String,
    pub parent_id: Option<i64>,
    pub sort_order: i32,
}

/// A `TodoRow` as a mathematical value.
pub struct TodoRowView {
    pub id: i64,
    pub todo: Seq<char>,
    pub details: Seq<char>,
    pub completed_at: Seq<char>,
    pub date: Seq<char>,
    pub parent_id: Option<i64>,
    pub sort_order: i32,
}

impl View for TodoRow {
    type V = TodoRowView;

    open spec fn view(&self) -> TodoRowView {
        TodoRowView {
            id: self.id,
            todo: self.todo@,
            details: self.details@,
            completed_at: self.completed_at@,
            date: self.date@,
            parent_id: self.parent_id,
            sort_order: self.sort_order,
        }
    }
}

/// The views of a sequence of rows, position by position.
pub open spec fn row_views(rows: Seq<TodoRow>) -> Seq<TodoRowView> {
    rows.map_values(|row: TodoRow| row@)
}

impl TodoRowView {
    /// The row read into an item at the time `now`. The plain columns are
    /// taken over as they are and the row's id becomes the item's id. An
    /// empty `completed_at` means pending; any other text means completed,
    /// at the time it spells. A timestamp text that spells no time reads as
    /// `now`.
    pub open spec fn as_item(self, now: NaiveDateTime) -> TodoItemView {
        TodoItemView {
            id: Some(self.id),
            todo: self.todo,
            details: self.details,
            completed_at: if self.completed_at.len() == 0 {
                None
            } else {
                Some(date_read_at(self.completed_at, now))
            },
            date: date_read_at(self.date, now),
            parent_id: self.parent_id,
            sort_order: self.sort_order,
        }
    }
}

impl TodoRow {
    /// Reads the row into an item at the time `now`, which replaces
    /// malformed timestamps.
    pub fn to_item_at(&self, now: NaiveDateTime) -> (item: TodoItem)
        ensures
            item@ == self@.as_item(now),
    {
        let completed_at = if self.completed_at.as_str().is_empty() {
            None
        } else {
            Some(parse_date_string_at(self.completed_at.as_str(), now))
        };
        TodoItem {
            id: Some(self.id),
            todo: self.todo.clone(),
            details: self.details.clone(),
            completed_at,
            date: parse_date_string_at(self.date.as_str(), now),
            parent_id: self.parent_id,
            sort_order: self.sort_order,
        }
    }

    /// Reads the row into an item. Malformed timestamps are replaced by the
    /// current local time.
    pub fn to_item(&self) -> (item: TodoItem)
        ensures
            exists|now: NaiveDateTime| item@ == self@.as_item(now),
    {
        let now = local_now();
        let item = self.to_item_at(now);
        proof {
            assert(item@ == self@.as_item(now));
        }
        item
    }
}

/// Toggling is its own inverse as far as the status goes: after two
/// toggles an item is completed exactly if it was, a pending item is the
/// very item it was, and a completed item differs at most in the time of
/// completion.
pub proof fn lemma_toggle_twice(item: TodoItemView, first: NaiveDateTime, second: NaiveDateTime)
    ensures
        item.toggled(first).is_completed() == !item.is_completed(),
        item.toggled(first).toggled(second).is_completed() == item.is_completed(),
        item.completed_at is None ==> item.toggled(first).toggled(second) == item,
        item.completed_at is Some ==> item.toggled(first).toggled(second) == (TodoItemView {
            completed_at: Some(second),
            ..item
        }),
{
}

} // verus!

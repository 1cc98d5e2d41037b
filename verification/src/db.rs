//! The library's side of persistence: reading stored rows into items, and
//! describing what storage is to do. Nothing here touches storage; a
//! `DbRequest` is handed to whoever owns the connection.

use crate::clock::{format_datetime, formatted_datetime, local_now, DATE_FORMAT};
use crate::models::{item_views, row_views, TodoItem, TodoItemView, TodoRow, TodoRowView};
use crate::ordering::{hierarchical_order, sort_todos_hierarchically};
use chrono::NaiveDateTime;
use vstd::prelude::*;

verus! {

/// Something for storage to do. Requests are fire-and-forget, except that
/// after a `ToggleStatus` both lists are to be read again.
#[derive(Debug, PartialEq)]
pub enum DbRequest {
    /// Store a new item.
    Insert(TodoItem),
    /// Delete the item with this id.
    Delete(i64),
    /// Give the item with this id a new title.
    UpdateText(i64, String),
    /// Give each item named by an id its sort key.
    UpdateSortOrders(Vec<(i64, i32)>),
    /// Flip the completion of the item with this id, if there is an id, and
    /// read both lists again.
    ToggleStatus(Option<i64>),
}

/// A `DbRequest` as a mathematical value.
pub enum DbRequestView {
    Insert(TodoItemView),
    Delete(i64),
    UpdateText(i64, Seq<char>),
    UpdateSortOrders(Seq<(i64, i32)>),
    ToggleStatus(Option<i64>),
}

impl View for DbRequest {
    type V = DbRequestView;

    open spec fn view(&self) -> DbRequestView {
        match *self {
            DbRequest::Insert(item) => DbRequestView::Insert(item@),
            DbRequest::Delete(id) => DbRequestView::Delete(id),
            DbRequest::UpdateText(id, text) => DbRequestView::UpdateText(id, text@),
            DbRequest::UpdateSortOrders(updates) => DbRequestView::UpdateSortOrders(updates@),
            DbRequest::ToggleStatus(id) => DbRequestView::ToggleStatus(id),
        }
    }
}

/// The view of a request that may be absent.
pub open spec fn request_view(request: Option<DbRequest>) -> Option<DbRequestView> {
    match request {
        Some(request) => Some(request@),
        None => None,
    }
}

/// The rows read into items at the time `now`, row by row.
pub open spec fn rows_as_items(rows: Seq<TodoRowView>, now: NaiveDateTime) -> Seq<TodoItemView> {
    rows.map_values(|row: TodoRowView| row.as_item(now))
}

/// Every stored item in display order, as read at the time `now`.
pub open spec fn stored_todos(rows: Seq<TodoRowView>, now: NaiveDateTime) -> Seq<TodoItemView> {
    hierarchical_order(rows_as_items(rows, now))
}

/// The test "is completed" or, with `false`, "is pending".
pub open spec fn has_completion(completed: bool) -> spec_fn(TodoItemView) -> bool {
    |item: TodoItemView| item.is_completed() == completed
}

/// The test "has been stored", that is, has an id.
pub open spec fn is_stored() -> spec_fn(TodoItemView) -> bool {
    |item: TodoItemView| item.id is Some
}

/// The sort key of every stored item of `items`, by id, in the order of
/// `items`. Items that were never stored have no part in it.
pub open spec fn order_updates(items: Seq<TodoItemView>) -> Seq<(i64, i32)> {
    items.filter(is_stored()).map_values(|item: TodoItemView| (item.id->0, item.sort_order))
}

/// Reads each row into an item at the time `now`, which replaces malformed
/// timestamps.
pub fn items_from_rows_at(rows: &Vec<TodoRow>, now: NaiveDateTime) -> (items: Vec<TodoItem>)
    ensures
        item_views(items@) == rows_as_items(row_views(rows@), now),
{
    let mut items: Vec<TodoItem> = Vec::new();
    let mut i: usize = 0;
    while i < rows.len()
        invariant
            i <= rows.len(),
            items.len() == i,
            forall|k: int| 0 <= k < i ==> (#[trigger] items[k])@ == rows[k]@.as_item(now),
        decreases rows.len() - i,
    {
        let item = rows[i].to_item_at(now);
        items.push(item);
        i += 1;
    }
    proof {
        assert(item_views(items@) =~= rows_as_items(row_views(rows@), now));
    }
    items
}

/// Reads each row into an item. Malformed timestamps are replaced by the
/// current local time.
pub fn items_from_rows(rows: &Vec<TodoRow>) -> (items: Vec<TodoItem>)
    ensures
        exists|now: NaiveDateTime| item_views(items@) == rows_as_items(row_views(rows@), now),
{
    let now = local_now();
    let items = items_from_rows_at(rows, now);
    proof {
        assert(item_views(items@) == rows_as_items(row_views(rows@), now));
    }
    items
}

/// Copies of the items of `items` that are completed or, with `false`,
/// pending, in their given order.
pub fn with_completion(items: &Vec<TodoItem>, completed: bool) -> (kept: Vec<TodoItem>)
    ensures
        item_views(kept@) == item_views(items@).filter(has_completion(completed)),
{
    let ghost all = item_views(items@);
    let mut kept: Vec<TodoItem> = Vec::new();
    let mut i: usize = 0;
    proof {
        reveal(Seq::filter);
        assert(all.subrange(0, 0) =~= Seq::empty());
        assert(item_views(kept@) =~= Seq::empty());
    }
    while i < items.len()
        invariant
            i <= items.len(),
            all == item_views(items@),
            item_views(kept@) == all.subrange(0, i as int).filter(has_completion(completed)),
        decreases items.len() - i,
    {
        proof {
            all.subrange(0, i as int).lemma_filter_push(all[i as int], has_completion(completed));
            assert(all.subrange(0, i as int).push(all[i as int]) =~= all.subrange(0, i + 1));
        }
        if items[i].completed_at.is_some() == completed {
            let copy = items[i].clone();
            proof {
                assert(item_views(kept@.push(copy)) =~= item_views(kept@).push(copy@));
            }
            kept.push(copy);
        }
        i += 1;
    }
    proof {
        assert(all.subrange(0, i as int) =~= all);
    }
    kept
}

/// Every stored item in display order: the rows read into items at the
/// time `now` and put into hierarchical order.
pub fn all_todos_at(rows: Vec<TodoRow>, now: NaiveDateTime) -> (todos: Vec<TodoItem>)
    ensures
        item_views(todos@) == stored_todos(row_views(rows@), now),
{
    sort_todos_hierarchically(items_from_rows_at(&rows, now))
}

/// The pending items among all stored items in display order, as read at
/// the time `now`.
pub fn uncompleted_todos_at(rows: Vec<TodoRow>, now: NaiveDateTime) -> (todos: Vec<TodoItem>)
    ensures
        item_views(todos@) == stored_todos(row_views(rows@), now).filter(has_completion(false)),
{
    let all = all_todos_at(rows, now);
    with_completion(&all, false)
}

/// The completed items among all stored items in display order, as read
/// at the time `now`.
pub fn completed_todos_at(rows: Vec<TodoRow>, now: NaiveDateTime) -> (todos: Vec<TodoItem>)
    ensures
        item_views(todos@) == stored_todos(row_views(rows@), now).filter(has_completion(true)),
{
    let all = all_todos_at(rows, now);
    with_completion(&all, true)
}

/// Every stored item in display order. Malformed timestamps are replaced
/// by the current local time.
pub fn all_todos(rows: Vec<TodoRow>) -> (todos: Vec<TodoItem>)
    ensures
        exists|now: NaiveDateTime| item_views(todos@) == stored_todos(row_views(rows@), now),
{
    let now = local_now();
    let todos = all_todos_at(rows, now);
    proof {
        assert(item_views(todos@) == stored_todos(row_views(rows@), now));
    }
    todos
}

/// The pending items among all stored items in display order.
pub fn uncompleted_todos(rows: Vec<TodoRow>) -> (todos: Vec<TodoItem>)
    ensures
        exists|now: NaiveDateTime|
            item_views(todos@) == stored_todos(row_views(rows@), now).filter(
                has_completion(false),
            ),
{
    let now = local_now();
    let todos = uncompleted_todos_at(rows, now);
    proof {
        assert(item_views(todos@) == stored_todos(row_views(rows@), now).filter(
            has_completion(false),
        ));
    }
    todos
}

/// The completed items among all stored items in display order.
pub fn completed_todos(rows: Vec<TodoRow>) -> (todos: Vec<TodoItem>)
    ensures
        exists|now: NaiveDateTime|
            item_views(todos@) == stored_todos(row_views(rows@), now).filter(
                has_completion(true),
            ),
{
    let now = local_now();
    let todos = completed_todos_at(rows, now);
    proof {
        assert(item_views(todos@) == stored_todos(row_views(rows@), now).filter(
            has_completion(true),
        ));
    }
    todos
}

/// What a reorder asks storage to write: the sort key of every stored item
/// of the list. Items without an id are skipped.
pub fn sort_order_updates(items: &Vec<TodoItem>) -> (updates: Vec<(i64, i32)>)
    ensures
        updates@ == order_updates(item_views(items@)),
{
    let ghost all = item_views(items@);
    let ghost pair = |item: TodoItemView| (item.id->0, item.sort_order);
    let mut updates: Vec<(i64, i32)> = Vec::new();
    let mut i: usize = 0;
    proof {
        reveal(Seq::filter);
        assert(all.subrange(0, 0) =~= Seq::empty());
        assert(updates@ =~= order_updates(all.subrange(0, 0)));
    }
    while i < items.len()
        invariant
            i <= items.len(),
            all == item_views(items@),
            pair == |item: TodoItemView| (item.id->0, item.sort_order),
            updates@ == all.subrange(0, i as int).filter(is_stored()).map_values(pair),
        decreases items.len() - i,
    {
        let ghost done = all.subrange(0, i as int).filter(is_stored());
        proof {
            all.subrange(0, i as int).lemma_filter_push(all[i as int], is_stored());
            assert(all.subrange(0, i as int).push(all[i as int]) =~= all.subrange(0, i + 1));
        }
        match items[i].id {
            Some(id) => {
                proof {
                    assert(done.push(all[i as int]).map_values(pair) =~= done.map_values(
                        pair,
                    ).push((id, items[i as int].sort_order)));
                }
                updates.push((id, items[i].sort_order));
            },
            None => {},
        }
        i += 1;
    }
    proof {
        assert(all.subrange(0, i as int) =~= all);
    }
    updates
}

/// The column values under which a new item is stored.
#[derive(Debug, PartialEq)]
pub struct InsertValues {
    pub todo: String,
    pub details: String,
    pub date: String,
    pub completed_at: Option<String>,
    pub parent_id: Option<i64>,
    pub sort_order: i32,
}

/// The column values for `todo`: the texts and numbers as they are, the
/// timestamps in their stored textual form.
pub fn insert_values(todo: &TodoItem) -> (values: InsertValues)
    ensures
        values.todo@ == todo@.todo,
        values.details@ == todo@.details,
        values.date@ == formatted_datetime(todo@.date, DATE_FORMAT@),
        match todo@.completed_at {
            Some(stamp) => values.completed_at matches Some(text) && text@ == formatted_datetime(
                stamp,
                DATE_FORMAT@,
            ),
            None => values.completed_at is None,
        },
        values.parent_id == todo@.parent_id,
        values.sort_order == todo@.sort_order,
{
    let completed_at = match &todo.completed_at {
        Some(stamp) => Some(format_datetime(stamp, DATE_FORMAT)),
        None => None,
    };
    InsertValues {
        todo: todo.todo.clone(),
        details: todo.details.clone(),
        date: format_datetime(&todo.date, DATE_FORMAT),
        completed_at,
        parent_id: todo.parent_id,
        sort_order: todo.sort_order,
    }
}

} // verus!

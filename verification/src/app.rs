//! The application state and its transitions.
//!
//! `App` is the whole in-memory state: the two lists, the focus, the input
//! mode and the edit buffer. Every operation is a function from the state
//! (and, where completion or creation is involved, the current time) to the
//! next state and, at most, one request to storage. `AppView` states each of
//! them as a function on mathematical values, under the operation's name.

use crate::clock::local_now;
use crate::cursor::{EditBuffer, EditBufferView};
use crate::db::{order_updates, request_view, sort_order_updates, DbRequest, DbRequestView};
use crate::keys::{command_for, key_command, Command, Key};
use crate::list::{TodoList, TodoListView};
use crate::models::{item_views, new_todo_item_at, InputMode, TodoItem, TodoItemView, WhichList};
use crate::ordering::{hierarchical_order, sort_todos_hierarchically};
use chrono::NaiveDateTime;
use vstd::prelude::*;
use vstd::string::StringExecFns;

verus! {

/// The state of the interaction.
///
/// `editing_index` is the position, in the list of pending items, of the
/// item whose title is in the edit buffer; `None` while a new item is being
/// composed. `creating_child_todo` says whether a new item becomes a child
/// of the selected one.
#[derive(Debug)]
pub struct App {
    pub should_exit: bool,
    pub uncompleted_todo_list: TodoList,
    pub completed_todo_list: TodoList,
    pub creating_child_todo: bool,
    pub editing_index: Option<usize>,
    pub input_mode: InputMode,
    pub focused_list: WhichList,
    pub textarea: EditBuffer,
    pub textarea_title: String,
}

/// An `App` as a mathematical value.
pub struct AppView {
    pub should_exit: bool,
    pub uncompleted: TodoListView,
    pub completed: TodoListView,
    pub creating_child_todo: bool,
    pub editing_index: Option<nat>,
    pub input_mode: InputMode,
    pub focused_list: WhichList,
    pub textarea: EditBufferView,
    pub textarea_title: Seq<char>,
}

impl View for App {
    type V = AppView;

    open spec fn view(&self) -> AppView {
        AppView {
            should_exit: self.should_exit,
            uncompleted: self.uncompleted_todo_list@,
            completed: self.completed_todo_list@,
            creating_child_todo: self.creating_child_todo,
            editing_index: match self.editing_index {
                Some(index) => Some(index as nat),
                None => None,
            },
            input_mode: self.input_mode,
            focused_list: self.focused_list,
            textarea: self.textarea@,
            textarea_title: self.textarea_title@,
        }
    }
}

/// The greatest sort key among `items`, and 0 where there are none.
pub open spec fn highest_sort_order(items: Seq<TodoItemView>) -> int
    decreases items.len(),
{
    if items.len() == 0 {
        0
    } else if items.len() == 1 {
        items[0].sort_order as int
    } else {
        let before = highest_sort_order(items.drop_last());
        if items.last().sort_order > before {
            items.last().sort_order as int
        } else {
            before
        }
    }
}

/// The distance that a new item keeps from the greatest sort key.
pub const SORT_ORDER_STEP: i32 = 10;

/// The item that is shown while there is nothing to do, created at `now`.
pub open spec fn placeholder_item(now: NaiveDateTime) -> TodoItemView {
    TodoItemView::new("Make a todo item"@, "One's life always has something to do"@, None, now)
}

impl AppView {
    /// Both selections point at items, and the cursor lies within the text.
    pub open spec fn wf(self) -> bool {
        &&& self.uncompleted.wf()
        &&& self.completed.wf()
        &&& self.textarea.wf()
    }

    /// The state at start over the stored items: normal mode, the pending
    /// list focused, nothing selected. Where nothing is pending, the
    /// placeholder stands in the pending list.
    pub open spec fn with_items(
        pending: Seq<TodoItemView>,
        completed: Seq<TodoItemView>,
        now: NaiveDateTime,
    ) -> AppView {
        AppView {
            should_exit: false,
            uncompleted: TodoListView {
                items: if pending.len() == 0 {
                    seq![placeholder_item(now)]
                } else {
                    pending
                },
                selected: None,
            },
            completed: TodoListView { items: completed, selected: None },
            creating_child_todo: false,
            editing_index: None,
            input_mode: InputMode::Normal,
            focused_list: WhichList::Uncompleted,
            textarea: EditBufferView::empty(),
            textarea_title: Seq::empty(),
        }
    }

    /// The list named by `which`.
    pub open spec fn list(self, which: WhichList) -> TodoListView {
        match which {
            WhichList::Uncompleted => self.uncompleted,
            WhichList::Completed => self.completed,
        }
    }

    /// The state with `list` in the place named by `which`.
    pub open spec fn with_list(self, which: WhichList, list: TodoListView) -> AppView {
        match which {
            WhichList::Uncompleted => AppView { uncompleted: list, ..self },
            WhichList::Completed => AppView { completed: list, ..self },
        }
    }

    /// The focused list with nothing selected.
    pub open spec fn select_none(self) -> AppView {
        self.with_list(self.focused_list, self.list(self.focused_list).select_none())
    }

    /// The focused list with its next item selected.
    pub open spec fn select_next(self) -> AppView {
        self.with_list(self.focused_list, self.list(self.focused_list).select_next())
    }

    /// The focused list with its previous item selected.
    pub open spec fn select_previous(self) -> AppView {
        self.with_list(self.focused_list, self.list(self.focused_list).select_previous())
    }

    /// The focused list with its first item selected.
    pub open spec fn select_first(self) -> AppView {
        self.with_list(self.focused_list, self.list(self.focused_list).select_first())
    }

    /// The focused list with its last item selected.
    pub open spec fn select_last(self) -> AppView {
        self.with_list(self.focused_list, self.list(self.focused_list).select_last())
    }

    /// The focus on the other list.
    pub open spec fn toggle_focused_list(self) -> AppView {
        AppView { focused_list: self.focused_list.other(), ..self }
    }

    /// The focus on the other list, nothing selected in the list that lost
    /// it and the first item selected in the list that got it.
    pub open spec fn switch_focus(self) -> AppView {
        let turned = self.toggle_focused_list();
        let left = turned.with_list(
            self.focused_list,
            turned.list(self.focused_list).select_none(),
        );
        left.with_list(turned.focused_list, left.list(turned.focused_list).select_first())
    }

    /// The selected pending item one place up.
    pub open spec fn move_todo_up(self) -> AppView {
        AppView { uncompleted: self.uncompleted.move_up(), ..self }
    }

    /// The selected pending item one place down.
    pub open spec fn move_todo_down(self) -> AppView {
        AppView { uncompleted: self.uncompleted.move_down(), ..self }
    }

    /// What a move up asks of storage: to write the sort keys of all stored
    /// pending items as they are after the move, if anything moved.
    pub open spec fn move_up_request(self) -> Option<DbRequestView> {
        if self.uncompleted.can_move_up() {
            Some(DbRequestView::UpdateSortOrders(order_updates(self.uncompleted.move_up().items)))
        } else {
            None
        }
    }

    /// What a move down asks of storage, in the same way.
    pub open spec fn move_down_request(self) -> Option<DbRequestView> {
        if self.uncompleted.can_move_down() {
            Some(
                DbRequestView::UpdateSortOrders(order_updates(self.uncompleted.move_down().items)),
            )
        } else {
            None
        }
    }

    /// The edit buffer emptied and without a title.
    pub open spec fn with_fresh_textarea(self) -> AppView {
        AppView { textarea: EditBufferView::empty(), textarea_title: Seq::empty(), ..self }
    }

    /// The title of the edit buffer replaced.
    pub open spec fn set_textarea_block(self, title: Seq<char>) -> AppView {
        AppView { textarea_title: title, ..self }
    }

    /// Ready to compose a new top-level item.
    pub open spec fn enter_insert_mode(self) -> AppView {
        AppView {
            creating_child_todo: false,
            textarea: EditBufferView::empty(),
            textarea_title: "New todo"@,
            input_mode: self.input_mode.flipped(),
            ..self
        }
    }

    /// Ready to compose a new child of the selected item.
    pub open spec fn enter_child_mode(self) -> AppView {
        AppView {
            creating_child_todo: true,
            textarea: EditBufferView::empty(),
            textarea_title: "New Child Todo"@,
            input_mode: self.input_mode.flipped(),
            ..self
        }
    }

    /// Ready to edit the title of the selected pending item: the buffer
    /// holds the title, with the cursor at its end. Unchanged where no
    /// pending item is selected.
    pub open spec fn enter_edit_mode(self) -> AppView {
        match self.uncompleted.selected_index() {
            Some(index) => AppView {
                textarea: EditBufferView::at_end_of(self.uncompleted.items[index as int].todo),
                textarea_title: "Edit Todo"@,
                editing_index: Some(index),
                input_mode: self.input_mode.flipped(),
                ..self
            },
            None => self,
        }
    }

    /// Composing or editing given up: the buffer is discarded.
    pub open spec fn cancel_input(self) -> AppView {
        AppView {
            editing_index: None,
            input_mode: self.input_mode.flipped(),
            ..self.with_fresh_textarea()
        }
    }

    /// The position under edit, provided it holds a pending item.
    pub open spec fn edited_index(self) -> Option<nat> {
        match self.editing_index {
            Some(index) if index < self.uncompleted.items.len() => Some(index),
            _ => None,
        }
    }

    /// The edit committed: the item under edit has the buffer's text as its
    /// title, and the buffer is discarded. Unchanged where no item is under
    /// edit.
    pub open spec fn save_edited_todo(self) -> AppView {
        match self.edited_index() {
            Some(index) => AppView {
                uncompleted: self.uncompleted.with_title(index as int, self.textarea.text),
                editing_index: None,
                input_mode: self.input_mode.flipped(),
                ..self.with_fresh_textarea()
            },
            None => self,
        }
    }

    /// What a committed edit asks of storage: the new title under the id of
    /// the item, if it has one.
    pub open spec fn save_request(self) -> Option<DbRequestView> {
        match self.edited_index() {
            Some(index) => match self.uncompleted.items[index as int].id {
                Some(id) => Some(DbRequestView::UpdateText(id, self.textarea.text)),
                None => None,
            },
            None => None,
        }
    }

    /// The parent that a new item gets: the id of the selected pending item
    /// when a child is being composed, none otherwise.
    pub open spec fn new_parent_id(self) -> Option<i64> {
        if self.creating_child_todo {
            match self.uncompleted.selected_index() {
                Some(index) => self.uncompleted.items[index as int].id,
                None => None,
            }
        } else {
            None
        }
    }

    /// Whether a new item's sort key is still a number of the key's type.
    pub open spec fn can_add(self) -> bool {
        highest_sort_order(self.uncompleted.items) + SORT_ORDER_STEP <= i32::MAX
    }

    /// The item that the buffer's text makes at `now`: unsaved, pending,
    /// behind all pending items by its sort key.
    pub open spec fn new_item(self, now: NaiveDateTime) -> TodoItemView {
        TodoItemView::new(
            self.textarea.text,
            "New Status"@,
            self.new_parent_id(),
            now,
        ).with_sort_order((highest_sort_order(self.uncompleted.items) + SORT_ORDER_STEP) as i32)
    }

    /// The new item committed: it joins the pending items, which are put
    /// into display order again, and the buffer is discarded.
    pub open spec fn add_input_todo(self, now: NaiveDateTime) -> AppView {
        AppView {
            uncompleted: self.uncompleted.with_items(
                hierarchical_order(self.uncompleted.items.push(self.new_item(now))),
            ),
            input_mode: self.input_mode.flipped(),
            ..self.with_fresh_textarea()
        }
    }

    /// The selected pending item deleted.
    pub open spec fn delete_selected_todo(self) -> AppView {
        AppView { uncompleted: self.uncompleted.remove_selected(), ..self }
    }

    /// What a deletion asks of storage: to delete by the id of the item, if
    /// there was a selected item and it has one.
    pub open spec fn delete_request(self) -> Option<DbRequestView> {
        match self.uncompleted.selected_index() {
            Some(index) => match self.uncompleted.items[index as int].id {
                Some(id) => Some(DbRequestView::Delete(id)),
                None => None,
            },
            None => None,
        }
    }

    /// The completion of the selected item of the list `which` flipped at
    /// `now`. Unchanged where that list has no selected item.
    pub open spec fn toggle_status(self, which: WhichList, now: NaiveDateTime) -> AppView {
        self.with_list(which, self.list(which).toggle_selected(now))
    }

    /// What a toggle asks of storage: to flip the item by its id and to hand
    /// both lists out again, if there was a selected item.
    pub open spec fn toggle_request(self, which: WhichList) -> Option<DbRequestView> {
        match self.list(which).selected_index() {
            Some(index) => Some(
                DbRequestView::ToggleStatus(self.list(which).items[index as int].id),
            ),
            None => None,
        }
    }

    /// Both lists replaced by what storage holds, the selections kept as far
    /// as the lists reach.
    pub open spec fn refresh_from_database(
        self,
        pending: Seq<TodoItemView>,
        completed: Seq<TodoItemView>,
    ) -> AppView {
        AppView {
            uncompleted: self.uncompleted.with_items(pending),
            completed: self.completed.with_items(completed),
            ..self
        }
    }

    /// A key fed to the edit buffer: a character is inserted at the cursor,
    /// backspace deletes before it, the arrows move it; no other key does
    /// anything.
    pub open spec fn edit(self, key: Key) -> AppView {
        match key {
            Key::Char(c) => AppView { textarea: self.textarea.inserted(c), ..self },
            Key::Backspace => AppView { textarea: self.textarea.deleted_before(), ..self },
            Key::Left => AppView { textarea: self.textarea.moved_left(), ..self },
            Key::Right => AppView { textarea: self.textarea.moved_right(), ..self },
            _ => self,
        }
    }

    /// The state after `command`, carried out at `now`.
    pub open spec fn apply(self, command: Command, now: NaiveDateTime) -> AppView {
        match command {
            Command::EnterInsertMode => self.enter_insert_mode(),
            Command::EnterChildMode => self.enter_child_mode(),
            Command::EnterEditMode => self.enter_edit_mode(),
            Command::Quit => AppView { should_exit: true, ..self },
            Command::DeleteSelected => self.delete_selected_todo(),
            Command::SelectNone => self.select_none(),
            Command::SelectNext => self.select_next(),
            Command::SelectPrevious => self.select_previous(),
            Command::SelectFirst => self.select_first(),
            Command::SelectLast => self.select_last(),
            Command::MoveDown => self.move_todo_down(),
            Command::MoveUp => self.move_todo_up(),
            Command::SwitchFocus => self.switch_focus(),
            Command::ToggleStatus => self.toggle_status(self.focused_list, now),
            Command::Cancel => self.cancel_input(),
            Command::Commit => if self.editing_index is Some {
                self.save_edited_todo()
            } else {
                self.add_input_todo(now)
            },
            Command::Edit(key) => self.edit(key),
            Command::Nothing => self,
        }
    }

    /// What `command`, carried out at `now`, asks of storage.
    pub open spec fn request(self, command: Command, now: NaiveDateTime) -> Option<
        DbRequestView,
    > {
        match command {
            Command::DeleteSelected => self.delete_request(),
            Command::MoveDown => self.move_down_request(),
            Command::MoveUp => self.move_up_request(),
            Command::ToggleStatus => self.toggle_request(self.focused_list),
            Command::Commit => if self.editing_index is Some {
                self.save_request()
            } else {
                Some(DbRequestView::Insert(self.new_item(now)))
            },
            _ => None,
        }
    }

    /// Whether `command` can be carried out: a new item must still get a
    /// sort key.
    pub open spec fn admits(self, command: Command) -> bool {
        command == Command::Commit && self.editing_index is None ==> self.can_add()
    }
}

/// The greatest sort key among `items`, and 0 where there are none.
pub fn highest_sort_order_of(items: &Vec<TodoItem>) -> (highest: i32)
    ensures
        highest == highest_sort_order(item_views(items@)),
{
    let ghost all = item_views(items@);
    if items.len() == 0 {
        return 0;
    }
    let mut highest: i32 = items[0].sort_order;
    let mut i: usize = 1;
    proof {
        assert(all.subrange(0, 1).len() == 1);
    }
    while i < items.len()
        invariant
            1 <= i <= items.len(),
            all == item_views(items@),
            highest == highest_sort_order(all.subrange(0, i as int)),
        decreases items.len() - i,
    {
        proof {
            assert(all.subrange(0, i + 1).drop_last() =~= all.subrange(0, i as int));
        }
        if items[i].sort_order > highest {
            highest = items[i].sort_order;
        }
        i += 1;
    }
    proof {
        assert(all.subrange(0, i as int) =~= all);
    }
    highest
}

impl App {
    /// The state at start over the stored items, with `now` as the time of
    /// creation of the placeholder that stands in an empty pending list.
    pub fn with_items_at(
        todo_items: Vec<TodoItem>,
        completed_items: Vec<TodoItem>,
        now: NaiveDateTime,
    ) -> (app: App)
        ensures
            app@ == AppView::with_items(item_views(todo_items@), item_views(completed_items@), now),
    {
        let pending = if todo_items.len() == 0 {
            let mut only: Vec<TodoItem> = Vec::new();
            only.push(
                new_todo_item_at(
                    "Make a todo item",
                    "One's life always has something to do",
                    None,
                    now,
                ),
            );
            proof {
                assert(item_views(only@) =~= seq![placeholder_item(now)]);
            }
            only
        } else {
            todo_items
        };
        App {
            should_exit: false,
            uncompleted_todo_list: TodoList::new(pending),
            completed_todo_list: TodoList::new(completed_items),
            creating_child_todo: false,
            editing_index: None,
            input_mode: InputMode::Normal,
            focused_list: WhichList::Uncompleted,
            textarea: EditBuffer::new(),
            textarea_title: String::new(),
        }
    }

    /// The state at start over the stored items. Where nothing is pending,
    /// a placeholder created now stands in the pending list.
    pub fn with_items(todo_items: Vec<TodoItem>, completed_items: Vec<TodoItem>) -> (app: App)
        ensures
            exists|now: NaiveDateTime|
                app@ == AppView::with_items(
                    item_views(todo_items@),
                    item_views(completed_items@),
                    now,
                ),
    {
        let now = local_now();
        App::with_items_at(todo_items, completed_items, now)
    }

    /// Drops the selection of the focused list.
    pub fn select_none(&mut self)
        ensures
            final(self)@ == old(self)@.select_none(),
    {
        match self.focused_list {
            WhichList::Uncompleted => self.uncompleted_todo_list.select_none(),
            WhichList::Completed => self.completed_todo_list.select_none(),
        }
    }

    /// Selects the next item of the focused list.
    pub fn select_next(&mut self)
        ensures
            final(self)@ == old(self)@.select_next(),
    {
        match self.focused_list {
            WhichList::Uncompleted => self.uncompleted_todo_list.select_next(),
            WhichList::Completed => self.completed_todo_list.select_next(),
        }
    }

    /// Selects the previous item of the focused list.
    pub fn select_previous(&mut self)
        ensures
            final(self)@ == old(self)@.select_previous(),
    {
        match self.focused_list {
            WhichList::Uncompleted => self.uncompleted_todo_list.select_previous(),
            WhichList::Completed => self.completed_todo_list.select_previous(),
        }
    }

    /// Selects the first item of the focused list.
    pub fn select_first(&mut self)
        ensures
            final(self)@ == old(self)@.select_first(),
    {
        match self.focused_list {
            WhichList::Uncompleted => self.uncompleted_todo_list.select_first(),
            WhichList::Completed => self.completed_todo_list.select_first(),
        }
    }

    /// Selects the last item of the focused list.
    pub fn select_last(&mut self)
        ensures
            final(self)@ == old(self)@.select_last(),
    {
        match self.focused_list {
            WhichList::Uncompleted => self.uncompleted_todo_list.select_last(),
            WhichList::Completed => self.completed_todo_list.select_last(),
        }
    }

    /// Moves the focus to the other list.
    pub fn toggle_focused_list(&mut self)
        ensures
            final(self)@ == old(self)@.toggle_focused_list(),
    {
        self.focused_list = match self.focused_list {
            WhichList::Uncompleted => WhichList::Completed,
            WhichList::Completed => WhichList::Uncompleted,
        }
    }

    /// Moves the focus to the other list, drops the selection of the list
    /// that lost it and selects the first item of the list that got it.
    pub fn switch_focus(&mut self)
        ensures
            final(self)@ == old(self)@.switch_focus(),
    {
        self.toggle_focused_list();
        match self.focused_list {
            WhichList::Uncompleted => {
                self.completed_todo_list.select_none();
                self.uncompleted_todo_list.select_first();
            },
            WhichList::Completed => {
                self.uncompleted_todo_list.select_none();
                self.completed_todo_list.select_first();
            },
        }
    }

    /// Moves the selected pending item one place up and asks storage to
    /// write the sort keys again. Nothing happens, and nothing is asked,
    /// without a selection or with the first item selected.
    pub fn move_todo_up(&mut self) -> (request: Option<DbRequest>)
        ensures
            final(self)@ == old(self)@.move_todo_up(),
            request_view(request) == old(self)@.move_up_request(),
    {
        if self.uncompleted_todo_list.move_up() {
            Some(DbRequest::UpdateSortOrders(sort_order_updates(&self.uncompleted_todo_list.items)))
        } else {
            None
        }
    }

    /// Moves the selected pending item one place down and asks storage to
    /// write the sort keys again. Nothing happens, and nothing is asked,
    /// without a selection or with the last item selected.
    pub fn move_todo_down(&mut self) -> (request: Option<DbRequest>)
        ensures
            final(self)@ == old(self)@.move_todo_down(),
            request_view(request) == old(self)@.move_down_request(),
    {
        if self.uncompleted_todo_list.move_down() {
            Some(DbRequest::UpdateSortOrders(sort_order_updates(&self.uncompleted_todo_list.items)))
        } else {
            None
        }
    }

    /// Gives the edit buffer the title `block_title`.
    pub fn set_textarea_block(&mut self, block_title: String)
        ensures
            final(self)@ == old(self)@.set_textarea_block(block_title@),
    {
        self.textarea_title = block_title;
    }

    /// Starts composing a new top-level item.
    pub fn enter_insert_mode(&mut self)
        ensures
            final(self)@ == old(self)@.enter_insert_mode(),
    {
        self.creating_child_todo = false;
        self.textarea = EditBuffer::new();
        self.set_textarea_block(String::from_str("New todo"));
        self.input_mode.toggle();
    }

    /// Starts composing a new child of the selected item.
    pub fn enter_child_mode(&mut self)
        ensures
            final(self)@ == old(self)@.enter_child_mode(),
    {
        self.creating_child_todo = true;
        self.textarea = EditBuffer::new();
        self.set_textarea_block(String::from_str("New Child Todo"));
        self.input_mode.toggle();
    }

    /// Starts editing the title of the selected pending item: the buffer
    /// takes the title, with the cursor at its end. Without a selected
    /// pending item nothing happens.
    pub fn enter_edit_mode(&mut self)
        ensures
            final(self)@ == old(self)@.enter_edit_mode(),
    {
        match self.uncompleted_todo_list.selected_index() {
            Some(index) => {
                self.textarea = EditBuffer::from_text(
                    self.uncompleted_todo_list.items[index].todo.as_str(),
                );
                self.set_textarea_block(String::from_str("Edit Todo"));
                self.editing_index = Some(index);
                self.input_mode.toggle();
            },
            None => {},
        }
    }

    /// Gives up composing or editing and discards the buffer.
    pub fn cancel_input(&mut self)
        ensures
            final(self)@ == old(self)@.cancel_input(),
    {
        self.editing_index = None;
        self.input_mode.toggle();
        self.textarea = EditBuffer::new();
        self.textarea_title = String::new();
    }

    /// Commits an edit: the item under edit takes the buffer's text as its
    /// title, storage is asked to update the title if the item has an id,
    /// and the buffer is discarded. Where no pending item is under edit,
    /// nothing happens.
    pub fn save_edited_todo(&mut self) -> (request: Option<DbRequest>)
        ensures
            final(self)@ == old(self)@.save_edited_todo(),
            request_view(request) == old(self)@.save_request(),
    {
        let index: usize = match self.editing_index {
            Some(index) => index,
            None => {
                return None;
            },
        };
        if index >= self.uncompleted_todo_list.items.len() {
            return None;
        }
        let new_text = String::from_str(self.textarea.text());
        let request = match self.uncompleted_todo_list.items[index].id {
            Some(id) => Some(DbRequest::UpdateText(id, new_text.clone())),
            None => None,
        };
        self.uncompleted_todo_list.set_title(index, new_text);
        self.textarea = EditBuffer::new();
        self.textarea_title = String::new();
        self.editing_index = None;
        self.input_mode.toggle();
        request
    }

    /// Whether a new item can still get a sort key: the greatest pending
    /// key leaves room for the step.
    pub fn can_add(&self) -> (fits: bool)
        ensures
            fits == self@.can_add(),
    {
        highest_sort_order_of(&self.uncompleted_todo_list.items) <= i32::MAX - SORT_ORDER_STEP
    }

    /// Commits a new item made at `now` from the buffer's text. Its sort key
    /// is the greatest pending key plus the step; it is a child of the
    /// selected pending item if a child was being composed. It joins the
    /// pending items, which are put into display order again; storage is
    /// asked to insert it; the buffer is discarded.
    pub fn add_input_todo_at(&mut self, now: NaiveDateTime) -> (request: Option<DbRequest>)
        requires
            old(self)@.can_add(),
        ensures
            final(self)@ == old(self)@.add_input_todo(now),
            request_view(request) == Some(DbRequestView::Insert(old(self)@.new_item(now))),
    {
        let next_sort_order: i32 = highest_sort_order_of(&self.uncompleted_todo_list.items)
            + SORT_ORDER_STEP;
        let parent_id = if self.creating_child_todo {
            match self.uncompleted_todo_list.selected_index() {
                Some(index) => self.uncompleted_todo_list.items[index].id,
                None => None,
            }
        } else {
            None
        };
        let mut todo_item = new_todo_item_at(self.textarea.text(), "New Status", parent_id, now);
        todo_item.sort_order = next_sort_order;
        let ghost before = item_views(self.uncompleted_todo_list.items@);
        let mut items: Vec<TodoItem> = Vec::new();
        items.append(&mut self.uncompleted_todo_list.items);
        let for_storage = todo_item.clone();
        proof {
            assert(item_views(items@.push(todo_item)) =~= before.push(todo_item@));
        }
        items.push(todo_item);
        let ordered = sort_todos_hierarchically(items);
        self.uncompleted_todo_list.set_items(ordered);
        self.textarea = EditBuffer::new();
        self.textarea_title = String::new();
        self.input_mode.toggle();
        Some(DbRequest::Insert(for_storage))
    }

    /// Commits a new item made now from the buffer's text, as
    /// `add_input_todo_at` does for the time it is given.
    pub fn add_input_todo(&mut self) -> (request: Option<DbRequest>)
        requires
            old(self)@.can_add(),
        ensures
            exists|now: NaiveDateTime|
                final(self)@ == old(self)@.add_input_todo(now) && request_view(request) == Some(
                    DbRequestView::Insert(old(self)@.new_item(now)),
                ),
    {
        let now = local_now();
        self.add_input_todo_at(now)
    }

    /// Deletes the selected pending item from the list and asks storage to
    /// delete it if it has an id. The selection stays within the list.
    /// Without a selected pending item nothing happens.
    pub fn delete_selected_todo(&mut self) -> (request: Option<DbRequest>)
        ensures
            final(self)@ == old(self)@.delete_selected_todo(),
            request_view(request) == old(self)@.delete_request(),
    {
        match self.uncompleted_todo_list.remove_selected() {
            Some(item) => match item.id {
                Some(id) => Some(DbRequest::Delete(id)),
                None => None,
            },
            None => None,
        }
    }

    /// Flips the completion of the selected item of the list `which_list`,
    /// with `now` as the time of completion, and asks storage to do the
    /// same and to hand both lists out again. Without a selected item in
    /// that list nothing happens.
    pub fn toggle_status_at(&mut self, which_list: WhichList, now: NaiveDateTime) -> (request:
        Option<DbRequest>)
        ensures
            final(self)@ == old(self)@.toggle_status(which_list, now),
            request_view(request) == old(self)@.toggle_request(which_list),
    {
        match which_list {
            WhichList::Uncompleted => {
                let id = match self.uncompleted_todo_list.selected_item() {
                    Some(item) => item.id,
                    None => None,
                };
                if self.uncompleted_todo_list.toggle_selected_at(now) {
                    Some(DbRequest::ToggleStatus(id))
                } else {
                    None
                }
            },
            WhichList::Completed => {
                let id = match self.completed_todo_list.selected_item() {
                    Some(item) => item.id,
                    None => None,
                };
                if self.completed_todo_list.toggle_selected_at(now) {
                    Some(DbRequest::ToggleStatus(id))
                } else {
                    None
                }
            },
        }
    }

    /// Flips the completion of the selected item of the list `which_list`
    /// as of now, as `toggle_status_at` does for the time it is given.
    pub fn toggle_status(&mut self, which_list: WhichList) -> (request: Option<DbRequest>)
        ensures
            exists|now: NaiveDateTime|
                final(self)@ == old(self)@.toggle_status(which_list, now),
            request_view(request) == old(self)@.toggle_request(which_list),
    {
        let now = local_now();
        self.toggle_status_at(which_list, now)
    }

    /// Replaces both lists by what storage holds. The selections stay as
    /// far as the new lists reach.
    pub fn refresh_from_database(
        &mut self,
        uncompleted: Vec<TodoItem>,
        completed: Vec<TodoItem>,
    )
        ensures
            final(self)@ == old(self)@.refresh_from_database(
                item_views(uncompleted@),
                item_views(completed@),
            ),
    {
        self.uncompleted_todo_list.set_items(uncompleted);
        self.completed_todo_list.set_items(completed);
    }

    /// Feeds a key to the edit buffer.
    pub fn edit(&mut self, key: Key)
        ensures
            final(self)@ == old(self)@.edit(key),
    {
        match key {
            Key::Char(c) => self.textarea.insert(c),
            Key::Backspace => self.textarea.delete_before(),
            Key::Left => self.textarea.move_left(),
            Key::Right => self.textarea.move_right(),
            _ => {},
        }
    }

    /// Carries out `command` at the time `now` and hands back what it asks
    /// of storage.
    pub fn apply(&mut self, command: Command, now: NaiveDateTime) -> (request: Option<DbRequest>)
        requires
            old(self)@.admits(command),
        ensures
            final(self)@ == old(self)@.apply(command, now),
            request_view(request) == old(self)@.request(command, now),
    {
        match command {
            Command::EnterInsertMode => {
                self.enter_insert_mode();
                None
            },
            Command::EnterChildMode => {
                self.enter_child_mode();
                None
            },
            Command::EnterEditMode => {
                self.enter_edit_mode();
                None
            },
            Command::Quit => {
                self.should_exit = true;
                None
            },
            Command::DeleteSelected => self.delete_selected_todo(),
            Command::SelectNone => {
                self.select_none();
                None
            },
            Command::SelectNext => {
                self.select_next();
                None
            },
            Command::SelectPrevious => {
                self.select_previous();
                None
            },
            Command::SelectFirst => {
                self.select_first();
                None
            },
            Command::SelectLast => {
                self.select_last();
                None
            },
            Command::MoveDown => self.move_todo_down(),
            Command::MoveUp => self.move_todo_up(),
            Command::SwitchFocus => {
                self.switch_focus();
                None
            },
            Command::ToggleStatus => {
                let which = self.focused_list;
                self.toggle_status_at(which, now)
            },
            Command::Cancel => {
                self.cancel_input();
                None
            },
            Command::Commit => {
                if self.editing_index.is_some() {
                    self.save_edited_todo()
                } else {
                    self.add_input_todo_at(now)
                }
            },
            Command::Edit(key) => {
                self.edit(key);
                None
            },
            Command::Nothing => None,
        }
    }

    /// Handles a key press at the time `now`: carries out the command that
    /// the key stands for in the current mode.
    pub fn handle_key_at(&mut self, key: Key, now: NaiveDateTime) -> (request: Option<DbRequest>)
        requires
            old(self)@.admits(key_command(old(self)@.input_mode, key)),
        ensures
            final(self)@ == old(self)@.apply(key_command(old(self)@.input_mode, key), now),
            request_view(request) == old(self)@.request(
                key_command(old(self)@.input_mode, key),
                now,
            ),
    {
        let command = command_for(self.input_mode, key);
        self.apply(command, now)
    }

    /// Handles a key press now.
    pub fn handle_key(&mut self, key: Key) -> (request: Option<DbRequest>)
        requires
            old(self)@.admits(key_command(old(self)@.input_mode, key)),
        ensures
            exists|now: NaiveDateTime|
                final(self)@ == old(self)@.apply(key_command(old(self)@.input_mode, key), now)
                    && request_view(request) == old(self)@.request(
                    key_command(old(self)@.input_mode, key),
                    now,
                ),
    {
        let now = local_now();
        self.handle_key_at(key, now)
    }
}

} // verus!

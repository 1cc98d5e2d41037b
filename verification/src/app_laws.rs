//! What holds of the state machine, proved over the definitions of `app`:
//! the invariants that every transition keeps, the transitions between the
//! modes, and the round trip of the completion toggle.

use crate::app::{highest_sort_order, AppView};
use crate::ordering_laws::lemma_order_members;
use crate::cursor::EditBufferView;
use crate::keys::{key_command, Command, Key};
use crate::models::{InputMode, TodoItemView, WhichList};
use chrono::NaiveDateTime;
use vstd::prelude::*;

verus! {

impl AppView {
    /// In normal mode nothing is under edit.
    pub open spec fn mode_is_consistent(self) -> bool {
        self.input_mode == InputMode::Normal ==> self.editing_index is None
    }
}

/// The greatest sort key is a bound of every key and, where there are
/// items, the key of one of them.
pub proof fn lemma_highest_sort_order(items: Seq<TodoItemView>)
    ensures
        items.len() == 0 ==> highest_sort_order(items) == 0,
        forall|i: int|
            0 <= i < items.len() ==> (#[trigger] items[i]).sort_order <= highest_sort_order(items),
        items.len() > 0 ==> exists|i: int|
            0 <= i < items.len() && (#[trigger] items[i]).sort_order == highest_sort_order(items),
    decreases items.len(),
{
    if items.len() > 1 {
        let rest = items.drop_last();
        lemma_highest_sort_order(rest);
        assert forall|i: int| 0 <= i < items.len() implies (#[trigger] items[i]).sort_order
            <= highest_sort_order(items) by {
            if i < rest.len() {
                assert(items[i] == rest[i]);
            }
        }
        let at = choose|i: int|
            0 <= i < rest.len() && (#[trigger] rest[i]).sort_order == highest_sort_order(rest);
        assert(items[at] == rest[at]);
        if items.last().sort_order > highest_sort_order(rest) {
            assert(items[items.len() - 1].sort_order == highest_sort_order(items));
        } else {
            assert(items[at].sort_order == highest_sort_order(items));
        }
    } else if items.len() == 1 {
        assert(items[0].sort_order == highest_sort_order(items));
    }
}

/// Whatever is carried out, both selections stay on items of their lists
/// and the cursor stays within the text.
pub proof fn lemma_apply_keeps_wf(app: AppView, command: Command, now: NaiveDateTime)
    requires
        app.wf(),
    ensures
        app.apply(command, now).wf(),
{
}

/// Key presses keep the mode consistent: nothing is under edit in normal
/// mode, whatever key comes in whatever state.
pub proof fn lemma_keys_keep_mode_consistent(app: AppView, key: Key, now: NaiveDateTime)
    requires
        app.mode_is_consistent(),
    ensures
        app.apply(key_command(app.input_mode, key), now).mode_is_consistent(),
{
}

/// The transitions between the modes. From normal mode, starting to create
/// leads to insert mode with nothing under edit, starting to edit leads
/// there with the selected item under edit and its title in the buffer,
/// the cursor at the end. From insert mode, cancelling leads back with the
/// buffer discarded, and so does committing, unless the position under
/// edit holds no item.
pub proof fn lemma_mode_transitions(app: AppView, now: NaiveDateTime)
    requires
        app.mode_is_consistent(),
    ensures
        app.input_mode == InputMode::Normal ==> {
            &&& app.apply(Command::EnterInsertMode, now).input_mode == InputMode::Insert
            &&& app.apply(Command::EnterInsertMode, now).editing_index is None
            &&& !app.apply(Command::EnterInsertMode, now).creating_child_todo
            &&& app.apply(Command::EnterChildMode, now).input_mode == InputMode::Insert
            &&& app.apply(Command::EnterChildMode, now).editing_index is None
            &&& app.apply(Command::EnterChildMode, now).creating_child_todo
        },
        app.input_mode == InputMode::Normal ==> match app.uncompleted.selected_index() {
            Some(index) => {
                &&& app.apply(Command::EnterEditMode, now).input_mode == InputMode::Insert
                &&& app.apply(Command::EnterEditMode, now).editing_index == Some(index)
                &&& app.apply(Command::EnterEditMode, now).textarea.text
                    == app.uncompleted.items[index as int].todo
                &&& app.apply(Command::EnterEditMode, now).textarea.cursor
                    == app.uncompleted.items[index as int].todo.len()
            },
            None => app.apply(Command::EnterEditMode, now) == app,
        },
        app.input_mode == InputMode::Insert ==> {
            &&& app.apply(Command::Cancel, now).input_mode == InputMode::Normal
            &&& app.apply(Command::Cancel, now).editing_index is None
            &&& app.apply(Command::Cancel, now).textarea == EditBufferView::empty()
            &&& app.apply(Command::Cancel, now).uncompleted == app.uncompleted
        },
        app.input_mode == InputMode::Insert && (app.editing_index is None || app.edited_index()
            is Some) ==> {
            &&& app.apply(Command::Commit, now).input_mode == InputMode::Normal
            &&& app.apply(Command::Commit, now).editing_index is None
            &&& app.apply(Command::Commit, now).textarea == EditBufferView::empty()
        },
{
}

/// Toggling the same item twice, with no reload in between, brings its
/// status back: the list has the same items in the same places, each
/// completed exactly if it was, and if the selected item was pending the
/// state is the very state it was.
pub proof fn lemma_toggle_status_twice(
    app: AppView,
    which: WhichList,
    first: NaiveDateTime,
    second: NaiveDateTime,
)
    ensures
        ({
            let once = app.toggle_status(which, first);
            let twice = once.toggle_status(which, second);
            &&& twice.list(which.other()) == app.list(which.other())
            &&& twice.list(which).selected == app.list(which).selected
            &&& twice.list(which).items.len() == app.list(which).items.len()
            &&& forall|i: int|
                0 <= i < app.list(which).items.len() ==> (#[trigger] twice.list(
                    which,
                ).items[i]).is_completed() == app.list(which).items[i].is_completed()
            &&& match app.list(which).selected_index() {
                Some(index) => {
                    &&& once.list(which).items[index as int].is_completed() != app.list(
                        which,
                    ).items[index as int].is_completed()
                    &&& app.list(which).items[index as int].completed_at is None ==> twice == app
                },
                None => twice == app,
            }
        }),
{
    let once = app.toggle_status(which, first);
    let twice = once.toggle_status(which, second);
    match app.list(which).selected_index() {
        Some(index) => {
            if app.list(which).items[index as int].completed_at is None {
                assert(twice.list(which).items =~= app.list(which).items);
            }
        },
        None => {},
    }
}

/// Whether a committed new item shows in the list: it does if it is a
/// top-level item or the child of a top-level pending item. A child of a
/// child takes part in storage but never in the display order.
pub proof fn lemma_new_item_is_shown(app: AppView, now: NaiveDateTime)
    ensures
        app.add_input_todo(now).uncompleted.items.contains(app.new_item(now)) <==> (
        app.new_parent_id() is None || exists|i: int|
            0 <= i < app.uncompleted.items.len() && (#[trigger] app.uncompleted.items[i]).parent_id
                is None && app.uncompleted.items[i].id == app.new_parent_id()),
{
    let item = app.new_item(now);
    let before = app.uncompleted.items;
    let joined = before.push(item);
    lemma_order_members(joined, item);
    assert(joined[before.len() as int] == item);
    if exists|i: int|
        0 <= i < joined.len() && (#[trigger] joined[i]).parent_id is None && joined[i].id
            == item.parent_id {
        let at = choose|i: int|
            0 <= i < joined.len() && (#[trigger] joined[i]).parent_id is None && joined[i].id
                == item.parent_id;
        if item.parent_id is Some {
            assert(at < before.len());
            assert(before[at] == joined[at]);
        }
    }
    if exists|i: int|
        0 <= i < before.len() && (#[trigger] before[i]).parent_id is None && before[i].id
            == item.parent_id {
        let at = choose|i: int|
            0 <= i < before.len() && (#[trigger] before[i]).parent_id is None && before[i].id
                == item.parent_id;
        assert(joined[at] == before[at]);
    }
}

} // verus!

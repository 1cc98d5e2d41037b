use chrono::{NaiveDate, NaiveDateTime};
use todolist::app::{highest_sort_order_of, App};
use todolist::keys::{command_for, Command, Key};
use todolist::db::DbRequest;
use todolist::models::{new_todo_item, new_todo_item_at, InputMode, TodoItem, WhichList};

fn stamp() -> NaiveDateTime {
    NaiveDate::from_ymd_opt(2024, 3, 1).unwrap().and_hms_opt(9, 30, 0).unwrap()
}

fn later() -> NaiveDateTime {
    NaiveDate::from_ymd_opt(2024, 3, 2).unwrap().and_hms_opt(18, 0, 5).unwrap()
}

fn item(id: i64, text: &str, sort_order: i32, parent_id: Option<i64>) -> TodoItem {
    TodoItem {
        id: Some(id),
        todo: text.to_string(),
        details: String::new(),
        completed_at: None,
        date: stamp(),
        parent_id,
        sort_order,
    }
}

fn done(id: i64, text: &str, sort_order: i32) -> TodoItem {
    let mut item = item(id, text, sort_order, None);
    item.completed_at = Some(stamp());
    item
}

fn app_with(pending: Vec<TodoItem>, completed: Vec<TodoItem>) -> App {
    App::with_items_at(pending, completed, stamp())
}

fn two_items() -> App {
    app_with(vec![item(1, "A", 10, None), item(2, "B", 20, None)], vec![done(3, "C", 5)])
}

fn type_text(app: &mut App, text: &str) {
    for c in text.chars() {
        assert_eq!(app.handle_key_at(Key::Char(c), stamp()), None);
    }
}

fn titles(items: &[TodoItem]) -> Vec<String> {
    items.iter().map(|item| item.todo.clone()).collect()
}

#[test]
fn start_state_is_normal_mode_with_nothing_selected() {
    let app = two_items();
    assert!(!app.should_exit);
    assert_eq!(app.input_mode, InputMode::Normal);
    assert_eq!(app.focused_list, WhichList::Uncompleted);
    assert_eq!(app.editing_index, None);
    assert!(!app.creating_child_todo);
    assert_eq!(app.uncompleted_todo_list.selected, None);
    assert_eq!(app.completed_todo_list.selected, None);
    assert_eq!(titles(&app.uncompleted_todo_list.items), vec!["A", "B"]);
    assert_eq!(titles(&app.completed_todo_list.items), vec!["C"]);
    assert_eq!(app.textarea.text(), "");
    assert_eq!(app.textarea_title, "");
}

#[test]
fn empty_pending_list_gets_the_placeholder() {
    let app = app_with(Vec::new(), vec![done(3, "C", 5)]);
    assert_eq!(
        app.uncompleted_todo_list.items,
        vec![TodoItem {
            id: None,
            todo: "Make a todo item".to_string(),
            details: "One's life always has something to do".to_string(),
            completed_at: None,
            date: stamp(),
            parent_id: None,
            sort_order: 0,
        }]
    );
    assert_eq!(titles(&app.completed_todo_list.items), vec!["C"]);
}

#[test]
fn with_items_keeps_pending_items_or_makes_the_placeholder() {
    let app = App::with_items(vec![item(1, "A", 10, None)], Vec::new());
    assert_eq!(app.uncompleted_todo_list.items, vec![item(1, "A", 10, None)]);
    let app = App::with_items(Vec::new(), Vec::new());
    assert_eq!(titles(&app.uncompleted_todo_list.items), vec!["Make a todo item"]);
}

#[test]
fn new_todo_item_is_unsaved_and_pending() {
    let item = new_todo_item("write", "soon", Some(4));
    assert_eq!(item.id, None);
    assert_eq!(item.todo, "write");
    assert_eq!(item.details, "soon");
    assert_eq!(item.completed_at, None);
    assert_eq!(item.parent_id, Some(4));
    assert_eq!(item.sort_order, 0);
}

#[test]
fn new_todo_item_at_takes_the_time_it_is_given() {
    assert_eq!(
        new_todo_item_at("write", "soon", None, later()),
        TodoItem {
            id: None,
            todo: "write".to_string(),
            details: "soon".to_string(),
            completed_at: None,
            date: later(),
            parent_id: None,
            sort_order: 0,
        }
    );
}

#[test]
fn new_todo_item_is_created_now() {
    let before = chrono::Local::now().naive_local();
    let item = new_todo_item("write", "soon", None);
    let after = chrono::Local::now().naive_local();
    assert!(before <= item.date && item.date <= after);
}

#[test]
fn input_mode_toggle_flips() {
    let mut mode = InputMode::Normal;
    mode.toggle();
    assert_eq!(mode, InputMode::Insert);
    mode.toggle();
    assert_eq!(mode, InputMode::Normal);
}

#[test]
fn move_down_scenario() {
    let mut app = two_items();
    app.select_first();
    let request = app.move_todo_down();
    let list = &app.uncompleted_todo_list;
    assert_eq!(titles(&list.items), vec!["B", "A"]);
    assert_eq!(list.items[0].sort_order, 10);
    assert_eq!(list.items[1].sort_order, 20);
    assert_eq!(list.selected, Some(1));
    assert_eq!(request, Some(DbRequest::UpdateSortOrders(vec![(2, 10), (1, 20)])));
}

#[test]
fn reorder_request_skips_unsaved_items() {
    let mut unsaved = item(0, "new", 30, None);
    unsaved.id = None;
    let mut app = app_with(vec![item(1, "A", 10, None), item(2, "B", 20, None), unsaved], Vec::new());
    app.select_last();
    let request = app.move_todo_up();
    assert_eq!(titles(&app.uncompleted_todo_list.items), vec!["A", "new", "B"]);
    assert_eq!(request, Some(DbRequest::UpdateSortOrders(vec![(1, 10), (2, 30)])));
}

#[test]
fn move_without_effect_asks_nothing() {
    let mut app = two_items();
    assert_eq!(app.move_todo_up(), None);
    assert_eq!(app.move_todo_down(), None);
    app.select_first();
    assert_eq!(app.move_todo_up(), None);
    app.select_last();
    assert_eq!(app.move_todo_down(), None);
    assert_eq!(titles(&app.uncompleted_todo_list.items), vec!["A", "B"]);
}

#[test]
fn moves_work_on_the_pending_list_whatever_has_the_focus() {
    let mut app = two_items();
    app.select_first();
    app.toggle_focused_list();
    assert!(app.move_todo_down().is_some());
    assert_eq!(titles(&app.uncompleted_todo_list.items), vec!["B", "A"]);
    assert_eq!(titles(&app.completed_todo_list.items), vec!["C"]);
}

#[test]
fn create_top_level_item() {
    let mut app = two_items();
    app.select_last();
    assert_eq!(app.handle_key_at(Key::Char('i'), stamp()), None);
    assert_eq!(app.input_mode, InputMode::Insert);
    assert_eq!(app.editing_index, None);
    assert!(!app.creating_child_todo);
    assert_eq!(app.textarea_title, "New todo");
    type_text(&mut app, "new");
    assert_eq!(app.textarea.text(), "new");
    assert!(app.can_add());
    let request = app.handle_key_at(Key::Enter, later());
    let expected = TodoItem {
        id: None,
        todo: "new".to_string(),
        details: "New Status".to_string(),
        completed_at: None,
        date: later(),
        parent_id: None,
        sort_order: 30,
    };
    assert_eq!(request, Some(DbRequest::Insert(expected.clone())));
    assert_eq!(app.input_mode, InputMode::Normal);
    assert_eq!(titles(&app.uncompleted_todo_list.items), vec!["A", "B", "new"]);
    assert_eq!(app.uncompleted_todo_list.items[2], expected);
    assert_eq!(app.textarea.text(), "");
    assert_eq!(app.textarea.cursor(), 0);
    assert_eq!(app.textarea_title, "");
}

#[test]
fn create_child_scenario() {
    let mut app = app_with(
        vec![item(4, "four", 10, None), item(5, "five", 20, None), item(6, "six", 30, None)],
        Vec::new(),
    );
    app.uncompleted_todo_list.select(Some(1));
    app.enter_child_mode();
    assert_eq!(app.input_mode, InputMode::Insert);
    assert!(app.creating_child_todo);
    assert_eq!(app.textarea_title, "New Child Todo");
    type_text(&mut app, "sub");
    let request = app.add_input_todo_at(later());
    let expected = TodoItem {
        id: None,
        todo: "sub".to_string(),
        details: "New Status".to_string(),
        completed_at: None,
        date: later(),
        parent_id: Some(5),
        sort_order: 40,
    };
    assert_eq!(request, Some(DbRequest::Insert(expected.clone())));
    assert_eq!(titles(&app.uncompleted_todo_list.items), vec!["four", "five", "sub", "six"]);
    assert_eq!(app.uncompleted_todo_list.items[2], expected);
    assert_eq!(app.input_mode, InputMode::Normal);
}

#[test]
fn child_of_nothing_selected_is_top_level() {
    let mut app = two_items();
    app.enter_child_mode();
    type_text(&mut app, "x");
    let request = app.add_input_todo_at(stamp());
    match request {
        Some(DbRequest::Insert(item)) => assert_eq!(item.parent_id, None),
        other => panic!("unexpected request {:?}", other),
    }
    assert_eq!(titles(&app.uncompleted_todo_list.items), vec!["A", "B", "x"]);
}

#[test]
fn child_of_an_unsaved_item_is_top_level() {
    let mut unsaved = item(0, "unsaved", 5, None);
    unsaved.id = None;
    let mut app = app_with(vec![unsaved], Vec::new());
    app.select_first();
    app.enter_child_mode();
    type_text(&mut app, "kid");
    app.add_input_todo_at(stamp());
    assert_eq!(titles(&app.uncompleted_todo_list.items), vec!["unsaved", "kid"]);
    assert_eq!(app.uncompleted_todo_list.items[1].parent_id, None);
    assert_eq!(app.uncompleted_todo_list.items[1].sort_order, 15);
}

#[test]
fn child_of_a_child_is_stored_but_not_shown() {
    let mut app = app_with(vec![item(1, "parent", 10, None), item(2, "child", 20, Some(1))], Vec::new());
    app.select_last();
    app.enter_child_mode();
    type_text(&mut app, "deep");
    let request = app.add_input_todo_at(stamp());
    match request {
        Some(DbRequest::Insert(item)) => {
            assert_eq!(item.parent_id, Some(2));
            assert_eq!(item.sort_order, 30);
        }
        other => panic!("unexpected request {:?}", other),
    }
    assert_eq!(titles(&app.uncompleted_todo_list.items), vec!["parent", "child"]);
    assert_eq!(app.uncompleted_todo_list.selected, Some(1));
}

#[test]
fn add_input_todo_reads_the_clock() {
    let mut app = two_items();
    app.enter_insert_mode();
    type_text(&mut app, "n");
    let before = chrono::Local::now().naive_local();
    let request = app.add_input_todo();
    let after = chrono::Local::now().naive_local();
    match request {
        Some(DbRequest::Insert(item)) => {
            assert!(before <= item.date && item.date <= after);
            assert_eq!(item.sort_order, 30);
            assert_eq!(app.uncompleted_todo_list.items[2], item);
        }
        other => panic!("unexpected request {:?}", other),
    }
}

#[test]
fn sort_order_of_a_new_item_is_ten_above_the_highest() {
    assert_eq!(highest_sort_order_of(&Vec::new()), 0);
    assert_eq!(highest_sort_order_of(&vec![item(1, "a", -30, None)]), -30);
    assert_eq!(
        highest_sort_order_of(&vec![item(1, "a", -30, None), item(2, "b", 7, None), item(3, "c", 2, None)]),
        7
    );
    let mut app = app_with(vec![item(1, "a", -30, None)], Vec::new());
    app.enter_insert_mode();
    app.add_input_todo_at(stamp());
    assert_eq!(app.uncompleted_todo_list.items[0].sort_order, -30);
    assert_eq!(app.uncompleted_todo_list.items[1].sort_order, -20);
}

#[test]
fn can_add_tells_when_the_sort_order_would_not_fit() {
    let app = app_with(vec![item(1, "a", i32::MAX - 10, None)], Vec::new());
    assert!(app.can_add());
    let app = app_with(vec![item(1, "a", i32::MAX - 9, None)], Vec::new());
    assert!(!app.can_add());
}

#[test]
fn edit_replaces_the_title() {
    let mut app = two_items();
    app.uncompleted_todo_list.select(Some(1));
    assert_eq!(app.handle_key_at(Key::Char('e'), stamp()), None);
    assert_eq!(app.input_mode, InputMode::Insert);
    assert_eq!(app.editing_index, Some(1));
    assert_eq!(app.textarea.text(), "B");
    assert_eq!(app.textarea.cursor(), 1);
    assert_eq!(app.textarea_title, "Edit Todo");
    app.handle_key_at(Key::Backspace, stamp());
    type_text(&mut app, "Bé");
    app.handle_key_at(Key::Left, stamp());
    app.handle_key_at(Key::Left, stamp());
    app.handle_key_at(Key::Left, stamp());
    type_text(&mut app, ">");
    app.handle_key_at(Key::Right, stamp());
    type_text(&mut app, "-");
    assert_eq!(app.textarea.text(), ">B-é");
    let request = app.handle_key_at(Key::Enter, stamp());
    assert_eq!(request, Some(DbRequest::UpdateText(2, ">B-é".to_string())));
    assert_eq!(app.input_mode, InputMode::Normal);
    assert_eq!(app.editing_index, None);
    assert_eq!(titles(&app.uncompleted_todo_list.items), vec!["A", ">B-é"]);
    assert_eq!(app.uncompleted_todo_list.items[1].sort_order, 20);
    assert_eq!(app.textarea.text(), "");
}

#[test]
fn edit_of_an_unsaved_item_asks_nothing() {
    let mut unsaved = item(0, "draft", 5, None);
    unsaved.id = None;
    let mut app = app_with(vec![unsaved], Vec::new());
    app.select_first();
    app.enter_edit_mode();
    type_text(&mut app, "!");
    assert_eq!(app.save_edited_todo(), None);
    assert_eq!(titles(&app.uncompleted_todo_list.items), vec!["draft!"]);
    assert_eq!(app.input_mode, InputMode::Normal);
}

#[test]
fn edit_without_selection_does_nothing() {
    let mut app = two_items();
    app.enter_edit_mode();
    assert_eq!(app.input_mode, InputMode::Normal);
    assert_eq!(app.editing_index, None);
    assert_eq!(app.textarea.text(), "");
}

#[test]
fn save_without_an_item_under_edit_does_nothing() {
    let mut app = two_items();
    app.enter_insert_mode();
    type_text(&mut app, "x");
    assert_eq!(app.save_edited_todo(), None);
    assert_eq!(app.input_mode, InputMode::Insert);
    assert_eq!(app.textarea.text(), "x");
    app.editing_index = Some(2);
    assert_eq!(app.save_edited_todo(), None);
    assert_eq!(app.input_mode, InputMode::Insert);
    assert_eq!(app.editing_index, Some(2));
    assert_eq!(titles(&app.uncompleted_todo_list.items), vec!["A", "B"]);
}

#[test]
fn cancel_discards_the_buffer() {
    let mut app = two_items();
    app.select_first();
    app.enter_edit_mode();
    type_text(&mut app, "zzz");
    assert_eq!(app.handle_key_at(Key::Esc, stamp()), None);
    assert_eq!(app.input_mode, InputMode::Normal);
    assert_eq!(app.editing_index, None);
    assert_eq!(app.textarea.text(), "");
    assert_eq!(app.textarea_title, "");
    assert_eq!(titles(&app.uncompleted_todo_list.items), vec!["A", "B"]);
}

#[test]
fn delete_only_item_drops_the_selection() {
    let mut app = app_with(vec![item(1, "A", 10, None)], Vec::new());
    app.select_first();
    let request = app.delete_selected_todo();
    assert_eq!(request, Some(DbRequest::Delete(1)));
    assert!(app.uncompleted_todo_list.items.is_empty());
    assert_eq!(app.uncompleted_todo_list.selected, None);
}

#[test]
fn delete_last_item_selects_the_new_last() {
    let mut app = two_items();
    app.select_last();
    assert_eq!(app.handle_key_at(Key::Char('d'), stamp()), Some(DbRequest::Delete(2)));
    assert_eq!(titles(&app.uncompleted_todo_list.items), vec!["A"]);
    assert_eq!(app.uncompleted_todo_list.selected, Some(0));
}

#[test]
fn delete_first_item_keeps_the_position() {
    let mut app = two_items();
    app.select_first();
    assert_eq!(app.delete_selected_todo(), Some(DbRequest::Delete(1)));
    assert_eq!(titles(&app.uncompleted_todo_list.items), vec!["B"]);
    assert_eq!(app.uncompleted_todo_list.selected, Some(0));
}

#[test]
fn delete_of_an_unsaved_item_asks_nothing() {
    let mut unsaved = item(0, "draft", 5, None);
    unsaved.id = None;
    let mut app = app_with(vec![unsaved, item(1, "A", 10, None)], Vec::new());
    app.select_first();
    assert_eq!(app.delete_selected_todo(), None);
    assert_eq!(titles(&app.uncompleted_todo_list.items), vec!["A"]);
}

#[test]
fn delete_without_selection_does_nothing() {
    let mut app = two_items();
    assert_eq!(app.delete_selected_todo(), None);
    assert_eq!(titles(&app.uncompleted_todo_list.items), vec!["A", "B"]);
}

#[test]
fn toggle_completes_a_pending_item() {
    let mut app = two_items();
    app.select_first();
    let request = app.toggle_status_at(WhichList::Uncompleted, later());
    assert_eq!(request, Some(DbRequest::ToggleStatus(Some(1))));
    assert_eq!(app.uncompleted_todo_list.items[0].completed_at, Some(later()));
    assert_eq!(app.uncompleted_todo_list.items[1].completed_at, None);
    assert_eq!(titles(&app.uncompleted_todo_list.items), vec!["A", "B"]);
}

#[test]
fn toggle_reopens_a_completed_item() {
    let mut app = two_items();
    app.completed_todo_list.select(Some(0));
    let request = app.toggle_status_at(WhichList::Completed, later());
    assert_eq!(request, Some(DbRequest::ToggleStatus(Some(3))));
    assert_eq!(app.completed_todo_list.items[0].completed_at, None);
    assert_eq!(app.uncompleted_todo_list.items, vec![item(1, "A", 10, None), item(2, "B", 20, None)]);
}

#[test]
fn toggle_twice_returns_a_pending_item_to_pending() {
    let mut app = two_items();
    app.select_last();
    app.toggle_status_at(WhichList::Uncompleted, stamp());
    assert!(app.uncompleted_todo_list.items[1].completed_at.is_some());
    app.toggle_status_at(WhichList::Uncompleted, later());
    assert_eq!(app.uncompleted_todo_list.items, vec![item(1, "A", 10, None), item(2, "B", 20, None)]);
}

#[test]
fn toggle_twice_returns_a_completed_item_to_completed() {
    let mut item = done(3, "C", 5);
    item.toggle_completion_at(later());
    assert_eq!(item.completed_at, None);
    item.toggle_completion_at(later());
    assert_eq!(item.completed_at, Some(later()));
    item.toggle_completion();
    assert_eq!(item.completed_at, None);
    item.toggle_completion();
    assert!(item.completed_at.is_some());
}

#[test]
fn toggle_reads_the_clock() {
    let mut app = two_items();
    app.select_first();
    let before = chrono::Local::now().naive_local();
    let request = app.toggle_status(WhichList::Uncompleted);
    let after = chrono::Local::now().naive_local();
    assert_eq!(request, Some(DbRequest::ToggleStatus(Some(1))));
    let completed_at = app.uncompleted_todo_list.items[0].completed_at.unwrap();
    assert!(before <= completed_at && completed_at <= after);
}

#[test]
fn toggle_without_selection_does_nothing() {
    let mut app = two_items();
    assert_eq!(app.toggle_status_at(WhichList::Uncompleted, later()), None);
    assert_eq!(app.toggle_status_at(WhichList::Completed, later()), None);
    assert_eq!(app.uncompleted_todo_list.items, vec![item(1, "A", 10, None), item(2, "B", 20, None)]);
}

#[test]
fn toggle_of_an_unsaved_item_still_asks_for_a_reload() {
    let mut unsaved = item(0, "draft", 5, None);
    unsaved.id = None;
    let mut app = app_with(vec![unsaved], Vec::new());
    app.select_first();
    assert_eq!(
        app.toggle_status_at(WhichList::Uncompleted, later()),
        Some(DbRequest::ToggleStatus(None))
    );
}

#[test]
fn toggle_key_works_on_the_focused_list() {
    let mut app = two_items();
    assert_eq!(app.handle_key_at(Key::Tab, stamp()), None);
    assert_eq!(app.focused_list, WhichList::Completed);
    assert_eq!(app.completed_todo_list.selected, Some(0));
    assert_eq!(app.uncompleted_todo_list.selected, None);
    let request = app.handle_key_at(Key::Enter, later());
    assert_eq!(request, Some(DbRequest::ToggleStatus(Some(3))));
    assert_eq!(app.completed_todo_list.items[0].completed_at, None);
}

#[test]
fn refresh_replaces_both_lists_and_keeps_selections_in_range() {
    let mut app = two_items();
    app.select_last();
    app.completed_todo_list.select(Some(0));
    app.refresh_from_database(vec![item(1, "A", 10, None)], Vec::new());
    assert_eq!(titles(&app.uncompleted_todo_list.items), vec!["A"]);
    assert_eq!(app.uncompleted_todo_list.selected, Some(0));
    assert!(app.completed_todo_list.items.is_empty());
    assert_eq!(app.completed_todo_list.selected, None);
    assert_eq!(app.input_mode, InputMode::Normal);
}

#[test]
fn switch_focus_selects_the_first_item_of_the_other_list() {
    let mut app = two_items();
    app.select_last();
    app.switch_focus();
    assert_eq!(app.focused_list, WhichList::Completed);
    assert_eq!(app.uncompleted_todo_list.selected, None);
    assert_eq!(app.completed_todo_list.selected, Some(0));
    app.switch_focus();
    assert_eq!(app.focused_list, WhichList::Uncompleted);
    assert_eq!(app.uncompleted_todo_list.selected, Some(0));
    assert_eq!(app.completed_todo_list.selected, None);
}

#[test]
fn switch_focus_to_an_empty_list_selects_nothing() {
    let mut app = app_with(vec![item(1, "A", 10, None)], Vec::new());
    app.switch_focus();
    assert_eq!(app.focused_list, WhichList::Completed);
    assert_eq!(app.completed_todo_list.selected, None);
}

#[test]
fn selection_keys_drive_the_focused_list() {
    let mut app = two_items();
    app.handle_key_at(Key::Char('j'), stamp());
    assert_eq!(app.uncompleted_todo_list.selected, Some(0));
    app.handle_key_at(Key::Down, stamp());
    assert_eq!(app.uncompleted_todo_list.selected, Some(1));
    app.handle_key_at(Key::Char('k'), stamp());
    assert_eq!(app.uncompleted_todo_list.selected, Some(0));
    app.handle_key_at(Key::Char('G'), stamp());
    assert_eq!(app.uncompleted_todo_list.selected, Some(1));
    app.handle_key_at(Key::Home, stamp());
    assert_eq!(app.uncompleted_todo_list.selected, Some(0));
    app.handle_key_at(Key::End, stamp());
    assert_eq!(app.uncompleted_todo_list.selected, Some(1));
    app.handle_key_at(Key::Up, stamp());
    assert_eq!(app.uncompleted_todo_list.selected, Some(0));
    app.handle_key_at(Key::Char('h'), stamp());
    assert_eq!(app.uncompleted_todo_list.selected, None);
    app.handle_key_at(Key::Char('g'), stamp());
    assert_eq!(app.uncompleted_todo_list.selected, Some(0));
    app.handle_key_at(Key::Left, stamp());
    assert_eq!(app.uncompleted_todo_list.selected, None);
    assert_eq!(app.completed_todo_list.selected, None);
}

#[test]
fn reorder_keys_move_the_selected_item() {
    let mut app = two_items();
    app.select_first();
    assert_eq!(
        app.handle_key_at(Key::Char('J'), stamp()),
        Some(DbRequest::UpdateSortOrders(vec![(2, 10), (1, 20)]))
    );
    assert_eq!(
        app.handle_key_at(Key::Char('K'), stamp()),
        Some(DbRequest::UpdateSortOrders(vec![(1, 10), (2, 20)]))
    );
    assert_eq!(app.uncompleted_todo_list.items, vec![item(1, "A", 10, None), item(2, "B", 20, None)]);
    assert_eq!(app.uncompleted_todo_list.selected, Some(0));
}

#[test]
fn quit_key_sets_the_exit_flag() {
    let mut app = two_items();
    assert_eq!(app.handle_key(Key::Char('q')), None);
    assert!(app.should_exit);
}

#[test]
fn unbound_keys_do_nothing_in_normal_mode() {
    let mut app = two_items();
    app.select_first();
    for key in [Key::Char('x'), Key::Esc, Key::Backspace, Key::Other] {
        assert_eq!(app.handle_key(key), None);
    }
    assert_eq!(app.input_mode, InputMode::Normal);
    assert_eq!(app.uncompleted_todo_list.selected, Some(0));
    assert_eq!(app.uncompleted_todo_list.items, vec![item(1, "A", 10, None), item(2, "B", 20, None)]);
    assert!(!app.should_exit);
}

#[test]
fn letters_are_text_in_insert_mode() {
    let mut app = two_items();
    app.select_first();
    app.enter_insert_mode();
    type_text(&mut app, "qdJ");
    for key in [Key::Tab, Key::Up, Key::Down, Key::Home, Key::End, Key::Other] {
        assert_eq!(app.handle_key(key), None);
    }
    assert_eq!(app.textarea.text(), "qdJ");
    assert_eq!(app.textarea.cursor(), 3);
    assert!(!app.should_exit);
    assert_eq!(app.uncompleted_todo_list.items.len(), 2);
    assert_eq!(app.uncompleted_todo_list.selected, Some(0));
    assert_eq!(app.input_mode, InputMode::Insert);
}

#[test]
fn key_bindings() {
    let normal = InputMode::Normal;
    assert_eq!(command_for(normal, Key::Char('i')), Command::EnterInsertMode);
    assert_eq!(command_for(normal, Key::Char('o')), Command::EnterChildMode);
    assert_eq!(command_for(normal, Key::Char('e')), Command::EnterEditMode);
    assert_eq!(command_for(normal, Key::Char('q')), Command::Quit);
    assert_eq!(command_for(normal, Key::Char('d')), Command::DeleteSelected);
    assert_eq!(command_for(normal, Key::Char('h')), Command::SelectNone);
    assert_eq!(command_for(normal, Key::Left), Command::SelectNone);
    assert_eq!(command_for(normal, Key::Char('j')), Command::SelectNext);
    assert_eq!(command_for(normal, Key::Down), Command::SelectNext);
    assert_eq!(command_for(normal, Key::Char('k')), Command::SelectPrevious);
    assert_eq!(command_for(normal, Key::Up), Command::SelectPrevious);
    assert_eq!(command_for(normal, Key::Char('g')), Command::SelectFirst);
    assert_eq!(command_for(normal, Key::Home), Command::SelectFirst);
    assert_eq!(command_for(normal, Key::Char('G')), Command::SelectLast);
    assert_eq!(command_for(normal, Key::End), Command::SelectLast);
    assert_eq!(command_for(normal, Key::Char('J')), Command::MoveDown);
    assert_eq!(command_for(normal, Key::Char('K')), Command::MoveUp);
    assert_eq!(command_for(normal, Key::Tab), Command::SwitchFocus);
    assert_eq!(command_for(normal, Key::Char('c')), Command::ToggleStatus);
    assert_eq!(command_for(normal, Key::Right), Command::ToggleStatus);
    assert_eq!(command_for(normal, Key::Enter), Command::ToggleStatus);
    assert_eq!(command_for(normal, Key::Char('z')), Command::Nothing);
    assert_eq!(command_for(normal, Key::Esc), Command::Nothing);
    let insert = InputMode::Insert;
    assert_eq!(command_for(insert, Key::Esc), Command::Cancel);
    assert_eq!(command_for(insert, Key::Enter), Command::Commit);
    assert_eq!(command_for(insert, Key::Char('q')), Command::Edit(Key::Char('q')));
    assert_eq!(command_for(insert, Key::Backspace), Command::Edit(Key::Backspace));
    assert_eq!(command_for(insert, Key::Tab), Command::Edit(Key::Tab));
}

#[test]
fn set_textarea_block_sets_the_title() {
    let mut app = two_items();
    app.set_textarea_block("Anything".to_string());
    assert_eq!(app.textarea_title, "Anything");
}

#[test]
fn adding_drops_orphans_and_keeps_the_selection_in_range() {
    let mut app = app_with(
        vec![item(1, "A", 10, None), item(2, "lost", 20, Some(9)), item(3, "gone", 30, Some(8))],
        Vec::new(),
    );
    app.select_last();
    app.enter_insert_mode();
    app.add_input_todo_at(stamp());
    assert_eq!(titles(&app.uncompleted_todo_list.items), vec!["A", ""]);
    assert_eq!(app.uncompleted_todo_list.items[1].sort_order, 40);
    assert_eq!(app.uncompleted_todo_list.selected, Some(1));
}

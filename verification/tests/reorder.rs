use chrono::{NaiveDate, NaiveDateTime};
use todolist::models::{TodoItem, TodoList};

fn stamp() -> NaiveDateTime {
    NaiveDate::from_ymd_opt(2024, 3, 1).unwrap().and_hms_opt(9, 30, 0).unwrap()
}

fn item(id: i64, text: &str, sort_order: i32, parent_id: Option<i64>) -> TodoItem {
    TodoItem {
        id: Some(id),
        todo: text.to_string(),
        details: String::new(),
        completed_at: None,
        date: stamp(),
        parent_id,
        sort_order,
    }
}

fn list_of(items: Vec<TodoItem>, selected: Option<usize>) -> TodoList {
    TodoList { items, selected }
}

fn summary(list: &TodoList) -> Vec<(String, i32)> {
    list.items.iter().map(|item| (item.todo.clone(), item.sort_order)).collect()
}

fn pair(text: &str, sort_order: i32) -> (String, i32) {
    (text.to_string(), sort_order)
}

#[test]
fn move_down_swaps_places_and_keeps_keys_in_place() {
    let mut list = list_of(vec![item(1, "A", 10, None), item(2, "B", 20, None)], Some(0));
    assert!(list.move_down());
    assert_eq!(summary(&list), vec![pair("B", 10), pair("A", 20)]);
    assert_eq!(list.items[0].id, Some(2));
    assert_eq!(list.items[1].id, Some(1));
    assert_eq!(list.selected, Some(1));
}

#[test]
fn move_up_swaps_places_and_keeps_keys_in_place() {
    let mut list = list_of(
        vec![item(1, "A", 10, None), item(2, "B", 20, None), item(3, "C", 30, None)],
        Some(2),
    );
    assert!(list.move_up());
    assert_eq!(summary(&list), vec![pair("A", 10), pair("C", 20), pair("B", 30)]);
    assert_eq!(list.selected, Some(1));
}

#[test]
fn move_up_on_first_item_does_nothing() {
    let mut list = list_of(vec![item(1, "A", 10, None), item(2, "B", 20, None)], Some(0));
    assert!(!list.move_up());
    assert_eq!(summary(&list), vec![pair("A", 10), pair("B", 20)]);
    assert_eq!(list.selected, Some(0));
}

#[test]
fn move_down_on_last_item_does_nothing() {
    let mut list = list_of(vec![item(1, "A", 10, None), item(2, "B", 20, None)], Some(1));
    assert!(!list.move_down());
    assert_eq!(summary(&list), vec![pair("A", 10), pair("B", 20)]);
    assert_eq!(list.selected, Some(1));
}

#[test]
fn moves_without_selection_do_nothing() {
    let mut list = list_of(vec![item(1, "A", 10, None), item(2, "B", 20, None)], None);
    assert!(!list.move_up());
    assert!(!list.move_down());
    assert_eq!(summary(&list), vec![pair("A", 10), pair("B", 20)]);
    assert_eq!(list.selected, None);
}

#[test]
fn moves_on_empty_list_do_nothing() {
    let mut list = list_of(Vec::new(), Some(0));
    assert!(!list.move_up());
    assert!(!list.move_down());
    assert!(list.items.is_empty());
}

#[test]
fn moves_with_selection_beyond_the_list_do_nothing() {
    let mut list = list_of(vec![item(1, "A", 10, None), item(2, "B", 20, None)], Some(2));
    assert!(!list.move_up());
    assert!(!list.move_down());
    assert_eq!(summary(&list), vec![pair("A", 10), pair("B", 20)]);
}

#[test]
fn move_up_then_down_restores_the_list() {
    let initial = vec![
        item(1, "A", 10, None),
        item(2, "B", 20, None),
        item(3, "C", 20, Some(2)),
        item(4, "D", -7, None),
    ];
    for index in 1..initial.len() {
        let mut list = list_of(initial.clone(), Some(index));
        assert!(list.move_up());
        assert_eq!(list.selected, Some(index - 1));
        assert!(list.move_down());
        assert_eq!(list.items, initial);
        assert_eq!(list.selected, Some(index));
    }
}

#[test]
fn move_down_then_up_restores_the_list() {
    let initial = vec![
        item(1, "A", 10, None),
        item(2, "B", 20, None),
        item(3, "C", 20, Some(2)),
        item(4, "D", -7, None),
    ];
    for index in 0..initial.len() - 1 {
        let mut list = list_of(initial.clone(), Some(index));
        assert!(list.move_down());
        assert_eq!(list.selected, Some(index + 1));
        assert!(list.move_up());
        assert_eq!(list.items, initial);
        assert_eq!(list.selected, Some(index));
    }
}

#[test]
fn a_child_can_trade_places_with_its_parent() {
    let mut list = list_of(
        vec![item(1, "parent", 10, None), item(2, "child", 5, Some(1)), item(3, "next", 20, None)],
        Some(1),
    );
    assert!(list.move_up());
    assert_eq!(summary(&list), vec![pair("child", 10), pair("parent", 5), pair("next", 20)]);
    assert_eq!(list.items[0].parent_id, Some(1));
    assert_eq!(list.selected, Some(0));
}

#[test]
fn select_next_walks_to_the_end_and_stays() {
    let mut list = list_of(vec![item(1, "A", 1, None), item(2, "B", 2, None)], None);
    list.select_next();
    assert_eq!(list.selected, Some(0));
    list.select_next();
    assert_eq!(list.selected, Some(1));
    list.select_next();
    assert_eq!(list.selected, Some(1));
}

#[test]
fn select_previous_walks_to_the_start_and_stays() {
    let mut list = list_of(vec![item(1, "A", 1, None), item(2, "B", 2, None)], None);
    list.select_previous();
    assert_eq!(list.selected, Some(1));
    list.select_previous();
    assert_eq!(list.selected, Some(0));
    list.select_previous();
    assert_eq!(list.selected, Some(0));
}

#[test]
fn select_first_last_and_none() {
    let mut list = list_of(
        vec![item(1, "A", 1, None), item(2, "B", 2, None), item(3, "C", 3, None)],
        None,
    );
    list.select_last();
    assert_eq!(list.selected, Some(2));
    list.select_first();
    assert_eq!(list.selected, Some(0));
    list.select_none();
    assert_eq!(list.selected, None);
}

#[test]
fn nothing_can_be_selected_in_an_empty_list() {
    let mut list = list_of(Vec::new(), None);
    list.select_first();
    assert_eq!(list.selected, None);
    list.select_last();
    assert_eq!(list.selected, None);
    list.select_next();
    assert_eq!(list.selected, None);
    list.select_previous();
    assert_eq!(list.selected, None);
    list.select(Some(3));
    assert_eq!(list.selected, None);
}

#[test]
fn select_clamps_to_the_last_item() {
    let mut list = list_of(vec![item(1, "A", 1, None), item(2, "B", 2, None)], None);
    list.select(Some(7));
    assert_eq!(list.selected, Some(1));
    list.select(Some(usize::MAX));
    assert_eq!(list.selected, Some(1));
    list.select(Some(0));
    assert_eq!(list.selected, Some(0));
}

#[test]
fn selection_beyond_the_list_steps_back_into_it() {
    let mut list = list_of(vec![item(1, "A", 1, None), item(2, "B", 2, None)], Some(usize::MAX));
    assert_eq!(list.selected_index(), None);
    list.select_next();
    assert_eq!(list.selected, Some(1));
    let mut list = list_of(vec![item(1, "A", 1, None), item(2, "B", 2, None)], Some(9));
    list.select_previous();
    assert_eq!(list.selected, Some(1));
}

#[test]
fn remove_selected_in_the_middle_keeps_the_position() {
    let mut list = list_of(
        vec![item(1, "A", 1, None), item(2, "B", 2, None), item(3, "C", 3, None)],
        Some(1),
    );
    let removed = list.remove_selected();
    assert_eq!(removed, Some(item(2, "B", 2, None)));
    assert_eq!(summary(&list), vec![pair("A", 1), pair("C", 3)]);
    assert_eq!(list.selected, Some(1));
}

#[test]
fn remove_selected_at_the_end_selects_the_new_last() {
    let mut list = list_of(
        vec![item(1, "A", 1, None), item(2, "B", 2, None), item(3, "C", 3, None)],
        Some(2),
    );
    assert_eq!(list.remove_selected(), Some(item(3, "C", 3, None)));
    assert_eq!(list.selected, Some(1));
}

#[test]
fn remove_selected_only_item_drops_the_selection() {
    let mut list = list_of(vec![item(1, "A", 1, None)], Some(0));
    assert_eq!(list.remove_selected(), Some(item(1, "A", 1, None)));
    assert!(list.items.is_empty());
    assert_eq!(list.selected, None);
}

#[test]
fn remove_selected_without_a_selected_item_does_nothing() {
    let mut list = list_of(vec![item(1, "A", 1, None)], None);
    assert_eq!(list.remove_selected(), None);
    assert_eq!(list.items.len(), 1);
    let mut list = list_of(vec![item(1, "A", 1, None)], Some(1));
    assert_eq!(list.remove_selected(), None);
    assert_eq!(list.items.len(), 1);
    assert_eq!(list.selected, Some(1));
}

#[test]
fn set_items_keeps_the_selection_within_the_new_items() {
    let mut list = list_of(
        vec![item(1, "A", 1, None), item(2, "B", 2, None), item(3, "C", 3, None)],
        Some(2),
    );
    list.set_items(vec![item(1, "A", 1, None)]);
    assert_eq!(list.selected, Some(0));
    list.set_items(Vec::new());
    assert_eq!(list.selected, None);
    let mut list = list_of(vec![item(1, "A", 1, None)], Some(0));
    list.set_items(vec![item(1, "A", 1, None), item(2, "B", 2, None)]);
    assert_eq!(list.selected, Some(0));
}

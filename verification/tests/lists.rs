use todo_core::{
    list_delete, list_down, list_drag_down, list_drag_up, list_insert, list_transfer, list_up,
    Focus,
};

fn items(texts: &[&str]) -> Vec<String> {
    texts.iter().map(|t| t.to_string()).collect()
}

#[test]
fn focus_toggles_between_the_lists() {
    assert_eq!(Focus::Todo.toggle(), Focus::Done);
    assert_eq!(Focus::Done.toggle(), Focus::Todo);
    assert_eq!(Focus::Todo.toggle().toggle(), Focus::Todo);
}

#[test]
fn up_moves_and_stops_at_first_item() {
    let list = items(&["a", "b", "c"]);
    let mut cursor = 2;
    list_up(&list, &mut cursor);
    assert_eq!(cursor, 1);
    list_up(&list, &mut cursor);
    assert_eq!(cursor, 0);
    list_up(&list, &mut cursor);
    assert_eq!(cursor, 0);
}

#[test]
fn down_moves_and_stops_at_last_item() {
    let list = items(&["a", "b", "c"]);
    let mut cursor = 0;
    list_down(&list, &mut cursor);
    assert_eq!(cursor, 1);
    list_down(&list, &mut cursor);
    assert_eq!(cursor, 2);
    list_down(&list, &mut cursor);
    assert_eq!(cursor, 2);
}

#[test]
fn navigation_brings_a_stray_cursor_back() {
    let list = items(&["a", "b", "c"]);
    let mut cursor = -1;
    list_up(&list, &mut cursor);
    assert_eq!(cursor, 0);
    let mut cursor = -1;
    list_down(&list, &mut cursor);
    assert_eq!(cursor, 0);
    let mut cursor = 3;
    list_down(&list, &mut cursor);
    assert_eq!(cursor, 2);
    let mut cursor = 3;
    list_up(&list, &mut cursor);
    assert_eq!(cursor, 2);
}

#[test]
fn navigation_stays_on_items() {
    let list = items(&["a", "b", "c", "d"]);
    let mut cursor = 1;
    let steps = [true, true, true, true, false, true, false, false, false, false, false, true];
    for down in steps {
        if down {
            list_down(&list, &mut cursor);
        } else {
            list_up(&list, &mut cursor);
        }
        assert!(0 <= cursor && cursor < 4);
    }
}

#[test]
fn navigation_in_empty_list() {
    let list: Vec<String> = Vec::new();
    let mut cursor = 0;
    list_down(&list, &mut cursor);
    assert_eq!(cursor, -1);
    list_up(&list, &mut cursor);
    assert_eq!(cursor, 0);
}

#[test]
fn drag_up_swaps_with_item_above() {
    let mut list = items(&["a", "b", "c"]);
    let mut cursor = 2;
    list_drag_up(&mut list, &mut cursor);
    assert_eq!(list, items(&["a", "c", "b"]));
    assert_eq!(cursor, 1);
}

#[test]
fn drag_up_at_first_item_does_nothing() {
    let mut list = items(&["a", "b", "c"]);
    let mut cursor = 0;
    list_drag_up(&mut list, &mut cursor);
    assert_eq!(list, items(&["a", "b", "c"]));
    assert_eq!(cursor, 0);
}

#[test]
fn drag_down_swaps_with_item_below() {
    let mut list = items(&["a", "b", "c"]);
    let mut cursor = 0;
    list_drag_down(&mut list, &mut cursor);
    assert_eq!(list, items(&["b", "a", "c"]));
    assert_eq!(cursor, 1);
}

#[test]
fn drag_down_at_last_item_does_nothing() {
    let mut list = items(&["a", "b", "c"]);
    let mut cursor = 2;
    list_drag_down(&mut list, &mut cursor);
    assert_eq!(list, items(&["a", "b", "c"]));
    assert_eq!(cursor, 2);
}

#[test]
fn drag_with_stray_cursor_does_nothing() {
    let mut list = items(&["a", "b"]);
    let mut cursor = 2;
    list_drag_up(&mut list, &mut cursor);
    assert_eq!((list.clone(), cursor), (items(&["a", "b"]), 2));
    let mut cursor = -1;
    list_drag_down(&mut list, &mut cursor);
    assert_eq!((list.clone(), cursor), (items(&["a", "b"]), -1));
    let mut list: Vec<String> = Vec::new();
    let mut cursor = 0;
    list_drag_up(&mut list, &mut cursor);
    list_drag_down(&mut list, &mut cursor);
    assert!(list.is_empty());
    assert_eq!(cursor, 0);
}

#[test]
fn drag_up_then_down_restores() {
    for start in 1..4 {
        let mut list = items(&["a", "b", "c", "d"]);
        let mut cursor = start;
        list_drag_up(&mut list, &mut cursor);
        assert_eq!(cursor, start - 1);
        list_drag_down(&mut list, &mut cursor);
        assert_eq!(list, items(&["a", "b", "c", "d"]));
        assert_eq!(cursor, start);
    }
}

#[test]
fn transfer_moves_item_to_end_of_other_list() {
    let mut src = items(&["a", "b", "c"]);
    let mut dest = items(&["x"]);
    let mut cursor = 1;
    list_transfer(&mut dest, &mut src, &mut cursor);
    assert_eq!(src, items(&["a", "c"]));
    assert_eq!(dest, items(&["x", "b"]));
    assert_eq!(cursor, 0);
}

#[test]
fn transfer_of_first_item_leaves_cursor_before_list() {
    let mut src = items(&["a", "b"]);
    let mut dest = Vec::new();
    let mut cursor = 0;
    list_transfer(&mut dest, &mut src, &mut cursor);
    assert_eq!(src, items(&["b"]));
    assert_eq!(dest, items(&["a"]));
    assert_eq!(cursor, -1);
}

#[test]
fn transfer_from_empty_list_does_nothing() {
    let mut src: Vec<String> = Vec::new();
    let mut dest = items(&["x"]);
    let mut cursor = 0;
    list_transfer(&mut dest, &mut src, &mut cursor);
    assert!(src.is_empty());
    assert_eq!(dest, items(&["x"]));
    assert_eq!(cursor, 0);
}

#[test]
fn transfer_with_stray_cursor_does_nothing() {
    let mut src = items(&["a"]);
    let mut dest = items(&["x"]);
    let mut cursor = -1;
    list_transfer(&mut dest, &mut src, &mut cursor);
    assert_eq!((src.clone(), dest.clone(), cursor), (items(&["a"]), items(&["x"]), -1));
    let mut cursor = 1;
    list_transfer(&mut dest, &mut src, &mut cursor);
    assert_eq!((src, dest, cursor), (items(&["a"]), items(&["x"]), 1));
}

#[test]
fn transfer_there_and_back() {
    let mut a = items(&["one", "two", "three"]);
    let mut b = items(&["x", "y"]);
    let mut a_cursor = 1;
    list_transfer(&mut b, &mut a, &mut a_cursor);
    let mut b_cursor = b.len() as i32 - 1;
    assert_eq!(b[b_cursor as usize], "two");
    list_transfer(&mut a, &mut b, &mut b_cursor);
    assert_eq!(a.len(), 3);
    assert_eq!(a, items(&["one", "three", "two"]));
    assert_eq!(b, items(&["x", "y"]));
}

#[test]
fn insert_puts_empty_item_behind_cursor() {
    let mut list = items(&["a", "b", "c"]);
    let mut cursor = 0;
    list_insert(&mut list, &mut cursor);
    assert_eq!(list, items(&["a", "", "b", "c"]));
    assert_eq!(cursor, 1);
    let mut cursor = 3;
    list_insert(&mut list, &mut cursor);
    assert_eq!(list, items(&["a", "", "b", "c", ""]));
    assert_eq!(cursor, 4);
}

#[test]
fn insert_into_empty_list() {
    let mut list: Vec<String> = Vec::new();
    let mut cursor = 0;
    list_insert(&mut list, &mut cursor);
    assert_eq!(list, items(&[""]));
    assert_eq!(cursor, 0);
}

#[test]
fn insert_with_stray_cursor_goes_to_nearest_end() {
    let mut list = items(&["a"]);
    let mut cursor = -1;
    list_insert(&mut list, &mut cursor);
    assert_eq!(list, items(&["", "a"]));
    assert_eq!(cursor, 0);
    let mut list = items(&["a"]);
    let mut cursor = 5;
    list_insert(&mut list, &mut cursor);
    assert_eq!(list, items(&["a", ""]));
    assert_eq!(cursor, 1);
}

#[test]
fn delete_removes_item_at_cursor() {
    let mut list = items(&["a", "b", "c"]);
    list_delete(&mut list, 1);
    assert_eq!(list, items(&["a", "c"]));
    list_delete(&mut list, 1);
    assert_eq!(list, items(&["a"]));
}

#[test]
fn delete_without_item_does_nothing() {
    let mut list = items(&["a"]);
    list_delete(&mut list, 1);
    list_delete(&mut list, -1);
    assert_eq!(list, items(&["a"]));
    let mut list: Vec<String> = Vec::new();
    list_delete(&mut list, 0);
    assert!(list.is_empty());
}

use todo_tui::lists::{
    list_delete, list_down, list_drag_down, list_drag_up, list_first, list_last, list_transfer,
    list_up,
};

fn strings(items: &[&str]) -> Vec<String> {
    items.iter().map(|s| s.to_string()).collect()
}

#[test]
fn cursor_up_stops_at_first_item() {
    let mut c: usize = 2;
    list_up(&mut c);
    assert_eq!(c, 1);
    list_up(&mut c);
    assert_eq!(c, 0);
    list_up(&mut c);
    assert_eq!(c, 0);
}

#[test]
fn cursor_down_stops_at_last_item() {
    let list = strings(&["a", "b", "c"]);
    let mut c: usize = 1;
    list_down(&list, &mut c);
    assert_eq!(c, 2);
    list_down(&list, &mut c);
    assert_eq!(c, 2);
}

#[test]
fn cursor_down_on_empty_list_stays_put() {
    let list: Vec<String> = Vec::new();
    let mut c: usize = 0;
    list_down(&list, &mut c);
    assert_eq!(c, 0);
}

#[test]
fn cursor_first_and_last() {
    let list = strings(&["a", "b", "c"]);
    let mut c: usize = 1;
    list_first(&mut c);
    assert_eq!(c, 0);
    list_last(&list, &mut c);
    assert_eq!(c, 2);
    let empty: Vec<String> = Vec::new();
    let mut c2: usize = 0;
    list_last(&empty, &mut c2);
    assert_eq!(c2, 0);
}

#[test]
fn drag_up_swaps_and_follows() {
    let mut list = strings(&["a", "b", "c"]);
    let mut c: usize = 1;
    list_drag_up(&mut list, &mut c);
    assert_eq!(list, strings(&["b", "a", "c"]));
    assert_eq!(c, 0);
}

#[test]
fn drag_up_at_top_is_a_no_op() {
    let mut list = strings(&["a", "b"]);
    let mut c: usize = 0;
    list_drag_up(&mut list, &mut c);
    assert_eq!(list, strings(&["a", "b"]));
    assert_eq!(c, 0);
}

#[test]
fn drag_down_swaps_and_follows() {
    let mut list = strings(&["a", "b", "c"]);
    let mut c: usize = 1;
    list_drag_down(&mut list, &mut c);
    assert_eq!(list, strings(&["a", "c", "b"]));
    assert_eq!(c, 2);
}

#[test]
fn drag_down_at_bottom_is_a_no_op() {
    let mut list = strings(&["a", "b"]);
    let mut c: usize = 1;
    list_drag_down(&mut list, &mut c);
    assert_eq!(list, strings(&["a", "b"]));
    assert_eq!(c, 1);
}

#[test]
fn drag_up_then_down_restores_list_and_cursor() {
    let mut list = strings(&["a", "b", "c"]);
    let mut c: usize = 1;
    list_drag_up(&mut list, &mut c);
    list_drag_down(&mut list, &mut c);
    assert_eq!(list, strings(&["a", "b", "c"]));
    assert_eq!(c, 1);
}

#[test]
fn drag_down_then_up_restores_list_and_cursor() {
    let mut list = strings(&["a", "b", "c"]);
    let mut c: usize = 0;
    list_drag_down(&mut list, &mut c);
    list_drag_up(&mut list, &mut c);
    assert_eq!(list, strings(&["a", "b", "c"]));
    assert_eq!(c, 0);
}

#[test]
fn transfer_moves_item_to_tail_and_conserves_count() {
    let mut dst = strings(&["x"]);
    let mut src = strings(&["a", "b", "c"]);
    let mut c: usize = 1;
    let moved = src[c].clone();
    let before = src.len() + dst.len();
    list_transfer(&mut dst, &mut src, &mut c);
    assert_eq!(src.len() + dst.len(), before);
    assert_eq!(dst.last().unwrap(), &moved);
    assert_eq!(dst, strings(&["x", "b"]));
    assert_eq!(src, strings(&["a", "c"]));
    assert_eq!(c, 1);
}

#[test]
fn transfer_of_last_item_reclamps_cursor() {
    let mut dst: Vec<String> = Vec::new();
    let mut src = strings(&["a", "b"]);
    let mut c: usize = 1;
    list_transfer(&mut dst, &mut src, &mut c);
    assert_eq!(src, strings(&["a"]));
    assert_eq!(dst, strings(&["b"]));
    assert_eq!(c, 0);
}

#[test]
fn transfer_on_empty_source_is_a_no_op() {
    let mut dst = strings(&["x"]);
    let mut src: Vec<String> = Vec::new();
    let mut c: usize = 0;
    list_transfer(&mut dst, &mut src, &mut c);
    assert_eq!(dst, strings(&["x"]));
    assert!(src.is_empty());
    assert_eq!(c, 0);
}

#[test]
fn delete_removes_current_and_reclamps() {
    let mut list = strings(&["a", "b"]);
    let mut c: usize = 1;
    list_delete(&mut list, &mut c);
    assert_eq!(list, strings(&["a"]));
    assert_eq!(c, 0);
}

#[test]
fn delete_on_empty_list_is_a_no_op() {
    let mut list: Vec<String> = Vec::new();
    let mut c: usize = 0;
    list_delete(&mut list, &mut c);
    assert!(list.is_empty());
    assert_eq!(c, 0);
}

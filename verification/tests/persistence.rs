use todo_tui::persist::{load_items, parse_item, render_state};
use todo_tui::status::Status;

fn strings(items: &[&str]) -> Vec<String> {
    items.iter().map(|s| s.to_string()).collect()
}

#[test]
fn parse_todo_line() {
    assert_eq!(parse_item("TODO: buy milk"), Some((Status::Todo, "buy milk")));
}

#[test]
fn parse_done_line() {
    assert_eq!(parse_item("DONE: water cat"), Some((Status::Done, "water cat")));
}

#[test]
fn parse_empty_title() {
    assert_eq!(parse_item("TODO: "), Some((Status::Todo, "")));
    assert_eq!(parse_item("DONE: "), Some((Status::Done, "")));
}

#[test]
fn parse_rejects_unknown_prefix() {
    assert_eq!(parse_item("MAYBE: x"), None);
    assert_eq!(parse_item(""), None);
    assert_eq!(parse_item("TODO:missing space"), None);
    assert_eq!(parse_item("TODO"), None);
    assert_eq!(parse_item("todo: lower"), None);
}

#[test]
fn load_splits_lines_in_order() {
    let lines = strings(&["TODO: a", "DONE: b", "TODO: c", "DONE: d"]);
    let (todos, dones) = load_items(&lines).unwrap();
    assert_eq!(todos, strings(&["a", "c"]));
    assert_eq!(dones, strings(&["b", "d"]));
}

#[test]
fn load_of_empty_file_gives_empty_lists() {
    let lines: Vec<String> = Vec::new();
    let (todos, dones) = load_items(&lines).unwrap();
    assert!(todos.is_empty());
    assert!(dones.is_empty());
}

#[test]
fn load_fails_on_first_bad_line_with_its_number() {
    let lines = strings(&["MAYBE: x"]);
    assert_eq!(load_items(&lines), Err(1));
    let lines = strings(&["TODO: a", "MAYBE: x", "DONE: b"]);
    assert_eq!(load_items(&lines), Err(2));
    let lines = strings(&["TODO: a", "DONE: b", ""]);
    assert_eq!(load_items(&lines), Err(3));
}

#[test]
fn save_renders_todos_before_dones() {
    let lines = render_state(&strings(&["a", "b"]), &strings(&["c"]));
    assert_eq!(lines, strings(&["TODO: a", "TODO: b", "DONE: c"]));
}

#[test]
fn save_then_load_round_trips() {
    let todos = strings(&["buy milk", "", "x y z"]);
    let dones = strings(&["done thing"]);
    let lines = render_state(&todos, &dones);
    let (t2, d2) = load_items(&lines).unwrap();
    assert_eq!(t2, todos);
    assert_eq!(d2, dones);
}

#[test]
fn round_trip_keeps_titles_that_look_like_prefixes() {
    let todos = strings(&["DONE: not really"]);
    let dones = strings(&["TODO: nested"]);
    let lines = render_state(&todos, &dones);
    assert_eq!(lines, strings(&["TODO: DONE: not really", "DONE: TODO: nested"]));
    let (t2, d2) = load_items(&lines).unwrap();
    assert_eq!(t2, todos);
    assert_eq!(d2, dones);
}

use todo_tui::app::TodoApp;
use todo_tui::keys::KeyInput;
use todo_tui::layout::LayoutKind;
use todo_tui::render::render_frame;
use todo_tui::ui::{Ui, HIGHLIGHT_PAIR, REGULAR_PAIR};
use todo_tui::vec2::Vec2;

fn strings(items: &[&str]) -> Vec<String> {
    items.iter().map(|s| s.to_string()).collect()
}

#[test]
fn vertical_layout_stacks_rows() {
    let mut ui = Ui::new();
    ui.begin(Vec2::new(0, 0), LayoutKind::Vert);
    ui.label_fixed_width("one", 10, REGULAR_PAIR);
    ui.label_fixed_width("two", 10, REGULAR_PAIR);
    ui.end();
    assert_eq!(ui.cmds.len(), 2);
    assert_eq!((ui.cmds[0].pos.x, ui.cmds[0].pos.y), (0, 0));
    assert_eq!((ui.cmds[1].pos.x, ui.cmds[1].pos.y), (0, 1));
    assert!(ui.stack.is_empty());
}

#[test]
fn horizontal_layout_stacks_columns() {
    let mut ui = Ui::new();
    ui.begin(Vec2::new(0, 0), LayoutKind::Horz);
    ui.label_fixed_width("a", 4, REGULAR_PAIR);
    ui.label_fixed_width("b", 4, REGULAR_PAIR);
    ui.end();
    assert_eq!((ui.cmds[0].pos.x, ui.cmds[0].pos.y), (0, 0));
    assert_eq!((ui.cmds[1].pos.x, ui.cmds[1].pos.y), (4, 0));
}

#[test]
fn nested_layout_folds_size_into_parent() {
    let mut ui = Ui::new();
    ui.begin(Vec2::new(0, 0), LayoutKind::Vert);
    ui.label_fixed_width("head", 3, REGULAR_PAIR);
    ui.begin_layout(LayoutKind::Horz);
    ui.label_fixed_width("a", 2, REGULAR_PAIR);
    ui.label_fixed_width("b", 2, REGULAR_PAIR);
    ui.end_layout();
    ui.label_fixed_width("tail", 3, REGULAR_PAIR);
    ui.end();
    assert_eq!(ui.cmds.len(), 4);
    assert_eq!((ui.cmds[0].pos.x, ui.cmds[0].pos.y), (0, 0));
    assert_eq!((ui.cmds[1].pos.x, ui.cmds[1].pos.y), (0, 1));
    assert_eq!((ui.cmds[2].pos.x, ui.cmds[2].pos.y), (2, 1));
    assert_eq!((ui.cmds[3].pos.x, ui.cmds[3].pos.y), (0, 2));
}

#[test]
fn frame_lays_out_two_panels_side_by_side() {
    let a = TodoApp::new(strings(&["a"]), strings(&["b"]), "hello".to_string());
    let ui = render_frame(&a, 10);
    assert!(ui.stack.is_empty());
    assert_eq!(ui.cmds.len(), 6);

    assert_eq!((ui.cmds[0].pos.x, ui.cmds[0].pos.y), (0, 0));
    assert_eq!(ui.cmds[0].text, "hello");
    assert_eq!(ui.cmds[0].width, 10);
    assert_eq!(ui.cmds[0].style, REGULAR_PAIR);

    assert_eq!((ui.cmds[1].pos.x, ui.cmds[1].pos.y), (0, 1));
    assert_eq!(ui.cmds[1].text, "");

    assert_eq!((ui.cmds[2].pos.x, ui.cmds[2].pos.y), (0, 2));
    assert_eq!(ui.cmds[2].text, "TODO");
    assert_eq!(ui.cmds[2].width, 5);
    assert_eq!(ui.cmds[2].style, HIGHLIGHT_PAIR);

    assert_eq!((ui.cmds[3].pos.x, ui.cmds[3].pos.y), (0, 3));
    assert_eq!(ui.cmds[3].text, "- [ ] a");
    assert_eq!(ui.cmds[3].style, HIGHLIGHT_PAIR);

    assert_eq!((ui.cmds[4].pos.x, ui.cmds[4].pos.y), (5, 2));
    assert_eq!(ui.cmds[4].text, "DONE");
    assert_eq!(ui.cmds[4].style, REGULAR_PAIR);

    assert_eq!((ui.cmds[5].pos.x, ui.cmds[5].pos.y), (5, 3));
    assert_eq!(ui.cmds[5].text, "- [x] b");
    assert_eq!(ui.cmds[5].style, REGULAR_PAIR);

    assert!(ui.caret.is_none());
}

#[test]
fn frame_highlights_cursor_of_focused_panel_only() {
    let mut a = TodoApp::new(strings(&["a", "b"]), strings(&["c"]), String::new());
    a.step(KeyInput::Char('j'));
    let ui = render_frame(&a, 20);
    assert_eq!(ui.cmds[3].style, REGULAR_PAIR);
    assert_eq!(ui.cmds[4].style, HIGHLIGHT_PAIR);
    assert_eq!(ui.cmds[5].text, "DONE");
    assert_eq!(ui.cmds[5].style, REGULAR_PAIR);
    assert_eq!(ui.cmds[6].text, "- [x] c");
    assert_eq!(ui.cmds[6].style, REGULAR_PAIR);

    a.step(KeyInput::Tab);
    let ui = render_frame(&a, 20);
    assert_eq!(ui.cmds[2].style, REGULAR_PAIR);
    assert_eq!(ui.cmds[3].style, REGULAR_PAIR);
    assert_eq!(ui.cmds[4].style, REGULAR_PAIR);
    assert_eq!(ui.cmds[5].style, HIGHLIGHT_PAIR);
    assert_eq!(ui.cmds[6].style, HIGHLIGHT_PAIR);
}

#[test]
fn frame_shows_edit_field_with_caret() {
    let mut a = TodoApp::new(Vec::new(), Vec::new(), String::new());
    a.step(KeyInput::Char('i'));
    a.step(KeyInput::Char('a'));
    a.step(KeyInput::Char('b'));
    let ui = render_frame(&a, 10);
    assert_eq!(ui.cmds.len(), 5);
    assert_eq!(ui.cmds[3].text, "ab");
    assert_eq!(ui.cmds[3].style, REGULAR_PAIR);
    let caret = ui.caret.unwrap();
    assert_eq!((caret.x, caret.y), (2, 3));
}

#[test]
fn frame_caret_lands_in_right_panel_for_done_edits() {
    let mut a = TodoApp::new(Vec::new(), strings(&["x"]), String::new());
    a.step(KeyInput::Tab);
    a.step(KeyInput::Char('r'));
    let ui = render_frame(&a, 10);
    assert_eq!(ui.cmds[4].text, "x");
    let caret = ui.caret.unwrap();
    assert_eq!((caret.x, caret.y), (6, 3));
}

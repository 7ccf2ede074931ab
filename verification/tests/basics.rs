use todo_tui::edit::{insert_char, remove_char};
use todo_tui::keys::{decode_key, KeyInput};
use todo_tui::status::Status;
use todo_tui::vec2::Vec2;

#[test]
fn vec2_new_holds_components() {
    let v = Vec2::new(3, -4);
    assert_eq!(v.x, 3);
    assert_eq!(v.y, -4);
}

#[test]
fn vec2_add_is_componentwise() {
    let v = Vec2::new(1, 2).add(Vec2::new(10, 20));
    assert_eq!(v.x, 11);
    assert_eq!(v.y, 22);
}

#[test]
fn vec2_mul_is_componentwise() {
    let v = Vec2::new(3, -2).mul(Vec2::new(4, 5));
    assert_eq!(v.x, 12);
    assert_eq!(v.y, -10);
}

#[test]
fn status_toggle_swaps_panels() {
    assert_eq!(Status::Todo.toggle(), Status::Done);
    assert_eq!(Status::Done.toggle(), Status::Todo);
}

#[test]
fn decode_special_keys() {
    assert_eq!(decode_key(10), KeyInput::Enter);
    assert_eq!(decode_key(27), KeyInput::Escape);
    assert_eq!(decode_key(9), KeyInput::Tab);
    assert_eq!(decode_key(8), KeyInput::Backspace);
    assert_eq!(decode_key(127), KeyInput::Backspace);
    assert_eq!(decode_key(263), KeyInput::Backspace);
    assert_eq!(decode_key(260), KeyInput::Left);
    assert_eq!(decode_key(261), KeyInput::Right);
}

#[test]
fn decode_printable_keys() {
    assert_eq!(decode_key('j' as i32), KeyInput::Char('j'));
    assert_eq!(decode_key('q' as i32), KeyInput::Char('q'));
    assert_eq!(decode_key(' ' as i32), KeyInput::Char(' '));
    assert_eq!(decode_key('~' as i32), KeyInput::Char('~'));
}

#[test]
fn decode_unhandled_keys() {
    assert_eq!(decode_key(-1), KeyInput::Other);
    assert_eq!(decode_key(31), KeyInput::Other);
    assert_eq!(decode_key(500), KeyInput::Other);
}

#[test]
fn insert_char_at_offset() {
    assert_eq!(insert_char("abc", 0, 'x'), "xabc");
    assert_eq!(insert_char("abc", 1, 'x'), "axbc");
    assert_eq!(insert_char("abc", 3, 'x'), "abcx");
    assert_eq!(insert_char("", 0, 'x'), "x");
}

#[test]
fn insert_char_counts_characters_not_bytes() {
    assert_eq!(insert_char("héllo", 2, 'x'), "héxllo");
}

#[test]
fn remove_char_at_offset() {
    assert_eq!(remove_char("abc", 0), "bc");
    assert_eq!(remove_char("abc", 1), "ac");
    assert_eq!(remove_char("abc", 2), "ab");
    assert_eq!(remove_char("héllo", 1), "hllo");
}

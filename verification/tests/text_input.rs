use iced_widget::keyboard::{Key, Modifiers, Named};
use iced_widget::text_input::cursor::{Cursor, State as CursorState};
use iced_widget::text_input::value::Value;
use iced_widget::text_input::{
    is_jump_modifier_pressed, key_action, mouse_interaction, Id, KeyAction, Operation, State,
};
use iced_widget::mouse::Interaction;
use iced_widget::selectable_group::ClickKind;

fn mods(shift: bool, control: bool, alt: bool) -> Modifiers {
    Modifiers { shift, control, alt, logo: false }
}

#[test]
fn value_splits_into_graphemes() {
    let v = Value::new("a\r\nb");
    assert_eq!(v.len(), 3);
    assert!(!v.is_empty());
    assert_eq!(v.to_string(), "a\r\nb");
    let e = Value::new("");
    assert!(e.is_empty());
    assert_eq!(e.len(), 0);
}

#[test]
fn value_combining_marks_stay_with_their_letter() {
    let v = Value::new("e\u{301}x");
    assert_eq!(v.len(), 2);
}

#[test]
fn value_word_boundaries() {
    let v = Value::new("hello world");
    assert_eq!(v.next_end_of_word(0), 5);
    assert_eq!(v.next_end_of_word(5), 11);
    assert_eq!(v.previous_start_of_word(11), 6);
    assert_eq!(v.previous_start_of_word(6), 0);
    assert_eq!(v.previous_start_of_word(0), 0);
    assert_eq!(v.next_end_of_word(11), 11);
}

#[test]
fn value_select_until_and_secure() {
    let v = Value::new("hello");
    assert_eq!(v.select(1, 3).to_string(), "el");
    assert_eq!(v.until(2).to_string(), "he");
    assert_eq!(v.secure().to_string(), "•••••");
    assert_eq!(v.secure().len(), v.len());
}

#[test]
fn value_insert_and_remove() {
    let mut v = Value::new("ac");
    v.insert(1, 'b');
    assert_eq!(v.to_string(), "abc");
    v.remove(0);
    assert_eq!(v.to_string(), "bc");
    v.insert_many(2, Value::new("de"));
    assert_eq!(v.to_string(), "bcde");
    v.remove_many(1, 3);
    assert_eq!(v.to_string(), "be");
}

#[test]
fn value_insert_resegments() {
    // A combining mark inserted after a letter joins its grapheme.
    let mut v = Value::new("e");
    v.insert(1, '\u{301}');
    assert_eq!(v.len(), 1);
    assert_eq!(v.to_string(), "e\u{301}");
}

#[test]
fn cursor_moves_and_selects() {
    let v = Value::new("hello world");
    let mut c = Cursor::default();
    assert_eq!(c.state(&v), CursorState::Index(0));
    c.move_right(&v);
    assert_eq!(c.state(&v), CursorState::Index(1));
    c.move_right_by_words(&v);
    assert_eq!(c.state(&v), CursorState::Index(5));
    c.select_right(&v);
    assert_eq!(c.selection(&v), Some((5, 6)));
    c.select_right_by_words(&v);
    assert_eq!(c.selection(&v), Some((5, 11)));
    c.move_left(&v);
    assert_eq!(c.state(&v), CursorState::Index(5));
    c.select_left_by_words(&v);
    assert_eq!(c.selection(&v), Some((0, 5)));
    c.select_all(&v);
    assert_eq!(c.selection(&v), Some((0, 11)));
    c.move_to(100);
    assert_eq!(c.state(&v), CursorState::Index(11));
    assert_eq!(c.start(&v), 11);
    assert_eq!(c.end(&v), 11);
}

#[test]
fn cursor_state_is_clamped_to_value() {
    let v = Value::new("abc");
    let mut c = Cursor::default();
    c.select_range(2, 9);
    assert_eq!(c.state(&v), CursorState::Selection { start: 2, end: 3 });
    c.select_range(7, 9);
    assert_eq!(c.state(&v), CursorState::Index(3));
    assert_eq!(c.selection(&v), None);
}

#[test]
fn cursor_move_to_drops_selection() {
    let v = Value::new("abcdef");
    let mut c = Cursor::default();
    c.select_range(1, 4);
    c.move_to(2);
    assert_eq!(c.selection(&v), None);
    assert_eq!(c.state(&v), CursorState::Index(2));
}

#[test]
fn cursor_move_right_by_amount_stops_at_end() {
    let v = Value::new("abc");
    let mut c = Cursor::default();
    c.move_right_by_amount(&v, 10);
    assert_eq!(c.state(&v), CursorState::Index(3));
    c.select_left(&v);
    assert_eq!(c.selection(&v), Some((2, 3)));
}

#[test]
fn state_focus_and_operations() {
    let mut s = State::new();
    assert!(!s.is_focused());
    s.focus(0);
    assert!(s.is_focused());
    let v = Value::new("abc");
    assert_eq!(s.cursor().state(&v), CursorState::Index(3));
    s.move_cursor_to_front();
    assert_eq!(s.cursor().state(&v), CursorState::Index(0));
    s.select_all();
    assert_eq!(s.cursor().selection(&v), Some((0, 3)));
    s.unfocus();
    assert!(!s.is_focused());

    let id = Id::new(String::from("name"));
    let other = Id::new(String::from("other"));
    s.apply(&Operation::Focus(Id::new(String::from("name"))), &Some(id.clone()), 0);
    assert!(s.is_focused());
    s.apply(&Operation::MoveCursorTo(Id::new(String::from("name")), 1), &Some(id.clone()), 0);
    assert_eq!(s.cursor().state(&v), CursorState::Index(1));
    s.apply(&Operation::MoveCursorTo(Id::new(String::from("name")), 2), &Some(other.clone()), 0);
    assert_eq!(s.cursor().state(&v), CursorState::Index(1));
    s.apply(&Operation::Focus(Id::new(String::from("name"))), &Some(other), 0);
    assert!(!s.is_focused());
    s.apply(&Operation::Focus(Id::new(String::from("name"))), &None, 0);
    assert!(!s.is_focused());
}

#[test]
fn focused_state_starts_focused() {
    let s = State::focused(0);
    assert!(s.is_focused());
    assert!(s.is_cursor_visible());
    assert_eq!(s.cursor().state(&Value::new("abc")), CursorState::Index(0));
}

#[test]
fn key_actions() {
    let none = mods(false, false, false);
    let ctrl = mods(false, true, false);
    let c = Key::Character(String::from("c"));
    assert_eq!(key_action(&c, &None, ctrl, false), KeyAction::Copy);
    assert_eq!(
        key_action(&c, &Some(String::from("c")), ctrl, true),
        KeyAction::Insert('c')
    );
    assert_eq!(key_action(&Key::Character(String::from("x")), &None, ctrl, false), KeyAction::Cut);
    assert_eq!(key_action(&Key::Character(String::from("v")), &None, ctrl, false), KeyAction::Paste);
    assert_eq!(
        key_action(&Key::Character(String::from("v")), &None, mods(false, true, true), false),
        KeyAction::Capture
    );
    assert_eq!(key_action(&Key::Character(String::from("a")), &None, ctrl, true), KeyAction::SelectAll);
    assert_eq!(
        key_action(&Key::Character(String::from("q")), &Some(String::from("q")), none, false),
        KeyAction::Insert('q')
    );
    assert_eq!(
        key_action(&Key::Named(Named::Backspace), &Some(String::from("\u{8}")), none, false),
        KeyAction::Backspace
    );
    assert_eq!(key_action(&Key::Named(Named::Enter), &None, none, false), KeyAction::Submit);
    assert_eq!(key_action(&Key::Named(Named::Tab), &None, none, false), KeyAction::Release);
    assert_eq!(key_action(&Key::Named(Named::Escape), &None, none, false), KeyAction::Escape);
    assert_eq!(
        key_action(&Key::Named(Named::Home), &None, none, false),
        KeyAction::Navigate(Named::Home)
    );
    assert_eq!(key_action(&Key::Named(Named::PageUp), &None, none, false), KeyAction::Capture);
    assert_eq!(key_action(&Key::Unidentified, &None, none, false), KeyAction::Capture);
}

#[test]
fn key_pressed_navigates_and_escapes() {
    let v = Value::new("hello world");
    let mut s = State::new();
    // Unfocused: nothing happens.
    assert_eq!(s.key_pressed(&v, &Key::Named(Named::Home), &None, false, true, 0), None);
    s.focus(0);
    assert_eq!(
        s.key_pressed(&v, &Key::Named(Named::Home), &None, false, false, 0),
        None
    );
    assert_eq!(
        s.key_pressed(&v, &Key::Named(Named::Home), &None, false, true, 0),
        Some(KeyAction::Navigate(Named::Home))
    );
    assert_eq!(s.cursor().state(&v), CursorState::Index(0));
    s.modifiers_changed(mods(true, true, false));
    s.key_pressed(&v, &Key::Named(Named::ArrowRight), &None, false, true, 0);
    assert_eq!(s.cursor().selection(&v), Some((0, 5)));
    s.modifiers_changed(mods(true, false, false));
    s.key_pressed(&v, &Key::Named(Named::End), &None, false, true, 0);
    assert_eq!(s.cursor().selection(&v), Some((0, 11)));
    s.modifiers_changed(mods(false, false, false));
    s.key_pressed(&v, &Key::Named(Named::ArrowLeft), &None, false, true, 0);
    assert_eq!(s.cursor().state(&v), CursorState::Index(0));
    assert_eq!(
        s.key_pressed(&v, &Key::Named(Named::Escape), &None, false, true, 0),
        Some(KeyAction::Escape)
    );
    assert!(!s.is_focused());
}

#[test]
fn key_pressed_prepares_word_deletion() {
    let v = Value::new("hello world");
    let mut s = State::new();
    s.focus(0);
    s.modifiers_changed(mods(false, true, false));
    s.key_pressed(&v, &Key::Named(Named::Backspace), &None, false, true, 0);
    assert_eq!(s.cursor().selection(&v), Some((6, 11)));
    let mut secure = State::new();
    secure.focus(0);
    secure.move_cursor_to(4);
    secure.modifiers_changed(mods(false, true, false));
    secure.key_pressed(&v, &Key::Named(Named::Delete), &None, true, true, 0);
    assert_eq!(secure.cursor().selection(&v), Some((4, 11)));
}

#[test]
fn key_released_ends_paste() {
    let mut s = State::new();
    assert!(!s.key_released(&Key::Character(String::from("v"))));
    s.focus(0);
    assert!(s.key_released(&Key::Character(String::from("v"))));
    assert!(!s.key_released(&Key::Named(Named::Tab)));
}

#[test]
fn blinking_and_window_focus() {
    let mut s = State::new();
    assert!(!s.is_cursor_visible());
    assert!(!s.window_focused(0));
    s.focus(1_000);
    assert!(s.is_cursor_visible());
    assert_eq!(s.redraw_requested(1_200), Some(300));
    assert!(s.is_cursor_visible());
    assert_eq!(s.redraw_requested(1_500), Some(500));
    assert!(!s.is_cursor_visible());
    assert_eq!(s.redraw_requested(2_000), Some(500));
    assert!(s.is_cursor_visible());
    assert_eq!(s.redraw_requested(2_499), Some(1));
    assert!(s.is_cursor_visible());
    // A clock read before the last edit counts as no time passed.
    assert_eq!(s.redraw_requested(900), Some(500));
    assert!(s.is_cursor_visible());
    s.window_unfocused();
    assert!(s.is_focused());
    assert!(!s.is_cursor_visible());
    assert_eq!(s.redraw_requested(3_000), None);
    assert!(s.window_focused(3_100));
    assert_eq!(s.redraw_requested(3_700), Some(400));
    assert!(!s.is_cursor_visible());
}

#[test]
fn paste_content_repeats_while_pasting() {
    let mut s = State::new();
    s.focus(0);
    let first = s.paste_content("a\u{7}b\nc");
    assert_eq!(first.to_string(), String::from("abc"));
    // While the paste key is held, the same content is pasted again, even
    // if the clipboard changed.
    let again = s.paste_content("other");
    assert_eq!(again.to_string(), String::from("abc"));
    // Releasing `V` ends the paste: the clipboard is read again.
    assert!(s.key_released(&Key::Character(String::from("v"))));
    let fresh = s.paste_content("other");
    assert_eq!(fresh.to_string(), String::from("other"));
}

#[test]
fn modifiers_and_interaction() {
    assert!(is_jump_modifier_pressed(mods(false, true, false)));
    assert!(!is_jump_modifier_pressed(mods(true, false, true)));
    assert_eq!(mouse_interaction(true, false), Interaction::Text);
    assert_eq!(mouse_interaction(true, true), Interaction::NotAllowed);
    assert_eq!(mouse_interaction(false, true), Interaction::Unset);
}

#[test]
fn ids_compare_by_name() {
    let a = Id::new(String::from("a"));
    assert!(a.same(&Id::new(String::from("a"))));
    assert!(!a.same(&Id::new(String::from("b"))));
}

#[test]
fn unique_ids_differ() {
    let first = Id::unique(0);
    assert!(first.same(&Id::unique(0)));
    assert!(!first.same(&Id::unique(1)));
    assert!(!first.same(&Id::new(String::from("0"))));
    let mut s = State::new();
    s.apply(&Operation::Focus(Id::unique(1)), &Some(first.clone()), 0);
    assert!(!s.is_focused());
    s.apply(&Operation::Focus(Id::unique(0)), &Some(first), 0);
    assert!(s.is_focused());
}

#[test]
fn selected_text_of_a_state() {
    let mut s = State::new();
    assert_eq!(s.selected_text("hello"), None);
    s.select_all();
    assert_eq!(s.selected_text("hello"), Some(String::from("hello")));
    s.move_cursor_to(1);
    assert_eq!(s.selected_text("hello"), None);
    let mut t = State::new();
    t.focus(0);
    t.modifiers_changed(Modifiers { shift: true, control: false, alt: false, logo: false });
    let v = Value::new("hello");
    t.key_pressed(&v, &Key::Named(Named::ArrowLeft), &None, false, true, 0);
    t.key_pressed(&v, &Key::Named(Named::ArrowLeft), &None, false, true, 0);
    assert_eq!(t.selected_text("hello"), Some(String::from("lo")));
    // The selection counts grapheme clusters: the first two of "ééa" are
    // "éé", four bytes.
    let mut u = State::new();
    u.focus(0);
    u.move_cursor_to_front();
    u.modifiers_changed(Modifiers { shift: true, control: false, alt: false, logo: false });
    let w = Value::new("ééa");
    u.key_pressed(&w, &Key::Named(Named::ArrowRight), &None, false, true, 0);
    u.key_pressed(&w, &Key::Named(Named::ArrowRight), &None, false, true, 0);
    assert_eq!(u.selected_text("ééa"), Some(String::from("éé")));
    // A combining accent stays with its letter.
    let mut c = State::new();
    c.select_all();
    assert_eq!(c.selected_text("e\u{301}x"), Some(String::from("e\u{301}x")));
}

#[test]
fn clicks_move_select_and_drag() {
    let v = Value::new("hello world");
    let mut s = State::new();
    assert!(!s.pressed(&v, None, false, 0));
    assert!(!s.is_focused());
    assert!(s.pressed(&v, Some((ClickKind::Single, 3)), false, 0));
    assert!(s.is_focused());
    assert_eq!(s.cursor().state(&v), CursorState::Index(3));
    assert!(s.dragged(&v, 7));
    assert_eq!(s.cursor().selection(&v), Some((3, 7)));
    s.released();
    assert!(!s.dragged(&v, 9));
    assert_eq!(s.cursor().selection(&v), Some((3, 7)));
    assert!(s.pressed(&v, Some((ClickKind::Double, 8)), false, 0));
    assert_eq!(s.cursor().selection(&v), Some((6, 11)));
    assert!(s.pressed(&v, Some((ClickKind::Double, 8)), true, 0));
    assert_eq!(s.cursor().selection(&v), Some((0, 11)));
    assert!(s.pressed(&v, Some((ClickKind::Single, 2)), false, 0));
    s.modifiers_changed(Modifiers { shift: true, control: false, alt: false, logo: false });
    assert!(s.pressed(&v, Some((ClickKind::Single, 5)), false, 0));
    assert_eq!(s.cursor().selection(&v), Some((2, 5)));
    assert!(s.pressed(&v, Some((ClickKind::Triple, 0)), false, 0));
    assert_eq!(s.cursor().selection(&v), Some((0, 11)));
    assert!(!s.pressed(&v, None, false, 0));
    assert!(!s.is_focused());
}

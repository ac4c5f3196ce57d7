use iced_widget::keyboard::{Modifiers, Named};
use iced_widget::selectable_group::{
    apply_keyboard_action, copy_ranges, hit_test_sibling, join_chunks, key_action,
    selection_range_for, selection_ranges, sibling_target, ClickKind, GroupState, KeyAction,
};

fn mods(shift: bool, control: bool) -> Modifiers {
    Modifiers { shift, control, alt: false, logo: false }
}

#[test]
fn range_within_one_widget() {
    assert_eq!(selection_range_for(1, 1, 3, 1, 7, 10), Some((3, 7)));
    assert_eq!(selection_range_for(0, 1, 3, 1, 7, 10), None);
}

#[test]
fn range_across_widgets_forward_and_backward() {
    // Anchor in widget 0 at byte 2, focus in widget 2 at byte 4.
    assert_eq!(selection_range_for(0, 0, 2, 2, 4, 5), Some((2, 5)));
    assert_eq!(selection_range_for(1, 0, 2, 2, 4, 6), Some((0, 6)));
    assert_eq!(selection_range_for(2, 0, 2, 2, 4, 9), Some((0, 4)));
    assert_eq!(selection_range_for(3, 0, 2, 2, 4, 9), None);
    // The same selection made backwards.
    assert_eq!(selection_range_for(2, 2, 4, 0, 2, 9), Some((0, 4)));
    assert_eq!(selection_range_for(0, 2, 4, 0, 2, 5), Some((2, 5)));
}

#[test]
fn ranges_for_every_widget() {
    let lens = vec![5, 6, 9];
    assert_eq!(
        selection_ranges(&lens, (0, 2), (2, 4)),
        vec![Some((2, 5)), Some((0, 6)), Some((0, 4))]
    );
    // Swapping anchor and focus covers the same bytes.
    assert_eq!(
        selection_ranges(&lens, (2, 4), (0, 2)),
        vec![Some((2, 5)), Some((0, 6)), Some((0, 4))]
    );
}

#[test]
fn siblings() {
    assert_eq!(sibling_target(0, -1, 3), None);
    assert_eq!(sibling_target(0, 1, 3), Some(1));
    assert_eq!(sibling_target(2, 1, 3), None);
    let lens = vec![4, 8];
    assert_eq!(hit_test_sibling(0, 1, &lens, Some(3)), Some((1, 3)));
    assert_eq!(hit_test_sibling(0, 1, &lens, None), Some((1, 0)));
    assert_eq!(hit_test_sibling(1, -1, &lens, None), Some((0, 4)));
    assert_eq!(hit_test_sibling(1, 1, &lens, None), None);
}

#[test]
fn keys() {
    assert_eq!(key_action(Named::ArrowLeft, mods(false, false)), Some(KeyAction::Char(-1)));
    assert_eq!(key_action(Named::ArrowRight, mods(false, true)), Some(KeyAction::Word(1)));
    assert_eq!(key_action(Named::Enter, mods(false, false)), None);
}

#[test]
fn click_drag_release() {
    let lens = vec![5, 5];
    let mut state = GroupState::new();
    let sel = state.press(Some((0, 1)), ClickKind::Single, None, &lens);
    assert_eq!(sel, vec![Some((1, 1)), None]);
    assert_eq!(state.anchor, Some((0, 1)));
    assert!(state.selecting);
    let sel = state.drag(Some((1, 2)), &lens).unwrap();
    assert_eq!(sel, vec![Some((1, 5)), Some((0, 2))]);
    let sel = state.drag(None, &lens).unwrap();
    assert_eq!(sel, vec![Some((1, 5)), Some((0, 5))]);
    let released = state.release(&vec![Some((1, 1)), Some((0, 5))]);
    assert_eq!(released, vec![None, Some((0, 5))]);
    assert!(!state.selecting);
    assert_eq!(state.drag(Some((0, 0)), &lens), None);
}

#[test]
fn double_click_selects_word_and_shift_extends() {
    let lens = vec![10];
    let mut state = GroupState::new();
    let sel = state.press(Some((0, 4)), ClickKind::Double, Some((2, 6)), &lens);
    assert_eq!(sel, vec![Some((2, 6))]);
    assert!(!state.selecting);
    state.modifiers_changed(mods(true, false));
    let sel = state.press(Some((0, 9)), ClickKind::Double, Some((7, 10)), &lens);
    assert_eq!(sel, vec![Some((2, 9))]);
}

#[test]
fn press_outside_clears() {
    let lens = vec![3, 3];
    let mut state = GroupState::new();
    state.press(Some((0, 1)), ClickKind::Single, None, &lens);
    let sel = state.press(None, ClickKind::Single, None, &lens);
    assert_eq!(sel, vec![None, None]);
    assert_eq!(state.anchor, None);
}

#[test]
fn select_all_and_escape() {
    let lens = vec![3, 0, 4];
    let mut empty = GroupState::new();
    assert_eq!(empty.select_all(&lens), None);
    let mut state = GroupState::new();
    state.press(Some((1, 0)), ClickKind::Single, None, &lens);
    assert_eq!(state.select_all(&lens), Some(vec![Some((0, 3)), None, Some((0, 4))]));
    assert_eq!(state.anchor, Some((0, 0)));
    assert_eq!(state.focus, Some((2, 4)));
    let (had, cleared) = state.escape(3);
    assert!(had);
    assert_eq!(cleared, vec![None, None, None]);
    let (had, _) = state.escape(3);
    assert!(!had);
}

#[test]
fn keyboard_steps() {
    let lens = vec![3, 4];
    let mut state = GroupState::new();
    state.press(Some((0, 3)), ClickKind::Single, None, &lens);
    // The focused widget cannot move right any further: the step enters
    // the next widget at its start.
    let sel = apply_keyboard_action(&mut state, KeyAction::Char(1), true, &lens, Some(3), None);
    assert_eq!(sel, Some(vec![Some((3, 3)), Some((0, 0))]));
    assert_eq!(state.focus, Some((1, 0)));
    // A step inside the widget, extending.
    let sel = apply_keyboard_action(&mut state, KeyAction::Char(1), true, &lens, Some(1), None);
    assert_eq!(sel, Some(vec![Some((3, 3)), Some((0, 1))]));
    // Without extending, the anchor follows.
    let sel = apply_keyboard_action(&mut state, KeyAction::DocEdge(-1), false, &lens, None, None);
    assert_eq!(sel, Some(vec![Some((0, 0)), None]));
    let mut none = GroupState::new();
    assert_eq!(apply_keyboard_action(&mut none, KeyAction::Char(1), false, &lens, None, None), None);
}

#[test]
fn copying() {
    let sel = vec![Some((4, 1)), None, Some((2, 2)), Some((0, 3))];
    assert_eq!(copy_ranges(&sel), vec![(0, 1, 4), (3, 0, 3)]);
    assert_eq!(
        join_chunks(&vec![String::from("ab"), String::from("cd")]),
        Some(String::from("ab\ncd"))
    );
    assert_eq!(join_chunks(&vec![]), None);
    assert_eq!(join_chunks(&vec![String::new()]), None);
}

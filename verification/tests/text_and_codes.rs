use iced_widget::keyboard::{Key, Modifiers, Named};
use iced_widget::qr_code::{Data, Error, ErrorCorrection, Version, QRCode, DEFAULT_CELL_SIZE_BITS, QUIET_ZONE};
use iced_widget::shortcut::{shortcut, Shortcut};
use iced_widget::selectable_group::ClickKind;
use iced_widget::text::rich::{
    collect_selection, floor_char_boundary, focus_default, RichSelection, SelectionAction,
    SelectionEvent,
};
use iced_widget::text_input::dnd::{DndCommand, DndEvent, DndOfferState, ACTION_COPY, ACTION_MOVE};
use iced_widget::text_input::ime_state::IMEState;
use iced_widget::text_input::wayland::TextInputString;
use iced_widget::time::{elapsed_millis, is_blink_on, millis_until_blink, CURSOR_BLINK_INTERVAL_MILLIS};

#[test]
fn qr_code_widths() {
    let data = Data::new(b"Hello, world!").unwrap();
    assert_eq!(data.width(), 21);
    assert_eq!(data.side_length(), 21 + 2 * QUIET_ZONE);
    let v5 = Data::with_version(b"Hello", Version::Normal(5), ErrorCorrection::Low).unwrap();
    assert_eq!(v5.width(), 37);
    let micro = Data::with_version(b"123", Version::Micro(1), ErrorCorrection::Low).unwrap();
    assert_eq!(micro.width(), 11);
    let high = Data::with_error_correction(b"Hello, world!", ErrorCorrection::High).unwrap();
    assert!(high.width() >= 21);
    // The smallest version that holds the data is chosen.
    let v = (high.width() - 17) / 4;
    for smaller in 1..v {
        assert!(Data::with_version(b"Hello, world!", Version::Normal(smaller as u8), ErrorCorrection::High).is_err());
    }
    assert!(Data::with_version(b"Hello, world!", Version::Normal(v as u8), ErrorCorrection::High).is_ok());
}

#[test]
fn qr_code_errors() {
    let long = vec![b'x'; 4000];
    assert_eq!(Data::new(&long).err(), Some(Error::DataTooLong));
    assert_eq!(
        Data::with_version(b"123", Version::Micro(1), ErrorCorrection::High).err(),
        Some(Error::InvalidVersion)
    );
    assert_eq!(
        Data::with_version(&vec![b'7'; 200], Version::Normal(1), ErrorCorrection::Low).err(),
        Some(Error::DataTooLong)
    );
    // Versions that do not exist give an error.
    assert!(Data::with_version(b"1", Version::Normal(0), ErrorCorrection::Low).is_err());
    assert!(Data::with_version(b"1", Version::Normal(41), ErrorCorrection::Low).is_err());
    assert!(Data::with_version(b"1", Version::Micro(5), ErrorCorrection::Low).is_err());
    assert!(Data::with_version(b"", Version::Micro(0), ErrorCorrection::Low).is_err());
}

#[test]
fn qr_code_dark_cells_lie_in_the_grid() {
    let data = Data::new(b"cells").unwrap();
    let cells = data.dark_cells();
    assert!(!cells.is_empty());
    for (row, column) in &cells {
        assert!(*row < data.width() && *column < data.width());
    }
    // The top left finder pattern starts with a dark module.
    assert_eq!(cells[0], (0, 0));
    let mut sorted = cells.clone();
    sorted.sort();
    assert_eq!(sorted, cells);
}

#[test]
fn qr_code_widget_builder() {
    let data = Data::new(b"x").unwrap();
    let _code: QRCode<()> = QRCode::new(&data).cell_size(2.0f32.to_bits());
    assert_eq!(f32::from_bits(DEFAULT_CELL_SIZE_BITS), 4.0);
}

#[test]
fn blinking() {
    assert!(is_blink_on(0));
    assert!(is_blink_on(499));
    assert!(!is_blink_on(500));
    assert!(is_blink_on(1000));
    assert_eq!(millis_until_blink(0), CURSOR_BLINK_INTERVAL_MILLIS);
    assert_eq!(millis_until_blink(499), 1);
    assert_eq!(millis_until_blink(730), 270);
    // Waiting as long as told flips the cursor.
    assert_ne!(is_blink_on(730 + millis_until_blink(730)), is_blink_on(730));
}

#[test]
fn rich_text_selection() {
    let s = "añb";
    assert_eq!(floor_char_boundary(s, 2), 1);
    assert_eq!(floor_char_boundary(s, 3), 3);
    assert_eq!(floor_char_boundary(s, 10), 4);
    let spans = vec![String::from("héllo "), String::from("world")];
    assert_eq!(collect_selection(&spans, 1, 9), "éllo wo");
    assert_eq!(collect_selection(&spans, 2, 9), "éllo wo");
    assert_eq!(collect_selection(&spans, 3, 9), "llo wo");
    assert_eq!(collect_selection(&spans, 0, 0), "");
    assert_eq!(focus_default(Named::ArrowLeft, 7), 7);
    assert_eq!(focus_default(Named::End, 7), 0);
    assert_eq!(focus_default(Named::Enter, 7), 0);
}

#[test]
fn ime_candidates() {
    let mut ime: IMEState<()> = IMEState::new((), ());
    ime.set_before_preedit_text(String::from("before"));
    assert_eq!(ime.before_preedit_text(), "before");
    // "あいう" is three characters of three bytes each.
    ime.set_event(String::from("あいう"), Some((3, 6)));
    assert_eq!(ime.split_to_pieces(), [Some("あ"), Some("い"), Some("う")]);
    assert_eq!(ime.before_cursor_text(), "あいう");
    // A range that cuts characters widens to their boundaries.
    ime.set_event(String::from("あいう"), Some((4, 5)));
    assert_eq!(ime.split_to_pieces(), [Some("あ"), Some("い"), Some("う")]);
    // An empty range is a cursor.
    ime.set_event(String::from("あいう"), Some((6, 6)));
    assert_eq!(ime.split_to_pieces(), [Some("あいう"), None, None]);
    assert_eq!(ime.before_cursor_text(), "あい");
    ime.set_event(String::from("abc"), None);
    assert_eq!(ime.split_to_pieces(), [Some("abc"), None, None]);
    assert_eq!(ime.before_cursor_text(), "abc");
    // An end past the text is clamped to it.
    ime.set_event(String::from("abc"), Some((1, 40)));
    assert_eq!(ime.split_to_pieces(), [Some("a"), Some("bc"), Some("")]);
}

#[test]
fn clipboard_payloads() {
    let text = TextInputString(String::from("héllo"));
    assert_eq!(text.from_mime_type("text/plain"), Some("héllo".as_bytes().to_vec()));
    assert_eq!(text.from_mime_type("UTF8_STRING"), Some("héllo".as_bytes().to_vec()));
    assert_eq!(text.from_mime_type("image/png"), None);
    assert_eq!(text.from_mime_type("TEXT "), None);
}

#[test]
fn shortcuts_match_in_order() {
    let ctrl = Modifiers { shift: false, control: true, alt: false, logo: false };
    let is_save = |key: &Key, m: Modifiers| m.control && matches!(key, Key::Character(s) if s == "s");
    let always = |_key: &Key, _m: Modifiers| true;
    let widget: Shortcut<&str, Box<dyn Fn(&Key, Modifiers) -> bool>, &str> = shortcut("content");
    let widget = widget.on_key(Box::new(is_save), "save").on_key(Box::new(always), "any");
    assert_eq!(widget.matching(&Key::Character(String::from("s")), ctrl), Some(&"save"));
    assert_eq!(widget.matching(&Key::Named(Named::Enter), ctrl), Some(&"any"));
    let empty: Shortcut<&str, Box<dyn Fn(&Key, Modifiers) -> bool>, &str> = Shortcut::new("c");
    assert_eq!(empty.matching(&Key::Named(Named::Enter), ctrl), None);
}

fn strings(v: &[&str]) -> Vec<String> {
    v.iter().map(|s| s.to_string()).collect()
}

#[test]
fn drag_and_drop_of_text() {
    let mut offer = DndOfferState::NoOffer;
    // An offer outside the input is remembered, nothing accepted.
    let r = offer.handle(DndEvent::Enter { inside: false, mime_types: strings(&["image/png", "TEXT"]) }, true);
    assert!(r.captured && r.commands.is_empty() && !r.move_cursor);
    // It moves over the input: the text type is accepted.
    let r = offer.handle(DndEvent::Motion { inside: true }, true);
    assert_eq!(
        r.commands,
        vec![
            DndCommand::Accept(Some(String::from("TEXT"))),
            DndCommand::SetActions { preferred: ACTION_MOVE, accepted: ACTION_MOVE | ACTION_COPY },
        ]
    );
    assert!(r.move_cursor);
    // The source allows copying only.
    let r = offer.handle(DndEvent::SourceActions(ACTION_COPY), true);
    assert_eq!(r.commands, vec![DndCommand::SetActions { preferred: 0, accepted: ACTION_COPY }]);
    // Dropped: the data is asked for in the preferred text type.
    let r = offer.handle(DndEvent::DropPerformed, true);
    assert_eq!(r.commands, vec![DndCommand::RequestDndData(String::from("TEXT"))]);
    assert!(!r.captured);
    // Leaving keeps a drop waiting for its data.
    assert!(offer.handle(DndEvent::Leave, true).captured);
    let r = offer.handle(DndEvent::Data { mime_type: String::from("TEXT"), data: b"dropped".to_vec() }, true);
    assert_eq!(r.paste, Some(String::from("dropped")));
    assert_eq!(r.commands, vec![DndCommand::DndFinished]);
    // The offer is over.
    let r = offer.handle(DndEvent::Data { mime_type: String::from("TEXT"), data: b"again".to_vec() }, true);
    assert!(!r.captured && r.paste.is_none());
}

#[test]
fn drag_and_drop_refusals() {
    let mut offer = DndOfferState::NoOffer;
    // Without a handler, offers are ignored.
    let r = offer.handle(DndEvent::Enter { inside: true, mime_types: strings(&["TEXT"]) }, false);
    assert!(!r.captured);
    // No text type: ignored.
    let r = offer.handle(DndEvent::Enter { inside: true, mime_types: strings(&["image/png"]) }, true);
    assert!(!r.captured && r.commands.is_empty());
    // Accepted, then moved out: refused again.
    let r = offer.handle(
        DndEvent::Enter { inside: true, mime_types: strings(&["text/plain", "UTF8_STRING"]) },
        true,
    );
    assert_eq!(r.commands.len(), 3);
    let r = offer.handle(DndEvent::Motion { inside: false }, true);
    assert_eq!(
        r.commands,
        vec![DndCommand::SetActions { preferred: 0, accepted: 0 }, DndCommand::Accept(None)]
    );
    // A drop outside ends the offer.
    assert!(offer.handle(DndEvent::DropPerformed, true).captured);
    let r = offer.handle(DndEvent::DropPerformed, true);
    assert!(!r.captured);
    // Invalid UTF-8 is not pasted.
    let mut dropped = DndOfferState::Dropped;
    let r = dropped.handle(DndEvent::Data { mime_type: String::from("TEXT"), data: vec![0xff, 0xfe] }, true);
    assert!(r.captured && r.paste.is_none());
}

#[test]
fn drop_prefers_utf8_types() {
    let mut offer = DndOfferState::NoOffer;
    offer.handle(DndEvent::Enter { inside: true, mime_types: strings(&["TEXT", "UTF8_STRING"]) }, true);
    let r = offer.handle(DndEvent::DropPerformed, true);
    assert_eq!(r.commands, vec![DndCommand::RequestDndData(String::from("UTF8_STRING"))]);
}

#[test]
fn rich_selection_by_mouse() {
    let mut s = RichSelection::new();
    // A press that misses an unfocused text does nothing.
    assert_eq!(s.step(SelectionEvent::Pressed(None), true), SelectionAction::Ignored);
    // Drag-select from byte 2 to byte 7.
    assert_eq!(
        s.step(SelectionEvent::Pressed(Some((ClickKind::Single, 2, 2))), true),
        SelectionAction::CaptureAndRedraw
    );
    assert_eq!(s.step(SelectionEvent::Dragged(Some(7)), true), SelectionAction::Redraw);
    assert_eq!(s.step(SelectionEvent::Dragged(Some(7)), true), SelectionAction::Ignored);
    assert_eq!(s.step(SelectionEvent::Released, true), SelectionAction::Ignored);
    assert_eq!(s.selection, Some((2, 7)));
    assert!(!s.selecting);
    // Dragging after the release changes nothing.
    assert_eq!(s.step(SelectionEvent::Dragged(Some(9)), true), SelectionAction::Ignored);
    // A click without a drag leaves no selection.
    s.step(SelectionEvent::Pressed(Some((ClickKind::Single, 4, 4))), true);
    s.step(SelectionEvent::Released, true);
    assert_eq!(s.selection, None);
    assert!(s.focused);
    // A double click selects the word the paragraph found.
    s.step(SelectionEvent::Pressed(Some((ClickKind::Double, 0, 5))), true);
    assert_eq!(s.selection, Some((0, 5)));
    assert!(!s.selecting);
    // A press outside drops the selection and the focus.
    assert_eq!(s.step(SelectionEvent::Pressed(None), true), SelectionAction::Redraw);
    assert_eq!(s.selection, None);
    assert!(!s.focused);
    // A text that is not selectable ignores everything.
    assert_eq!(
        s.step(SelectionEvent::Pressed(Some((ClickKind::Single, 1, 1))), false),
        SelectionAction::Ignored
    );
    assert!(!s.focused);
}

#[test]
fn rich_selection_by_keyboard() {
    let mut s = RichSelection::new();
    // Keys do nothing without the focus.
    assert_eq!(s.step(SelectionEvent::SelectAll { len: 10 }, true), SelectionAction::Ignored);
    s.step(SelectionEvent::Pressed(Some((ClickKind::Single, 3, 3))), true);
    s.step(SelectionEvent::Released, true);
    assert_eq!(s.step(SelectionEvent::Copy, true), SelectionAction::Ignored);
    assert_eq!(s.step(SelectionEvent::SelectAll { len: 10 }, true), SelectionAction::CaptureAndRedraw);
    assert_eq!(s.selection, Some((0, 10)));
    assert_eq!(s.step(SelectionEvent::Copy, true), SelectionAction::Copy(0, 10));
    // Shift+Left moves the focus and keeps the anchor.
    assert_eq!(s.navigation_focus(Named::ArrowLeft, 10), 10);
    let left = SelectionEvent::Key { named: Named::ArrowLeft, command: false, shift: true, stepped: Some(9), len: 10 };
    assert_eq!(s.step(left, true), SelectionAction::CaptureAndRedraw);
    assert_eq!(s.selection, Some((0, 9)));
    // Without Shift the selection collapses to a caret.
    let home = SelectionEvent::Key { named: Named::Home, command: true, shift: false, stepped: None, len: 10 };
    assert_eq!(s.step(home, true), SelectionAction::CaptureAndRedraw);
    assert_eq!(s.selection, Some((0, 0)));
    // Up from the first line goes to the start: already there.
    let up = SelectionEvent::Key { named: Named::ArrowUp, command: false, shift: false, stepped: Some(0), len: 10 };
    assert_eq!(s.step(up, true), SelectionAction::Ignored);
    // Down from the last line goes to the end.
    let down = SelectionEvent::Key { named: Named::ArrowDown, command: false, shift: true, stepped: Some(0), len: 10 };
    assert_eq!(s.step(down, true), SelectionAction::CaptureAndRedraw);
    assert_eq!(s.selection, Some((0, 10)));
    assert_eq!(s.step(SelectionEvent::Copy, true), SelectionAction::Copy(0, 10));
    // Escape drops the selection, then has nothing left to drop.
    let escape = SelectionEvent::Key { named: Named::Escape, command: false, shift: false, stepped: None, len: 10 };
    assert_eq!(s.step(escape, true), SelectionAction::CaptureAndRedraw);
    assert_eq!(s.selection, None);
    assert_eq!(s.step(escape, true), SelectionAction::Ignored);
    // With no selection, Right starts from the front.
    assert_eq!(s.navigation_focus(Named::ArrowRight, 10), 0);
}

#[test]
fn elapsed_time_saturates() {
    assert_eq!(elapsed_millis(1_500, 1_000), 500);
    assert_eq!(elapsed_millis(1_000, 1_500), 0);
}

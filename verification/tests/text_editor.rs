use iced_widget::keyboard::{Key, Modifiers, Named};
use iced_widget::text_editor::{
    binding_effects, char_is_control, focus_step, join_lines, motion, status, unfocuses, Binding,
    Content, Editor, Effect, Focus, FocusEvent, KeyPress, Line, LineEnding, Motion, Status,
};

fn mods(shift: bool, control: bool, alt: bool) -> Modifiers {
    Modifiers { shift, control, alt, logo: false }
}

fn press(key: Key, modifiers: Modifiers, text: Option<&str>, status: Status) -> KeyPress {
    KeyPress { key, modifiers, text: text.map(String::from), status }
}

fn focused() -> Status {
    Status::Focused { is_hovered: false }
}

/// An editor that keeps its lines as given, split on `\n`.
struct Lines {
    lines: Vec<(String, LineEnding)>,
    cursor: (usize, usize),
}

impl Editor for Lines {
    fn spec_lines(&self) -> vstd::seq::Seq<(vstd::seq::Seq<char>, LineEnding)> {
        unreachable!()
    }

    fn spec_selection(&self) -> Option<vstd::seq::Seq<char>> {
        unreachable!()
    }

    fn spec_cursor(&self) -> (usize, usize) {
        unreachable!()
    }

    fn with_text(text: &str) -> Self {
        let parts: Vec<&str> = text.split('\n').collect();
        let n = parts.len();
        let lines = parts
            .into_iter()
            .enumerate()
            .map(|(i, p)| {
                let ending = if i + 1 < n { LineEnding::Lf } else { LineEnding::NoEnding };
                (p.to_string(), ending)
            })
            .collect();
        Lines { lines, cursor: (0, 0) }
    }

    fn line_count(&self) -> usize {
        self.lines.len()
    }

    fn line(&self, index: usize) -> Option<Line> {
        self.lines
            .get(index)
            .map(|(text, ending)| Line { text: text.clone(), ending: *ending })
    }

    fn selection(&self) -> Option<String> {
        None
    }

    fn cursor_position(&self) -> (usize, usize) {
        self.cursor
    }
}

#[test]
fn motions_of_named_keys() {
    assert_eq!(motion(Named::ArrowLeft), Some(Motion::Left));
    assert_eq!(motion(Named::PageDown), Some(Motion::PageDown));
    assert_eq!(motion(Named::Enter), None);
    assert_eq!(Motion::Left.widen(), Motion::WordLeft);
    assert_eq!(Motion::End.widen(), Motion::DocumentEnd);
    assert_eq!(Motion::Up.widen(), Motion::Up);
}

#[test]
fn control_characters() {
    assert!(char_is_control('\u{7f}'));
    assert!(char_is_control('\n'));
    assert!(!char_is_control('a'));
    assert!(!char_is_control('é'));
}

#[test]
fn default_bindings() {
    let none = mods(false, false, false);
    let b: Option<Binding<()>> =
        Binding::from_key_press(press(Key::Named(Named::Enter), none, None, focused()));
    assert!(matches!(b, Some(Binding::Enter)));
    let b: Option<Binding<()>> =
        Binding::from_key_press(press(Key::Named(Named::Enter), none, None, Status::Active));
    assert!(b.is_none());
    let b: Option<Binding<()>> = Binding::from_key_press(press(
        Key::Character(String::from("c")),
        mods(false, true, false),
        Some("c"),
        focused(),
    ));
    assert!(matches!(b, Some(Binding::Copy)));
    let b: Option<Binding<()>> = Binding::from_key_press(press(
        Key::Character(String::from("v")),
        mods(false, true, true),
        Some("v"),
        focused(),
    ));
    assert!(matches!(b, Some(Binding::Insert('v'))));
    let b: Option<Binding<()>> = Binding::from_key_press(press(
        Key::Named(Named::ArrowLeft),
        mods(true, true, false),
        None,
        focused(),
    ));
    assert!(matches!(b, Some(Binding::Select(Motion::WordLeft))));
    let b: Option<Binding<()>> =
        Binding::from_key_press(press(Key::Named(Named::Home), none, None, focused()));
    assert!(matches!(b, Some(Binding::Move(Motion::Home))));
    let b: Option<Binding<()>> = Binding::from_key_press(press(
        Key::Named(Named::Delete),
        none,
        Some("\u{7f}"),
        focused(),
    ));
    assert!(matches!(b, Some(Binding::Delete)));
    let b: Option<Binding<()>> = Binding::from_key_press(press(
        Key::Character(String::from("a")),
        none,
        Some("\u{1}a"),
        focused(),
    ));
    assert!(matches!(b, Some(Binding::Insert('a'))));
    let b: Option<Binding<()>> =
        Binding::from_key_press(press(Key::Named(Named::Escape), none, None, focused()));
    assert!(matches!(b, Some(Binding::Unfocus)));
}

#[test]
fn line_endings() {
    assert_eq!(LineEnding::Lf.as_str(), "\n");
    assert_eq!(LineEnding::CrLf.as_str(), "\r\n");
    assert_eq!(LineEnding::Cr.as_str(), "\r");
    assert_eq!(LineEnding::NoEnding.as_str(), "");
    assert_eq!(LineEnding::default(), LineEnding::Lf);
}

#[test]
fn joining_lines() {
    let lines = vec![
        Line { text: String::from("a"), ending: LineEnding::CrLf },
        Line { text: String::from("b"), ending: LineEnding::NoEnding },
        Line { text: String::from("c"), ending: LineEnding::Cr },
    ];
    assert_eq!(join_lines(&lines), "a\r\nb\nc");
    assert_eq!(join_lines(&vec![]), "");
}

#[test]
fn content_reads_its_editor() {
    let content: Content<Lines> = Content::with_text("one\ntwo\nthree");
    assert_eq!(content.line_count(), 3);
    assert_eq!(content.line(1).map(|l| l.text), Some(String::from("two")));
    assert!(content.line(3).is_none());
    assert_eq!(content.lines().len(), 3);
    assert_eq!(content.text(), "one\ntwo\nthree");
    assert_eq!(content.line_ending(), Some(LineEnding::Lf));
    assert_eq!(content.selection(), None);
    assert_eq!(content.cursor_position(), (0, 0));
    let empty: Content<Lines> = Content::new();
    assert_eq!(empty.text(), "");
    assert_eq!(empty.line_ending(), Some(LineEnding::NoEnding));
}

#[test]
fn focus_blinks_in_a_focused_window() {
    let focus = Focus::now(100);
    assert_eq!(focus, Focus { updated_at: 100, now: 100, is_window_focused: true });
    assert!(focus.is_cursor_visible());
    let later = Focus { now: 700, ..focus };
    assert!(!later.is_cursor_visible());
    let unfocused = Focus { is_window_focused: false, ..focus };
    assert!(!unfocused.is_cursor_visible());
}

#[test]
fn content_holds_the_lines_of_its_text() {
    let c: Content<Lines> = Content::with_text("ab\ncd");
    assert_eq!(
        c.line(0).map(|l| (l.text, l.ending)),
        Some((String::from("ab"), LineEnding::Lf))
    );
    assert_eq!(
        c.line(1).map(|l| (l.text, l.ending)),
        Some((String::from("cd"), LineEnding::NoEnding))
    );
    assert!(c.line(2).is_none());
    let trailing: Content<Lines> = Content::with_text("ab\n");
    assert_eq!(trailing.line_count(), 2);
    assert_eq!(trailing.text(), "ab\n");
    let empty: Content<Lines> = Content::new();
    assert_eq!(empty.line_count(), 1);
    assert_eq!(empty.selection(), None);
}

#[test]
fn binding_effects_follow_the_selection() {
    let copy: Vec<Effect<u8>> = binding_effects(Binding::Copy, false);
    assert!(copy.is_empty());
    let copy: Vec<Effect<u8>> = binding_effects(Binding::Copy, true);
    assert!(matches!(copy.as_slice(), [Effect::CopySelection]));
    let cut: Vec<Effect<u8>> = binding_effects(Binding::Cut, true);
    assert!(matches!(cut.as_slice(), [Effect::CopySelection, Effect::Delete]));
    assert!(binding_effects::<u8>(Binding::Cut, false).is_empty());
    let sequence = Binding::Sequence(vec![
        Binding::Move(Motion::Left),
        Binding::Sequence(vec![Binding::Custom(7u8), Binding::Unfocus]),
        Binding::Insert('x'),
    ]);
    let effects = binding_effects(sequence, false);
    assert!(matches!(
        effects.as_slice(),
        [Effect::Move(Motion::Left), Effect::Publish(7), Effect::Unfocus, Effect::Insert('x')]
    ));
    assert!(unfocuses(&effects));
    assert!(!unfocuses(&binding_effects::<u8>(Binding::Paste, true)));
}

#[test]
fn focus_follows_window_and_bindings() {
    let (focus, redraw) = focus_step(None, FocusEvent::WindowFocused, 5);
    assert_eq!((focus, redraw), (None, None));
    let (focus, redraw) = focus_step(None, FocusEvent::Clicked, 1_000);
    assert_eq!(focus, Some(Focus { updated_at: 1_000, now: 1_000, is_window_focused: true }));
    assert_eq!(redraw, None);
    let (focus, redraw) = focus_step(focus, FocusEvent::RedrawRequested, 1_200);
    assert_eq!(redraw, Some(300));
    assert!(focus.unwrap().is_cursor_visible());
    let (focus, redraw) = focus_step(focus, FocusEvent::RedrawRequested, 1_500);
    assert_eq!(redraw, Some(500));
    assert!(!focus.unwrap().is_cursor_visible());
    let (focus, redraw) = focus_step(focus, FocusEvent::WindowUnfocused, 1_600);
    assert_eq!(redraw, None);
    assert!(!focus.unwrap().is_window_focused);
    assert_eq!(focus_step(focus, FocusEvent::RedrawRequested, 1_700), (focus, None));
    let (focus, redraw) = focus_step(focus, FocusEvent::WindowFocused, 2_000);
    assert_eq!(redraw, Some(0));
    assert_eq!(focus.unwrap().updated_at, 2_000);
    let (kept, _) = focus_step(focus, FocusEvent::BindingApplied { unfocuses: false }, 2_100);
    assert_eq!(kept.unwrap().updated_at, 2_100);
    let (gone, _) = focus_step(kept, FocusEvent::BindingApplied { unfocuses: true }, 2_200);
    assert_eq!(gone, None);
}

#[test]
fn status_of_a_text_editor() {
    assert_eq!(status(true, true, true), Status::Disabled);
    assert_eq!(status(false, true, true), Status::Focused { is_hovered: true });
    assert_eq!(status(false, false, true), Status::Hovered);
    assert_eq!(status(false, false, false), Status::Active);
}

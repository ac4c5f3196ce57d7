//! Display fields that can be filled with text.
//!
//! A text input has some local [`State`]: its focus, its cursor and the
//! keyboard modifiers. Operations addressed to an [`Id`] act on the state of
//! the text input with that id.
pub mod cursor;
pub mod value;
pub mod wayland;
pub mod ime_state;
pub mod dnd;

use vstd::prelude::*;
use crate::time::{blink_on, elapsed, until_blink};
use crate::keyboard::{Key, Modifiers, Named};
use crate::mouse::Interaction;
use crate::text_editor::{is_char, is_control};
use crate::text_input::cursor::{
    Cursor, State as CursorState, clamped, end_of, moved_left, moved_left_by_words,
    moved_right_by, moved_right_by_words, range_state, selected_left, selected_left_by_words,
    selected_right, selected_right_by_words, selection_of, start_of,
};
use crate::selectable_group::ClickKind;
use crate::text_input::value::{
    Value, remove_controls, spec_graphemes, without_controls, spec_next_end_of_word, spec_previous_start_of_word,
};

verus! {

/// The side of a text input.
#[derive(Debug, Clone, Copy, PartialEq, Eq, Structural)]
pub enum Side {
    /// The left side of a text input.
    Left,
    /// The right side of a text input.
    Right,
}

/// The possible status of a text input.
#[derive(Debug, Clone, Copy, PartialEq, Eq, Structural)]
pub enum Status {
    /// The text input can be interacted with.
    Active,
    /// The text input is being hovered.
    Hovered,
    /// The text input is focused.
    Focused,
    /// The text input cannot be interacted with.
    Disabled,
}

/// What identifies a text input: a name given by the application, or a
/// number handed out once.
#[derive(Debug, Clone)]
enum IdKind {
    Custom(String),
    Unique(u64),
}

/// The identifier of a text input, as a value.
pub enum IdView {
    /// A name given by the application.
    Custom(Seq<char>),
    /// A number handed out once.
    Unique(u64),
}

/// The identifier of a text input.
#[derive(Debug, Clone)]
pub struct Id {
    kind: IdKind,
}

impl View for Id {
    type V = IdView;

    closed spec fn view(&self) -> IdView {
        match self.kind {
            IdKind::Custom(name) => IdView::Custom(name@),
            IdKind::Unique(n) => IdView::Unique(n),
        }
    }
}

impl Id {
    /// Creates a custom [`Id`].
    pub fn new(id: String) -> (r: Self)
        ensures
            r@ == IdView::Custom(id@),
    {
        Id { kind: IdKind::Custom(id) }
    }

    /// Creates a unique [`Id`] from a number that is handed out once (the
    /// application counts them): it differs from every custom id, and from
    /// the unique id of every other number.
    pub fn unique(number: u64) -> (r: Self)
        ensures
            r@ == IdView::Unique(number),
    {
        Id { kind: IdKind::Unique(number) }
    }

    /// Whether two ids are the same.
    pub fn same(&self, other: &Id) -> (r: bool)
        ensures
            r == (self@ == other@),
    {
        match (&self.kind, &other.kind) {
            (IdKind::Custom(a), IdKind::Custom(b)) => *a == *b,
            (IdKind::Unique(a), IdKind::Unique(b)) => *a == *b,
            _ => false,
        }
    }
}

/// An operation on the text inputs of an interface, addressed to one of them
/// by its [`Id`].
#[derive(Debug, Clone)]
pub enum Operation {
    /// Focus the text input with the id, and unfocus every other focusable.
    Focus(Id),
    /// Move the cursor of the text input with the id to the end.
    MoveCursorToEnd(Id),
    /// Move the cursor of the text input with the id to the front.
    MoveCursorToFront(Id),
    /// Move the cursor of the text input with the id to a position.
    MoveCursorTo(Id, usize),
    /// Select all the content of the text input with the id.
    SelectAll(Id),
}

/// Produces an [`Operation`] that focuses the text input with the given
/// [`Id`].
pub fn focus(id: Id) -> (r: Operation)
    ensures
        r matches Operation::Focus(i) && i@ == id@,
{
    Operation::Focus(id)
}

/// Produces an [`Operation`] that moves the cursor of the text input with
/// the given [`Id`] to the end.
pub fn move_cursor_to_end(id: Id) -> (r: Operation)
    ensures
        r matches Operation::MoveCursorToEnd(i) && i@ == id@,
{
    Operation::MoveCursorToEnd(id)
}

/// Produces an [`Operation`] that moves the cursor of the text input with
/// the given [`Id`] to the front.
pub fn move_cursor_to_front(id: Id) -> (r: Operation)
    ensures
        r matches Operation::MoveCursorToFront(i) && i@ == id@,
{
    Operation::MoveCursorToFront(id)
}

/// Produces an [`Operation`] that moves the cursor of the text input with
/// the given [`Id`] to the provided position.
pub fn move_cursor_to(id: Id, position: usize) -> (r: Operation)
    ensures
        r matches Operation::MoveCursorTo(i, p) && i@ == id@ && p == position,
{
    Operation::MoveCursorTo(id, position)
}

/// Produces an [`Operation`] that selects all the content of the text input
/// with the given [`Id`].
pub fn select_all(id: Id) -> (r: Operation)
    ensures
        r matches Operation::SelectAll(i) && i@ == id@,
{
    Operation::SelectAll(id)
}

/// When a focused text input was last updated, and whether its window has
/// the focus. Times are milliseconds since a starting point of the caller's
/// choosing.
#[derive(Debug, Clone, Copy, PartialEq, Eq, Structural)]
pub struct Focus {
    /// When the text input was last edited or focused.
    pub updated_at: u128,
    /// The time of the last redraw.
    pub now: u128,
    /// Whether the window of the text input is focused.
    pub is_window_focused: bool,
}

/// The state of a text input.
#[derive(Debug, Clone)]
pub struct State {
    is_focused: Option<Focus>,
    is_dragging: bool,
    is_pasting: Option<Value>,
    cursor: Cursor,
    keyboard_modifiers: Modifiers,
}

impl State {
    /// Whether the text input has the focus.
    pub closed spec fn spec_focused(&self) -> bool {
        self.is_focused is Some
    }

    /// The cursor of the text input.
    pub closed spec fn spec_cursor(&self) -> CursorState {
        self.cursor@
    }

    /// The focus of the text input, with its times, when it has the focus.
    pub closed spec fn spec_focus(&self) -> Option<Focus> {
        self.is_focused
    }

    /// Whether the text input has the focus and its window too.
    pub closed spec fn spec_window_focused(&self) -> bool {
        self.is_focused matches Some(f) && f.is_window_focused
    }

    /// Whether a paste is in progress (its content is kept while the paste
    /// key is held).
    pub closed spec fn spec_pasting(&self) -> bool {
        self.is_pasting is Some
    }

    /// The content of the paste in progress, if any.
    pub closed spec fn spec_pasted(&self) -> Option<Seq<Seq<char>>> {
        match self.is_pasting {
            Some(v) => Some(v@),
            None => None,
        }
    }

    /// The keyboard modifiers last reported.
    pub closed spec fn spec_modifiers(&self) -> Modifiers {
        self.keyboard_modifiers
    }

    /// Whether the user is dragging a selection.
    pub closed spec fn spec_dragging(&self) -> bool {
        self.is_dragging
    }

    /// Creates a new [`State`], representing an unfocused text input.
    pub fn new() -> (r: Self)
        ensures
            !r.spec_focused(),
            !r.spec_dragging(),
            r.spec_cursor() == CursorState::Index(0),
    {
        State {
            is_focused: None,
            is_dragging: false,
            is_pasting: None,
            cursor: Cursor::default(),
            keyboard_modifiers: Modifiers::none(),
        }
    }

    /// Creates a new [`State`], representing a text input focused at `now`,
    /// in a focused window, with its cursor at the front.
    pub fn focused(now: u128) -> (r: Self)
        ensures
            r.spec_focus() == Some(Focus { updated_at: now, now, is_window_focused: true }),
            r.spec_focused(),
            r.spec_window_focused(),
            !r.spec_dragging(),
            !r.spec_pasting(),
            r.spec_cursor() == CursorState::Index(0),
    {
        State {
            is_focused: Some(Focus { updated_at: now, now, is_window_focused: true }),
            is_dragging: false,
            is_pasting: None,
            cursor: Cursor::default(),
            keyboard_modifiers: Modifiers::none(),
        }
    }

    /// Returns whether the text input is currently focused or not.
    pub fn is_focused(&self) -> (r: bool)
        ensures
            r == self.spec_focused(),
    {
        self.is_focused.is_some()
    }

    /// Returns the [`Cursor`] of the text input.
    pub fn cursor(&self) -> (r: Cursor)
        ensures
            r@ == self.spec_cursor(),
    {
        self.cursor
    }

    /// Focuses the text input at `now`, and moves its cursor to the end.
    pub fn focus(&mut self, now: u128)
        ensures
            final(self).spec_focus() == Some(Focus { updated_at: now, now, is_window_focused: true }),
            final(self).spec_focused(),
            final(self).spec_cursor() == CursorState::Index(usize::MAX),
            final(self).spec_dragging() == old(self).spec_dragging(),
    {
        self.is_focused = Some(Focus { updated_at: now, now, is_window_focused: true });
        self.move_cursor_to_end();
    }

    /// Unfocuses the text input.
    pub fn unfocus(&mut self)
        ensures
            !final(self).spec_focused(),
            final(self).spec_cursor() == old(self).spec_cursor(),
            final(self).spec_dragging() == old(self).spec_dragging(),
    {
        self.is_focused = None;
    }

    /// Moves the [`Cursor`] of the text input to the front of the text.
    pub fn move_cursor_to_front(&mut self)
        ensures
            final(self).spec_focus() == old(self).spec_focus(),
            final(self).spec_cursor() == CursorState::Index(0),
            final(self).spec_focused() == old(self).spec_focused(),
            final(self).spec_dragging() == old(self).spec_dragging(),
    {
        self.cursor.move_to(0);
    }

    /// Moves the [`Cursor`] of the text input to the end of the text: to the
    /// largest position, which every value clamps to its length.
    pub fn move_cursor_to_end(&mut self)
        ensures
            final(self).spec_focus() == old(self).spec_focus(),
            final(self).spec_cursor() == CursorState::Index(usize::MAX),
            final(self).spec_focused() == old(self).spec_focused(),
            final(self).spec_dragging() == old(self).spec_dragging(),
    {
        self.cursor.move_to(usize::MAX);
    }

    /// Moves the [`Cursor`] of the text input to an arbitrary location.
    pub fn move_cursor_to(&mut self, position: usize)
        ensures
            final(self).spec_focus() == old(self).spec_focus(),
            final(self).spec_cursor() == CursorState::Index(position),
            final(self).spec_focused() == old(self).spec_focused(),
            final(self).spec_dragging() == old(self).spec_dragging(),
    {
        self.cursor.move_to(position);
    }

    /// Selects all the content of the text input: from the front to the
    /// largest position, which every value clamps to its length.
    pub fn select_all(&mut self)
        ensures
            final(self).spec_focus() == old(self).spec_focus(),
            final(self).spec_cursor() == (CursorState::Selection { start: 0, end: usize::MAX }),
            final(self).spec_focused() == old(self).spec_focused(),
            final(self).spec_dragging() == old(self).spec_dragging(),
    {
        self.cursor.select_range(0, usize::MAX);
    }

    /// The window lost the focus: a focused text input keeps its focus but
    /// stops blinking.
    pub fn window_unfocused(&mut self)
        ensures
            final(self).spec_focused() == old(self).spec_focused(),
            !final(self).spec_window_focused(),
            old(self).spec_focus() matches Some(f) ==> final(self).spec_focus() == Some(
                Focus { is_window_focused: false, ..f },
            ),
            final(self).spec_cursor() == old(self).spec_cursor(),
            final(self).spec_dragging() == old(self).spec_dragging(),
    {
        match &mut self.is_focused {
            Some(focus) => {
                focus.is_window_focused = false;
            },
            None => {},
        }
    }

    /// The window got the focus back at `now`: a focused text input blinks
    /// again, starting with its cursor shown. Returns whether a redraw is
    /// needed, which is when the text input is focused.
    pub fn window_focused(&mut self, now: u128) -> (r: bool)
        ensures
            r == old(self).spec_focused(),
            old(self).spec_focus() matches Some(f) ==> final(self).spec_focus() == Some(
                Focus { updated_at: now, now: f.now, is_window_focused: true },
            ),
            final(self).spec_focused() == old(self).spec_focused(),
            final(self).spec_window_focused() == old(self).spec_focused(),
            final(self).spec_cursor() == old(self).spec_cursor(),
            final(self).spec_dragging() == old(self).spec_dragging(),
    {
        match &mut self.is_focused {
            Some(focus) => {
                focus.is_window_focused = true;
                focus.updated_at = now;
                true
            },
            None => false,
        }
    }

    /// A redraw happens at `now`. A text input that has the focus, in a
    /// focused window, records the time and asks to be redrawn when its
    /// cursor next blinks: the result is that wait, in milliseconds.
    pub fn redraw_requested(&mut self, now: u128) -> (r: Option<u128>)
        ensures
            match old(self).spec_focus() {
                Some(f) => if f.is_window_focused {
                    &&& r == Some(until_blink(elapsed(now, f.updated_at)) as u128)
                    &&& final(self).spec_focus() == Some(Focus { now, ..f })
                } else {
                    &&& r is None
                    &&& final(self).spec_focus() == old(self).spec_focus()
                },
                None => r is None && final(self).spec_focus() is None,
            },
            r matches Some(wait) ==> 1 <= wait <= crate::time::CURSOR_BLINK_INTERVAL_MILLIS,
            final(self).spec_focused() == old(self).spec_focused(),
            final(self).spec_window_focused() == old(self).spec_window_focused(),
            final(self).spec_cursor() == old(self).spec_cursor(),
            final(self).spec_dragging() == old(self).spec_dragging(),
    {
        match &mut self.is_focused {
            Some(focus) => {
                if focus.is_window_focused {
                    focus.now = now;
                    let passed = crate::time::elapsed_millis(now, focus.updated_at);
                    Some(crate::time::millis_until_blink(passed))
                } else {
                    None
                }
            },
            None => None,
        }
    }

    /// Whether the cursor is drawn: only in a focused text input of a
    /// focused window, during the shown half of its blink at the time of
    /// the last redraw.
    pub fn is_cursor_visible(&self) -> (r: bool)
        ensures
            r == (self.spec_focus() matches Some(f) && f.is_window_focused && blink_on(
                elapsed(f.now, f.updated_at),
            )),
    {
        match &self.is_focused {
            Some(focus) => focus.is_window_focused && crate::time::is_blink_on(
                crate::time::elapsed_millis(focus.now, focus.updated_at),
            ),
            None => false,
        }
    }

    /// A press of the left button or a finger. `click` is `None` when the
    /// press misses the text input, or when it takes no input: the input
    /// then loses the focus. Otherwise it carries how many clicks the press
    /// completes and the cursor position under it (found over the secure
    /// value for a single click of a secure input); the input keeps or takes
    /// the focus, and a single click moves the cursor there (with `Shift`,
    /// selects from the start of the cursor) and starts a drag, a double
    /// click selects the word around it (everything in a secure input), a
    /// triple click everything. Returns whether the press is captured.
    pub fn pressed(
        &mut self,
        value: &Value,
        click: Option<(ClickKind, usize)>,
        is_secure: bool,
        now: u128,
    ) -> (r: bool)
        requires
            !is_secure ==> (click matches Some((ClickKind::Double, position)) ==> position
                <= value@.len()),
        ensures
            r == click is Some,
            final(self).spec_focused() == click is Some,
            click is Some && old(self).spec_focused() ==> final(self).spec_window_focused()
                == old(self).spec_window_focused(),
            click is Some && old(self).spec_focused() ==> final(self).spec_focus() == old(
                self,
            ).spec_focus(),
            click is Some && !old(self).spec_focused() ==> final(self).spec_focus() == Some(
                Focus { updated_at: now, now, is_window_focused: true },
            ),
            final(self).spec_modifiers() == old(self).spec_modifiers(),
            final(self).spec_pasting() == old(self).spec_pasting(),
            match click {
                None => {
                    &&& final(self).spec_cursor() == old(self).spec_cursor()
                    &&& final(self).spec_dragging() == old(self).spec_dragging()
                },
                Some((ClickKind::Single, position)) => {
                    &&& final(self).spec_cursor() == if old(self).spec_modifiers().shift {
                        range_state(start_of(old(self).spec_cursor(), value@.len()), position)
                    } else {
                        CursorState::Index(position)
                    }
                    &&& final(self).spec_dragging()
                },
                Some((ClickKind::Double, position)) => {
                    &&& final(self).spec_cursor() == if is_secure {
                        range_state(0, value@.len() as usize)
                    } else {
                        range_state(
                            spec_previous_start_of_word(value@, position as nat) as usize,
                            spec_next_end_of_word(value@, position as nat) as usize,
                        )
                    }
                    &&& !final(self).spec_dragging()
                },
                Some((ClickKind::Triple, _)) => {
                    &&& final(self).spec_cursor() == range_state(0, value@.len() as usize)
                    &&& !final(self).spec_dragging()
                },
            },
    {
        match click {
            None => {
                self.is_focused = None;
                false
            },
            Some((kind, position)) => {
                if self.is_focused.is_none() {
                    self.is_focused = Some(Focus { updated_at: now, now, is_window_focused: true });
                }
                match kind {
                    ClickKind::Single => {
                        if self.keyboard_modifiers.shift() {
                            let start = self.cursor.start(value);
                            self.cursor.select_range(start, position);
                        } else {
                            self.cursor.move_to(position);
                        }
                        self.is_dragging = true;
                    },
                    ClickKind::Double => {
                        if is_secure {
                            self.cursor.select_all(value);
                        } else {
                            let start = value.previous_start_of_word(position);
                            let end = value.next_end_of_word(position);
                            self.cursor.select_range(start, end);
                        }
                        self.is_dragging = false;
                    },
                    ClickKind::Triple => {
                        self.cursor.select_all(value);
                        self.is_dragging = false;
                    },
                }
                true
            },
        }
    }

    /// The left button or the finger was lifted: the drag ends.
    pub fn released(&mut self)
        ensures
            final(self).spec_focus() == old(self).spec_focus(),
            !final(self).spec_dragging(),
            final(self).spec_focused() == old(self).spec_focused(),
            final(self).spec_window_focused() == old(self).spec_window_focused(),
            final(self).spec_cursor() == old(self).spec_cursor(),
            final(self).spec_pasting() == old(self).spec_pasting(),
            final(self).spec_modifiers() == old(self).spec_modifiers(),
    {
        self.is_dragging = false;
    }

    /// The cursor moved to the cursor `position` of the value shown (the
    /// secure value of a secure input): while dragging, the selection
    /// extends from the start of the cursor to it. Returns whether the move
    /// is captured, which is while dragging.
    pub fn dragged(&mut self, shown: &Value, position: usize) -> (r: bool)
        ensures
            final(self).spec_focus() == old(self).spec_focus(),
            r == old(self).spec_dragging(),
            final(self).spec_cursor() == if old(self).spec_dragging() {
                range_state(start_of(old(self).spec_cursor(), shown@.len()), position)
            } else {
                old(self).spec_cursor()
            },
            final(self).spec_dragging() == old(self).spec_dragging(),
            final(self).spec_focused() == old(self).spec_focused(),
            final(self).spec_window_focused() == old(self).spec_window_focused(),
            final(self).spec_pasting() == old(self).spec_pasting(),
            final(self).spec_modifiers() == old(self).spec_modifiers(),
    {
        if self.is_dragging {
            let start = self.cursor.start(shown);
            self.cursor.select_range(start, position);
            true
        } else {
            false
        }
    }

    /// The keyboard modifiers changed.
    pub fn modifiers_changed(&mut self, modifiers: Modifiers)
        ensures
            final(self).spec_focus() == old(self).spec_focus(),
            final(self).spec_modifiers() == modifiers,
            final(self).spec_focused() == old(self).spec_focused(),
            final(self).spec_window_focused() == old(self).spec_window_focused(),
            final(self).spec_cursor() == old(self).spec_cursor(),
            final(self).spec_pasting() == old(self).spec_pasting(),
            final(self).spec_dragging() == old(self).spec_dragging(),
    {
        self.keyboard_modifiers = modifiers;
    }

    /// Handles a key press with the keyboard modifiers last reported. A
    /// text input without the focus, or one that takes no input, ignores it
    /// (`None`). Otherwise its blink restarts at `now`, the key's text (when it is no
    /// clipboard shortcut) ends a paste in progress, the cursor acts as
    /// [`cursor_after_key`] says, `Escape` gives up the focus, and the action
    /// is returned for the caller to edit the value, use the clipboard or
    /// publish messages.
    pub fn key_pressed(
        &mut self,
        value: &Value,
        key: &Key,
        text: &Option<String>,
        is_secure: bool,
        takes_input: bool,
        now: u128,
    ) -> (r: Option<KeyAction>)
        ensures
            !old(self).spec_focused() || !takes_input ==> r is None && *final(self) == *old(self),
            old(self).spec_focused() && takes_input ==> {
                let action = key_action_spec(
                    *key,
                    text_of(*text),
                    old(self).spec_modifiers(),
                    is_secure,
                );
                &&& r == Some(action)
                &&& final(self).spec_cursor() == cursor_after_key(
                    action,
                    old(self).spec_cursor(),
                    value@,
                    old(self).spec_modifiers(),
                    is_secure,
                )
                &&& final(self).spec_focused() == (action != KeyAction::Escape)
                &&& action == KeyAction::Escape ==> {
                    &&& !final(self).spec_dragging()
                    &&& !final(self).spec_pasting()
                    &&& final(self).spec_modifiers() == (Modifiers {
                        shift: false,
                        control: false,
                        alt: false,
                        logo: false,
                    })
                }
                &&& action != KeyAction::Escape ==> {
                    &&& final(self).spec_dragging() == old(self).spec_dragging()
                    &&& final(self).spec_modifiers() == old(self).spec_modifiers()
                    &&& final(self).spec_window_focused() == old(self).spec_window_focused()
                    &&& final(self).spec_focus() == Some(
                        Focus { updated_at: now, ..old(self).spec_focus()->0 },
                    )
                    &&& final(self).spec_pasting() == (old(self).spec_pasting() && (shortcut_of(
                        *key,
                        old(self).spec_modifiers(),
                        is_secure,
                    ) is Some || text is None))
                }
            },
    {
        if self.is_focused.is_none() || !takes_input {
            return None;
        }
        let modifiers = self.keyboard_modifiers;
        let action = key_action(key, text, modifiers, is_secure);
        match &mut self.is_focused {
            Some(focus) => {
                focus.updated_at = now;
            },
            None => {},
        }
        let shortcut = match action {
            KeyAction::Copy | KeyAction::Cut | KeyAction::Paste | KeyAction::SelectAll => true,
            _ => false,
        };
        if !shortcut && text.is_some() {
            self.is_pasting = None;
        }
        match action {
            KeyAction::SelectAll => {
                self.cursor.select_all(value);
            },
            KeyAction::Navigate(Named::ArrowLeft) => {
                if modifiers.jump() && !is_secure {
                    if modifiers.shift() {
                        self.cursor.select_left_by_words(value);
                    } else {
                        self.cursor.move_left_by_words(value);
                    }
                } else if modifiers.shift() {
                    self.cursor.select_left(value);
                } else {
                    self.cursor.move_left(value);
                }
            },
            KeyAction::Navigate(Named::ArrowRight) => {
                if modifiers.jump() && !is_secure {
                    if modifiers.shift() {
                        self.cursor.select_right_by_words(value);
                    } else {
                        self.cursor.move_right_by_words(value);
                    }
                } else if modifiers.shift() {
                    self.cursor.select_right(value);
                } else {
                    self.cursor.move_right(value);
                }
            },
            KeyAction::Navigate(Named::Home) => {
                if modifiers.shift() {
                    let start = self.cursor.start(value);
                    self.cursor.select_range(start, 0);
                } else {
                    self.cursor.move_to(0);
                }
            },
            KeyAction::Navigate(Named::End) => {
                if modifiers.shift() {
                    let start = self.cursor.start(value);
                    self.cursor.select_range(start, value.len());
                } else {
                    self.cursor.move_to(value.len());
                }
            },
            KeyAction::Backspace => {
                if modifiers.jump() && self.cursor.selection(value).is_none() {
                    if is_secure {
                        let end = self.cursor.end(value);
                        self.cursor.select_range(0, end);
                    } else {
                        self.cursor.select_left_by_words(value);
                    }
                }
            },
            KeyAction::Delete => {
                if modifiers.jump() && self.cursor.selection(value).is_none() {
                    if is_secure {
                        let end = self.cursor.end(value);
                        self.cursor.select_range(end, value.len());
                    } else {
                        self.cursor.select_right_by_words(value);
                    }
                }
            },
            KeyAction::Escape => {
                self.is_focused = None;
                self.is_dragging = false;
                self.is_pasting = None;
                self.keyboard_modifiers = Modifiers::none();
            },
            _ => {},
        }
        Some(action)
    }

    /// Handles a key release by a focused text input: releasing `V` ends a
    /// paste in progress. Returns whether the event is captured: by a
    /// focused text input, unless the key moves the focus (`Tab`, `↑`,
    /// `↓`). An unfocused text input also forgets any paste in progress.
    pub fn key_released(&mut self, key: &Key) -> (r: bool)
        ensures
            final(self).spec_focus() == old(self).spec_focus(),
            r == (old(self).spec_focused() && !(*key matches Key::Named(n) && (n == Named::Tab
                || n == Named::ArrowUp || n == Named::ArrowDown))),
            final(self).spec_pasting() == (old(self).spec_pasting() && old(self).spec_focused() && !(
            *key matches Key::Character(s) && s@ == seq!['v'])),
            final(self).spec_focused() == old(self).spec_focused(),
            final(self).spec_window_focused() == old(self).spec_window_focused(),
            final(self).spec_cursor() == old(self).spec_cursor(),
            final(self).spec_dragging() == old(self).spec_dragging(),
            final(self).spec_modifiers() == old(self).spec_modifiers(),
    {
        if self.is_focused.is_some() {
            match key {
                Key::Character(s) => {
                    if is_char(s, 'v') {
                        self.is_pasting = None;
                    }
                },
                Key::Named(Named::Tab) | Key::Named(Named::ArrowUp) | Key::Named(Named::ArrowDown) => {
                    return false;
                },
                _ => {},
            }
            return true;
        }
        self.is_pasting = None;
        false
    }

    /// The content that a paste inserts, given the text of the clipboard:
    /// while the paste key is held, the content of the paste in progress is
    /// pasted again; otherwise the clipboard's text without its control
    /// codes. The content becomes the paste in progress.
    pub fn paste_content(&mut self, clipboard: &str) -> (r: Value)
        ensures
            r@ == match old(self).spec_pasted() {
                Some(v) => v,
                None => spec_graphemes(without_controls(clipboard@)),
            },
            final(self).spec_pasted() == Some(r@),
            final(self).spec_pasting(),
            final(self).spec_focus() == old(self).spec_focus(),
            final(self).spec_focused() == old(self).spec_focused(),
            final(self).spec_window_focused() == old(self).spec_window_focused(),
            final(self).spec_cursor() == old(self).spec_cursor(),
            final(self).spec_dragging() == old(self).spec_dragging(),
            final(self).spec_modifiers() == old(self).spec_modifiers(),
    {
        let content = match &self.is_pasting {
            Some(v) => v.select(0, v.len()),
            None => {
                let text = remove_controls(clipboard);
                Value::new(text.as_str())
            },
        };
        self.is_pasting = Some(content.select(0, content.len()));
        content
    }

    /// The selected text of `text`, which the text input shows: the
    /// grapheme clusters of `text` between the ends of the selection, or
    /// `None` when nothing is selected.
    pub fn selected_text(&self, text: &str) -> (r: Option<String>)
        ensures
            match selection_of(clamped(self.spec_cursor(), spec_graphemes(text@).len())) {
                Some((left, right)) => r matches Some(s) && s@ == spec_graphemes(text@).subrange(
                    left as int,
                    right as int,
                ).flatten(),
                None => r is None,
            },
    {
        let value = Value::new(text);
        match self.cursor.selection(&value) {
            None => None,
            Some((left, right)) => Some(value.select(left, right).to_string()),
        }
    }

    /// Applies an operation to the state of the text input with the id `id`
    /// (if it has one): a focus operation focuses the addressed input at
    /// `now` and unfocuses every other one; the other operations act on the addressed
    /// input only.
    pub fn apply(&mut self, operation: &Operation, id: &Option<Id>, now: u128)
        ensures
            ({
                let addressed = |target: Id| id matches Some(i) && i@ == target@;
                match operation {
                    Operation::Focus(target) => if addressed(*target) {
                        &&& final(self).spec_focus() == Some(
                            Focus { updated_at: now, now, is_window_focused: true },
                        )
                        &&& final(self).spec_focused()
                        &&& final(self).spec_cursor() == CursorState::Index(usize::MAX)
                    } else {
                        &&& !final(self).spec_focused()
                        &&& final(self).spec_cursor() == old(self).spec_cursor()
                    },
                    Operation::MoveCursorToEnd(target) => {
                        &&& final(self).spec_focused() == old(self).spec_focused()
                        &&& final(self).spec_cursor() == if addressed(*target) {
                            CursorState::Index(usize::MAX)
                        } else {
                            old(self).spec_cursor()
                        }
                    },
                    Operation::MoveCursorToFront(target) => {
                        &&& final(self).spec_focused() == old(self).spec_focused()
                        &&& final(self).spec_cursor() == if addressed(*target) {
                            CursorState::Index(0)
                        } else {
                            old(self).spec_cursor()
                        }
                    },
                    Operation::MoveCursorTo(target, position) => {
                        &&& final(self).spec_focused() == old(self).spec_focused()
                        &&& final(self).spec_cursor() == if addressed(*target) {
                            CursorState::Index(*position)
                        } else {
                            old(self).spec_cursor()
                        }
                    },
                    Operation::SelectAll(target) => {
                        &&& final(self).spec_focused() == old(self).spec_focused()
                        &&& final(self).spec_cursor() == if addressed(*target) {
                            CursorState::Selection { start: 0, end: usize::MAX }
                        } else {
                            old(self).spec_cursor()
                        }
                    },
                }
            }),
    {
        let target = match operation {
            Operation::Focus(t) => t,
            Operation::MoveCursorToEnd(t) => t,
            Operation::MoveCursorToFront(t) => t,
            Operation::MoveCursorTo(t, _) => t,
            Operation::SelectAll(t) => t,
        };
        let addressed = match id {
            Some(i) => i.same(target),
            None => false,
        };
        match operation {
            Operation::Focus(_) => {
                if addressed {
                    self.focus(now);
                } else {
                    self.unfocus();
                }
            },
            Operation::MoveCursorToEnd(_) => {
                if addressed {
                    self.move_cursor_to_end();
                }
            },
            Operation::MoveCursorToFront(_) => {
                if addressed {
                    self.move_cursor_to_front();
                }
            },
            Operation::MoveCursorTo(_, position) => {
                if addressed {
                    self.move_cursor_to(*position);
                }
            },
            Operation::SelectAll(_) => {
                if addressed {
                    self.select_all();
                }
            },
        }
    }
}

/// What a key press does to a focused text input that takes input.
#[derive(Debug, Clone, Copy, PartialEq, Eq, Structural)]
pub enum KeyAction {
    /// Copy the selection to the clipboard.
    Copy,
    /// Copy the selection to the clipboard and delete it.
    Cut,
    /// Paste the clipboard, or the content already being pasted.
    Paste,
    /// Select all the text.
    SelectAll,
    /// Insert the character at the cursor.
    Insert(char),
    /// Publish the submit message.
    Submit,
    /// Delete backwards, once the cursor is prepared.
    Backspace,
    /// Delete forwards, once the cursor is prepared.
    Delete,
    /// Move or extend the cursor with the named key.
    Navigate(Named),
    /// Give up the focus.
    Escape,
    /// Leave the event to other widgets (focus traversal keys).
    Release,
    /// Capture the event and do nothing more.
    Capture,
}

/// The clipboard shortcut of a key, if it is one: `Ctrl+C` and `Ctrl+X`
/// (except in a secure input), `Ctrl+V` without `Alt`, and `Ctrl+A`.
pub open spec fn shortcut_of(key: Key, modifiers: Modifiers, is_secure: bool) -> Option<KeyAction> {
    match key {
        Key::Character(s) => if s@ == seq!['c'] && modifiers.control && !is_secure {
            Some(KeyAction::Copy)
        } else if s@ == seq!['x'] && modifiers.control && !is_secure {
            Some(KeyAction::Cut)
        } else if s@ == seq!['v'] && modifiers.control && !modifiers.alt {
            Some(KeyAction::Paste)
        } else if s@ == seq!['a'] && modifiers.control {
            Some(KeyAction::SelectAll)
        } else {
            None
        },
        _ => None,
    }
}

/// What a key press does: a clipboard shortcut first; else the first
/// character of its text is inserted unless it is a control code; else the
/// named key decides.
pub open spec fn key_action_spec(
    key: Key,
    text: Option<Seq<char>>,
    modifiers: Modifiers,
    is_secure: bool,
) -> KeyAction {
    match shortcut_of(key, modifiers, is_secure) {
        Some(action) => action,
        None => if text matches Some(t) && t.len() > 0 && !is_control(t[0]) {
            KeyAction::Insert(text->0[0])
        } else {
            match key {
                Key::Named(named) => match named {
                    Named::Enter => KeyAction::Submit,
                    Named::Backspace => KeyAction::Backspace,
                    Named::Delete => KeyAction::Delete,
                    Named::ArrowLeft | Named::ArrowRight | Named::Home | Named::End => {
                        KeyAction::Navigate(named)
                    },
                    Named::Escape => KeyAction::Escape,
                    Named::Tab | Named::ArrowUp | Named::ArrowDown => KeyAction::Release,
                    _ => KeyAction::Capture,
                },
                _ => KeyAction::Capture,
            }
        },
    }
}

/// The text of an optional string.
pub open spec fn text_of(text: Option<String>) -> Option<Seq<char>> {
    match text {
        Some(t) => Some(t@),
        None => None,
    }
}

/// A secure text input never hands its text to the clipboard: whatever key
/// is pressed, its action is neither a copy nor a cut.
pub proof fn lemma_secure_never_copies(key: Key, text: Option<Seq<char>>, modifiers: Modifiers)
    ensures
        key_action_spec(key, text, modifiers, true) != KeyAction::Copy,
        key_action_spec(key, text, modifiers, true) != KeyAction::Cut,
{
}

/// A key press inserts only characters that are no control codes.
pub proof fn lemma_inserts_no_control(
    key: Key,
    text: Option<Seq<char>>,
    modifiers: Modifiers,
    is_secure: bool,
)
    ensures
        key_action_spec(key, text, modifiers, is_secure) matches KeyAction::Insert(c) ==> !is_control(
            c,
        ),
{
}

/// Decides what a key press does to a focused text input.
pub fn key_action(key: &Key, text: &Option<String>, modifiers: Modifiers, is_secure: bool) -> (r: KeyAction)
    ensures
        r == key_action_spec(*key, text_of(*text), modifiers, is_secure),
{
    match key {
        Key::Character(s) => {
            if is_char(s, 'c') && modifiers.command() && !is_secure {
                return KeyAction::Copy;
            } else if is_char(s, 'x') && modifiers.command() && !is_secure {
                return KeyAction::Cut;
            } else if is_char(s, 'v') && modifiers.command() && !modifiers.alt() {
                return KeyAction::Paste;
            } else if is_char(s, 'a') && modifiers.command() {
                return KeyAction::SelectAll;
            }
        },
        _ => {},
    }
    match text {
        Some(t) => {
            let t = t.as_str();
            if t.unicode_len() > 0 {
                let c = t.get_char(0);
                if !crate::text_editor::char_is_control(c) {
                    return KeyAction::Insert(c);
                }
            }
        },
        None => {},
    }
    match key {
        Key::Named(named) => match named {
            Named::Enter => KeyAction::Submit,
            Named::Backspace => KeyAction::Backspace,
            Named::Delete => KeyAction::Delete,
            Named::ArrowLeft | Named::ArrowRight | Named::Home | Named::End => KeyAction::Navigate(
                *named,
            ),
            Named::Escape => KeyAction::Escape,
            Named::Tab | Named::ArrowUp | Named::ArrowDown => KeyAction::Release,
            _ => KeyAction::Capture,
        },
        _ => KeyAction::Capture,
    }
}

/// The cursor after a key press acts on it, over a value: select all;
/// arrows move, or with `Shift` select, by graphemes, or with the jump
/// modifier by words (by graphemes in a secure input); `Home` and `End` go to
/// the front and the end, or with `Shift` select from the start of the
/// cursor; with the jump modifier and no selection, `Backspace` and
/// `Delete` first select the word before or after the cursor (in a secure
/// input, everything before or after it).
pub open spec fn cursor_after_key(
    action: KeyAction,
    cursor: CursorState,
    value: Seq<Seq<char>>,
    modifiers: Modifiers,
    is_secure: bool,
) -> CursorState {
    let len = value.len();
    let jump = modifiers.control;
    match action {
        KeyAction::SelectAll => range_state(0, len as usize),
        KeyAction::Navigate(Named::ArrowLeft) => if jump && !is_secure {
            if modifiers.shift {
                selected_left_by_words(cursor, value)
            } else {
                moved_left_by_words(cursor, value)
            }
        } else if modifiers.shift {
            selected_left(cursor, len)
        } else {
            moved_left(cursor, len)
        },
        KeyAction::Navigate(Named::ArrowRight) => if jump && !is_secure {
            if modifiers.shift {
                selected_right_by_words(cursor, value)
            } else {
                moved_right_by_words(cursor, value)
            }
        } else if modifiers.shift {
            selected_right(cursor, len)
        } else {
            moved_right_by(cursor, len, 1)
        },
        KeyAction::Navigate(Named::Home) => if modifiers.shift {
            range_state(start_of(cursor, len), 0)
        } else {
            CursorState::Index(0)
        },
        KeyAction::Navigate(Named::End) => if modifiers.shift {
            range_state(start_of(cursor, len), len as usize)
        } else {
            CursorState::Index(len as usize)
        },
        KeyAction::Backspace => if jump && selection_of(clamped(cursor, len)) is None {
            if is_secure {
                range_state(0, end_of(cursor, len))
            } else {
                selected_left_by_words(cursor, value)
            }
        } else {
            cursor
        },
        KeyAction::Delete => if jump && selection_of(clamped(cursor, len)) is None {
            if is_secure {
                range_state(end_of(cursor, len), len as usize)
            } else {
                selected_right_by_words(cursor, value)
            }
        } else {
            cursor
        },
        _ => cursor,
    }
}

/// Returns whether the jump modifier of the platform (`Ctrl`) is pressed.
pub fn is_jump_modifier_pressed(modifiers: Modifiers) -> (r: bool)
    ensures
        r == modifiers.control,
{
    modifiers.control()
}

/// The mouse interaction of a text input: text while the cursor is over it,
/// or not allowed when it takes no input.
pub fn mouse_interaction(is_mouse_over: bool, is_disabled: bool) -> (r: Interaction)
    ensures
        r == if is_mouse_over {
            if is_disabled {
                Interaction::NotAllowed
            } else {
                Interaction::Text
            }
        } else {
            Interaction::Unset
        },
{
    if is_mouse_over {
        if is_disabled {
            Interaction::NotAllowed
        } else {
            Interaction::Text
        }
    } else {
        Interaction::none()
    }
}

/// In a secure input, `Ctrl+Backspace` and `Ctrl+Delete` with a caret at
/// grapheme `position` select what lies before the caret (from `0` to
/// `position`) and what lies after it (from `position` to the end) for the
/// deletion that follows: the graphemes on the other side of the caret stay
/// unselected, and a caret already at that edge stays where it is.
pub proof fn lemma_secure_word_deletion_stops_at_caret(
    position: usize,
    value: Seq<Seq<char>>,
    modifiers: Modifiers,
)
    requires
        position <= value.len() <= usize::MAX,
        modifiers.control,
    ensures
        cursor_after_key(KeyAction::Backspace, CursorState::Index(position), value, modifiers, true)
            == if position == 0 {
            CursorState::Index(0)
        } else {
            CursorState::Selection { start: 0, end: position }
        },
        cursor_after_key(KeyAction::Delete, CursorState::Index(position), value, modifiers, true)
            == if position == value.len() {
            CursorState::Index(position)
        } else {
            CursorState::Selection { start: position, end: value.len() as usize }
        },
{
}

/// Arrow keys, `Home` and `End` on a caret at grapheme `position`: without
/// `Shift`, left and right move the caret one grapheme (stopping at the
/// edges; in a secure input, or without `Ctrl`), `Home` goes to the start and
/// `End` to the end of the value; with `Shift`, they select from the caret
/// to where the caret would have gone.
pub proof fn lemma_caret_keys(position: usize, value: Seq<Seq<char>>, modifiers: Modifiers, is_secure: bool)
    requires
        position <= value.len() <= usize::MAX,
        is_secure || !modifiers.control,
    ensures
        ({
            let len = value.len();
            let left: usize = if position > 0 {
                (position - 1) as usize
            } else {
                0
            };
            let right: usize = if position < len {
                (position + 1) as usize
            } else {
                position
            };
            let caret = CursorState::Index(position);
            let to = |target: usize| if modifiers.shift {
                if target == position {
                    caret
                } else {
                    CursorState::Selection { start: position, end: target }
                }
            } else {
                CursorState::Index(target)
            };
            &&& cursor_after_key(KeyAction::Navigate(Named::ArrowLeft), caret, value, modifiers, is_secure)
                == to(left)
            &&& cursor_after_key(KeyAction::Navigate(Named::ArrowRight), caret, value, modifiers, is_secure)
                == to(right)
            &&& cursor_after_key(KeyAction::Navigate(Named::Home), caret, value, modifiers, is_secure)
                == to(0)
            &&& cursor_after_key(KeyAction::Navigate(Named::End), caret, value, modifiers, is_secure)
                == to(len as usize)
        }),
{
}

} // verus!

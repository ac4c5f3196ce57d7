//! Key bindings, motions and status of a multi-line text editor.
use vstd::prelude::*;
use crate::time::{blink_on, elapsed, until_blink};
use crate::keyboard::{Key, Modifiers, Named};

verus! {

/// A cursor movement.
#[derive(Debug, Clone, Copy, PartialEq, Eq, Structural)]
pub enum Motion {
    /// Move left.
    Left,
    /// Move right.
    Right,
    /// Move up.
    Up,
    /// Move down.
    Down,
    /// Move to the left boundary of a word.
    WordLeft,
    /// Move to the right boundary of a word.
    WordRight,
    /// Move to the start of the line.
    Home,
    /// Move to the end of the line.
    End,
    /// Move to the start of the previous window.
    PageUp,
    /// Move to the start of the next window.
    PageDown,
    /// Move to the start of the text.
    DocumentStart,
    /// Move to the end of the text.
    DocumentEnd,
}

/// The motion that a jump modifier turns a motion into.
pub open spec fn widened(motion: Motion) -> Motion {
    match motion {
        Motion::Left => Motion::WordLeft,
        Motion::Right => Motion::WordRight,
        Motion::Home => Motion::DocumentStart,
        Motion::End => Motion::DocumentEnd,
        _ => motion,
    }
}

impl Motion {
    /// Widens the [`Motion`], if possible: a character step becomes a word
    /// step, a line edge becomes a document edge.
    pub fn widen(self) -> (r: Self)
        ensures
            r == widened(self),
    {
        match self {
            Motion::Left => Motion::WordLeft,
            Motion::Right => Motion::WordRight,
            Motion::Home => Motion::DocumentStart,
            Motion::End => Motion::DocumentEnd,
            _ => self,
        }
    }
}

/// The possible status of a text editor.
#[derive(Debug, Clone, Copy, PartialEq, Eq, Structural)]
pub enum Status {
    /// The text editor can be interacted with.
    Active,
    /// The text editor is being hovered.
    Hovered,
    /// The text editor is focused.
    Focused {
        /// Whether the text editor is hovered, while focused.
        is_hovered: bool,
    },
    /// The text editor cannot be interacted with.
    Disabled,
}

/// A binding to an action in the text editor.
#[derive(Debug)]
pub enum Binding<Message> {
    /// Unfocus the text editor.
    Unfocus,
    /// Copy the selection of the text editor.
    Copy,
    /// Cut the selection of the text editor.
    Cut,
    /// Paste the clipboard contents in the text editor.
    Paste,
    /// Apply a [`Motion`].
    Move(Motion),
    /// Select text with a given [`Motion`].
    Select(Motion),
    /// Select the word at the current cursor.
    SelectWord,
    /// Select the line at the current cursor.
    SelectLine,
    /// Select the entire buffer.
    SelectAll,
    /// Insert the given character.
    Insert(char),
    /// Break the current line.
    Enter,
    /// Delete the previous character.
    Backspace,
    /// Delete the next character.
    Delete,
    /// A sequence of bindings to execute.
    Sequence(Vec<Binding<Message>>),
    /// Produce the given message.
    Custom(Message),
}

/// What applying a key binding does, one step at a time.
#[derive(Debug)]
pub enum Effect<Message> {
    /// The text editor gives up the focus.
    Unfocus,
    /// The selection is written to the clipboard.
    CopySelection,
    /// The clipboard is read, and what it holds (if anything) is pasted.
    PasteClipboard,
    /// The cursor moves with the motion.
    Move(Motion),
    /// The selection extends with the motion.
    Select(Motion),
    /// The word at the cursor is selected.
    SelectWord,
    /// The line at the cursor is selected.
    SelectLine,
    /// The whole text is selected.
    SelectAll,
    /// The character is inserted.
    Insert(char),
    /// The line breaks.
    Enter,
    /// The previous character, or the selection, is deleted.
    Backspace,
    /// The next character, or the selection, is deleted.
    Delete,
    /// The message is published.
    Publish(Message),
}

/// The effects of a binding, in order, for a text editor that has a
/// selection or not: copying and cutting need a selection (cutting copies
/// it, then deletes it); a sequence has the effects of its bindings in
/// turn; every other binding has its one effect.
pub open spec fn effects_of<Message>(binding: Binding<Message>, has_selection: bool) -> Seq<
    Effect<Message>,
>
    decreases binding,
{
    match binding {
        Binding::Unfocus => seq![Effect::Unfocus],
        Binding::Copy => if has_selection {
            seq![Effect::CopySelection]
        } else {
            Seq::empty()
        },
        Binding::Cut => if has_selection {
            seq![Effect::CopySelection, Effect::Delete]
        } else {
            Seq::empty()
        },
        Binding::Paste => seq![Effect::PasteClipboard],
        Binding::Move(m) => seq![Effect::Move(m)],
        Binding::Select(m) => seq![Effect::Select(m)],
        Binding::SelectWord => seq![Effect::SelectWord],
        Binding::SelectLine => seq![Effect::SelectLine],
        Binding::SelectAll => seq![Effect::SelectAll],
        Binding::Insert(c) => seq![Effect::Insert(c)],
        Binding::Enter => seq![Effect::Enter],
        Binding::Backspace => seq![Effect::Backspace],
        Binding::Delete => seq![Effect::Delete],
        Binding::Sequence(bindings) => effects_of_all(bindings@, has_selection),
        Binding::Custom(message) => seq![Effect::Publish(message)],
    }
}

/// The effects of bindings applied in turn.
pub open spec fn effects_of_all<Message>(bindings: Seq<Binding<Message>>, has_selection: bool) -> Seq<
    Effect<Message>,
>
    decreases bindings,
{
    if bindings.len() == 0 {
        Seq::empty()
    } else {
        effects_of(bindings[0], has_selection) + effects_of_all(
            bindings.subrange(1, bindings.len() as int),
            has_selection,
        )
    }
}

/// The effects of applying a binding to a text editor that has a selection
/// or not, in order.
pub fn binding_effects<Message>(binding: Binding<Message>, has_selection: bool) -> (r: Vec<
    Effect<Message>,
>)
    ensures
        r@ == effects_of(binding, has_selection),
    decreases binding,
{
    let ghost whole = binding;
    match binding {
        Binding::Unfocus => vec![Effect::Unfocus],
        Binding::Copy => if has_selection {
            vec![Effect::CopySelection]
        } else {
            Vec::new()
        },
        Binding::Cut => if has_selection {
            vec![Effect::CopySelection, Effect::Delete]
        } else {
            Vec::new()
        },
        Binding::Paste => vec![Effect::PasteClipboard],
        Binding::Move(m) => vec![Effect::Move(m)],
        Binding::Select(m) => vec![Effect::Select(m)],
        Binding::SelectWord => vec![Effect::SelectWord],
        Binding::SelectLine => vec![Effect::SelectLine],
        Binding::SelectAll => vec![Effect::SelectAll],
        Binding::Insert(c) => vec![Effect::Insert(c)],
        Binding::Enter => vec![Effect::Enter],
        Binding::Backspace => vec![Effect::Backspace],
        Binding::Delete => vec![Effect::Delete],
        Binding::Custom(message) => vec![Effect::Publish(message)],
        Binding::Sequence(bindings) => {
            let ghost all = bindings@;
            let ghost v = bindings;
            let mut rest = bindings;
            let n = rest.len();
            let mut out: Vec<Effect<Message>> = Vec::new();
            let mut k: usize = 0;
            while rest.len() > 0
                invariant
                    whole == Binding::<Message>::Sequence(v),
                    whole == binding,
                    all == v@,
                    n == all.len(),
                    k <= all.len(),
                    rest@ == all.subrange(k as int, all.len() as int),
                    out@ + effects_of_all(rest@, has_selection) == effects_of_all(all, has_selection),
                decreases rest@.len(),
            {
                let ghost before = rest@;
                let first = rest.remove(0);
                assert(first == all[k as int]);
                assert(whole->Sequence_0 == v);
                assert(decreases_to!(whole => whole->Sequence_0));
                assert(decreases_to!(v => v@));
                assert(decreases_to!(v@ => v@[k as int]));
                assert(decreases_to!(whole => first));
                let mut more = binding_effects(first, has_selection);
                assert(rest@ =~= before.subrange(1, before.len() as int));
                assert(effects_of_all(before, has_selection) == effects_of(first, has_selection)
                    + effects_of_all(rest@, has_selection));
                let ghost was = out@;
                out.append(&mut more);
                assert(out@ + effects_of_all(rest@, has_selection) =~= was + effects_of_all(
                    before,
                    has_selection,
                ));
                k += 1;
            }
            assert(effects_of_all(rest@, has_selection) =~= Seq::empty());
            assert(out@ =~= out@ + Seq::<Effect<Message>>::empty());
            out
        },
    }
}

/// A key press.
#[derive(Debug, Clone)]
pub struct KeyPress {
    /// The key pressed.
    pub key: Key,
    /// The state of the keyboard modifiers.
    pub modifiers: Modifiers,
    /// The text produced by the key press.
    pub text: Option<String>,
    /// The current [`Status`] of the text editor.
    pub status: Status,
}

/// Whether a character is a control code (general category `Cc`), as
/// `char::is_control` tells.
pub open spec fn is_control(c: char) -> bool {
    c <= '\u{1f}' || ('\u{7f}' <= c && c <= '\u{9f}')
}

/// Whether a character is a control code (general category `Cc`).
pub fn char_is_control(c: char) -> (r: bool)
    ensures
        r == is_control(c),
{
    c <= '\u{1f}' || ('\u{7f}' <= c && c <= '\u{9f}')
}

/// The first character of a text that is not a control code.
pub open spec fn first_non_control(text: Seq<char>) -> Option<char>
    decreases text.len(),
{
    if text.len() == 0 {
        None
    } else if !is_control(text[0]) {
        Some(text[0])
    } else {
        first_non_control(text.drop_first())
    }
}

/// The motion of a named key, if it has one.
pub open spec fn spec_motion(key: Named) -> Option<Motion> {
    match key {
        Named::ArrowLeft => Some(Motion::Left),
        Named::ArrowRight => Some(Motion::Right),
        Named::ArrowUp => Some(Motion::Up),
        Named::ArrowDown => Some(Motion::Down),
        Named::Home => Some(Motion::Home),
        Named::End => Some(Motion::End),
        Named::PageUp => Some(Motion::PageUp),
        Named::PageDown => Some(Motion::PageDown),
        _ => None,
    }
}

/// Returns the motion of a named key, if it has one.
pub fn motion(key: Named) -> (r: Option<Motion>)
    ensures
        r == spec_motion(key),
{
    match key {
        Named::ArrowLeft => Some(Motion::Left),
        Named::ArrowRight => Some(Motion::Right),
        Named::ArrowUp => Some(Motion::Up),
        Named::ArrowDown => Some(Motion::Down),
        Named::Home => Some(Motion::Home),
        Named::End => Some(Motion::End),
        Named::PageUp => Some(Motion::PageUp),
        Named::PageDown => Some(Motion::PageDown),
        _ => None,
    }
}

/// Whether the text of a key is exactly the one character `c`.
pub(crate) fn is_char(s: &String, c: char) -> (r: bool)
    ensures
        r == (s@ == seq![c]),
{
    let t = s.as_str();
    if t.unicode_len() != 1 {
        return false;
    }
    let first = t.get_char(0);
    if first == c {
        assert(s@ =~= seq![c]);
        true
    } else {
        false
    }
}

/// The first character of a text that is not a control code.
fn first_non_control_char(s: &String) -> (r: Option<char>)
    ensures
        r == first_non_control(s@),
{
    let t = s.as_str();
    let n = t.unicode_len();
    let mut i: usize = 0;
    assert(s@.skip(0) =~= s@);
    while i < n
        invariant
            t@ == s@,
            n == s@.len(),
            i <= n,
            first_non_control(s@) == first_non_control(s@.skip(i as int)),
        decreases n - i,
    {
        let c = t.get_char(i);
        assert(s@.skip(i as int)[0] == c);
        assert(s@.skip(i as int).drop_first() =~= s@.skip(i + 1));
        if !char_is_control(c) {
            return Some(c);
        }
        i += 1;
    }
    assert(s@.skip(n as int) =~= Seq::<char>::empty());
    None
}

/// The kind of default binding of a key press, as a tag and its motion or
/// character.
pub enum BindingKind {
    /// No binding.
    Nothing,
    /// Break the current line.
    Enter,
    /// Delete the previous character.
    Backspace,
    /// Delete the next character.
    Delete,
    /// Unfocus the editor.
    Unfocus,
    /// Copy the selection.
    Copy,
    /// Cut the selection.
    Cut,
    /// Paste the clipboard contents.
    Paste,
    /// Select everything.
    SelectAll,
    /// Insert a character.
    Insert(char),
    /// Move with a motion.
    Move(Motion),
    /// Select with a motion.
    Select(Motion),
}

/// The default binding of a key press: nothing unless the editor is focused;
/// then `Enter`, `Backspace`, `Delete` (with no text, or the text `DEL`) and
/// `Escape` do their edit; `Ctrl+C`, `Ctrl+X`, `Ctrl+V` (without `Alt`) and
/// `Ctrl+A` copy, cut, paste and select all; otherwise a key with text inserts
/// the first character of it that is not a control code, and a named key with
/// a motion moves (or, with `Shift`, selects), widened with the jump
/// modifier.
pub open spec fn default_binding(
    key: Key,
    modifiers: Modifiers,
    text: Option<Seq<char>>,
    status: Status,
) -> BindingKind {
    if !(status is Focused) {
        BindingKind::Nothing
    } else {
        let fallback = match text {
            Some(t) => match first_non_control(t) {
                Some(c) => BindingKind::Insert(c),
                None => BindingKind::Nothing,
            },
            None => match key {
                Key::Named(named) => match spec_motion(named) {
                    Some(m) => {
                        let m = if modifiers.control { widened(m) } else { m };
                        if modifiers.shift {
                            BindingKind::Select(m)
                        } else {
                            BindingKind::Move(m)
                        }
                    },
                    None => BindingKind::Nothing,
                },
                _ => BindingKind::Nothing,
            },
        };
        match key {
            Key::Named(Named::Enter) => BindingKind::Enter,
            Key::Named(Named::Backspace) => BindingKind::Backspace,
            Key::Named(Named::Delete) => if text is None || text == Some(seq!['\u{7f}']) {
                BindingKind::Delete
            } else {
                fallback
            },
            Key::Named(Named::Escape) => BindingKind::Unfocus,
            Key::Character(s) => if s@ == seq!['c'] && modifiers.control {
                BindingKind::Copy
            } else if s@ == seq!['x'] && modifiers.control {
                BindingKind::Cut
            } else if s@ == seq!['v'] && modifiers.control && !modifiers.alt {
                BindingKind::Paste
            } else if s@ == seq!['a'] && modifiers.control {
                BindingKind::SelectAll
            } else {
                fallback
            },
            _ => fallback,
        }
    }
}

/// Whether a binding is the one a [`BindingKind`] describes.
pub open spec fn binding_is<Message>(binding: Option<Binding<Message>>, kind: BindingKind) -> bool {
    match kind {
        BindingKind::Nothing => binding is None,
        BindingKind::Enter => binding matches Some(Binding::Enter),
        BindingKind::Backspace => binding matches Some(Binding::Backspace),
        BindingKind::Delete => binding matches Some(Binding::Delete),
        BindingKind::Unfocus => binding matches Some(Binding::Unfocus),
        BindingKind::Copy => binding matches Some(Binding::Copy),
        BindingKind::Cut => binding matches Some(Binding::Cut),
        BindingKind::Paste => binding matches Some(Binding::Paste),
        BindingKind::SelectAll => binding matches Some(Binding::SelectAll),
        BindingKind::Insert(c) => binding matches Some(Binding::Insert(d)) && d == c,
        BindingKind::Move(m) => binding matches Some(Binding::Move(n)) && n == m,
        BindingKind::Select(m) => binding matches Some(Binding::Select(n)) && n == m,
    }
}

impl<Message> Binding<Message> {
    /// Returns the default [`Binding`] for the given key press.
    pub fn from_key_press(event: KeyPress) -> (r: Option<Self>)
        ensures
            binding_is(
                r,
                default_binding(
                    event.key,
                    event.modifiers,
                    match event.text {
                        Some(t) => Some(t@),
                        None => None,
                    },
                    event.status,
                ),
            ),
    {
        let KeyPress { key, modifiers, text, status } = event;
        match status {
            Status::Focused { .. } => {},
            _ => return None,
        }

        match &key {
            Key::Named(Named::Enter) => return Some(Binding::Enter),
            Key::Named(Named::Backspace) => return Some(Binding::Backspace),
            Key::Named(Named::Delete) => {
                let is_delete = match &text {
                    None => true,
                    Some(t) => is_char(t, '\u{7f}'),
                };
                if is_delete {
                    return Some(Binding::Delete);
                }
            },
            Key::Named(Named::Escape) => return Some(Binding::Unfocus),
            Key::Character(s) => {
                if is_char(s, 'c') && modifiers.command() {
                    return Some(Binding::Copy);
                } else if is_char(s, 'x') && modifiers.command() {
                    return Some(Binding::Cut);
                } else if is_char(s, 'v') && modifiers.command() && !modifiers.alt() {
                    return Some(Binding::Paste);
                } else if is_char(s, 'a') && modifiers.command() {
                    return Some(Binding::SelectAll);
                }
            },
            _ => {},
        }

        if let Some(text) = &text {
            match first_non_control_char(text) {
                Some(c) => Some(Binding::Insert(c)),
                None => None,
            }
        } else if let Key::Named(named_key) = &key {
            let motion = match motion(*named_key) {
                Some(m) => m,
                None => return None,
            };
            let motion = if modifiers.macos_command() {
                match motion {
                    Motion::Left => Motion::Home,
                    Motion::Right => Motion::End,
                    _ => motion,
                }
            } else {
                motion
            };
            let motion = if modifiers.jump() {
                motion.widen()
            } else {
                motion
            };
            Some(if modifiers.shift() {
                Binding::Select(motion)
            } else {
                Binding::Move(motion)
            })
        } else {
            None
        }
    }
}

/// The way a line of text ends.
#[derive(Debug, Clone, Copy, PartialEq, Eq, Structural)]
pub enum LineEnding {
    /// A line feed: `\n`.
    Lf,
    /// A carriage return and a line feed: `\r\n`.
    CrLf,
    /// A carriage return: `\r`.
    Cr,
    /// No ending: the last line of a text.
    NoEnding,
}

/// The characters of a line ending.
pub open spec fn ending_text(ending: LineEnding) -> Seq<char> {
    match ending {
        LineEnding::Lf => seq!['\n'],
        LineEnding::CrLf => seq!['\r', '\n'],
        LineEnding::Cr => seq!['\r'],
        LineEnding::NoEnding => Seq::empty(),
    }
}

impl Default for LineEnding {
    fn default() -> (r: Self)
        ensures
            r == LineEnding::Lf,
    {
        LineEnding::Lf
    }
}

impl LineEnding {
    /// The characters of the line ending.
    pub fn as_str(self) -> (r: &'static str)
        ensures
            r@ == ending_text(self),
    {
        proof {
            reveal_strlit("\n");
            reveal_strlit("\r\n");
            reveal_strlit("\r");
            reveal_strlit("");
        }
        match self {
            LineEnding::Lf => "\n",
            LineEnding::CrLf => "\r\n",
            LineEnding::Cr => "\r",
            LineEnding::NoEnding => "",
        }
    }
}

/// A line of the content of a text editor: its text and its ending.
#[derive(Debug, Clone)]
pub struct Line {
    /// The text of the line, its ending left out.
    pub text: String,
    /// The ending of the line.
    pub ending: LineEnding,
}

/// What separates a line from the next one when the lines are joined: its
/// ending, or a line feed for a line without one.
pub open spec fn separator(ending: LineEnding) -> Seq<char> {
    if ending == LineEnding::NoEnding {
        ending_text(LineEnding::Lf)
    } else {
        ending_text(ending)
    }
}

/// The text of lines: each line's text, each one but the last followed by
/// its separator.
pub open spec fn joined(lines: Seq<(Seq<char>, LineEnding)>) -> Seq<char>
    decreases lines.len(),
{
    if lines.len() == 0 {
        Seq::empty()
    } else {
        let init = lines.drop_last();
        let head = if init.len() == 0 {
            Seq::<char>::empty()
        } else {
            joined(init) + separator(init.last().1)
        };
        head + lines.last().0
    }
}

/// The lines of a text split at its line feeds: each piece but the last
/// ends with a line feed, the last one has no ending.
pub open spec fn split_lf(text: Seq<char>) -> Seq<(Seq<char>, LineEnding)>
    decreases text.len(),
{
    if text.len() == 0 {
        seq![(Seq::<char>::empty(), LineEnding::NoEnding)]
    } else {
        let init = split_lf(text.drop_last());
        let last = init.len() - 1;
        if text.last() == '\n' {
            init.update(last, (init[last].0, LineEnding::Lf)).push(
                (Seq::<char>::empty(), LineEnding::NoEnding),
            )
        } else {
            init.update(last, (init[last].0.push(text.last()), LineEnding::NoEnding))
        }
    }
}

/// Splitting a text at its line feeds gives at least one line, and joining
/// the lines gives the text back.
pub proof fn lemma_split_lf_joined(text: Seq<char>)
    ensures
        split_lf(text).len() >= 1,
        joined(split_lf(text)) == text,
    decreases text.len(),
{
    if text.len() == 0 {
        assert(joined(split_lf(text)) =~= text);
    } else {
        let init = split_lf(text.drop_last());
        lemma_split_lf_joined(text.drop_last());
        let last = init.len() - 1;
        if text.last() == '\n' {
            let marked = init.update(last, (init[last].0, LineEnding::Lf));
            assert(marked.drop_last() =~= init.drop_last());
            assert(joined(marked) == joined(init));
            let lines = marked.push((Seq::<char>::empty(), LineEnding::NoEnding));
            assert(lines.drop_last() =~= marked);
            assert(joined(lines) =~= text);
        } else {
            let lines = init.update(last, (init[last].0.push(text.last()), LineEnding::NoEnding));
            let rest = init.drop_last();
            assert(lines.drop_last() =~= rest);
            let head = if rest.len() == 0 {
                Seq::<char>::empty()
            } else {
                joined(rest) + separator(rest.last().1)
            };
            assert(joined(init) == head + init[last].0);
            assert(joined(lines) == head + init[last].0.push(text.last()));
            assert(text =~= text.drop_last().push(text.last()));
            assert(joined(lines) =~= text);
        }
    }
}

/// The text and ending of each line.
pub open spec fn line_views(lines: Seq<Line>) -> Seq<(Seq<char>, LineEnding)> {
    lines.map_values(|l: Line| (l.text@, l.ending))
}

/// The text of an optional string.
pub open spec fn text_view(s: Option<String>) -> Option<Seq<char>> {
    match s {
        Some(t) => Some(t@),
        None => None,
    }
}

/// The editor that holds the text of a text editor, which the renderer
/// provides: it keeps the lines of the text, a selection and a cursor.
pub trait Editor: Sized {
    /// The lines of the text, in order, with their endings.
    spec fn spec_lines(&self) -> Seq<(Seq<char>, LineEnding)>;

    /// The selected text, if any.
    spec fn spec_selection(&self) -> Option<Seq<char>>;

    /// The line and column of the cursor.
    spec fn spec_cursor(&self) -> (usize, usize);

    /// Creates an editor holding the given text, with nothing selected. A
    /// text without carriage returns is split at its line feeds.
    fn with_text(text: &str) -> (r: Self)
        ensures
            !text@.contains('\r') ==> r.spec_lines() == split_lf(text@),
            r.spec_selection() is None,
    ;

    /// The number of lines.
    fn line_count(&self) -> (r: usize)
        ensures
            r == self.spec_lines().len(),
    ;

    /// The line at the given index, if it exists.
    fn line(&self, index: usize) -> (r: Option<Line>)
        ensures
            match r {
                Some(l) => index < self.spec_lines().len() && (l.text@, l.ending)
                    == self.spec_lines()[index as int],
                None => index >= self.spec_lines().len(),
            },
    ;

    /// The selected text, if any.
    fn selection(&self) -> (r: Option<String>)
        ensures
            text_view(r) == self.spec_selection(),
    ;

    /// The line and column of the cursor.
    fn cursor_position(&self) -> (r: (usize, usize))
        ensures
            r == self.spec_cursor(),
    ;
}

/// The content of a text editor.
pub struct Content<E> {
    editor: E,
    is_dirty: bool,
}

impl<E: Editor> Content<E> {
    /// The editor holding the text.
    pub closed spec fn spec_editor(&self) -> E {
        self.editor
    }

    /// Whether the content changed since it was last laid out.
    pub closed spec fn spec_is_dirty(&self) -> bool {
        self.is_dirty
    }

    /// Creates an empty [`Content`], to be laid out: one empty line, with
    /// nothing selected.
    pub fn new() -> (r: Self)
        ensures
            r.spec_is_dirty(),
            r.spec_editor().spec_lines() == seq![(Seq::<char>::empty(), LineEnding::NoEnding)],
            r.spec_editor().spec_selection() is None,
    {
        proof {
            reveal_strlit("");
        }
        let r = Self::with_text("");
        assert(!""@.contains('\r'));
        r
    }

    /// Creates a [`Content`] with the given text, to be laid out, with
    /// nothing selected: a text without carriage returns is split at its
    /// line feeds.
    pub fn with_text(text: &str) -> (r: Self)
        ensures
            r.spec_is_dirty(),
            !text@.contains('\r') ==> r.spec_editor().spec_lines() == split_lf(text@),
            r.spec_editor().spec_selection() is None,
    {
        Content { editor: E::with_text(text), is_dirty: true }
    }

    /// Returns the amount of lines of the [`Content`].
    pub fn line_count(&self) -> (r: usize)
        ensures
            r == self.spec_editor().spec_lines().len(),
    {
        self.editor.line_count()
    }

    /// Returns the text of the line at the given index, if it exists.
    pub fn line(&self, index: usize) -> (r: Option<Line>)
        ensures
            match r {
                Some(l) => index < self.spec_editor().spec_lines().len() && (l.text@, l.ending)
                    == self.spec_editor().spec_lines()[index as int],
                None => index >= self.spec_editor().spec_lines().len(),
            },
    {
        self.editor.line(index)
    }

    /// Returns the lines of the [`Content`], in order.
    pub fn lines(&self) -> (r: Vec<Line>)
        ensures
            line_views(r@) == self.spec_editor().spec_lines(),
    {
        let ghost all = self.spec_editor().spec_lines();
        let count = self.editor.line_count();
        let mut r: Vec<Line> = Vec::new();
        let mut i: usize = 0;
        loop
            invariant
                all == self.spec_editor().spec_lines(),
                count == all.len(),
                i <= all.len(),
                r@.len() == i,
                line_views(r@) == all.take(i as int),
            decreases all.len() - i,
        {
            match self.editor.line(i) {
                Some(line) => {
                    let ghost before = r@;
                    r.push(line);
                    assert(line_views(r@) =~= all.take(i + 1)) by {
                        assert(r@ == before.push(line));
                        assert(line_views(before) == all.take(i as int));
                    }
                    i += 1;
                },
                None => {
                    assert(all.take(i as int) =~= all);
                    return r;
                },
            }
        }
    }

    /// Returns the text of the [`Content`]: its lines joined, each but the
    /// last followed by its ending, or by a line feed if it has none.
    pub fn text(&self) -> (r: String)
        ensures
            r@ == joined(self.spec_editor().spec_lines()),
    {
        let lines = self.lines();
        join_lines(&lines)
    }

    /// Returns the kind of [`LineEnding`] used for separating lines in the
    /// [`Content`]: that of its first line.
    pub fn line_ending(&self) -> (r: Option<LineEnding>)
        ensures
            self.spec_editor().spec_lines().len() == 0 ==> r is None,
            self.spec_editor().spec_lines().len() > 0 ==> r == Some(
                self.spec_editor().spec_lines()[0].1,
            ),
    {
        match self.line(0) {
            Some(line) => Some(line.ending),
            None => None,
        }
    }

    /// Returns the selected text of the [`Content`].
    pub fn selection(&self) -> (r: Option<String>)
        ensures
            text_view(r) == self.spec_editor().spec_selection(),
    {
        self.editor.selection()
    }

    /// Returns the current cursor position of the [`Content`].
    pub fn cursor_position(&self) -> (r: (usize, usize))
        ensures
            r == self.spec_editor().spec_cursor(),
    {
        self.editor.cursor_position()
    }
}

/// Joins lines into one text: each line's text, each one but the last
/// followed by its ending, or by a line feed if it has none.
#[verifier::spinoff_prover]
pub fn join_lines(lines: &Vec<Line>) -> (r: String)
    ensures
        r@ == joined(line_views(lines@)),
{
    let ghost views = line_views(lines@);
    let mut s = String::new();
    let mut i: usize = 0;
    while i < lines.len()
        invariant
            i <= lines@.len(),
            views == line_views(lines@),
            s@ == joined(views.take(i as int)),
        decreases lines@.len() - i,
    {
        let ghost before = s@;
        if i > 0 {
            let ending = lines[i - 1].ending;
            let sep = if ending == LineEnding::NoEnding {
                LineEnding::Lf.as_str()
            } else {
                ending.as_str()
            };
            s.append(sep);
        }
        s.append(lines[i].text.as_str());
        proof {
            let t = views.take(i + 1);
            assert(t.drop_last() =~= views.take(i as int));
            assert(t.last() == views[i as int]);
            if i > 0 {
                assert(views.take(i as int).last() == views[i - 1]);
            }
        }
        i += 1;
    }
    assert(views.take(lines@.len() as int) =~= views);
    s
}

/// When a focused text editor was last updated, the time of its last
/// redraw, and whether its window has the focus. Times are milliseconds since
/// a starting point of the caller's choosing.
#[derive(Debug, Clone, Copy, PartialEq, Eq, Structural)]
pub struct Focus {
    /// When the text editor was last edited or focused.
    pub updated_at: u128,
    /// The time of the last redraw.
    pub now: u128,
    /// Whether the window of the text editor is focused.
    pub is_window_focused: bool,
}

impl Focus {
    /// The focus taken at `now`, in a focused window.
    pub fn now(now: u128) -> (r: Self)
        ensures
            r == (Focus { updated_at: now, now, is_window_focused: true }),
    {
        Focus { updated_at: now, now, is_window_focused: true }
    }

    /// Whether the cursor is drawn: only in a focused window, during the
    /// shown half of its blink at the time of the last redraw.
    pub fn is_cursor_visible(&self) -> (r: bool)
        ensures
            r == (self.is_window_focused && blink_on(elapsed(self.now, self.updated_at))),
    {
        self.is_window_focused && crate::time::is_blink_on(
            crate::time::elapsed_millis(self.now, self.updated_at),
        )
    }
}

/// Whether applying the effects takes the focus away.
pub fn unfocuses<Message>(effects: &Vec<Effect<Message>>) -> (r: bool)
    ensures
        r == exists|i: int| 0 <= i < effects@.len() && effects@[i] is Unfocus,
{
    let mut i: usize = 0;
    while i < effects.len()
        invariant
            i <= effects@.len(),
            forall|j: int| 0 <= j < i ==> !(effects@[j] is Unfocus),
        decreases effects@.len() - i,
    {
        if let Effect::Unfocus = &effects[i] {
            return true;
        }
        i += 1;
    }
    false
}

/// An event that changes the focus of a text editor.
#[derive(Debug, Clone, Copy, PartialEq, Eq, Structural)]
pub enum FocusEvent {
    /// The window lost the focus.
    WindowUnfocused,
    /// The window got the focus back.
    WindowFocused,
    /// A redraw happens.
    RedrawRequested,
    /// The text editor was clicked.
    Clicked,
    /// A key binding was applied; `unfocuses` tells whether it took the
    /// focus away (see [`unfocuses`]).
    BindingApplied {
        /// Whether the binding took the focus away.
        unfocuses: bool,
    },
}

/// The focus of a text editor after an event at `now`, and when to redraw:
/// at once (`0`), after a wait in milliseconds, or not at all (`None`). A
/// window that loses the focus stops the blink; one that gets it back
/// restarts it and redraws at once; a redraw in a focused window records
/// the time and asks for the next one when the cursor next blinks; a click
/// takes the focus; a binding takes it away or restarts the blink.
pub open spec fn focus_step_spec(focus: Option<Focus>, event: FocusEvent, now: u128) -> (
    Option<Focus>,
    Option<u128>,
) {
    match (focus, event) {
        (Some(f), FocusEvent::WindowUnfocused) => (
            Some(Focus { is_window_focused: false, ..f }),
            None,
        ),
        (Some(f), FocusEvent::WindowFocused) => (
            Some(Focus { is_window_focused: true, updated_at: now, ..f }),
            Some(0),
        ),
        (Some(f), FocusEvent::RedrawRequested) => if f.is_window_focused {
            (Some(Focus { now, ..f }), Some(until_blink(elapsed(now, f.updated_at)) as u128))
        } else {
            (focus, None)
        },
        (_, FocusEvent::Clicked) => (Some(Focus { updated_at: now, now, is_window_focused: true }), None),
        (Some(f), FocusEvent::BindingApplied { unfocuses }) => if unfocuses {
            (None, None)
        } else {
            (Some(Focus { updated_at: now, ..f }), None)
        },
        (None, _) => (None, None),
    }
}

/// The focus of a text editor after an event at `now`, and when to redraw.
pub fn focus_step(focus: Option<Focus>, event: FocusEvent, now: u128) -> (r: (
    Option<Focus>,
    Option<u128>,
))
    ensures
        r == focus_step_spec(focus, event, now),
{
    match (focus, event) {
        (Some(f), FocusEvent::WindowUnfocused) => (
            Some(Focus { is_window_focused: false, ..f }),
            None,
        ),
        (Some(f), FocusEvent::WindowFocused) => (
            Some(Focus { is_window_focused: true, updated_at: now, ..f }),
            Some(0),
        ),
        (Some(f), FocusEvent::RedrawRequested) => if f.is_window_focused {
            let passed = crate::time::elapsed_millis(now, f.updated_at);
            (Some(Focus { now, ..f }), Some(crate::time::millis_until_blink(passed)))
        } else {
            (focus, None)
        },
        (_, FocusEvent::Clicked) => (Some(Focus::now(now)), None),
        (Some(f), FocusEvent::BindingApplied { unfocuses }) => if unfocuses {
            (None, None)
        } else {
            (Some(Focus { updated_at: now, ..f }), None)
        },
        (None, _) => (None, None),
    }
}

/// The status of a text editor: disabled without an edit handler, focused
/// (and whether hovered) with the focus, else hovered or active.
pub fn status(is_disabled: bool, is_focused: bool, is_hovered: bool) -> (r: Status)
    ensures
        r == if is_disabled {
            Status::Disabled
        } else if is_focused {
            Status::Focused { is_hovered }
        } else if is_hovered {
            Status::Hovered
        } else {
            Status::Active
        },
{
    if is_disabled {
        Status::Disabled
    } else if is_focused {
        Status::Focused { is_hovered }
    } else if is_hovered {
        Status::Hovered
    } else {
        Status::Active
    }
}

/// Whether the cursor of a focus is drawn, as [`Focus::is_cursor_visible`]
/// tells.
pub open spec fn cursor_shown(focus: Focus) -> bool {
    focus.is_window_focused && blink_on(elapsed(focus.now, focus.updated_at))
}

/// The blink of a focused text editor: after a redraw in a focused window,
/// a redraw at the time it asks for shows the cursor flipped, and no
/// earlier redraw flips it.
pub proof fn lemma_redraw_wait_flips(focus: Focus, now: u128, earlier: u128)
    requires
        focus.is_window_focused,
        focus.updated_at <= now,
        now + until_blink(elapsed(now, focus.updated_at)) <= u128::MAX,
        now <= earlier < now + until_blink(elapsed(now, focus.updated_at)),
    ensures
        ({
            let (after, wait) = focus_step_spec(Some(focus), FocusEvent::RedrawRequested, now);
            let wait = wait->0;
            let next = focus_step_spec(after, FocusEvent::RedrawRequested, (now + wait) as u128).0;
            let between = focus_step_spec(after, FocusEvent::RedrawRequested, earlier).0;
            &&& cursor_shown(next->0) == !cursor_shown(after->0)
            &&& cursor_shown(between->0) == cursor_shown(after->0)
        }),
{
    let e = elapsed(now, focus.updated_at);
    crate::time::lemma_blink_flips(e);
    assert(elapsed((now + until_blink(e)) as u128, focus.updated_at) == e + until_blink(e));
    let d = (earlier - now) as nat;
    assert(elapsed(earlier, focus.updated_at) == e + d);
    assert(blink_on(e + d) == blink_on(e));
}

} // verus!

//! Selection over the spans of rich text.
use vstd::prelude::*;
use vstd::string::*;
use vstd::utf8::*;
use crate::keyboard::Named;
use crate::selectable_group::ClickKind;

verus! {

/// The largest character boundary of `bytes` at or below `idx`; the length
/// of `bytes` when `idx` is at or past it.
pub open spec fn floor_boundary(bytes: Seq<u8>, idx: int) -> int
    decreases idx,
{
    if idx >= bytes.len() {
        bytes.len() as int
    } else if idx <= 0 || is_char_boundary(bytes, idx) {
        idx
    } else {
        floor_boundary(bytes, idx - 1)
    }
}

proof fn lemma_floor_boundary(bytes: Seq<u8>, idx: int)
    requires
        valid_utf8(bytes),
        idx >= 0,
    ensures
        0 <= floor_boundary(bytes, idx) <= bytes.len(),
        floor_boundary(bytes, idx) <= idx || idx >= bytes.len(),
        is_char_boundary(bytes, floor_boundary(bytes, idx)),
    decreases idx,
{
    broadcast use is_char_boundary_start_end_of_seq;

    if idx >= bytes.len() {
    } else if idx <= 0 || is_char_boundary(bytes, idx) {
    } else {
        lemma_floor_boundary(bytes, idx - 1);
    }
}

/// Moves `idx` down to the nearest character boundary of `s`, or to the end
/// of `s` when `idx` is past it.
pub fn floor_char_boundary(s: &str, idx: usize) -> (r: usize)
    requires
        s.spec_bytes().len() <= usize::MAX,
    ensures
        r == floor_boundary(s.spec_bytes(), idx as int),
        r <= s.spec_bytes().len(),
        is_char_boundary(s.spec_bytes(), r as int),
{
    proof {
        encode_utf8_valid_utf8(s@);
        lemma_floor_boundary(s.spec_bytes(), idx as int);
    }
    let len = s.len();
    if idx >= len {
        return len;
    }
    let mut i: usize = idx;
    while i > 0 && !s.is_char_boundary(i)
        invariant
            i <= idx < len,
            len == s.spec_bytes().len(),
            floor_boundary(s.spec_bytes(), idx as int) == floor_boundary(s.spec_bytes(), i as int),
        decreases i,
    {
        i -= 1;
    }
    i
}

/// The text of the spans, from byte `start` to byte `end` of their
/// concatenation: for each span that overlaps the range, the part of it
/// inside the range, with both ends moved down to character boundaries.
/// `cursor` is the byte where the first of `spans` starts.
pub open spec fn collected(spans: Seq<Seq<u8>>, start: int, end: int, cursor: int) -> Seq<u8>
    decreases spans.len(),
{
    if spans.len() == 0 {
        Seq::empty()
    } else {
        let text = spans[0];
        let len = text.len() as int;
        let span_end = cursor + len;
        if span_end <= start {
            collected(spans.drop_first(), start, end, span_end)
        } else if cursor >= end {
            Seq::empty()
        } else {
            let local_start = floor_boundary(text, if start >= cursor { start - cursor } else { 0 });
            let local_end = floor_boundary(text, if end - cursor <= len { end - cursor } else { len });
            let piece = if local_start < local_end {
                text.subrange(local_start, local_end)
            } else {
                Seq::empty()
            };
            piece + collected(spans.drop_first(), start, end, span_end)
        }
    }
}

/// The total number of bytes of the spans.
pub open spec fn total_len(spans: Seq<Seq<u8>>) -> int
    decreases spans.len(),
{
    if spans.len() == 0 {
        0
    } else {
        spans[0].len() + total_len(spans.drop_first())
    }
}

proof fn lemma_total_len_nonneg(spans: Seq<Seq<u8>>)
    ensures
        total_len(spans) >= 0,
    decreases spans.len(),
{
    if spans.len() > 0 {
        lemma_total_len_nonneg(spans.drop_first());
    }
}

/// The UTF-8 bytes of each string.
pub open spec fn span_bytes(spans: Seq<String>) -> Seq<Seq<u8>> {
    spans.map_values(|s: String| encode_utf8(s@))
}

/// Encoding a concatenation encodes each part.
pub proof fn lemma_encode_concat(a: Seq<char>, b: Seq<char>)
    ensures
        encode_utf8(a + b) == encode_utf8(a) + encode_utf8(b),
    decreases a.len(),
{
    if a.len() == 0 {
        assert(a + b =~= b);
        assert(encode_utf8(a) + encode_utf8(b) =~= encode_utf8(b));
    } else {
        assert((a + b).drop_first() =~= a.drop_first() + b);
        lemma_encode_concat(a.drop_first(), b);
        assert((a + b)[0] == a[0]);
        assert(encode_utf8(a + b) =~= encode_scalar(a[0] as u32) + encode_utf8(a.drop_first() + b));
    }
}

/// Collects the selected text of rich text made of spans with the given
/// texts: the bytes from `start` to `end` of their concatenation, span by
/// span, each piece cut at character boundaries.
pub fn collect_selection(spans: &Vec<String>, start: usize, end: usize) -> (r: String)
    requires
        total_len(span_bytes(spans@)) <= usize::MAX,
    ensures
        encode_utf8(r@) == collected(span_bytes(spans@), start as int, end as int, 0),
{
    let mut out = String::new();
    let mut cursor: usize = 0;
    let mut i: usize = 0;
    let ghost all = span_bytes(spans@);
    proof {
        assert(all.skip(0) =~= all);
    }
    while i < spans.len()
        invariant
            i <= spans@.len(),
            all == span_bytes(spans@),
            cursor + total_len(all.skip(i as int)) == total_len(all),
            total_len(all) <= usize::MAX,
            collected(all, start as int, end as int, 0) == encode_utf8(out@) + collected(
                all.skip(i as int),
                start as int,
                end as int,
                cursor as int,
            ),
        decreases spans@.len() - i,
    {
        let text = spans[i].as_str();
        let ghost rest = all.skip(i as int);
        proof {
            assert(rest[0] == text.spec_bytes());
            assert(total_len(rest) == rest[0].len() + total_len(rest.drop_first()));
            lemma_total_len_nonneg(rest.drop_first());
        }
        let len = text.len();
        proof {
            assert(rest[0] == text.spec_bytes());
            assert(rest.drop_first() =~= all.skip(i + 1));
            encode_utf8_valid_utf8(text@);
            lemma_total_len_nonneg(all.skip(i + 1));
        }
        let span_end = cursor + len;
        if span_end <= start {
            cursor = span_end;
            i += 1;
            continue;
        }
        if cursor >= end {
            assert(collected(rest, start as int, end as int, cursor as int) =~= Seq::<u8>::empty());
            assert(encode_utf8(out@) + Seq::<u8>::empty() =~= encode_utf8(out@));
            return out;
        }
        let from = if start >= cursor { start - cursor } else { 0 };
        let to = if end - cursor <= len { end - cursor } else { len };
        let local_start = floor_char_boundary(text, from);
        let local_end = floor_char_boundary(text, to);
        if local_start < local_end {
            let (head, _) = text.split_at(local_end);
            proof {
                encode_utf8_valid_utf8(head@);
                assert(head.spec_bytes() =~= text.spec_bytes().subrange(0, local_end as int));
                lemma_boundary_prefix(text.spec_bytes(), local_start as int, local_end as int);
            }
            let (_, piece) = head.split_at(local_start);
            proof {
                assert(piece.spec_bytes() =~= text.spec_bytes().subrange(
                    local_start as int,
                    local_end as int,
                ));
                lemma_encode_concat(out@, piece@);
                assert(encode_utf8(out@ + piece@) + collected(
                    all.skip(i + 1),
                    start as int,
                    end as int,
                    span_end as int,
                ) =~= encode_utf8(out@) + (piece.spec_bytes() + collected(
                    all.skip(i + 1),
                    start as int,
                    end as int,
                    span_end as int,
                )));
            }
            out.append(piece);
        } else {
            proof {
                assert(Seq::<u8>::empty() + collected(
                    all.skip(i + 1),
                    start as int,
                    end as int,
                    span_end as int,
                ) =~= collected(all.skip(i + 1), start as int, end as int, span_end as int));
            }
        }
        cursor = span_end;
        i += 1;
    }
    proof {
        assert(all.skip(i as int).len() == 0);
        assert(encode_utf8(out@) + Seq::<u8>::empty() =~= encode_utf8(out@));
    }
    out
}

/// A character boundary of a text below another one is a character
/// boundary of the prefix that ends at the other one.
proof fn lemma_boundary_prefix(bytes: Seq<u8>, a: int, b: int)
    requires
        valid_utf8(bytes),
        0 <= a < b <= bytes.len(),
        is_char_boundary(bytes, a),
        is_char_boundary(bytes, b),
    ensures
        valid_utf8(bytes.subrange(0, b)),
        is_char_boundary(bytes.subrange(0, b), a),
{
    broadcast use valid_utf8_split;
    broadcast use is_char_boundary_iff_not_is_continuation_byte;
    broadcast use is_char_boundary_start_end_of_seq;

    let prefix = bytes.subrange(0, b);
    assert(valid_utf8(prefix));
    if a > 0 {
        assert(prefix[a] == bytes[a]);
        is_char_boundary_iff_not_is_continuation_byte(bytes, a);
        is_char_boundary_iff_not_is_continuation_byte(prefix, a);
    }
}

/// The byte the selection focus starts from when a key moves it and there
/// is no selection yet: keys that go leftward start from the end of the
/// text (`len`), keys that go rightward (and any other key) from `0`.
pub fn focus_default(named: Named, len: usize) -> (r: usize)
    ensures
        r == match named {
            Named::ArrowLeft | Named::ArrowUp | Named::Home => len,
            _ => 0,
        },
{
    match named {
        Named::ArrowLeft | Named::ArrowUp | Named::Home => len,
        Named::ArrowRight | Named::ArrowDown | Named::End => 0,
        _ => 0,
    }
}

/// The selection state of a rich text: the selection as an anchor and a
/// focus byte (the focus moves, the anchor stays), whether a drag is
/// selecting, whether the text has the keyboard focus, and whether a
/// selectable group manages the selection instead.
#[derive(Debug, Clone, Copy)]
pub struct RichSelection {
    /// The anchor and focus bytes of the selection, if any.
    pub selection: Option<(usize, usize)>,
    /// Whether a drag is extending the selection.
    pub selecting: bool,
    /// Whether the text has the keyboard focus.
    pub focused: bool,
    /// Whether a selectable group manages the selection.
    pub externally_managed: bool,
}

/// An event for the selection of a rich text, with what the paragraph
/// answered for it. A press on a link goes to the link and is no selection
/// event.
#[derive(Debug, Clone, Copy)]
pub enum SelectionEvent {
    /// The left button was pressed. `None` when the press misses the text;
    /// otherwise the kind of click and the range it selects: the byte under
    /// the cursor at both ends for a single click, the word around it for a
    /// double click, its line for a triple click.
    Pressed(Option<(ClickKind, usize, usize)>),
    /// The cursor moved; the byte under it, if it is over the text.
    Dragged(Option<usize>),
    /// The left button was released.
    Released,
    /// The copy shortcut (`Ctrl+C`) was pressed.
    Copy,
    /// The select-all shortcut (`Ctrl+A`) was pressed; `len` is the length
    /// of the text in bytes.
    SelectAll { len: usize },
    /// A named key was pressed, with the `Ctrl` and `Shift` modifiers.
    /// `stepped` is where the paragraph moves the focus for the key (the
    /// step that [`crate::selectable_group::key_action`] names, from [`RichSelection::navigation_focus`]),
    /// if it can; `len` is the length of the text in bytes.
    Key { named: Named, command: bool, shift: bool, stepped: Option<usize>, len: usize },
}

/// What the widget does after a selection event.
#[derive(Debug, Clone, Copy, PartialEq, Eq, Structural)]
pub enum SelectionAction {
    /// Nothing to do.
    Ignored,
    /// Redraw, leaving the event to others.
    Redraw,
    /// Capture the event and redraw.
    CaptureAndRedraw,
    /// Copy the text between the two bytes to the clipboard, capturing the
    /// event when that text is not empty.
    Copy(usize, usize),
}

/// The anchor and focus of a selection, ordered.
pub open spec fn ordered(a: usize, b: usize) -> (usize, usize) {
    if a <= b {
        (a, b)
    } else {
        (b, a)
    }
}

/// The byte a key moves the focus from: the focus of the selection, or the
/// default for the key when there is none.
pub open spec fn spec_navigation_focus(state: RichSelection, named: Named, len: usize) -> usize {
    match state.selection {
        Some((_, focus)) => focus,
        None => match named {
            Named::ArrowLeft | Named::ArrowUp | Named::Home => len,
            _ => 0,
        },
    }
}

/// Where a key moves the focus from `focus`, given what the paragraph
/// answered: arrows left and right go where the paragraph says; up and down
/// go to the line above or below, or to the start or end of the text when
/// there is none; `Home` and `End` go to the edge of the line, or with
/// `Ctrl` (or when the line has none) to the edge of the text. Other keys
/// move nothing.
pub open spec fn key_target(
    named: Named,
    command: bool,
    stepped: Option<usize>,
    focus: usize,
    len: usize,
) -> Option<usize> {
    match named {
        Named::ArrowLeft | Named::ArrowRight => stepped,
        Named::ArrowUp => if stepped matches Some(b) && b != focus {
            stepped
        } else {
            Some(0)
        },
        Named::ArrowDown => if stepped matches Some(b) && b != focus {
            stepped
        } else {
            Some(len)
        },
        Named::Home => if command || stepped is None {
            Some(0)
        } else {
            stepped
        },
        Named::End => if command || stepped is None {
            Some(len)
        } else {
            stepped
        },
        _ => None,
    }
}

/// The selection state after an event, and what the widget does. Only a
/// selectable text that manages its own selection reacts.
pub open spec fn rich_step(state: RichSelection, event: SelectionEvent, selectable: bool) -> (
    RichSelection,
    SelectionAction,
) {
    if !selectable || state.externally_managed {
        (state, SelectionAction::Ignored)
    } else {
        match event {
            SelectionEvent::Pressed(None) => if state.selection is Some || state.focused {
                (RichSelection { selection: None, focused: false, ..state }, SelectionAction::Redraw)
            } else {
                (state, SelectionAction::Ignored)
            },
            SelectionEvent::Pressed(Some((kind, start, end))) => (
                RichSelection {
                    selection: Some((start, end)),
                    selecting: kind == ClickKind::Single,
                    focused: true,
                    ..state
                },
                SelectionAction::CaptureAndRedraw,
            ),
            SelectionEvent::Dragged(hit) => match (state.selection, hit) {
                (Some((anchor, focus)), Some(at)) => if state.selecting && focus != at {
                    (
                        RichSelection { selection: Some((anchor, at)), ..state },
                        SelectionAction::Redraw,
                    )
                } else {
                    (state, SelectionAction::Ignored)
                },
                _ => (state, SelectionAction::Ignored),
            },
            SelectionEvent::Released => if state.selecting {
                (
                    RichSelection {
                        selecting: false,
                        selection: match state.selection {
                            Some((a, b)) => if a == b {
                                None
                            } else {
                                state.selection
                            },
                            None => None,
                        },
                        ..state
                    },
                    SelectionAction::Ignored,
                )
            } else {
                (state, SelectionAction::Ignored)
            },
            SelectionEvent::Copy => match state.selection {
                Some((a, b)) => if state.focused && ordered(a, b).0 < ordered(a, b).1 {
                    (state, SelectionAction::Copy(ordered(a, b).0, ordered(a, b).1))
                } else {
                    (state, SelectionAction::Ignored)
                },
                None => (state, SelectionAction::Ignored),
            },
            SelectionEvent::SelectAll { len } => if state.focused && len > 0 {
                (
                    RichSelection { selection: Some((0, len)), selecting: false, ..state },
                    SelectionAction::CaptureAndRedraw,
                )
            } else {
                (state, SelectionAction::Ignored)
            },
            SelectionEvent::Key { named, command, shift, stepped, len } => if !state.focused {
                (state, SelectionAction::Ignored)
            } else if named == Named::Escape {
                if state.selection is Some {
                    (RichSelection { selection: None, ..state }, SelectionAction::CaptureAndRedraw)
                } else {
                    (state, SelectionAction::Ignored)
                }
            } else {
                let focus = spec_navigation_focus(state, named, len);
                let anchor = match state.selection {
                    Some((a, _)) => a,
                    None => focus,
                };
                match key_target(named, command, stepped, focus, len) {
                    Some(target) => if target != focus {
                        (
                            RichSelection {
                                selection: Some((if shift { anchor } else { target }, target)),
                                ..state
                            },
                            SelectionAction::CaptureAndRedraw,
                        )
                    } else {
                        (state, SelectionAction::Ignored)
                    },
                    None => (state, SelectionAction::Ignored),
                }
            },
        }
    }
}

impl RichSelection {
    /// A rich text with nothing selected and no focus.
    pub fn new() -> (r: Self)
        ensures
            r == (RichSelection {
                selection: None,
                selecting: false,
                focused: false,
                externally_managed: false,
            }),
    {
        RichSelection { selection: None, selecting: false, focused: false, externally_managed: false }
    }

    /// The byte a named key moves the focus from: the focus of the
    /// selection, or [`focus_default`] when there is none.
    pub fn navigation_focus(&self, named: Named, len: usize) -> (r: usize)
        ensures
            r == spec_navigation_focus(*self, named, len),
    {
        match self.selection {
            Some((_, focus)) => focus,
            None => focus_default(named, len),
        }
    }

    /// Handles a selection event of a text that is `selectable`.
    pub fn step(&mut self, event: SelectionEvent, selectable: bool) -> (r: SelectionAction)
        ensures
            (*final(self), r) == rich_step(*old(self), event, selectable),
    {
        if !selectable || self.externally_managed {
            return SelectionAction::Ignored;
        }
        match event {
            SelectionEvent::Pressed(None) => {
                let had = self.selection.is_some() || self.focused;
                self.selection = None;
                if had {
                    self.focused = false;
                    SelectionAction::Redraw
                } else {
                    SelectionAction::Ignored
                }
            },
            SelectionEvent::Pressed(Some((kind, start, end))) => {
                self.selection = Some((start, end));
                self.selecting = match kind {
                    ClickKind::Single => true,
                    _ => false,
                };
                self.focused = true;
                SelectionAction::CaptureAndRedraw
            },
            SelectionEvent::Dragged(hit) => match (self.selection, hit) {
                (Some((anchor, focus)), Some(at)) => if self.selecting && focus != at {
                    self.selection = Some((anchor, at));
                    SelectionAction::Redraw
                } else {
                    SelectionAction::Ignored
                },
                _ => SelectionAction::Ignored,
            },
            SelectionEvent::Released => {
                if self.selecting {
                    self.selecting = false;
                    if let Some((a, b)) = self.selection {
                        if a == b {
                            self.selection = None;
                        }
                    }
                }
                SelectionAction::Ignored
            },
            SelectionEvent::Copy => match self.selection {
                Some((a, b)) => {
                    let (start, end) = if a <= b {
                        (a, b)
                    } else {
                        (b, a)
                    };
                    if self.focused && start < end {
                        SelectionAction::Copy(start, end)
                    } else {
                        SelectionAction::Ignored
                    }
                },
                None => SelectionAction::Ignored,
            },
            SelectionEvent::SelectAll { len } => {
                if self.focused && len > 0 {
                    self.selection = Some((0, len));
                    self.selecting = false;
                    SelectionAction::CaptureAndRedraw
                } else {
                    SelectionAction::Ignored
                }
            },
            SelectionEvent::Key { named, command, shift, stepped, len } => {
                if !self.focused {
                    return SelectionAction::Ignored;
                }
                if named == Named::Escape {
                    if self.selection.is_some() {
                        self.selection = None;
                        return SelectionAction::CaptureAndRedraw;
                    }
                    return SelectionAction::Ignored;
                }
                let focus = self.navigation_focus(named, len);
                let anchor = match self.selection {
                    Some((a, _)) => a,
                    None => focus,
                };
                let target = match named {
                    Named::ArrowLeft | Named::ArrowRight => stepped,
                    Named::ArrowUp => match stepped {
                        Some(b) => if b != focus {
                            Some(b)
                        } else {
                            Some(0)
                        },
                        None => Some(0),
                    },
                    Named::ArrowDown => match stepped {
                        Some(b) => if b != focus {
                            Some(b)
                        } else {
                            Some(len)
                        },
                        None => Some(len),
                    },
                    Named::Home => if command || stepped.is_none() {
                        Some(0)
                    } else {
                        stepped
                    },
                    Named::End => if command || stepped.is_none() {
                        Some(len)
                    } else {
                        stepped
                    },
                    _ => None,
                };
                match target {
                    Some(t) => if t != focus {
                        let new_anchor = if shift {
                            anchor
                        } else {
                            t
                        };
                        self.selection = Some((new_anchor, t));
                        SelectionAction::CaptureAndRedraw
                    } else {
                        SelectionAction::Ignored
                    },
                    None => SelectionAction::Ignored,
                }
            },
        }
    }
}

/// A click that is released without a drag selects nothing: the caret it
/// placed goes away on release, and the text keeps the focus.
pub proof fn lemma_click_release_selects_nothing(state: RichSelection, at: usize)
    requires
        !state.externally_managed,
    ensures
        ({
            let (pressed, _) = rich_step(
                state,
                SelectionEvent::Pressed(Some((ClickKind::Single, at, at))),
                true,
            );
            let (released, action) = rich_step(pressed, SelectionEvent::Released, true);
            &&& released.selection is None
            &&& released.focused
            &&& !released.selecting
            &&& action == SelectionAction::Ignored
        }),
{
}

/// Copying never changes the selection state, and what it copies is the
/// selection with its ends ordered, never an empty range.
pub proof fn lemma_copy_keeps_state(state: RichSelection, selectable: bool)
    ensures
        rich_step(state, SelectionEvent::Copy, selectable).0 == state,
        rich_step(state, SelectionEvent::Copy, selectable).1 matches SelectionAction::Copy(start, end)
            ==> (start < end && (state.selection matches Some((a, b)) && (start, end) == ordered(
            a,
            b,
        ))),
{
}

/// Where the keyboard moves the focus of a focused rich text. Without
/// `Ctrl`, `Home` and `End` go to the edge of the current line that the
/// paragraph reports, and to the start or end of the whole text only when it
/// reports none; with `Ctrl` they always go to the start or end of the whole
/// text. Left and right go where the paragraph steps. When the focus moves,
/// `Shift` keeps the anchor and otherwise the selection collapses to a caret
/// there; when it would not move, nothing changes.
pub proof fn lemma_keys_move_focus(
    state: RichSelection,
    named: Named,
    command: bool,
    shift: bool,
    stepped: Option<usize>,
    len: usize,
)
    requires
        state.focused,
        !state.externally_managed,
        named == Named::Home || named == Named::End || named == Named::ArrowLeft || named
            == Named::ArrowRight,
    ensures
        ({
            let focus = match state.selection {
                Some((_, f)) => f,
                None => if named == Named::End || named == Named::ArrowRight {
                    0usize
                } else {
                    len
                },
            };
            let anchor = match state.selection {
                Some((a, _)) => a,
                None => focus,
            };
            let target: Option<usize> = if named == Named::Home {
                if command {
                    Some(0usize)
                } else {
                    match stepped {
                        Some(b) => Some(b),
                        None => Some(0usize),
                    }
                }
            } else if named == Named::End {
                if command {
                    Some(len)
                } else {
                    match stepped {
                        Some(b) => Some(b),
                        None => Some(len),
                    }
                }
            } else {
                stepped
            };
            let (next, action) = rich_step(
                state,
                SelectionEvent::Key { named, command, shift, stepped, len },
                true,
            );
            match target {
                Some(t) => if t != focus {
                    &&& next.selection == Some((if shift { anchor } else { t }, t))
                    &&& action == SelectionAction::CaptureAndRedraw
                    &&& next.focused && next.selecting == state.selecting
                } else {
                    next == state && action == SelectionAction::Ignored
                },
                None => next == state && action == SelectionAction::Ignored,
            }
        }),
{
}

/// Up and down go to the line above or below that the paragraph reports;
/// from the first line up goes to the start of the text, from the last line
/// down to its end (the paragraph then reports no other line).
pub proof fn lemma_vertical_keys_move_focus(
    state: RichSelection,
    up: bool,
    command: bool,
    shift: bool,
    stepped: Option<usize>,
    len: usize,
)
    requires
        state.focused,
        !state.externally_managed,
    ensures
        ({
            let named = if up {
                Named::ArrowUp
            } else {
                Named::ArrowDown
            };
            let focus = match state.selection {
                Some((_, f)) => f,
                None => if up {
                    len
                } else {
                    0usize
                },
            };
            let target = match stepped {
                Some(b) => if b != focus {
                    b
                } else if up {
                    0usize
                } else {
                    len
                },
                None => if up {
                    0usize
                } else {
                    len
                },
            };
            let (next, action) = rich_step(
                state,
                SelectionEvent::Key { named, command, shift, stepped, len },
                true,
            );
            if target != focus {
                &&& next.selection matches Some((_, f)) && f == target
                &&& action == SelectionAction::CaptureAndRedraw
            } else {
                next == state && action == SelectionAction::Ignored
            }
        }),
{
}

/// Selecting with the mouse: a single click at a byte places a caret there
/// and starts a drag, a drag to another byte moves the focus there and
/// keeps the anchor at the click, and the release ends the drag keeping
/// that range; a double or triple click selects the range it names at once.
pub proof fn lemma_mouse_selects_from_click_to_drag(
    state: RichSelection,
    at: usize,
    to: usize,
    start: usize,
    end: usize,
)
    requires
        !state.externally_managed,
        at != to,
    ensures
        ({
            let (clicked, a1) = rich_step(
                state,
                SelectionEvent::Pressed(Some((ClickKind::Single, at, at))),
                true,
            );
            let (dragged, a2) = rich_step(clicked, SelectionEvent::Dragged(Some(to)), true);
            let (released, _) = rich_step(dragged, SelectionEvent::Released, true);
            let (double, a3) = rich_step(
                state,
                SelectionEvent::Pressed(Some((ClickKind::Double, start, end))),
                true,
            );
            &&& clicked.selection == Some((at, at)) && clicked.selecting && clicked.focused
            &&& a1 == SelectionAction::CaptureAndRedraw
            &&& dragged.selection == Some((at, to)) && a2 == SelectionAction::Redraw
            &&& released.selection == Some((at, to)) && !released.selecting
            &&& double.selection == Some((start, end)) && !double.selecting && double.focused
            &&& a3 == SelectionAction::CaptureAndRedraw
        }),
{
}

} // verus!

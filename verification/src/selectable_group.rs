//! Coordinate text selection across sibling text widgets.
//!
//! A selectable group numbers the selectable text widgets it contains in tree
//! order. A position in the group is a pair `(index, byte)`: the widget's
//! number and a byte offset in its text. The group keeps an anchor (where a
//! selection started) and a focus (where it ends), and gives every widget the
//! part of its text that lies between them.
use vstd::prelude::*;
use crate::keyboard::{Modifiers, Named};
use std::marker::PhantomData;

verus! {

/// A widget that coordinates drag-selection across the selectable text
/// widgets it contains.
pub struct SelectableGroup<Link, Content> {
    content: Content,
    _link: PhantomData<Link>,
}

/// Wraps `content` so its selectable text widgets share a single
/// drag-selection.
pub fn selectable_group<Link, Content>(content: Content) -> (r: SelectableGroup<Link, Content>)
    ensures
        r.content() == content,
{
    SelectableGroup { content, _link: PhantomData }
}

impl<Link, Content> SelectableGroup<Link, Content> {
    /// The wrapped content.
    pub closed spec fn content(&self) -> Content {
        self.content
    }
}

/// How many clicks a mouse press completes.
#[derive(Debug, Clone, Copy, PartialEq, Eq, Structural)]
pub enum ClickKind {
    /// A single click.
    Single,
    /// A double click.
    Double,
    /// A triple click.
    Triple,
}

/// A keyboard navigation step.
#[derive(Debug, Clone, Copy, PartialEq, Eq, Structural)]
pub enum KeyAction {
    /// One character in the given direction.
    Char(i32),
    /// One word in the given direction.
    Word(i32),
    /// One line in the given direction.
    Line(i32),
    /// To the start (negative) or end of the line.
    LineEdge(i32),
    /// To the start (negative) or end of the whole group.
    DocEdge(i32),
}

/// The selection state of a group.
#[derive(Debug, Clone, Copy, PartialEq, Eq)]
pub struct GroupState {
    /// Where the selection started: a widget's number and a byte offset.
    pub anchor: Option<(usize, usize)>,
    /// Where the selection ends; it moves on drag and on `Shift+Arrow`.
    pub focus: Option<(usize, usize)>,
    /// Most recent keyboard modifier state.
    pub modifiers: Modifiers,
    /// Whether the user is currently extending a selection by drag.
    pub selecting: bool,
}

/// The part of the text of widget `index` (of `len` bytes) that lies between
/// the anchor and the focus.
pub open spec fn range_for(
    index: usize,
    anchor_idx: usize,
    anchor_byte: usize,
    focus_idx: usize,
    focus_byte: usize,
    len: usize,
) -> Option<(usize, usize)> {
    if anchor_idx == focus_idx {
        if index == anchor_idx {
            Some((anchor_byte, focus_byte))
        } else {
            None
        }
    } else if anchor_idx < focus_idx {
        if index < anchor_idx || index > focus_idx {
            None
        } else if index == anchor_idx {
            Some((anchor_byte, len))
        } else if index == focus_idx {
            Some((0, focus_byte))
        } else {
            Some((0, len))
        }
    } else {
        if index < focus_idx || index > anchor_idx {
            None
        } else if index == anchor_idx {
            Some((0, anchor_byte))
        } else if index == focus_idx {
            Some((focus_byte, len))
        } else {
            Some((0, len))
        }
    }
}

/// The selection of every widget, for texts of lengths `lens`.
pub open spec fn ranges_for(lens: Seq<usize>, anchor: (usize, usize), focus: (usize, usize)) -> Seq<
    Option<(usize, usize)>,
> {
    Seq::new(
        lens.len(),
        |i: int| range_for(i as usize, anchor.0, anchor.1, focus.0, focus.1, lens[i]),
    )
}

/// Computes the selection range of widget `index` during a selection from
/// the anchor to the focus; `len` is the widget's total text length.
pub fn selection_range_for(
    index: usize,
    anchor_idx: usize,
    anchor_byte: usize,
    focus_idx: usize,
    focus_byte: usize,
    len: usize,
) -> (r: Option<(usize, usize)>)
    ensures
        r == range_for(index, anchor_idx, anchor_byte, focus_idx, focus_byte, len),
{
    if anchor_idx == focus_idx {
        if index == anchor_idx {
            Some((anchor_byte, focus_byte))
        } else {
            None
        }
    } else if anchor_idx < focus_idx {
        if index < anchor_idx || index > focus_idx {
            None
        } else if index == anchor_idx {
            Some((anchor_byte, len))
        } else if index == focus_idx {
            Some((0, focus_byte))
        } else {
            Some((0, len))
        }
    } else {
        if index < focus_idx || index > anchor_idx {
            None
        } else if index == anchor_idx {
            Some((0, anchor_byte))
        } else if index == focus_idx {
            Some((focus_byte, len))
        } else {
            Some((0, len))
        }
    }
}

/// The selection of every widget of the group, whose texts have the lengths
/// `lens`, for a selection from `anchor` to `focus`.
pub fn selection_ranges(lens: &Vec<usize>, anchor: (usize, usize), focus: (usize, usize)) -> (r: Vec<
    Option<(usize, usize)>,
>)
    ensures
        r@ == ranges_for(lens@, anchor, focus),
{
    let mut r: Vec<Option<(usize, usize)>> = Vec::new();
    let mut i: usize = 0;
    while i < lens.len()
        invariant
            i <= lens@.len(),
            r@ == ranges_for(lens@, anchor, focus).take(i as int),
        decreases lens@.len() - i,
    {
        r.push(selection_range_for(i, anchor.0, anchor.1, focus.0, focus.1, lens[i]));
        assert(r@ =~= ranges_for(lens@, anchor, focus).take(i + 1));
        i += 1;
    }
    assert(ranges_for(lens@, anchor, focus).take(lens@.len() as int) =~= ranges_for(lens@, anchor, focus));
    r
}

/// No widget has a selection.
pub open spec fn cleared(count: nat) -> Seq<Option<(usize, usize)>> {
    Seq::new(count, |i: int| None)
}

fn clear_all(count: usize) -> (r: Vec<Option<(usize, usize)>>)
    ensures
        r@ == cleared(count as nat),
{
    let mut r: Vec<Option<(usize, usize)>> = Vec::new();
    let mut i: usize = 0;
    while i < count
        invariant
            i <= count,
            r@ == cleared(i as nat),
        decreases count - i,
    {
        r.push(None);
        assert(r@ =~= cleared((i + 1) as nat));
        i += 1;
    }
    r
}

/// The focus that a step inside the focused widget reaches: `stepped` is
/// what the widget answered for the step (for a character or word step, the
/// new byte; for a line step, the byte on the next line, if any). A step
/// that stays in place, or a jump across the whole group, reaches nothing.
pub open spec fn spec_in_widget_focus(
    action: KeyAction,
    focus_idx: usize,
    focus_byte: usize,
    stepped: Option<usize>,
) -> Option<(usize, usize)> {
    match action {
        KeyAction::DocEdge(_) => None,
        _ => match stepped {
            Some(b) => if b != focus_byte {
                Some((focus_idx, b))
            } else {
                None
            },
            None => None,
        },
    }
}

/// The widget a vertical step from `focus_idx` in direction `dir` lands on,
/// among `count` widgets.
pub open spec fn spec_sibling_target(focus_idx: usize, dir: i32, count: nat) -> Option<usize> {
    let target = if dir > 0 {
        focus_idx + 1
    } else if focus_idx > 0 {
        focus_idx - 1
    } else {
        -1
    };
    if target < 0 || target >= count {
        None
    } else {
        Some(target as usize)
    }
}

/// The focus a vertical step reaches in the sibling widget: where the
/// sibling's hit test answered, or else its start (stepping down) or its end
/// (stepping up).
pub open spec fn spec_hit_test_sibling(
    focus_idx: usize,
    dir: i32,
    lens: Seq<usize>,
    hit: Option<usize>,
) -> Option<(usize, usize)> {
    match spec_sibling_target(focus_idx, dir, lens.len()) {
        None => None,
        Some(t) => match hit {
            Some(b) => Some((t, b)),
            None => if dir > 0 {
                Some((t, 0usize))
            } else {
                Some((t, lens[t as int]))
            },
        },
    }
}

/// A character or word step that leaves the focused widget: to the start of
/// the next widget, or to the end of the previous one.
pub open spec fn spec_sibling_step(focus_idx: usize, dir: i32, lens: Seq<usize>) -> Option<(usize, usize)> {
    if dir > 0 && focus_idx + 1 < lens.len() {
        Some(((focus_idx + 1) as usize, 0usize))
    } else if dir < 0 && focus_idx > 0 && focus_idx - 1 < lens.len() {
        Some(((focus_idx - 1) as usize, lens[focus_idx - 1]))
    } else {
        None
    }
}

/// Where a step goes when it cannot move inside the focused widget.
pub open spec fn spec_fallback_focus(
    action: KeyAction,
    focus_idx: usize,
    lens: Seq<usize>,
    hit: Option<usize>,
) -> Option<(usize, usize)> {
    match action {
        KeyAction::Char(dir) => spec_sibling_step(focus_idx, dir, lens),
        KeyAction::Word(dir) => spec_sibling_step(focus_idx, dir, lens),
        KeyAction::Line(dir) => spec_hit_test_sibling(focus_idx, dir, lens, hit),
        KeyAction::LineEdge(_) => None,
        KeyAction::DocEdge(dir) => if dir < 0 {
            Some((0usize, 0usize))
        } else if lens.len() > 0 {
            Some(((lens.len() - 1) as usize, lens.last()))
        } else {
            None
        },
    }
}

/// The widget a vertical step from `focus_idx` in direction `dir` lands on,
/// among `count` widgets.
pub fn sibling_target(focus_idx: usize, dir: i32, count: usize) -> (r: Option<usize>)
    ensures
        r == spec_sibling_target(focus_idx, dir, count as nat),
{
    let target = if dir > 0 {
        if focus_idx < usize::MAX {
            focus_idx + 1
        } else {
            return None;
        }
    } else if focus_idx > 0 {
        focus_idx - 1
    } else {
        return None;
    };
    if target >= count {
        None
    } else {
        Some(target)
    }
}

/// Steps vertically into a sibling widget; `hit` is what that sibling's hit
/// test answered at the tracked column.
pub fn hit_test_sibling(focus_idx: usize, dir: i32, lens: &Vec<usize>, hit: Option<usize>) -> (r:
    Option<(usize, usize)>)
    ensures
        r == spec_hit_test_sibling(focus_idx, dir, lens@, hit),
{
    match sibling_target(focus_idx, dir, lens.len()) {
        None => None,
        Some(target_idx) => match hit {
            Some(byte) => Some((target_idx, byte)),
            None => if dir > 0 {
                Some((target_idx, 0))
            } else {
                Some((target_idx, lens[target_idx]))
            },
        },
    }
}

/// The keyboard navigation step of a named key, if it is one.
pub fn key_action(named: Named, modifiers: Modifiers) -> (r: Option<KeyAction>)
    ensures
        r == match named {
            Named::ArrowLeft => Some(
                if modifiers.control { KeyAction::Word(-1i32) } else { KeyAction::Char(-1i32) },
            ),
            Named::ArrowRight => Some(
                if modifiers.control { KeyAction::Word(1i32) } else { KeyAction::Char(1i32) },
            ),
            Named::ArrowUp => Some(KeyAction::Line(-1i32)),
            Named::ArrowDown => Some(KeyAction::Line(1i32)),
            Named::Home => Some(
                if modifiers.control { KeyAction::DocEdge(-1i32) } else { KeyAction::LineEdge(-1i32) },
            ),
            Named::End => Some(
                if modifiers.control { KeyAction::DocEdge(1i32) } else { KeyAction::LineEdge(1i32) },
            ),
            _ => None,
        },
{
    match named {
        Named::ArrowLeft => if modifiers.command() {
            Some(KeyAction::Word(-1))
        } else {
            Some(KeyAction::Char(-1))
        },
        Named::ArrowRight => if modifiers.command() {
            Some(KeyAction::Word(1))
        } else {
            Some(KeyAction::Char(1))
        },
        Named::ArrowUp => Some(KeyAction::Line(-1)),
        Named::ArrowDown => Some(KeyAction::Line(1)),
        Named::Home => if modifiers.command() {
            Some(KeyAction::DocEdge(-1))
        } else {
            Some(KeyAction::LineEdge(-1))
        },
        Named::End => if modifiers.command() {
            Some(KeyAction::DocEdge(1))
        } else {
            Some(KeyAction::LineEdge(1))
        },
        _ => None,
    }
}

/// The group state after a press of the left button on the widget and byte
/// `hit` (if any widget was hit), with the kind of click, and the word or
/// line that a double or triple click selects in the hit widget.
pub open spec fn spec_press(
    state: GroupState,
    hit: Option<(usize, usize)>,
    kind: ClickKind,
    word_or_line: Option<(usize, usize)>,
) -> GroupState {
    match hit {
        None => GroupState { anchor: None, focus: None, selecting: false, ..state },
        Some((idx, byte)) => {
            let kind = if state.modifiers.shift { ClickKind::Single } else { kind };
            let whole = if kind != ClickKind::Single { word_or_line } else { None };
            match whole {
                Some((start, end)) => GroupState {
                    anchor: Some((idx, start)),
                    focus: Some((idx, end)),
                    selecting: false,
                    ..state
                },
                None => if state.modifiers.shift {
                    GroupState {
                        anchor: Some(
                            match state.anchor {
                                Some(a) => a,
                                None => (idx, byte),
                            },
                        ),
                        focus: Some((idx, byte)),
                        selecting: true,
                        ..state
                    }
                } else {
                    GroupState {
                        anchor: Some((idx, byte)),
                        focus: Some((idx, byte)),
                        selecting: true,
                        ..state
                    }
                },
            }
        },
    }
}

/// The selections of the widgets of a group in a given state.
pub open spec fn ranges_of(state: GroupState, lens: Seq<usize>) -> Seq<Option<(usize, usize)>> {
    match (state.anchor, state.focus) {
        (Some(a), Some(f)) => ranges_for(lens, a, f),
        _ => cleared(lens.len()),
    }
}

/// The new focus of a keyboard step, and the anchor that goes with it.
pub open spec fn spec_step(
    state: GroupState,
    action: KeyAction,
    extend: bool,
    lens: Seq<usize>,
    stepped: Option<usize>,
    hit: Option<usize>,
) -> Option<GroupState> {
    match state.focus {
        None => None,
        Some((focus_idx, focus_byte)) => {
            let anchor = match state.anchor {
                Some(a) => a,
                None => (focus_idx, focus_byte),
            };
            let new_focus = match spec_in_widget_focus(action, focus_idx, focus_byte, stepped) {
                Some(f) => Some(f),
                None => spec_fallback_focus(action, focus_idx, lens, hit),
            };
            match new_focus {
                None => None,
                Some(f) => Some(
                    GroupState {
                        anchor: Some(if extend { anchor } else { f }),
                        focus: Some(f),
                        ..state
                    },
                ),
            }
        },
    }
}

impl GroupState {
    /// A group with no selection.
    pub fn new() -> (r: Self)
        ensures
            r.anchor is None,
            r.focus is None,
            !r.selecting,
            !r.modifiers.shift && !r.modifiers.control && !r.modifiers.alt && !r.modifiers.logo,
    {
        GroupState { anchor: None, focus: None, modifiers: Modifiers::none(), selecting: false }
    }

    /// Records the keyboard modifiers.
    pub fn modifiers_changed(&mut self, modifiers: Modifiers)
        ensures
            *final(self) == (GroupState { modifiers, ..*old(self) }),
    {
        self.modifiers = modifiers;
    }

    /// A press of the left button: `hit` is the widget and byte under the
    /// cursor, if any; `kind` how many clicks it completes; `word_or_line` the
    /// word (double click) or line (triple click) around the hit byte in the
    /// hit widget. Returns the selection of every widget afterwards.
    pub fn press(
        &mut self,
        hit: Option<(usize, usize)>,
        kind: ClickKind,
        word_or_line: Option<(usize, usize)>,
        lens: &Vec<usize>,
    ) -> (r: Vec<Option<(usize, usize)>>)
        ensures
            *final(self) == spec_press(*old(self), hit, kind, word_or_line),
            r@ == ranges_of(*final(self), lens@),
    {
        match hit {
            None => {
                self.anchor = None;
                self.focus = None;
                self.selecting = false;
                clear_all(lens.len())
            },
            Some((focus_idx, hit_byte)) => {
                let extend = self.modifiers.shift();
                let kind = if extend { ClickKind::Single } else { kind };
                let whole = match kind {
                    ClickKind::Single => None,
                    _ => word_or_line,
                };
                let (anchor, focus, selecting) = match whole {
                    Some((start, end)) => ((focus_idx, start), (focus_idx, end), false),
                    None => if extend {
                        let anchor = match self.anchor {
                            Some(a) => a,
                            None => (focus_idx, hit_byte),
                        };
                        (anchor, (focus_idx, hit_byte), true)
                    } else {
                        ((focus_idx, hit_byte), (focus_idx, hit_byte), true)
                    },
                };
                self.anchor = Some(anchor);
                self.focus = Some(focus);
                self.selecting = selecting;
                selection_ranges(lens, anchor, focus)
            },
        }
    }

    /// The cursor moved while the button is held: `hit` is the first widget
    /// (and byte in it) that lies at or below the cursor, if any. While
    /// selecting, the focus follows the cursor, or clamps to the end of the
    /// last widget when the cursor is past all of them. Returns the new
    /// selections, or `None` when nothing changes.
    pub fn drag(&mut self, hit: Option<(usize, usize)>, lens: &Vec<usize>) -> (r: Option<
        Vec<Option<(usize, usize)>>,
    >)
        ensures
            ({
                let focus = match hit {
                    Some(h) => Some(h),
                    None => if lens@.len() > 0 {
                        Some(((lens@.len() - 1) as usize, lens@.last()))
                    } else {
                        None
                    },
                };
                if old(self).selecting && old(self).anchor is Some && focus is Some {
                    &&& *final(self) == (GroupState { focus, ..*old(self) })
                    &&& r matches Some(v) && v@ == ranges_of(*final(self), lens@)
                } else {
                    &&& *final(self) == *old(self)
                    &&& r is None
                }
            }),
    {
        if !self.selecting {
            return None;
        }
        let anchor = match self.anchor {
            Some(a) => a,
            None => return None,
        };
        let focus = match hit {
            Some(h) => h,
            None => {
                let n = lens.len();
                if n == 0 {
                    return None;
                }
                (n - 1, lens[n - 1])
            },
        };
        self.focus = Some(focus);
        Some(selection_ranges(lens, anchor, focus))
    }

    /// The left button was released: the drag ends, and every empty selection
    /// is dropped so that a click leaves no stale range.
    pub fn release(&mut self, selections: &Vec<Option<(usize, usize)>>) -> (r: Vec<
        Option<(usize, usize)>,
    >)
        ensures
            *final(self) == (GroupState { selecting: false, ..*old(self) }),
            r@ == selections@.map_values(
                |s: Option<(usize, usize)>|
                    match s {
                        Some((a, b)) => if a == b {
                            None
                        } else {
                            s
                        },
                        None => None,
                    },
            ),
    {
        self.selecting = false;
        let mut r: Vec<Option<(usize, usize)>> = Vec::new();
        let mut i: usize = 0;
        while i < selections.len()
            invariant
                i <= selections@.len(),
                r@.len() == i,
                forall|j: int|
                    0 <= j < i ==> #[trigger] r@[j] == match selections@[j] {
                        Some((a, b)) => if a == b {
                            None
                        } else {
                            selections@[j]
                        },
                        None => None,
                    },
            decreases selections@.len() - i,
        {
            let s = selections[i];
            let collapsed = match s {
                Some((a, b)) => if a == b {
                    None
                } else {
                    s
                },
                None => None,
            };
            r.push(collapsed);
            i += 1;
        }
        assert(r@ =~= selections@.map_values(
            |s: Option<(usize, usize)>|
                match s {
                    Some((a, b)) => if a == b {
                        None
                    } else {
                        s
                    },
                    None => None,
                },
        ));
        r
    }

    /// `Ctrl+A`: when the group has a selection or caret, selects the whole
    /// text of every widget: the anchor goes to the start of the first
    /// widget, the focus to the end of the last. Returns the new selections,
    /// or `None` when the group has no selection or no widget.
    pub fn select_all(&mut self, lens: &Vec<usize>) -> (r: Option<Vec<Option<(usize, usize)>>>)
        ensures
            (old(self).anchor is Some || old(self).focus is Some) && lens@.len() > 0 ==> {
                &&& *final(self) == (GroupState {
                    anchor: Some((0usize, 0usize)),
                    focus: Some(((lens@.len() - 1) as usize, lens@.last())),
                    ..*old(self)
                })
                &&& r matches Some(v) && v@ == lens@.map_values(
                    |len: usize|
                        if len > 0 {
                            Some((0usize, len))
                        } else {
                            None
                        },
                )
            },
            !((old(self).anchor is Some || old(self).focus is Some) && lens@.len() > 0) ==> {
                &&& *final(self) == *old(self)
                &&& r is None
            },
    {
        if self.anchor.is_none() && self.focus.is_none() {
            return None;
        }
        let n = lens.len();
        if n == 0 {
            return None;
        }
        let mut r: Vec<Option<(usize, usize)>> = Vec::new();
        let mut i: usize = 0;
        while i < n
            invariant
                n == lens@.len(),
                i <= n,
                r@.len() == i,
                forall|j: int|
                    0 <= j < i ==> #[trigger] r@[j] == (if lens@[j] > 0 {
                        Some((0usize, lens@[j]))
                    } else {
                        None
                    }),
            decreases n - i,
        {
            let len = lens[i];
            r.push(if len > 0 { Some((0, len)) } else { None });
            i += 1;
        }
        assert(r@ =~= lens@.map_values(
            |len: usize|
                if len > 0 {
                    Some((0usize, len))
                } else {
                    None
                },
        ));
        self.anchor = Some((0, 0));
        self.focus = Some((n - 1, lens[n - 1]));
        Some(r)
    }

    /// `Escape`: drops the selection of the group and of every widget.
    /// Returns whether there was something to drop, and the new selections.
    pub fn escape(&mut self, count: usize) -> (r: (bool, Vec<Option<(usize, usize)>>))
        ensures
            r.0 == (old(self).anchor is Some || old(self).focus is Some),
            r.1@ == cleared(count as nat),
            *final(self) == (GroupState { anchor: None, focus: None, selecting: false, ..*old(self) }),
    {
        let had_anything = self.anchor.is_some() || self.focus.is_some();
        self.anchor = None;
        self.focus = None;
        self.selecting = false;
        (had_anything, clear_all(count))
    }
}

/// A character or word step that leaves the focused widget.
fn sibling_step(focus_idx: usize, dir: i32, lens: &Vec<usize>) -> (r: Option<(usize, usize)>)
    ensures
        r == spec_sibling_step(focus_idx, dir, lens@),
{
    let n = lens.len();
    if dir > 0 && focus_idx < usize::MAX && focus_idx + 1 < n {
        Some((focus_idx + 1, 0))
    } else if dir < 0 && focus_idx > 0 && focus_idx - 1 < n {
        Some((focus_idx - 1, lens[focus_idx - 1]))
    } else {
        None
    }
}

/// Applies a keyboard navigation step to the group: `stepped` is what the
/// focused widget answered for the step inside itself, and `hit` what the
/// sibling widget's hit test answered (for line steps that leave the
/// widget). The step first tries to move inside the focused widget, and
/// otherwise follows the rule of the action across widgets. With `extend`
/// the anchor stays; without it, it follows the focus. Returns the new
/// selections, or `None` when there is no focus or nowhere to go.
pub fn apply_keyboard_action(
    state: &mut GroupState,
    action: KeyAction,
    extend: bool,
    lens: &Vec<usize>,
    stepped: Option<usize>,
    hit: Option<usize>,
) -> (r: Option<Vec<Option<(usize, usize)>>>)
    ensures
        match spec_step(*old(state), action, extend, lens@, stepped, hit) {
            Some(next) => {
                &&& *final(state) == next
                &&& r matches Some(v) && v@ == ranges_of(next, lens@)
            },
            None => *final(state) == *old(state) && r is None,
        },
{
    let (focus_idx, focus_byte) = match state.focus {
        Some(f) => f,
        None => return None,
    };
    let anchor = match state.anchor {
        Some(a) => a,
        None => (focus_idx, focus_byte),
    };
    let in_widget = match action {
        KeyAction::DocEdge(_) => None,
        _ => match stepped {
            Some(b) => if b != focus_byte {
                Some((focus_idx, b))
            } else {
                None
            },
            None => None,
        },
    };
    let new_focus = match in_widget {
        Some(f) => Some(f),
        None => match action {
            KeyAction::Char(dir) => sibling_step(focus_idx, dir, lens),
            KeyAction::Word(dir) => sibling_step(focus_idx, dir, lens),
            KeyAction::Line(dir) => hit_test_sibling(focus_idx, dir, lens, hit),
            KeyAction::LineEdge(_) => None,
            KeyAction::DocEdge(dir) => {
                if dir < 0 {
                    Some((0, 0))
                } else if lens.len() > 0 {
                    Some((lens.len() - 1, lens[lens.len() - 1]))
                } else {
                    None
                }
            },
        },
    };
    assert(in_widget == spec_in_widget_focus(action, focus_idx, focus_byte, stepped));
    assert(in_widget is None ==> new_focus == spec_fallback_focus(action, focus_idx, lens@, hit));
    let (new_idx, new_byte) = match new_focus {
        Some(f) => f,
        None => return None,
    };
    let a = if extend { anchor } else { (new_idx, new_byte) };
    state.anchor = Some(a);
    state.focus = Some((new_idx, new_byte));
    Some(selection_ranges(lens, a, (new_idx, new_byte)))
}

/// The ranges that `Ctrl+C` copies: for every widget with a non-empty
/// selection, its number and the selection with its ends ordered.
pub fn copy_ranges(selections: &Vec<Option<(usize, usize)>>) -> (r: Vec<(usize, usize, usize)>)
    ensures
        forall|k: int|
            0 <= k < r@.len() ==> {
                let (i, start, end) = #[trigger] r@[k];
                &&& i < selections@.len()
                &&& start < end
                &&& selections@[i as int] == Some((start, end)) || selections@[i as int] == Some(
                    (end, start),
                )
            },
        forall|k1: int, k2: int| 0 <= k1 < k2 < r@.len() ==> #[trigger] r@[k1].0 < #[trigger] r@[k2].0,
        forall|i: int|
            0 <= i < selections@.len() ==> (#[trigger] selections@[i] matches Some((a, b)) && a
                != b) ==> exists|k: int| 0 <= k < r@.len() && #[trigger] r@[k].0 == i,
{
    let mut r: Vec<(usize, usize, usize)> = Vec::new();
    let mut i: usize = 0;
    while i < selections.len()
        invariant
            i <= selections@.len(),
            forall|k: int|
                0 <= k < r@.len() ==> {
                    let (j, start, end) = #[trigger] r@[k];
                    &&& j < i
                    &&& start < end
                    &&& selections@[j as int] == Some((start, end)) || selections@[j as int]
                        == Some((end, start))
                },
            forall|k1: int, k2: int| 0 <= k1 < k2 < r@.len() ==> #[trigger] r@[k1].0 < #[trigger] r@[k2].0,
            forall|j: int|
                0 <= j < i ==> (#[trigger] selections@[j] matches Some((a, b)) && a != b) ==> exists|
                    k: int,
                | 0 <= k < r@.len() && #[trigger] r@[k].0 == j,
        decreases selections@.len() - i,
    {
        if let Some((a, b)) = selections[i] {
            let (start, end) = if a <= b { (a, b) } else { (b, a) };
            if start < end {
                let ghost before = r@;
                r.push((i, start, end));
                assert(r@[r@.len() - 1].0 == i);
                assert(forall|k: int| 0 <= k < before.len() ==> r@[k] == before[k]);
            }
        }
        i += 1;
    }
    r
}

/// The text that `Ctrl+C` puts on the clipboard: the selected chunks joined
/// by newlines, or nothing when there is no chunk or the result is empty.
pub fn join_chunks(chunks: &Vec<String>) -> (r: Option<String>)
    ensures
        chunks@.len() == 0 ==> r is None,
        chunks@.len() > 0 ==> {
            let joined = join_with_newlines(chunks@.map_values(|c: String| c@));
            if joined.len() > 0 {
                r matches Some(s) && s@ == joined
            } else {
                r is None
            }
        },
{
    if chunks.len() == 0 {
        return None;
    }
    let mut joined = String::new();
    let mut i: usize = 0;
    let ghost views = chunks@.map_values(|c: String| c@);
    while i < chunks.len()
        invariant
            i <= chunks@.len(),
            views == chunks@.map_values(|c: String| c@),
            joined@ == join_with_newlines(views.take(i as int)),
        decreases chunks@.len() - i,
    {
        assert(views.take(i + 1).drop_last() =~= views.take(i as int));
        if i > 0 {
            joined.append("\n");
            proof {
                reveal_strlit("\n");
            }
        }
        joined.append(chunks[i].as_str());
        i += 1;
    }
    assert(views.take(chunks@.len() as int) =~= views);
    if joined.as_str().is_empty() {
        proof {
            lemma_len_zero_empty(joined@);
        }
        None
    } else {
        Some(joined)
    }
}

proof fn lemma_len_zero_empty(s: Seq<char>)
    ensures
        s.len() == 0 <==> s == Seq::<char>::empty(),
{
    if s.len() == 0 {
        assert(s =~= Seq::<char>::empty());
    }
}

/// Strings joined by newlines.
pub open spec fn join_with_newlines(pieces: Seq<Seq<char>>) -> Seq<char>
    decreases pieces.len(),
{
    if pieces.len() == 0 {
        Seq::empty()
    } else if pieces.len() == 1 {
        pieces[0]
    } else {
        join_with_newlines(pieces.drop_last()) + seq!['\n'] + pieces.last()
    }
}

/// Dragging up or dragging down over the same stretch selects the same text:
/// swapping the anchor and the focus of a selection that spans several
/// widgets gives every widget the same range, and within a single widget the
/// same range with its ends swapped.
pub proof fn lemma_range_symmetric(
    index: usize,
    anchor_idx: usize,
    anchor_byte: usize,
    focus_idx: usize,
    focus_byte: usize,
    len: usize,
)
    ensures
        anchor_idx != focus_idx ==> range_for(index, anchor_idx, anchor_byte, focus_idx, focus_byte, len)
            == range_for(index, focus_idx, focus_byte, anchor_idx, anchor_byte, len),
        anchor_idx == focus_idx ==> range_for(index, anchor_idx, anchor_byte, focus_idx, focus_byte, len)
            == (if index == anchor_idx {
            Some((anchor_byte, focus_byte))
        } else {
            None
        }),
        anchor_idx == focus_idx ==> range_for(index, focus_idx, focus_byte, anchor_idx, anchor_byte, len)
            == (if index == anchor_idx {
            Some((focus_byte, anchor_byte))
        } else {
            None
        }),
{
}

/// Only the widgets between the anchor and the focus get a selection, and
/// when both ends lie inside their texts every range lies inside its
/// widget's text.
pub proof fn lemma_range_bounds(
    index: usize,
    anchor_idx: usize,
    anchor_byte: usize,
    focus_idx: usize,
    focus_byte: usize,
    len: usize,
)
    ensures
        range_for(index, anchor_idx, anchor_byte, focus_idx, focus_byte, len) is Some <==> (
        min_usize(anchor_idx, focus_idx) <= index <= max_usize(anchor_idx, focus_idx)),
        (index == anchor_idx ==> anchor_byte <= len) && (index == focus_idx ==> focus_byte <= len)
            ==> (range_for(index, anchor_idx, anchor_byte, focus_idx, focus_byte, len) matches Some(
            (a, b),
        ) ==> a <= len && b <= len),
{
}

/// The smaller of two numbers.
pub open spec fn min_usize(a: usize, b: usize) -> usize {
    if a <= b { a } else { b }
}

/// The larger of two numbers.
pub open spec fn max_usize(a: usize, b: usize) -> usize {
    if a >= b { a } else { b }
}

/// A keyboard step without `Shift` collapses the selection: the anchor
/// follows the focus, so at most the focused widget has a (zero-width)
/// selection.
pub proof fn lemma_step_without_extend_collapses(
    state: GroupState,
    action: KeyAction,
    lens: Seq<usize>,
    stepped: Option<usize>,
    hit: Option<usize>,
)
    requires
        lens.len() <= usize::MAX,
    ensures
        spec_step(state, action, false, lens, stepped, hit) matches Some(next) ==> {
            let (idx, byte) = next.focus->0;
            &&& next.anchor == next.focus
            &&& forall|i: int|
                0 <= i < lens.len() ==> #[trigger] ranges_of(next, lens)[i] == (if i == idx {
                    Some((byte, byte))
                } else {
                    None
                })
        },
{
    if let Some(next) = spec_step(state, action, false, lens, stepped, hit) {
        let (idx, byte) = next.focus->0;
        assert(next.anchor == Some((idx, byte)));
        assert forall|i: int| 0 <= i < lens.len() implies #[trigger] ranges_of(next, lens)[i] == (
        if i == idx {
            Some((byte, byte))
        } else {
            None
        }) by {
            assert(ranges_of(next, lens)[i] == range_for(i as usize, idx, byte, idx, byte, lens[i]));
        }
    }
}

/// `Ctrl+End` and `Ctrl+Home` jump across the whole group: from any focus,
/// whatever the widgets answered, the focus lands on the last byte of the
/// last widget (`Ctrl+End`) or on the first byte of the first widget
/// (`Ctrl+Home`). Without `Shift` the anchor lands there too; with it, the
/// anchor stays where the selection started.
pub proof fn lemma_doc_edge_reaches_group_edge(
    state: GroupState,
    dir: i32,
    extend: bool,
    lens: Seq<usize>,
    stepped: Option<usize>,
    hit: Option<usize>,
)
    requires
        state.focus is Some,
        lens.len() > 0,
    ensures
        ({
            let target = if dir < 0 {
                (0usize, 0usize)
            } else {
                ((lens.len() - 1) as usize, lens[lens.len() - 1])
            };
            let start = match state.anchor {
                Some(a) => a,
                None => state.focus->0,
            };
            spec_step(state, KeyAction::DocEdge(dir), extend, lens, stepped, hit) == Some(
                GroupState {
                    anchor: Some(if extend { start } else { target }),
                    focus: Some(target),
                    ..state
                },
            )
        }),
{
}

/// A keyboard step first moves inside the focused widget: when the widget
/// answers a byte other than the focus, the focus goes there. When the
/// widget cannot move, a character or word step goes on to the start of the
/// next widget (forward) or the end of the previous one (backward), and
/// stops at the first and last widget.
pub proof fn lemma_step_inside_then_across(
    state: GroupState,
    dir: i32,
    word: bool,
    lens: Seq<usize>,
    stepped: Option<usize>,
    hit: Option<usize>,
)
    requires
        state.focus is Some,
        (state.focus->0).0 < lens.len(),
        dir != 0,
    ensures
        ({
            let (idx, byte) = state.focus->0;
            let action = if word {
                KeyAction::Word(dir)
            } else {
                KeyAction::Char(dir)
            };
            let next = spec_step(state, action, false, lens, stepped, hit);
            if stepped is Some && stepped->0 != byte {
                next matches Some(n) && n.focus == Some((idx, stepped->0))
            } else if dir > 0 {
                if idx + 1 < lens.len() {
                    next matches Some(n) && n.focus == Some(((idx + 1) as usize, 0usize))
                } else {
                    next is None
                }
            } else {
                if idx > 0 {
                    next matches Some(n) && n.focus == Some(((idx - 1) as usize, lens[idx - 1]))
                } else {
                    next is None
                }
            }
        }),
{
}

} // verus!

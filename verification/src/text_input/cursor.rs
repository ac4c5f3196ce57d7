//! Track the cursor of a text input.
use vstd::prelude::*;
use crate::text_input::value::{Value, spec_next_end_of_word, spec_previous_start_of_word};

verus! {

/// The state of a [`Cursor`].
#[derive(Debug, Copy, Clone, PartialEq, Eq, Structural)]
pub enum State {
    /// Cursor without a selection
    Index(usize),
    /// Cursor selecting a range of text
    Selection {
        /// The start of the selection
        start: usize,
        /// The end of the selection
        end: usize,
    },
}

/// The cursor of a text input.
#[derive(Debug, Copy, Clone, PartialEq, Eq, Structural)]
pub struct Cursor {
    state: State,
}

/// The smaller of two positions.
pub open spec fn min(a: int, b: int) -> int {
    if a <= b { a } else { b }
}

/// The larger of two positions.
pub open spec fn max(a: int, b: int) -> int {
    if a >= b { a } else { b }
}

/// The [`State`] of a raw cursor state, seen against a value of `len`
/// graphemes: positions are clamped to `len`, and a selection whose ends meet
/// is an index.
pub open spec fn clamped(state: State, len: nat) -> State {
    match state {
        State::Index(index) => State::Index(min(index as int, len as int) as usize),
        State::Selection { start, end } => {
            let s = min(start as int, len as int) as usize;
            let e = min(end as int, len as int) as usize;
            if s == e {
                State::Index(s)
            } else {
                State::Selection { start: s, end: e }
            }
        },
    }
}

/// The state that `select_range(start, end)` stores.
pub open spec fn range_state(start: usize, end: usize) -> State {
    if start == end {
        State::Index(start)
    } else {
        State::Selection { start, end }
    }
}

/// The selection, with its ends ordered, of a clamped state.
pub open spec fn selection_of(state: State) -> Option<(usize, usize)> {
    match state {
        State::Selection { start, end } => Some(
            (min(start as int, end as int) as usize, max(start as int, end as int) as usize),
        ),
        State::Index(_) => None,
    }
}

/// The left end of a clamped state.
pub open spec fn left_of(state: State) -> usize {
    match state {
        State::Index(index) => index,
        State::Selection { start, end } => min(start as int, end as int) as usize,
    }
}

/// The right end of a clamped state.
pub open spec fn right_of(state: State) -> usize {
    match state {
        State::Index(index) => index,
        State::Selection { start, end } => max(start as int, end as int) as usize,
    }
}

/// Whether a state lies within a value of `len` graphemes.
pub open spec fn within(state: State, len: nat) -> bool {
    match state {
        State::Index(index) => index <= len,
        State::Selection { start, end } => start <= len && end <= len && start != end,
    }
}

/// The state after moving `amount` graphemes to the right of a value of
/// `len` graphemes: an index moves up to the end; a selection collapses to
/// its right end.
pub open spec fn moved_right_by(state: State, len: nat, amount: int) -> State {
    match clamped(state, len) {
        State::Index(index) => State::Index(min(index + amount, len as int) as usize),
        State::Selection { start, end } => State::Index(max(start as int, end as int) as usize),
    }
}

/// The state after moving one grapheme to the left: an index moves down to
/// the start; a selection collapses to its left end.
pub open spec fn moved_left(state: State, len: nat) -> State {
    match clamped(state, len) {
        State::Index(index) => State::Index(if index > 0 { (index - 1) as usize } else { 0 }),
        State::Selection { start, end } => State::Index(min(start as int, end as int) as usize),
    }
}

/// The state after moving to the start of the word before the left end.
pub open spec fn moved_left_by_words(state: State, value: Seq<Seq<char>>) -> State {
    State::Index(
        spec_previous_start_of_word(value, left_of(clamped(state, value.len())) as nat) as usize,
    )
}

/// The state after moving to the end of the word after the right end.
pub open spec fn moved_right_by_words(state: State, value: Seq<Seq<char>>) -> State {
    State::Index(
        spec_next_end_of_word(value, right_of(clamped(state, value.len())) as nat) as usize,
    )
}

/// The state after extending the selection one grapheme to the left.
pub open spec fn selected_left(state: State, len: nat) -> State {
    match clamped(state, len) {
        State::Index(index) => if index > 0 {
            range_state(index, (index - 1) as usize)
        } else {
            state
        },
        State::Selection { start, end } => if end > 0 {
            range_state(start, (end - 1) as usize)
        } else {
            state
        },
    }
}

/// The state after extending the selection one grapheme to the right.
pub open spec fn selected_right(state: State, len: nat) -> State {
    match clamped(state, len) {
        State::Index(index) => if index < len {
            range_state(index, (index + 1) as usize)
        } else {
            state
        },
        State::Selection { start, end } => if end < len {
            range_state(start, (end + 1) as usize)
        } else {
            state
        },
    }
}

/// The state after extending the selection to the start of the word before
/// its end.
pub open spec fn selected_left_by_words(state: State, value: Seq<Seq<char>>) -> State {
    match clamped(state, value.len()) {
        State::Index(index) => range_state(
            index,
            spec_previous_start_of_word(value, index as nat) as usize,
        ),
        State::Selection { start, end } => range_state(
            start,
            spec_previous_start_of_word(value, end as nat) as usize,
        ),
    }
}

/// The state after extending the selection to the end of the word after its
/// end.
pub open spec fn selected_right_by_words(state: State, value: Seq<Seq<char>>) -> State {
    match clamped(state, value.len()) {
        State::Index(index) => range_state(index, spec_next_end_of_word(value, index as nat) as usize),
        State::Selection { start, end } => range_state(
            start,
            spec_next_end_of_word(value, end as nat) as usize,
        ),
    }
}

/// Where a state starts (its index, or where its selection starts), clamped
/// to a value of `len` graphemes.
pub open spec fn start_of(state: State, len: nat) -> usize {
    min(
        match state {
            State::Index(index) => index as int,
            State::Selection { start, .. } => start as int,
        },
        len as int,
    ) as usize
}

/// Where a state ends (its index, or where its selection ends), clamped to
/// a value of `len` graphemes.
pub open spec fn end_of(state: State, len: nat) -> usize {
    min(
        match state {
            State::Index(index) => index as int,
            State::Selection { end, .. } => end as int,
        },
        len as int,
    ) as usize
}

impl Default for Cursor {
    fn default() -> (r: Self)
        ensures
            r@ == State::Index(0),
    {
        Cursor { state: State::Index(0) }
    }
}

impl View for Cursor {
    type V = State;

    /// The raw state the cursor holds, before it is seen against a value.
    closed spec fn view(&self) -> State {
        self.state
    }
}

impl Cursor {
    /// Returns the [`State`] of the [`Cursor`].
    pub fn state(&self, value: &Value) -> (r: State)
        ensures
            r == clamped(self@, value@.len()),
    {
        let len = value.len();
        match self.state {
            State::Index(index) => State::Index(if index <= len { index } else { len }),
            State::Selection { start, end } => {
                let start = if start <= len { start } else { len };
                let end = if end <= len { end } else { len };

                if start == end {
                    State::Index(start)
                } else {
                    State::Selection { start, end }
                }
            },
        }
    }

    /// Returns the current selection of the [`Cursor`] for the given [`Value`].
    ///
    /// `start` is guaranteed to be <= than `end`.
    pub fn selection(&self, value: &Value) -> (r: Option<(usize, usize)>)
        ensures
            r == selection_of(clamped(self@, value@.len())),
            r matches Some((start, end)) ==> start < end <= value@.len(),
    {
        match self.state(value) {
            State::Selection { start, end } => {
                Some((if start <= end { start } else { end }, if start >= end { start } else { end }))
            },
            State::Index(_) => None,
        }
    }

    /// Moves the cursor to `position`, dropping any selection.
    pub fn move_to(&mut self, position: usize)
        ensures
            final(self)@ == State::Index(position),
    {
        self.state = State::Index(position);
    }

    /// Moves the cursor one grapheme to the right, or to the right end of the
    /// selection.
    pub fn move_right(&mut self, value: &Value)
        ensures
            final(self)@ == moved_right_by(old(self)@, value@.len(), 1),
    {
        self.move_right_by_amount(value, 1);
    }

    /// Moves the cursor to the end of the next word after its right end.
    pub fn move_right_by_words(&mut self, value: &Value)
        ensures
            final(self)@ == moved_right_by_words(old(self)@, value@),
    {
        let right = self.right(value);
        self.move_to(value.next_end_of_word(right));
    }

    /// Moves the cursor `amount` graphemes to the right (up to the end of the
    /// value), or to the right end of the selection.
    pub fn move_right_by_amount(&mut self, value: &Value, amount: usize)
        ensures
            final(self)@ == moved_right_by(old(self)@, value@.len(), amount as int),
    {
        match self.state(value) {
            State::Index(index) => {
                let moved = index.saturating_add(amount);
                let len = value.len();
                self.move_to(if moved <= len { moved } else { len });
            },
            State::Selection { start, end } => self.move_to(if end >= start { end } else { start }),
        }
    }

    /// Moves the cursor one grapheme to the left, or to the left end of the
    /// selection.
    pub fn move_left(&mut self, value: &Value)
        ensures
            final(self)@ == moved_left(old(self)@, value@.len()),
    {
        match self.state(value) {
            State::Index(index) if index > 0 => self.move_to(index - 1),
            State::Selection { start, end } => self.move_to(if start <= end { start } else { end }),
            State::Index(_) => self.move_to(0),
        }
    }

    /// Moves the cursor to the start of the word before its left end.
    pub fn move_left_by_words(&mut self, value: &Value)
        ensures
            final(self)@ == moved_left_by_words(old(self)@, value@),
    {
        let left = self.left(value);
        self.move_to(value.previous_start_of_word(left));
    }

    /// Selects the range from `start` to `end`; an empty range is an index.
    pub fn select_range(&mut self, start: usize, end: usize)
        ensures
            final(self)@ == range_state(start, end),
    {
        if start == end {
            self.state = State::Index(start);
        } else {
            self.state = State::Selection { start, end };
        }
    }

    /// Extends the selection one grapheme to the left.
    pub fn select_left(&mut self, value: &Value)
        ensures
            final(self)@ == selected_left(old(self)@, value@.len()),
    {
        match self.state(value) {
            State::Index(index) => {
                if index > 0 {
                    self.select_range(index, index - 1);
                }
            },
            State::Selection { start, end } => {
                if end > 0 {
                    self.select_range(start, end - 1);
                }
            },
        }
    }

    /// Extends the selection one grapheme to the right.
    pub fn select_right(&mut self, value: &Value)
        ensures
            final(self)@ == selected_right(old(self)@, value@.len()),
    {
        let len = value.len();
        match self.state(value) {
            State::Index(index) => {
                if index < len {
                    self.select_range(index, index + 1);
                }
            },
            State::Selection { start, end } => {
                if end < len {
                    self.select_range(start, end + 1);
                }
            },
        }
    }

    /// Extends the selection to the start of the word before its end.
    pub fn select_left_by_words(&mut self, value: &Value)
        ensures
            final(self)@ == selected_left_by_words(old(self)@, value@),
    {
        match self.state(value) {
            State::Index(index) => {
                let to = value.previous_start_of_word(index);
                self.select_range(index, to);
            },
            State::Selection { start, end } => {
                let to = value.previous_start_of_word(end);
                self.select_range(start, to);
            },
        }
    }

    /// Extends the selection to the end of the word after its end.
    pub fn select_right_by_words(&mut self, value: &Value)
        ensures
            final(self)@ == selected_right_by_words(old(self)@, value@),
    {
        match self.state(value) {
            State::Index(index) => {
                let to = value.next_end_of_word(index);
                self.select_range(index, to);
            },
            State::Selection { start, end } => {
                let to = value.next_end_of_word(end);
                self.select_range(start, to);
            },
        }
    }

    /// Selects the whole value.
    pub fn select_all(&mut self, value: &Value)
        ensures
            final(self)@ == range_state(0, value@.len() as usize),
    {
        let len = value.len();
        self.select_range(0, len);
    }

    /// The start of the cursor (its index, or where its selection starts),
    /// clamped to the value.
    pub fn start(&self, value: &Value) -> (r: usize)
        ensures
            r == start_of(self@, value@.len()),
    {
        let start = match self.state {
            State::Index(index) => index,
            State::Selection { start, .. } => start,
        };
        let len = value.len();
        if start <= len { start } else { len }
    }

    /// The end of the cursor (its index, or where its selection ends),
    /// clamped to the value.
    pub fn end(&self, value: &Value) -> (r: usize)
        ensures
            r == end_of(self@, value@.len()),
    {
        let end = match self.state {
            State::Index(index) => index,
            State::Selection { end, .. } => end,
        };
        let len = value.len();
        if end <= len { end } else { len }
    }

    fn left(&self, value: &Value) -> (r: usize)
        ensures
            r == left_of(clamped(self@, value@.len())),
            r <= value@.len(),
    {
        match self.state(value) {
            State::Index(index) => index,
            State::Selection { start, end } => if start <= end { start } else { end },
        }
    }

    fn right(&self, value: &Value) -> (r: usize)
        ensures
            r == right_of(clamped(self@, value@.len())),
            r <= value@.len(),
    {
        match self.state(value) {
            State::Index(index) => index,
            State::Selection { start, end } => if start >= end { start } else { end },
        }
    }
}

/// The state of a cursor, seen against any value, lies within that value:
/// its positions are at most the number of graphemes, and a selection never
/// has equal ends.
pub proof fn lemma_state_within_value(state: State, len: nat)
    ensures
        within(clamped(state, len), len),
{
}

/// The selection that a cursor reports is ordered and non-empty: `start` is
/// strictly below `end`, and `end` is within the value.
pub proof fn lemma_selection_ordered(state: State, len: nat)
    ensures
        selection_of(clamped(state, len)) matches Some((start, end)) ==> start < end <= len,
{
}

/// Seeing a cursor against a value twice changes nothing more.
pub proof fn lemma_clamped_idempotent(state: State, len: nat)
    ensures
        clamped(clamped(state, len), len) == clamped(state, len),
{
}

/// Selecting all of a non-empty value selects exactly `(0, len)`.
pub proof fn lemma_select_all_selection(len: nat)
    requires
        0 < len <= usize::MAX,
    ensures
        selection_of(clamped(range_state(0, len as usize), len)) == Some((0usize, len as usize)),
{
}

/// Moving the cursor to a position drops every selection: afterwards the
/// cursor reports no selection, and its index is the position clamped to the
/// value.
pub proof fn lemma_move_to_drops_selection(position: usize, len: nat)
    ensures
        selection_of(clamped(State::Index(position), len)) is None,
        clamped(State::Index(position), len) == State::Index(min(position as int, len as int) as usize),
{
}

} // verus!

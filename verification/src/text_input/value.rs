//! The grapheme-segmented value of a text input.
use vstd::prelude::*;
use vstd::string::*;
use unicode_segmentation::UnicodeSegmentation;

verus! {

/// The extended grapheme clusters of a string, as segmented by the
/// `unicode-segmentation` crate (UAX #29).
pub uninterp spec fn spec_graphemes(s: Seq<char>) -> Seq<Seq<char>>;

/// The word-boundary pieces of a string, as split by the
/// `unicode-segmentation` crate (UAX #29 word boundaries).
pub uninterp spec fn spec_word_bounds(s: Seq<char>) -> Seq<Seq<char>>;

/// Whether a character is white space in the sense of `char::is_whitespace`:
/// it has the Unicode `White_Space` property.
pub open spec fn spec_is_whitespace(c: char) -> bool {
    ||| '\u{9}' <= c <= '\u{d}'
    ||| c == ' '
    ||| c == '\u{85}'
    ||| c == '\u{a0}'
    ||| c == '\u{1680}'
    ||| '\u{2000}' <= c <= '\u{200a}'
    ||| c == '\u{2028}'
    ||| c == '\u{2029}'
    ||| c == '\u{202f}'
    ||| c == '\u{205f}'
    ||| c == '\u{3000}'
}

/// The characters of each string of a sequence.
pub open spec fn views(v: Seq<String>) -> Seq<Seq<char>> {
    v.map_values(|g: String| g@)
}

/// Whether a piece holds some character that is not white space, i.e. whether
/// `piece.trim_start()` is non-empty.
pub open spec fn has_non_whitespace(piece: Seq<char>) -> bool {
    exists|i: int| 0 <= i < piece.len() && !spec_is_whitespace(#[trigger] piece[i])
}

/// Splits `s` into its extended grapheme clusters.
///
/// Calls `UnicodeSegmentation::graphemes(s, true)`. The clusters are named by
/// `spec_graphemes`; the contract also states what the crate documents of
/// them: they are non-empty and, concatenated, give back `s`.
#[verifier::external_body]
fn graphemes_of(s: &str) -> (r: Vec<String>)
    ensures
        views(r@) == spec_graphemes(s@),
        views(r@).flatten() == s@,
        forall|i: int| 0 <= i < r@.len() ==> (#[trigger] r@[i])@.len() > 0,
{
    UnicodeSegmentation::graphemes(s, true).map(String::from).collect()
}

/// Counts the extended grapheme clusters of `s`.
///
/// Calls `UnicodeSegmentation::graphemes(s, true).count()`; the count is the
/// length of `spec_graphemes(s@)`.
#[verifier::external_body]
fn grapheme_count(s: &str) -> (r: usize)
    ensures
        r == spec_graphemes(s@).len(),
{
    UnicodeSegmentation::graphemes(s, true).count()
}

/// Splits `s` on its word boundaries.
///
/// Calls `UnicodeSegmentation::split_word_bounds(s)` (the pieces of
/// `split_word_bound_indices`, without their offsets). The crate documents
/// that the pieces, concatenated, give back `s`.
#[verifier::external_body]
fn word_bounds_of(s: &str) -> (r: Vec<String>)
    ensures
        views(r@) == spec_word_bounds(s@),
        views(r@).flatten() == s@,
{
    UnicodeSegmentation::split_word_bounds(s).map(String::from).collect()
}

/// Whether a character is white space, as `char::is_whitespace` tells: it
/// has the Unicode `White_Space` property.
fn is_whitespace(c: char) -> (r: bool)
    ensures
        r == spec_is_whitespace(c),
{
    ('\u{9}' <= c && c <= '\u{d}') || c == ' ' || c == '\u{85}' || c == '\u{a0}' || c == '\u{1680}'
        || ('\u{2000}' <= c && c <= '\u{200a}') || c == '\u{2028}' || c == '\u{2029}' || c
        == '\u{202f}' || c == '\u{205f}' || c == '\u{3000}'
}

/// Whether `piece.trim_start()` is not empty.
fn piece_has_non_whitespace(piece: &String) -> (r: bool)
    ensures
        r == has_non_whitespace(piece@),
{
    let s = piece.as_str();
    let n = s.unicode_len();
    let mut i: usize = 0;
    while i < n
        invariant
            s@ == piece@,
            n == piece@.len(),
            i <= n,
            forall|j: int| 0 <= j < i ==> spec_is_whitespace(#[trigger] piece@[j]),
        decreases n - i,
    {
        let c = s.get_char(i);
        if !is_whitespace(c) {
            assert(!spec_is_whitespace(piece@[i as int]));
            return true;
        }
        i += 1;
    }
    false
}

/// The concatenation of the strings `pieces[start..end]`.
fn concat_range(pieces: &Vec<String>, start: usize, end: usize) -> (r: String)
    requires
        start <= end <= pieces@.len(),
    ensures
        r@ == views(pieces@.subrange(start as int, end as int)).flatten(),
{
    let mut r = String::new();
    let mut i: usize = start;
    while i < end
        invariant
            start <= i <= end <= pieces@.len(),
            r@ == views(pieces@.subrange(start as int, i as int)).flatten(),
        decreases end - i,
    {
        proof {
            assert(views(pieces@.subrange(start as int, i + 1)) =~= views(
                pieces@.subrange(start as int, i as int),
            ).push(pieces@[i as int]@));
            views(pieces@.subrange(start as int, i as int)).lemma_flatten_push(pieces@[i as int]@);
        }
        r.append(pieces[i].as_str());
        i += 1;
    }
    r
}

/// The characters of a text that are not control codes, in order.
pub open spec fn without_controls(text: Seq<char>) -> Seq<char>
    decreases text.len(),
{
    if text.len() == 0 {
        text
    } else if crate::text_editor::is_control(text.last()) {
        without_controls(text.drop_last())
    } else {
        without_controls(text.drop_last()).push(text.last())
    }
}

/// The text without its control codes.
pub fn remove_controls(text: &str) -> (r: String)
    ensures
        r@ == without_controls(text@),
{
    let n = text.unicode_len();
    let mut r = String::new();
    let mut i: usize = 0;
    while i < n
        invariant
            n == text@.len(),
            i <= n,
            r@ == without_controls(text@.take(i as int)),
        decreases n - i,
    {
        let c = text.get_char(i);
        assert(text@.take(i + 1).drop_last() =~= text@.take(i as int));
        if !crate::text_editor::char_is_control(c) {
            let piece = char_to_string(c);
            r.append(piece.as_str());
        }
        i += 1;
    }
    assert(text@.take(n as int) =~= text@);
    r
}

/// Calls `char::to_string`, which gives the one-character string of `c`.
#[verifier::external_body]
fn char_to_string(c: char) -> (r: String)
    ensures
        r@ == seq![c],
{
    c.to_string()
}

/// The index of the last piece that holds a character other than white space,
/// searching `pieces[..n]`; `-1` when there is none.
pub open spec fn last_word_index(pieces: Seq<Seq<char>>, n: int) -> int
    decreases n,
{
    if n <= 0 {
        -1
    } else if has_non_whitespace(pieces[n - 1]) {
        n - 1
    } else {
        last_word_index(pieces, n - 1)
    }
}

/// The index of the first piece that holds a character other than white
/// space, searching `pieces[i..]`; `pieces.len()` when there is none.
pub open spec fn first_word_index(pieces: Seq<Seq<char>>, i: int) -> int
    decreases pieces.len() - i,
{
    if i >= pieces.len() || i < 0 {
        pieces.len() as int
    } else if has_non_whitespace(pieces[i]) {
        i
    } else {
        first_word_index(pieces, i + 1)
    }
}

proof fn lemma_last_word_index(pieces: Seq<Seq<char>>, n: int)
    requires
        0 <= n <= pieces.len(),
    ensures
        -1 <= last_word_index(pieces, n) < n,
        last_word_index(pieces, n) >= 0 ==> has_non_whitespace(pieces[last_word_index(pieces, n)]),
        forall|j: int|
            last_word_index(pieces, n) < j < n ==> !has_non_whitespace(#[trigger] pieces[j]),
    decreases n,
{
    if n > 0 && !has_non_whitespace(pieces[n - 1]) {
        lemma_last_word_index(pieces, n - 1);
    }
}

proof fn lemma_first_word_index(pieces: Seq<Seq<char>>, i: int)
    requires
        0 <= i <= pieces.len(),
    ensures
        i <= first_word_index(pieces, i) <= pieces.len(),
        first_word_index(pieces, i) < pieces.len() ==> has_non_whitespace(
            pieces[first_word_index(pieces, i)],
        ),
        forall|j: int| i <= j < first_word_index(pieces, i) ==> !has_non_whitespace(#[trigger] pieces[j]),
    decreases pieces.len() - i,
{
    if i < pieces.len() && !has_non_whitespace(pieces[i]) {
        lemma_first_word_index(pieces, i + 1);
    }
}

/// The grapheme position where the word before grapheme `index` starts.
///
/// The graphemes before `index` are split on word boundaries; the last piece
/// holding something other than white space is that word. Its start is
/// `index` minus the graphemes of the word and of what follows it, or `0`
/// when there is no such word (and when the count would go below zero).
pub open spec fn spec_previous_start_of_word(value: Seq<Seq<char>>, index: nat) -> nat {
    let end = if index <= value.len() { index } else { value.len() };
    let previous = value.take(end as int).flatten();
    let words = spec_word_bounds(previous);
    let k = last_word_index(words, words.len() as int);
    if k < 0 {
        0
    } else {
        let back = spec_graphemes(words[k]).len() + spec_graphemes(
            words.skip(k + 1).flatten(),
        ).len();
        if back <= index {
            (index - back) as nat
        } else {
            0
        }
    }
}

/// The grapheme position where the word at or after grapheme `index` ends.
///
/// The graphemes from `index` on are split on word boundaries; the first
/// piece holding something other than white space is that word. Its end is
/// `index` plus the graphemes before and of the word (saturated at
/// `usize::MAX`), or the length of the value when there is no such word.
pub open spec fn spec_next_end_of_word(value: Seq<Seq<char>>, index: nat) -> nat {
    let next = value.skip(index as int).flatten();
    let words = spec_word_bounds(next);
    let k = first_word_index(words, 0);
    if k >= words.len() {
        value.len()
    } else {
        let forward = index + spec_graphemes(words[k]).len() + spec_graphemes(
            words.take(k).flatten(),
        ).len();
        if forward <= usize::MAX {
            forward as nat
        } else {
            usize::MAX as nat
        }
    }
}

/// A concatenation holds a character other than white space exactly when
/// one of its two parts does.
proof fn lemma_concat_non_whitespace(a: Seq<char>, b: Seq<char>)
    ensures
        has_non_whitespace(a + b) <==> (has_non_whitespace(a) || has_non_whitespace(b)),
{
    if has_non_whitespace(a + b) {
        let i = choose|i: int| 0 <= i < (a + b).len() && !spec_is_whitespace(#[trigger] (a + b)[i]);
        if i < a.len() {
            assert(a[i] == (a + b)[i]);
        } else {
            assert(b[i - a.len()] == (a + b)[i]);
        }
    }
    if has_non_whitespace(a) {
        let i = choose|i: int| 0 <= i < a.len() && !spec_is_whitespace(#[trigger] a[i]);
        assert((a + b)[i] == a[i]);
    }
    if has_non_whitespace(b) {
        let i = choose|i: int| 0 <= i < b.len() && !spec_is_whitespace(#[trigger] b[i]);
        assert((a + b)[i + a.len()] == b[i]);
    }
}

/// Pieces joined together hold a character other than white space exactly
/// when one of the pieces does.
pub proof fn lemma_flatten_non_whitespace(pieces: Seq<Seq<char>>)
    ensures
        has_non_whitespace(pieces.flatten()) <==> exists|k: int|
            0 <= k < pieces.len() && has_non_whitespace(#[trigger] pieces[k]),
    decreases pieces.len(),
{
    if pieces.len() > 0 {
        let rest = pieces.drop_first();
        lemma_flatten_non_whitespace(rest);
        lemma_concat_non_whitespace(pieces.first(), rest.flatten());
        if exists|k: int| 0 <= k < pieces.len() && has_non_whitespace(#[trigger] pieces[k]) {
            let k = choose|k: int| 0 <= k < pieces.len() && has_non_whitespace(#[trigger] pieces[k]);
            if k > 0 {
                assert(rest[k - 1] == pieces[k]);
            }
        }
        if exists|k: int| 0 <= k < rest.len() && has_non_whitespace(#[trigger] rest[k]) {
            let k = choose|k: int| 0 <= k < rest.len() && has_non_whitespace(#[trigger] rest[k]);
            assert(pieces[k + 1] == rest[k]);
        }
    }
}

/// Past the last word, the next end of a word is the end of the value: when
/// the graphemes from `index` on hold nothing but white space, the next end
/// of word from `index` is the length of the value (the cursor goes to the
/// end). The second requirement is what the word splitter guarantees of
/// every split: its pieces, joined, give back the text (here the graphemes
/// from `index` on).
pub proof fn lemma_next_end_of_word_past_last_word(value: Seq<Seq<char>>, index: nat)
    requires
        index <= value.len(),
        spec_word_bounds(value.skip(index as int).flatten()).flatten() == value.skip(
            index as int,
        ).flatten(),
        forall|j: int| index <= j < value.len() ==> !has_non_whitespace(#[trigger] value[j]),
    ensures
        spec_next_end_of_word(value, index) == value.len(),
{
    let tail = value.skip(index as int);
    let next = tail.flatten();
    let words = spec_word_bounds(next);
    lemma_flatten_non_whitespace(tail);
    assert forall|k: int| 0 <= k < tail.len() implies !has_non_whitespace(#[trigger] tail[k]) by {
        assert(tail[k] == value[index + k]);
    }
    lemma_flatten_non_whitespace(words);
    lemma_first_word_index(words, 0);
}

/// Before the first word, the previous start of a word is the start of the
/// value: when the graphemes before `index` hold nothing but white space,
/// the previous start of word from `index` is `0`. The first requirement is
/// what the word splitter guarantees of every split: its pieces, joined,
/// give back the text (here the graphemes before `index`, up to the end of
/// the value).
pub proof fn lemma_previous_start_of_word_before_first_word(value: Seq<Seq<char>>, index: nat)
    requires
        spec_word_bounds(value.take(vstd::math::min(index as int, value.len() as int)).flatten()).flatten()
            == value.take(vstd::math::min(index as int, value.len() as int)).flatten(),
        forall|j: int| 0 <= j < index && j < value.len() ==> !has_non_whitespace(#[trigger] value[j]),
    ensures
        spec_previous_start_of_word(value, index) == 0,
{
    let end = vstd::math::min(index as int, value.len() as int);
    let head = value.take(end);
    let previous = head.flatten();
    let words = spec_word_bounds(previous);
    lemma_flatten_non_whitespace(head);
    assert forall|k: int| 0 <= k < head.len() implies !has_non_whitespace(#[trigger] head[k]) by {
        assert(head[k] == value[k]);
    }
    lemma_flatten_non_whitespace(words);
    lemma_last_word_index(words, words.len() as int);
}

/// Clones the strings `pieces[start..end]`.
fn clone_range(pieces: &Vec<String>, start: usize, end: usize) -> (r: Vec<String>)
    requires
        start <= end <= pieces@.len(),
    ensures
        r@ == pieces@.subrange(start as int, end as int),
{
    let mut r: Vec<String> = Vec::new();
    let mut i: usize = start;
    while i < end
        invariant
            start <= i <= end <= pieces@.len(),
            r@ == pieces@.subrange(start as int, i as int),
        decreases end - i,
    {
        r.push(pieces[i].clone());
        assert(r@ =~= pieces@.subrange(start as int, i + 1));
        i += 1;
    }
    r
}

/// The value of a text input: a sequence of grapheme clusters.
#[derive(Debug, Clone)]
pub struct Value {
    graphemes: Vec<String>,
}

impl View for Value {
    type V = Seq<Seq<char>>;

    closed spec fn view(&self) -> Seq<Seq<char>> {
        views(self.graphemes@)
    }
}

impl Value {
    /// Creates a new [`Value`] from a string slice: its extended grapheme
    /// clusters.
    pub fn new(string: &str) -> (r: Self)
        ensures
            r@ == spec_graphemes(string@),
            r@.flatten() == string@,
            forall|i: int| 0 <= i < r@.len() ==> (#[trigger] r@[i]).len() > 0,
    {
        Value { graphemes: graphemes_of(string) }
    }

    /// Returns whether the [`Value`] is empty or not.
    ///
    /// A [`Value`] is empty when it contains no graphemes.
    pub fn is_empty(&self) -> (r: bool)
        ensures
            r == (self@.len() == 0),
    {
        self.len() == 0
    }

    /// Returns the total amount of graphemes in the [`Value`].
    pub fn len(&self) -> (r: usize)
        ensures
            r == self@.len(),
    {
        self.graphemes.len()
    }

    /// Returns the position of the previous start of a word from the given
    /// grapheme `index`.
    pub fn previous_start_of_word(&self, index: usize) -> (r: usize)
        ensures
            r == spec_previous_start_of_word(self@, index as nat),
            r <= index,
            (forall|j: int| 0 <= j < index && j < self@.len() ==> !has_non_whitespace(
                #[trigger] self@[j],
            )) ==> r == 0,
    {
        let len = self.graphemes.len();
        let end = if index <= len { index } else { len };
        let previous = concat_range(&self.graphemes, 0, end);
        proof {
            assert(self.graphemes@.subrange(0, end as int) =~= self.graphemes@.take(end as int));
            assert(views(self.graphemes@.take(end as int)) =~= self@.take(end as int));
        }
        let words = word_bounds_of(previous.as_str());
        proof {
            if forall|j: int| 0 <= j < index && j < self@.len() ==> !has_non_whitespace(
                #[trigger] self@[j],
            ) {
                lemma_previous_start_of_word_before_first_word(self@, index as nat);
            }
        }
        let ghost pieces = views(words@);
        let mut k: usize = words.len();
        while k > 0
            invariant
                k <= words@.len(),
                pieces == views(words@),
                pieces.len() == words@.len(),
                previous@ == self@.take(end as int).flatten(),
                pieces == spec_word_bounds(previous@),
                end == (if index <= self@.len() { index } else { self@.len() as usize }),
                last_word_index(pieces, words@.len() as int) == last_word_index(pieces, k as int),
                (forall|j: int| 0 <= j < index && j < self@.len() ==> !has_non_whitespace(
                    #[trigger] self@[j],
                )) ==> spec_previous_start_of_word(self@, index as nat) == 0,
            decreases k,
        {
            if piece_has_non_whitespace(&words[k - 1]) {
                assert(pieces[k - 1] == words@[k - 1]@);
                assert(last_word_index(pieces, k as int) == k - 1);
                let word_count = grapheme_count(words[k - 1].as_str());
                let rest = concat_range(&words, k, words.len());
                proof {
                    assert(words@.subrange(k as int, words@.len() as int) =~= words@.skip(k as int));
                    assert(views(words@.skip(k as int)) =~= pieces.skip(k as int));
                }
                let rest_count = grapheme_count(rest.as_str());
                let r = index.saturating_sub(word_count).saturating_sub(rest_count);
                assert(previous@ == self@.take(end as int).flatten());
                assert(pieces == spec_word_bounds(self@.take(end as int).flatten()));
                return r;
            }
            assert(pieces[k - 1] == words@[k - 1]@);
            k -= 1;
        }
        0
    }

    /// Returns the position of the next end of a word from the given grapheme
    /// `index`.
    pub fn next_end_of_word(&self, index: usize) -> (r: usize)
        requires
            index <= self@.len(),
        ensures
            r == spec_next_end_of_word(self@, index as nat),
            index <= r,
            (forall|j: int| index <= j < self@.len() ==> !has_non_whitespace(#[trigger] self@[j]))
                ==> r == self@.len(),
    {
        let len = self.graphemes.len();
        let next = concat_range(&self.graphemes, index, len);
        proof {
            assert(self.graphemes@.subrange(index as int, len as int) =~= self.graphemes@.skip(
                index as int,
            ));
            assert(views(self.graphemes@.skip(index as int)) =~= self@.skip(index as int));
        }
        let words = word_bounds_of(next.as_str());
        proof {
            if forall|j: int| index <= j < self@.len() ==> !has_non_whitespace(#[trigger] self@[j]) {
                lemma_next_end_of_word_past_last_word(self@, index as nat);
            }
        }
        let ghost pieces = views(words@);
        let mut k: usize = 0;
        while k < words.len()
            invariant
                k <= words@.len(),
                pieces == views(words@),
                pieces.len() == words@.len(),
                next@ == self@.skip(index as int).flatten(),
                pieces == spec_word_bounds(next@),
                len == self@.len(),
                first_word_index(pieces, 0) == first_word_index(pieces, k as int),
                (forall|j: int| index <= j < self@.len() ==> !has_non_whitespace(#[trigger] self@[j]))
                    ==> spec_next_end_of_word(self@, index as nat) == self@.len(),
            decreases words@.len() - k,
        {
            if piece_has_non_whitespace(&words[k]) {
                assert(pieces[k as int] == words@[k as int]@);
                let word_count = grapheme_count(words[k].as_str());
                let before = concat_range(&words, 0, k);
                proof {
                    assert(words@.subrange(0, k as int) =~= words@.take(k as int));
                    assert(views(words@.take(k as int)) =~= pieces.take(k as int));
                }
                let before_count = grapheme_count(before.as_str());
                let r = index.saturating_add(word_count).saturating_add(before_count);
                assert(next@ == self@.skip(index as int).flatten());
                return r;
            }
            assert(pieces[k as int] == words@[k as int]@);
            k += 1;
        }
        len
    }

    /// Returns a new [`Value`] containing the graphemes from `start` until the
    /// given `end`.
    pub fn select(&self, start: usize, end: usize) -> (r: Self)
        requires
            (if start <= self@.len() { start as int } else { self@.len() as int }) <= (if end
                <= self@.len() { end as int } else { self@.len() as int }),
        ensures
            r@ == self@.subrange(
                if start <= self@.len() { start as int } else { self@.len() as int },
                if end <= self@.len() { end as int } else { self@.len() as int },
            ),
    {
        let len = self.graphemes.len();
        let s = if start <= len { start } else { len };
        let e = if end <= len { end } else { len };
        let graphemes = clone_range(&self.graphemes, s, e);
        assert(views(graphemes@) =~= self@.subrange(s as int, e as int));
        Value { graphemes }
    }

    /// Returns a new [`Value`] containing the graphemes until the given
    /// `index`.
    pub fn until(&self, index: usize) -> (r: Self)
        ensures
            r@ == self@.take(if index <= self@.len() { index as int } else { self@.len() as int }),
    {
        let len = self.graphemes.len();
        let e = if index <= len { index } else { len };
        let graphemes = clone_range(&self.graphemes, 0, e);
        assert(views(graphemes@) =~= self@.take(e as int));
        Value { graphemes }
    }

    /// Inserts a new `char` at the given grapheme `index`, then segments the
    /// result into graphemes again.
    pub fn insert(&mut self, index: usize, c: char)
        requires
            index <= old(self)@.len(),
        ensures
            final(self)@ == spec_graphemes(old(self)@.insert(index as int, seq![c]).flatten()),
    {
        self.graphemes.insert(index, char_to_string(c));
        let len = self.graphemes.len();
        let whole = concat_range(&self.graphemes, 0, len);
        proof {
            assert(self.graphemes@.subrange(0, len as int) =~= self.graphemes@);
            assert(views(self.graphemes@) =~= old(self)@.insert(index as int, seq![c]));
        }
        self.graphemes = graphemes_of(whole.as_str());
    }

    /// Inserts a bunch of graphemes at the given grapheme `index`.
    pub fn insert_many(&mut self, index: usize, value: Value)
        requires
            index <= old(self)@.len(),
        ensures
            final(self)@ == old(self)@.take(index as int) + value@ + old(self)@.skip(index as int),
    {
        let len = self.graphemes.len();
        let mut graphemes = clone_range(&self.graphemes, 0, index);
        let moved = value.graphemes;
        let n = moved.len();
        let mut i: usize = 0;
        while i < n
            invariant
                n == moved@.len(),
                i <= n,
                graphemes@ == self.graphemes@.subrange(0, index as int) + moved@.subrange(0, i as int),
            decreases n - i,
        {
            graphemes.push(moved[i].clone());
            assert(graphemes@ =~= self.graphemes@.subrange(0, index as int) + moved@.subrange(0, i + 1));
            i += 1;
        }
        let mut j: usize = index;
        while j < len
            invariant
                index <= j <= len,
                len == self.graphemes@.len(),
                n == moved@.len(),
                graphemes@ == self.graphemes@.subrange(0, index as int) + moved@
                    + self.graphemes@.subrange(index as int, j as int),
            decreases len - j,
        {
            graphemes.push(self.graphemes[j].clone());
            assert(graphemes@ =~= self.graphemes@.subrange(0, index as int) + moved@
                + self.graphemes@.subrange(index as int, j + 1));
            j += 1;
        }
        assert(moved@.subrange(0, n as int) =~= moved@);
        assert(views(graphemes@) =~= old(self)@.take(index as int) + value@ + old(self)@.skip(index as int));
        self.graphemes = graphemes;
    }

    /// Removes the grapheme at the given `index`.
    pub fn remove(&mut self, index: usize)
        requires
            index < old(self)@.len(),
        ensures
            final(self)@ == old(self)@.remove(index as int),
    {
        let _ = self.graphemes.remove(index);
        assert(self@ =~= old(self)@.remove(index as int));
    }

    /// Removes the graphemes from `start` to `end`.
    pub fn remove_many(&mut self, start: usize, end: usize)
        requires
            start <= end <= old(self)@.len(),
        ensures
            final(self)@ == old(self)@.take(start as int) + old(self)@.skip(end as int),
    {
        let ghost before = self@;
        let mut i: usize = start;
        while i < end
            invariant
                start <= i <= end <= before.len(),
                self@ == before.take(start as int) + before.skip(i as int),
                self.graphemes@.len() == before.len() - (i - start),
            decreases end - i,
        {
            let ghost cur = self@;
            let _ = self.graphemes.remove(start);
            assert(self@ =~= cur.remove(start as int));
            assert(self@ =~= before.take(start as int) + before.skip(i + 1));
            i += 1;
        }
    }

    /// Returns a new [`Value`] with all its graphemes replaced with the
    /// dot ('•') character.
    pub fn secure(&self) -> (r: Self)
        ensures
            r@ == Seq::new(self@.len(), |i: int| seq!['•']),
    {
        let n = self.graphemes.len();
        let mut graphemes: Vec<String> = Vec::new();
        let mut i: usize = 0;
        while i < n
            invariant
                n == self@.len(),
                i <= n,
                graphemes@.len() == i,
                forall|j: int| 0 <= j < i ==> (#[trigger] graphemes@[j])@ == seq!['•'],
            decreases n - i,
        {
            graphemes.push(char_to_string('•'));
            i += 1;
        }
        assert(views(graphemes@) =~= Seq::new(n as nat, |j: int| seq!['•']));
        Value { graphemes }
    }

    /// The text of the [`Value`]: its graphemes, concatenated.
    pub fn to_string(&self) -> (r: String)
        ensures
            r@ == self@.flatten(),
    {
        let len = self.graphemes.len();
        let r = concat_range(&self.graphemes, 0, len);
        assert(self.graphemes@.subrange(0, len as int) =~= self.graphemes@);
        r
    }
}

/// Removing what was just inserted gives the value back: after inserting
/// `inserted` at `index` (as [`Value::insert_many`] does), removing the
/// graphemes from `index` to `index + inserted.len()` (as
/// [`Value::remove_many`] does) restores the original value.
pub proof fn lemma_remove_undoes_insert_many(
    value: Seq<Seq<char>>,
    inserted: Seq<Seq<char>>,
    index: int,
)
    requires
        0 <= index <= value.len(),
    ensures
        ({
            let after = value.take(index) + inserted + value.skip(index);
            after.take(index) + after.skip(index + inserted.len()) == value
        }),
{
    let after = value.take(index) + inserted + value.skip(index);
    assert(after.take(index) =~= value.take(index));
    assert(after.skip(index + inserted.len()) =~= value.skip(index));
    assert(value.take(index) + value.skip(index) =~= value);
}

} // verus!

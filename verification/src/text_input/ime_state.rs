//! The state of an input method editor while a text is being composed: the
//! text before the composition, the composed (preedit) text, and which part
//! of it the input method marks as the candidate being converted.
use vstd::prelude::*;
use vstd::string::*;
use vstd::utf8::*;

verus! {

/// How the input method marks the candidate in the preedit text, by byte
/// positions.
#[derive(Debug, Clone, Copy, PartialEq, Eq, Structural)]
pub enum CandidateIndicator {
    /// Underline the bytes between the two positions in bold (as Windows
    /// does).
    BoldLine(usize, usize),
    /// Show a cursor at the position (as IBus-MOZC does).
    Cursor(usize),
}

/// The last character boundary of `bytes` at or below `i`, if any.
pub open spec fn last_boundary_upto(bytes: Seq<u8>, i: int) -> Option<int>
    decreases i + 1,
{
    if i < 0 {
        None
    } else if is_char_boundary(bytes, i) {
        Some(i)
    } else {
        last_boundary_upto(bytes, i - 1)
    }
}

/// The first character boundary of `bytes` from `from` up to, not
/// including, `to`, if any.
pub open spec fn first_boundary_in(bytes: Seq<u8>, from: int, to: int) -> Option<int>
    decreases to - from,
{
    if from >= to {
        None
    } else if is_char_boundary(bytes, from) {
        Some(from)
    } else {
        first_boundary_in(bytes, from + 1, to)
    }
}

/// The candidate marked for the byte range `start..end` that the input
/// method reports over `bytes`: the range is widened outwards to character
/// boundaries (its start down, its end up by at most three bytes, after the
/// end is clamped between `start` and the length); an empty result is a
/// cursor. The input method may report ranges that cut characters.
pub open spec fn indicator_for(bytes: Seq<u8>, start: int, end: int) -> CandidateIndicator {
    let len = bytes.len() as int;
    let left = if start <= end {
        start
    } else {
        end
    };
    let right = if end < start {
        start
    } else if end > len {
        len
    } else {
        end
    };
    match (last_boundary_upto(bytes, left), first_boundary_in(bytes, right, right + 4)) {
        (Some(s), Some(e)) => if s == e {
            CandidateIndicator::Cursor(s as usize)
        } else {
            CandidateIndicator::BoldLine(s as usize, e as usize)
        },
        _ => CandidateIndicator::Cursor(len as usize),
    }
}

/// Whether an indicator fits a text: its positions are character boundaries,
/// in order.
pub open spec fn fits(indicator: CandidateIndicator, bytes: Seq<u8>) -> bool {
    match indicator {
        CandidateIndicator::BoldLine(s, e) => s <= e && is_char_boundary(bytes, s as int)
            && is_char_boundary(bytes, e as int),
        CandidateIndicator::Cursor(p) => is_char_boundary(bytes, p as int),
    }
}

proof fn lemma_last_boundary(bytes: Seq<u8>, i: int)
    requires
        valid_utf8(bytes),
        i >= 0,
    ensures
        last_boundary_upto(bytes, i) matches Some(s) && 0 <= s <= i && is_char_boundary(bytes, s),
    decreases i + 1,
{
    broadcast use is_char_boundary_start_end_of_seq;

    if !is_char_boundary(bytes, i) {
        lemma_last_boundary(bytes, i - 1);
    }
}

proof fn lemma_first_boundary(bytes: Seq<u8>, from: int, to: int)
    requires
        valid_utf8(bytes),
    ensures
        first_boundary_in(bytes, from, to) matches Some(e) ==> from <= e < to && is_char_boundary(
            bytes,
            e,
        ),
    decreases to - from,
{
    if from < to && !is_char_boundary(bytes, from) {
        lemma_first_boundary(bytes, from + 1, to);
    }
}

proof fn lemma_indicator_fits(bytes: Seq<u8>, start: int, end: int)
    requires
        valid_utf8(bytes),
        0 <= start <= bytes.len(),
        0 <= end,
        bytes.len() + 4 <= usize::MAX,
    ensures
        fits(indicator_for(bytes, start, end), bytes),
{
    broadcast use is_char_boundary_start_end_of_seq;

    let len = bytes.len() as int;
    let left = if start <= end {
        start
    } else {
        end
    };
    let right = if end < start {
        start
    } else if end > len {
        len
    } else {
        end
    };
    lemma_last_boundary(bytes, left);
    lemma_first_boundary(bytes, right, right + 4);
}

/// The boundary of a text is a boundary of its part that starts at an
/// earlier boundary, shifted.
proof fn lemma_suffix_boundary(bytes: Seq<u8>, s: int, e: int)
    requires
        valid_utf8(bytes),
        is_char_boundary(bytes, s),
        is_char_boundary(bytes, e),
        0 <= s <= e < bytes.len(),
    ensures
        is_char_boundary(bytes.subrange(s, bytes.len() as int), e - s),
{
    let suffix = bytes.subrange(s, bytes.len() as int);
    valid_utf8_split(bytes, s);
    is_char_boundary_iff_not_is_continuation_byte(bytes, e);
    is_char_boundary_iff_not_is_continuation_byte(suffix, e - s);
}

/// The three pieces of a composed text split around a bold candidate join
/// back into the whole text.
pub proof fn lemma_pieces_rejoin(bytes: Seq<u8>, s: int, e: int)
    requires
        0 <= s <= e <= bytes.len(),
    ensures
        bytes.subrange(0, s) + bytes.subrange(s, e) + bytes.subrange(e, bytes.len() as int) == bytes,
{
    assert(bytes.subrange(0, s) + bytes.subrange(s, e) + bytes.subrange(e, bytes.len() as int) =~= bytes);
}

/// The state of an input method editor, with the paragraphs that lay out
/// its texts.
pub struct IMEState<P> {
    before_preedit_text: String,
    before_preedit_paragraph: P,
    preedit_text: String,
    whole_paragraph: P,
    candidate_indicator: Option<CandidateIndicator>,
}

impl<P> IMEState<P> {
    /// The state is well formed: the composed text leaves room for the
    /// input method's ranges, and the marked candidate fits it.
    pub closed spec fn wf(&self) -> bool {
        &&& encode_utf8(self.preedit_text@).len() + 4 <= usize::MAX
        &&& self.candidate_indicator matches Some(i) ==> fits(i, encode_utf8(self.preedit_text@))
    }

    /// The text before the composition.
    pub closed spec fn spec_before_preedit_text(&self) -> Seq<char> {
        self.before_preedit_text@
    }

    /// The paragraph of the text before the composition.
    pub closed spec fn spec_before_preedit_paragraph(&self) -> P {
        self.before_preedit_paragraph
    }

    /// The composed text.
    pub closed spec fn spec_preedit_text(&self) -> Seq<char> {
        self.preedit_text@
    }

    /// The paragraph of the whole text.
    pub closed spec fn spec_whole_paragraph(&self) -> P {
        self.whole_paragraph
    }

    /// The marked candidate.
    pub closed spec fn spec_candidate(&self) -> Option<CandidateIndicator> {
        self.candidate_indicator
    }

    /// A state with no text, laid out by the given paragraphs.
    pub fn new(before_preedit_paragraph: P, whole_paragraph: P) -> (r: Self)
        ensures
            r.spec_before_preedit_text() == Seq::<char>::empty(),
            r.spec_preedit_text() == Seq::<char>::empty(),
            r.spec_before_preedit_paragraph() == before_preedit_paragraph,
            r.spec_whole_paragraph() == whole_paragraph,
            r.spec_candidate() is None,
            r.wf(),
    {
        IMEState {
            before_preedit_text: String::new(),
            before_preedit_paragraph,
            preedit_text: String::new(),
            whole_paragraph,
            candidate_indicator: None,
        }
    }

    /// The text before the composition.
    pub fn before_preedit_text(&self) -> (r: &str)
        ensures
            r@ == self.spec_before_preedit_text(),
    {
        self.before_preedit_text.as_str()
    }

    /// Sets the text before the composition.
    pub fn set_before_preedit_text(&mut self, text: String)
        requires
            old(self).wf(),
        ensures
            final(self).wf(),
            final(self).spec_before_preedit_text() == text@,
            final(self).spec_preedit_text() == old(self).spec_preedit_text(),
            final(self).spec_candidate() == old(self).spec_candidate(),
            final(self).spec_before_preedit_paragraph() == old(self).spec_before_preedit_paragraph(),
            final(self).spec_whole_paragraph() == old(self).spec_whole_paragraph(),
    {
        self.before_preedit_text = text;
    }

    /// The paragraph of the text before the composition.
    pub fn before_preedit_paragraph(&self) -> (r: &P)
        ensures
            *r == self.spec_before_preedit_paragraph(),
    {
        &self.before_preedit_paragraph
    }

    /// The paragraph of the text before the composition, to lay it out
    /// again.
    pub fn before_preedit_paragraph_mut(&mut self) -> (r: &mut P)
        requires
            old(self).wf(),
        ensures
            final(self).wf(),
            *r == old(self).spec_before_preedit_paragraph(),
            final(self).spec_before_preedit_paragraph() == *final(r),
            final(self).spec_before_preedit_text() == old(self).spec_before_preedit_text(),
            final(self).spec_preedit_text() == old(self).spec_preedit_text(),
            final(self).spec_whole_paragraph() == old(self).spec_whole_paragraph(),
            final(self).spec_candidate() == old(self).spec_candidate(),
    {
        &mut self.before_preedit_paragraph
    }

    /// The paragraph of the whole text, to lay it out again.
    pub fn whole_paragraph_mut(&mut self) -> (r: &mut P)
        requires
            old(self).wf(),
        ensures
            final(self).wf(),
            *r == old(self).spec_whole_paragraph(),
            final(self).spec_whole_paragraph() == *final(r),
            final(self).spec_before_preedit_text() == old(self).spec_before_preedit_text(),
            final(self).spec_preedit_text() == old(self).spec_preedit_text(),
            final(self).spec_before_preedit_paragraph() == old(self).spec_before_preedit_paragraph(),
            final(self).spec_candidate() == old(self).spec_candidate(),
    {
        &mut self.whole_paragraph
    }

    /// The paragraph of the whole text.
    pub fn whole_paragraph(&self) -> (r: &P)
        ensures
            *r == self.spec_whole_paragraph(),
    {
        &self.whole_paragraph
    }

    /// Records a composition event: the composed text and the byte range
    /// that the input method marks in it, if any. The range is widened to
    /// character boundaries as [`indicator_for`] says.
    pub fn set_event(&mut self, preedit_text: String, range: Option<(usize, usize)>)
        requires
            encode_utf8(preedit_text@).len() + 4 <= usize::MAX,
            range matches Some((start, _)) ==> start <= encode_utf8(preedit_text@).len(),
        ensures
            final(self).wf(),
            final(self).spec_preedit_text() == preedit_text@,
            final(self).spec_candidate() == match range {
                Some((start, end)) => Some(
                    indicator_for(encode_utf8(preedit_text@), start as int, end as int),
                ),
                None => None,
            },
            final(self).spec_before_preedit_text() == old(self).spec_before_preedit_text(),
            final(self).spec_before_preedit_paragraph() == old(self).spec_before_preedit_paragraph(),
            final(self).spec_whole_paragraph() == old(self).spec_whole_paragraph(),
    {
        let indicator = match range {
            Some((start, end)) => Some(candidate(preedit_text.as_str(), start, end)),
            None => None,
        };
        proof {
            if let Some((start, end)) = range {
                encode_utf8_valid_utf8(preedit_text@);
                lemma_indicator_fits(encode_utf8(preedit_text@), start as int, end as int);
            }
        }
        self.candidate_indicator = None;
        self.preedit_text = preedit_text;
        self.candidate_indicator = indicator;
    }

    /// Splits the composed text in three: the text before the bold
    /// candidate, the candidate, and the text after it. Without a bold
    /// candidate, the whole text is the first piece and the others are
    /// missing.
    pub fn split_to_pieces(&self) -> (r: [Option<&str>; 3])
        requires
            self.wf(),
        ensures
            ({
                let bytes = encode_utf8(self.spec_preedit_text());
                match self.spec_candidate() {
                    Some(CandidateIndicator::BoldLine(s, e)) => {
                        &&& r@[0] matches Some(a) && a.spec_bytes() == bytes.subrange(0, s as int)
                        &&& r@[1] matches Some(b) && b.spec_bytes() == bytes.subrange(s as int, e as int)
                        &&& r@[2] matches Some(c) && c.spec_bytes() == bytes.subrange(
                            e as int,
                            bytes.len() as int,
                        )
                    },
                    _ => {
                        &&& r@[0] matches Some(a) && a@ == self.spec_preedit_text()
                        &&& r@[1] is None
                        &&& r@[2] is None
                    },
                }
            }),
    {
        let text = self.preedit_text.as_str();
        let ghost bytes = encode_utf8(self.preedit_text@);
        proof {
            encode_utf8_valid_utf8(self.preedit_text@);
            is_char_boundary_start_end_of_seq(bytes);
        }
        match self.candidate_indicator {
            Some(CandidateIndicator::BoldLine(start, end)) => {
                assert(start <= end <= bytes.len());
                assert(text.len() == bytes.len());
                let (first, second_and_third) = if start < text.len() {
                    text.split_at(start)
                } else {
                    proof {
                        assert(bytes.subrange(0, start as int) =~= bytes);
                    }
                    (text, "")
                };
                proof {
                    reveal_strlit("");
                    assert(second_and_third.spec_bytes() =~= bytes.subrange(
                        start as int,
                        bytes.len() as int,
                    ));
                }
                let (second, third) = if end < text.len() {
                    proof {
                        lemma_suffix_boundary(bytes, start as int, end as int);
                    }
                    second_and_third.split_at(end - start)
                } else {
                    (second_and_third, "")
                };
                proof {
                    assert(bytes.subrange(start as int, bytes.len() as int).subrange(
                        0,
                        end - start,
                    ) =~= bytes.subrange(start as int, end as int));
                    assert(bytes.subrange(start as int, bytes.len() as int).subrange(
                        end - start,
                        bytes.len() - start,
                    ) =~= bytes.subrange(end as int, bytes.len() as int));
                    assert(second.spec_bytes() =~= bytes.subrange(start as int, end as int));
                    assert(third.spec_bytes() =~= bytes.subrange(end as int, bytes.len() as int));
                }
                [Some(first), Some(second), Some(third)]
            },
            _ => [Some(text), None, None],
        }
    }

    /// The composed text before the cursor the input method shows; the
    /// whole composed text when it marks a bold candidate or nothing.
    pub fn before_cursor_text(&self) -> (r: &str)
        requires
            self.wf(),
        ensures
            ({
                let bytes = encode_utf8(self.spec_preedit_text());
                match self.spec_candidate() {
                    Some(CandidateIndicator::Cursor(p)) => r.spec_bytes() == bytes.subrange(0, p as int),
                    _ => r@ == self.spec_preedit_text(),
                }
            }),
    {
        let text = self.preedit_text.as_str();
        match self.candidate_indicator {
            Some(CandidateIndicator::Cursor(position)) => {
                let (a, _b) = text.split_at(position);
                a
            },
            _ => text,
        }
    }
}

/// The candidate for the byte range `start..end` of `text`.
fn candidate(text: &str, start: usize, end: usize) -> (r: CandidateIndicator)
    requires
        text.spec_bytes().len() + 4 <= usize::MAX,
        start <= text.spec_bytes().len(),
    ensures
        r == indicator_for(text.spec_bytes(), start as int, end as int),
{
    let ghost bytes = text.spec_bytes();
    let len = text.len();
    let left = if start <= end {
        start
    } else {
        end
    };
    let right = if end < start {
        start
    } else if end > len {
        len
    } else {
        end
    };
    let mut i: usize = left;
    let mut start_byte: Option<usize> = None;
    loop
        invariant_except_break
            start_byte is None,
        invariant
            i <= left,
            bytes == text.spec_bytes(),
            last_boundary_upto(bytes, left as int) == last_boundary_upto(bytes, i as int),
        ensures
            start_byte == match last_boundary_upto(bytes, left as int) {
                Some(s) => Some(s as usize),
                None => None::<usize>,
            },
        decreases i,
    {
        if text.is_char_boundary(i) {
            start_byte = Some(i);
            break;
        }
        if i == 0 {
            break;
        }
        i -= 1;
    }
    let mut j: usize = right;
    let mut end_byte: Option<usize> = None;
    loop
        invariant_except_break
            end_byte is None,
        invariant
            right <= j <= right + 4,
            right <= len,
            len == bytes.len(),
            len + 4 <= usize::MAX,
            bytes == text.spec_bytes(),
            first_boundary_in(bytes, right as int, right + 4) == first_boundary_in(bytes, j as int, right + 4),
        ensures
            end_byte == match first_boundary_in(bytes, right as int, right + 4) {
                Some(e) => Some(e as usize),
                None => None::<usize>,
            },
        decreases right + 4 - j,
    {
        if j >= right + 4 {
            break;
        }
        if text.is_char_boundary(j) {
            end_byte = Some(j);
            break;
        }
        j += 1;
    }
    proof {
        encode_utf8_valid_utf8(text@);
        lemma_last_boundary(bytes, left as int);
        lemma_first_boundary(bytes, right as int, right + 4);
    }
    match (start_byte, end_byte) {
        (Some(s), Some(e)) => if s == e {
            CandidateIndicator::Cursor(s)
        } else {
            CandidateIndicator::BoldLine(s, e)
        },
        _ => CandidateIndicator::Cursor(len),
    }
}

} // verus!

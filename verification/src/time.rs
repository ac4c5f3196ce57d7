//! Times of the widgets' focus state, and the blinking of a focused cursor.
//!
//! A time is a number of milliseconds since a starting point that the caller
//! chooses and keeps: the application reads its clock and hands the library
//! plain numbers.
use vstd::prelude::*;

verus! {

/// The milliseconds from `earlier` to `later`, or zero when `earlier` is the
/// later one (a clock read out of order saturates).
pub open spec fn elapsed(later: u128, earlier: u128) -> nat {
    if later >= earlier {
        (later - earlier) as nat
    } else {
        0
    }
}

/// The milliseconds from `earlier` to `later`, saturating at zero.
pub fn elapsed_millis(later: u128, earlier: u128) -> (r: u128)
    ensures
        r == elapsed(later, earlier),
{
    if later >= earlier {
        later - earlier
    } else {
        0
    }
}

/// How long the cursor of a focused text field stays shown, then hidden.
pub const CURSOR_BLINK_INTERVAL_MILLIS: u128 = 500;

/// Whether the blinking cursor is shown `elapsed` milliseconds after the last
/// edit: shown during the even intervals, hidden during the odd ones.
pub open spec fn blink_on(elapsed: nat) -> bool {
    (elapsed / 500) % 2 == 0
}

/// The milliseconds from `elapsed` to the end of the current blink interval.
pub open spec fn until_blink(elapsed: nat) -> nat {
    (500 - elapsed % 500) as nat
}

/// Whether the blinking cursor is shown `elapsed_millis` milliseconds after
/// the last edit.
pub fn is_blink_on(elapsed_millis: u128) -> (r: bool)
    ensures
        r == blink_on(elapsed_millis as nat),
{
    (elapsed_millis / CURSOR_BLINK_INTERVAL_MILLIS) % 2 == 0
}

/// The milliseconds to wait, `elapsed_millis` milliseconds after the last
/// edit, before the cursor blinks: the time of the next redraw.
pub fn millis_until_blink(elapsed_millis: u128) -> (r: u128)
    ensures
        r == until_blink(elapsed_millis as nat),
        1 <= r <= CURSOR_BLINK_INTERVAL_MILLIS,
{
    CURSOR_BLINK_INTERVAL_MILLIS - elapsed_millis % CURSOR_BLINK_INTERVAL_MILLIS
}

/// The cursor blinks when the wait is over: waiting as long as
/// [`millis_until_blink`] says turns a shown cursor hidden and a hidden one
/// shown, and no sooner wait changes it.
pub proof fn lemma_blink_flips(elapsed: nat)
    ensures
        blink_on(elapsed + until_blink(elapsed)) == !blink_on(elapsed),
        forall|d: nat| d < until_blink(elapsed) ==> #[trigger] blink_on(elapsed + d) == blink_on(elapsed),
{
    let q = elapsed / 500;
    let m = elapsed % 500;
    assert(elapsed == 500 * q + m && 0 <= m < 500) by (nonlinear_arith)
        requires
            q == elapsed / 500,
            m == elapsed % 500,
    ;
    let next = elapsed + until_blink(elapsed);
    assert(next == 500 * (q + 1)) by (nonlinear_arith)
        requires
            elapsed == 500 * q + m,
            next == elapsed + (500 - m),
    ;
    vstd::arithmetic::div_mod::lemma_fundamental_div_mod_converse(next as int, 500, (q + 1) as int, 0);
    assert forall|d: nat| d < until_blink(elapsed) implies #[trigger] blink_on(elapsed + d) == blink_on(elapsed) by {
        vstd::arithmetic::div_mod::lemma_fundamental_div_mod_converse((elapsed + d) as int, 500, q as int, (m + d) as int);
    }
}

} // verus!

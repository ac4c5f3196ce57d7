//! Display vector graphics in your application.
use vstd::prelude::*;

verus! {

/// The possible status of an svg.
#[derive(Debug, Clone, Copy, PartialEq, Eq, Structural)]
pub enum Status {
    /// The svg is idle.
    Idle,
    /// The svg is being hovered.
    Hovered,
}

/// The status an svg is drawn with: hovered while the cursor is over it,
/// idle otherwise.
pub fn status(is_mouse_over: bool) -> (r: Status)
    ensures
        r == (if is_mouse_over { Status::Hovered } else { Status::Idle }),
{
    if is_mouse_over {
        Status::Hovered
    } else {
        Status::Idle
    }
}

} // verus!

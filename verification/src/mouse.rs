//! The mouse interaction that widgets ask for.
use vstd::prelude::*;

verus! {

/// The interaction of a mouse cursor.
#[derive(Debug, Clone, Copy, PartialEq, Eq, Structural)]
pub enum Interaction {
    /// No interaction is requested.
    Unset,
    /// The cursor is hidden.
    Hidden,
    /// The cursor is idle.
    Idle,
    /// The cursor points at something clickable.
    Pointer,
    /// The cursor can grab something.
    Grab,
    /// The cursor is over text.
    Text,
    /// The cursor is a crosshair.
    Crosshair,
    /// Something is being grabbed.
    Grabbing,
    /// Something can be resized horizontally.
    ResizingHorizontally,
    /// Something can be resized vertically.
    ResizingVertically,
    /// The interaction is not allowed.
    NotAllowed,
}

impl Interaction {
    /// The default interaction: none requested.
    pub fn none() -> (r: Self)
        ensures
            r == Interaction::Unset,
    {
        Interaction::Unset
    }
}

} // verus!

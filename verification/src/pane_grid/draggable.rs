use vstd::prelude::*;

verus! {

/// Where the cursor stands against the parts of a title bar, as measured on
/// its layout.
#[derive(Debug, Clone, Copy, PartialEq, Eq, Structural)]
pub struct PickArea {
    /// The cursor is over the bounds of the title bar.
    pub over_bounds: bool,
    /// The cursor is over the full controls.
    pub over_controls: bool,
    /// The cursor is over the compact controls.
    pub over_compact: bool,
    /// The title and the full controls together are wider than the padded
    /// title bar.
    pub overflows: bool,
}

/// A pane that can be dragged.
pub trait Draggable {
    /// Returns whether the pane can be picked at the cursor position that
    /// `area` describes.
    fn can_be_dragged_at(&self, area: PickArea) -> bool;
}

} // verus!

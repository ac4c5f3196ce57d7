//! Create choices using radio buttons.
use vstd::prelude::*;

verus! {

/// The possible status of a radio button.
#[derive(Debug, Clone, Copy, PartialEq, Eq, Structural)]
pub enum Status {
    /// The radio button can be interacted with.
    Active {
        /// Indicates whether the radio button is currently selected.
        is_selected: bool,
    },
    /// The radio button is being hovered.
    Hovered {
        /// Indicates whether the radio button is currently selected.
        is_selected: bool,
    },
}

/// The status a radio button is drawn with: hovered while the cursor is over
/// it, active otherwise; either way carrying whether it is selected.
pub fn status(is_mouse_over: bool, is_selected: bool) -> (r: Status)
    ensures
        is_mouse_over ==> r == (Status::Hovered { is_selected }),
        !is_mouse_over ==> r == (Status::Active { is_selected }),
{
    if is_mouse_over {
        Status::Hovered { is_selected }
    } else {
        Status::Active { is_selected }
    }
}

/// Whether an event selects the radio button (its message is published and
/// the event captured): a left press or a finger press with the cursor over
/// the button.
pub fn is_clicked(is_press: bool, is_mouse_over: bool) -> (r: bool)
    ensures
        r == (is_press && is_mouse_over),
{
    is_press && is_mouse_over
}

} // verus!

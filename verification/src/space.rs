//! Add some explicit spacing between elements.
use vstd::prelude::*;
use crate::layout::{Length, Size};

verus! {

/// Creates a new [`Space`] widget that fills the available horizontal space.
pub fn horizontal() -> (r: Space)
    ensures
        r@ == (Size { width: Length::Fill, height: Length::Shrink }),
{
    Space::new().width(Length::Fill)
}

/// Creates a new [`Space`] widget that fills the available vertical space.
pub fn vertical() -> (r: Space)
    ensures
        r@ == (Size { width: Length::Shrink, height: Length::Fill }),
{
    Space::new().height(Length::Fill)
}

/// An amount of empty space.
#[derive(Debug)]
pub struct Space {
    width: Length,
    height: Length,
}

impl View for Space {
    type V = Size;

    closed spec fn view(&self) -> Size {
        Size { width: self.width, height: self.height }
    }
}

impl Space {
    /// Creates some empty [`Space`] with no size.
    pub fn new() -> (r: Self)
        ensures
            r@ == (Size { width: Length::Shrink, height: Length::Shrink }),
    {
        Space { width: Length::Shrink, height: Length::Shrink }
    }

    /// Sets the width of the [`Space`].
    pub fn width(self, width: Length) -> (r: Self)
        ensures
            r@ == (Size { width, ..self@ }),
    {
        Space { width, ..self }
    }

    /// Sets the height of the [`Space`].
    pub fn height(self, height: Length) -> (r: Self)
        ensures
            r@ == (Size { height, ..self@ }),
    {
        Space { height, ..self }
    }

    /// The size of the widget.
    pub fn size(&self) -> (r: Size)
        ensures
            r == self@,
    {
        Size { width: self.width, height: self.height }
    }
}

impl Default for Space {
    fn default() -> (r: Self)
        ensures
            r@ == (Size { width: Length::Shrink, height: Length::Shrink }),
    {
        Space::new()
    }
}

} // verus!

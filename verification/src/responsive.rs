//! A widget that is aware of its dimensions.
use vstd::prelude::*;
use crate::layout::{Length, Size};

verus! {

/// A widget that is aware of its dimensions: it builds its contents with a
/// `view` closure that receives the space available to it, and it always
/// tries to fill all the available space of its parent.
pub struct Responsive<ViewFn> {
    view: ViewFn,
    width: Length,
    height: Length,
}

impl<ViewFn> Responsive<ViewFn> {
    /// The closure that produces the contents.
    pub closed spec fn spec_view(&self) -> ViewFn {
        self.view
    }

    /// The size of the widget, as a value.
    pub closed spec fn spec_size(&self) -> Size {
        Size { width: self.width, height: self.height }
    }

    /// Creates a new [`Responsive`] widget with a closure that produces its
    /// contents.
    pub fn new(view: ViewFn) -> (r: Self)
        ensures
            r.spec_view() == view,
            r.spec_size() == (Size { width: Length::Fill, height: Length::Fill }),
    {
        Responsive { view, width: Length::Fill, height: Length::Fill }
    }

    /// Sets the width of the [`Responsive`].
    pub fn width(self, width: Length) -> (r: Self)
        ensures
            r.spec_view() == self.spec_view(),
            r.spec_size() == (Size { width, ..self.spec_size() }),
    {
        Responsive { width, ..self }
    }

    /// Sets the height of the [`Responsive`].
    pub fn height(self, height: Length) -> (r: Self)
        ensures
            r.spec_view() == self.spec_view(),
            r.spec_size() == (Size { height, ..self.spec_size() }),
    {
        Responsive { height, ..self }
    }

    /// The size of the widget.
    pub fn size(&self) -> (r: Size)
        ensures
            r == self.spec_size(),
    {
        Size { width: self.width, height: self.height }
    }
}

} // verus!

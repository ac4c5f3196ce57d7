//! Display tables.
use vstd::prelude::*;
use crate::layout::{Horizontal, Length, Vertical};

verus! {

/// A vertical visualization of some data with a header: the `view` function
/// is called for each row of a table and produces the contents of a cell.
pub struct Column<Element, ViewFn> {
    header: Element,
    view: ViewFn,
    width: Length,
    align_x: Horizontal,
    align_y: Vertical,
}

/// What a [`Column`] holds.
pub struct ColumnView<Element, ViewFn> {
    /// The header of the column.
    pub header: Element,
    /// The function that builds a cell from a row.
    pub view: ViewFn,
    /// The width of the column.
    pub width: Length,
    /// The horizontal alignment of its cells.
    pub align_x: Horizontal,
    /// The vertical alignment of its cells.
    pub align_y: Vertical,
}

impl<Element, ViewFn> View for Column<Element, ViewFn> {
    type V = ColumnView<Element, ViewFn>;

    closed spec fn view(&self) -> ColumnView<Element, ViewFn> {
        ColumnView {
            header: self.header,
            view: self.view,
            width: self.width,
            align_x: self.align_x,
            align_y: self.align_y,
        }
    }
}

/// Creates a new [`Column`] with the given header and view function; it
/// shrinks to its contents and aligns them to the top left.
pub fn column<Element, ViewFn>(header: Element, view: ViewFn) -> (r: Column<Element, ViewFn>)
    ensures
        r@ == (ColumnView {
            header,
            view,
            width: Length::Shrink,
            align_x: Horizontal::Left,
            align_y: Vertical::Top,
        }),
{
    Column { header, view, width: Length::Shrink, align_x: Horizontal::Left, align_y: Vertical::Top }
}

impl<Element, ViewFn> Column<Element, ViewFn> {
    /// Sets the width of the [`Column`].
    pub fn width(self, width: Length) -> (r: Self)
        ensures
            r@ == (ColumnView { width, ..self@ }),
    {
        Column { width, ..self }
    }

    /// Sets the alignment for the horizontal axis of the [`Column`].
    pub fn align_x(self, alignment: Horizontal) -> (r: Self)
        ensures
            r@ == (ColumnView { align_x: alignment, ..self@ }),
    {
        Column { align_x: alignment, ..self }
    }

    /// Sets the alignment for the vertical axis of the [`Column`].
    pub fn align_y(self, alignment: Vertical) -> (r: Self)
        ensures
            r@ == (ColumnView { align_y: alignment, ..self@ }),
    {
        Column { align_y: alignment, ..self }
    }
}

} // verus!

//! Keep content at a position, in absolute coordinates.
use vstd::prelude::*;
use crate::layout::{Length, Pixels, Point, Size};

verus! {

/// A widget that positions its contents at some fixed coordinates inside of
/// its boundaries.
pub struct Pin<Element> {
    content: Element,
    width: Length,
    height: Length,
    position: Point,
}

/// What a [`Pin`] holds.
pub struct PinView<Element> {
    /// The pinned content.
    pub content: Element,
    /// The width of the pin.
    pub width: Length,
    /// The height of the pin.
    pub height: Length,
    /// Where the content is displayed.
    pub position: Point,
}

impl<Element> View for Pin<Element> {
    type V = PinView<Element>;

    closed spec fn view(&self) -> PinView<Element> {
        PinView {
            content: self.content,
            width: self.width,
            height: self.height,
            position: self.position,
        }
    }
}

impl<Element> Pin<Element> {
    /// Creates a [`Pin`] widget with the given content, at the origin.
    pub fn new(content: Element) -> (r: Self)
        ensures
            r@ == (PinView {
                content,
                width: Length::Fill,
                height: Length::Fill,
                position: Point { x: 0, y: 0 },
            }),
    {
        Pin { content, width: Length::Fill, height: Length::Fill, position: Point { x: 0, y: 0 } }
    }

    /// Sets the width of the [`Pin`].
    pub fn width(self, width: Length) -> (r: Self)
        ensures
            r@ == (PinView { width, ..self@ }),
    {
        Pin { width, ..self }
    }

    /// Sets the height of the [`Pin`].
    pub fn height(self, height: Length) -> (r: Self)
        ensures
            r@ == (PinView { height, ..self@ }),
    {
        Pin { height, ..self }
    }

    /// Sets the position of the [`Pin`]; where the pinned widget is displayed.
    pub fn position(self, position: Point) -> (r: Self)
        ensures
            r@ == (PinView { position, ..self@ }),
    {
        Pin { position, ..self }
    }

    /// Sets the X coordinate of the [`Pin`].
    pub fn x(self, x: Pixels) -> (r: Self)
        ensures
            r@ == (PinView { position: Point { x: x.0, y: self@.position.y }, ..self@ }),
    {
        let Pin { content, width, height, position } = self;
        Pin { content, width, height, position: Point { x: x.0, y: position.y } }
    }

    /// Sets the Y coordinate of the [`Pin`].
    pub fn y(self, y: Pixels) -> (r: Self)
        ensures
            r@ == (PinView { position: Point { x: self@.position.x, y: y.0 }, ..self@ }),
    {
        let Pin { content, width, height, position } = self;
        Pin { content, width, height, position: Point { x: position.x, y: y.0 } }
    }

    /// The size of the widget.
    pub fn size(&self) -> (r: Size)
        ensures
            r == (Size { width: self@.width, height: self@.height }),
    {
        Size { width: self.width, height: self.height }
    }
}

} // verus!

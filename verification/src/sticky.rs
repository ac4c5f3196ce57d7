//! Stick elements to the viewport.
use vstd::prelude::*;

verus! {

/// A widget that keeps its contents in view: when they would go out of view
/// they float inside the visible bounds of their parent.
pub struct Sticky<Element> {
    content: Element,
}

impl<Element> Sticky<Element> {
    /// The contents kept in view.
    pub closed spec fn spec_content(&self) -> Element {
        self.content
    }

    /// Creates a new [`Sticky`] with the given content.
    pub fn new(content: Element) -> (r: Self)
        ensures
            r.spec_content() == content,
    {
        Sticky { content }
    }
}

} // verus!

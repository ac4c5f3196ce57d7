use vstd::prelude::*;

verus! {

/// The controls of a pane: a full variant, and optionally a compact one that
/// is shown instead when the full one does not fit.
pub struct Controls<Element> {
    /// The full variant.
    pub full: Element,
    /// The compact variant.
    pub compact: Option<Element>,
}

impl<Element> Controls<Element> {
    /// Creates new [`Controls`] with the given content.
    pub fn new(content: Element) -> (r: Self)
        ensures
            r.full == content,
            r.compact is None,
    {
        Controls { full: content, compact: None }
    }

    /// Creates new [`Controls`] with a full and a compact variant. If there
    /// is not enough room to show the full variant without overlap, the
    /// compact variant is shown instead.
    pub fn dynamic(full: Element, compact: Element) -> (r: Self)
        ensures
            r.full == full,
            r.compact == Some(compact),
    {
        Controls { full, compact: Some(compact) }
    }
}

} // verus!

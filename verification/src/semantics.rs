//! Add semantic metadata to widgets.
use vstd::prelude::*;

verus! {

/// The semantic metadata of a widget: its role, a user-facing label and a
/// test identifier.
pub struct Metadata<Role> {
    /// The role of the widget.
    pub role: Role,
    /// The user-facing label.
    pub label: Option<String>,
    /// The test identifier.
    pub test_id: Option<String>,
}

/// A widget that adds semantic metadata to its contents.
pub struct Semantics<Element, Role> {
    content: Element,
    metadata: Metadata<Role>,
}

/// What a [`Semantics`] holds: the contents, the role, and the label and test
/// identifier as text.
pub struct SemanticsView<Element, Role> {
    /// The wrapped contents.
    pub content: Element,
    /// The role of the contents.
    pub role: Role,
    /// The user-facing label.
    pub label: Option<Seq<char>>,
    /// The test identifier.
    pub test_id: Option<Seq<char>>,
}

/// The text of an optional string.
pub open spec fn opt_view(s: Option<String>) -> Option<Seq<char>> {
    match s {
        Some(s) => Some(s@),
        None => None,
    }
}

impl<Element, Role> View for Semantics<Element, Role> {
    type V = SemanticsView<Element, Role>;

    closed spec fn view(&self) -> SemanticsView<Element, Role> {
        SemanticsView {
            content: self.content,
            role: self.metadata.role,
            label: opt_view(self.metadata.label),
            test_id: opt_view(self.metadata.test_id),
        }
    }
}

impl<Element, Role> Semantics<Element, Role> {
    /// Creates new [`Semantics`] with the given role and `content`.
    pub fn new(role: Role, content: Element) -> (r: Self)
        ensures
            r@ == (SemanticsView { content, role, label: None, test_id: None }),
    {
        Semantics { content, metadata: Metadata { role, label: None, test_id: None } }
    }

    /// Sets the user-facing label.
    pub fn label(self, label: String) -> (r: Self)
        ensures
            r@ == (SemanticsView { label: Some(label@), ..self@ }),
    {
        let Semantics { content, metadata } = self;
        let Metadata { role, test_id, .. } = metadata;
        Semantics { content, metadata: Metadata { role, label: Some(label), test_id } }
    }

    /// Sets the test identifier.
    pub fn test_id(self, test_id: String) -> (r: Self)
        ensures
            r@ == (SemanticsView { test_id: Some(test_id@), ..self@ }),
    {
        let Semantics { content, metadata } = self;
        let Metadata { role, label, .. } = metadata;
        Semantics { content, metadata: Metadata { role, label, test_id: Some(test_id) } }
    }
}

} // verus!

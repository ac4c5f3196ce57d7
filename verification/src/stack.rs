//! Display content on top of other content.
use vstd::prelude::*;
use crate::layout::{Length, Size, enclosed, is_void};

verus! {

/// A container that displays children on top of each other.
///
/// The first child dictates the intrinsic size of a [`Stack`] and is
/// displayed as the base layer. Every consecutive child is rendered on top;
/// on its own layer. `push_under` pushes a child under the stack without
/// affecting its intrinsic size.
pub struct Stack<Element> {
    width: Length,
    height: Length,
    children: Vec<Element>,
    clip: bool,
    base_layer: usize,
}

/// What a [`Stack`] holds.
pub struct StackView<Element> {
    /// The width of the stack.
    pub width: Length,
    /// The height of the stack.
    pub height: Length,
    /// The children, bottom layer first.
    pub children: Seq<Element>,
    /// Whether the stack clips overflowing content.
    pub clip: bool,
    /// How many children were pushed under the stack.
    pub base_layer: usize,
}

impl<Element> View for Stack<Element> {
    type V = StackView<Element>;

    closed spec fn view(&self) -> StackView<Element> {
        StackView {
            width: self.width,
            height: self.height,
            children: self.children@,
            clip: self.clip,
            base_layer: self.base_layer,
        }
    }
}

/// Whether the children pushed under a stack are among its children: every
/// stack keeps this.
pub open spec fn layers_within<Element>(stack: StackView<Element>) -> bool {
    stack.base_layer <= stack.children.len()
}

/// The empty stack.
pub open spec fn empty_stack<Element>() -> StackView<Element> {
    StackView {
        width: Length::Shrink,
        height: Length::Shrink,
        children: Seq::empty(),
        clip: false,
        base_layer: 0,
    }
}

/// The stack after pushing a child with the given size hint: a child that
/// takes no room is dropped; the first child makes the stack enclose its
/// size.
pub open spec fn pushed<Element>(stack: StackView<Element>, child: Element, size: Size) -> StackView<
    Element,
> {
    if is_void(size) {
        stack
    } else {
        StackView {
            width: if stack.children.len() == 0 {
                enclosed(stack.width, size.width)
            } else {
                stack.width
            },
            height: if stack.children.len() == 0 {
                enclosed(stack.height, size.height)
            } else {
                stack.height
            },
            children: stack.children.push(child),
            ..stack
        }
    }
}

/// The stack after pushing every child in order.
pub open spec fn pushed_all<Element>(
    stack: StackView<Element>,
    children: Seq<(Element, Size)>,
) -> StackView<Element>
    decreases children.len(),
{
    if children.len() == 0 {
        stack
    } else {
        pushed_all(pushed(stack, children[0].0, children[0].1), children.drop_first())
    }
}

impl<Element> Stack<Element> {
    #[verifier::type_invariant]
    spec fn base_layer_within(self) -> bool {
        self.base_layer <= self.children@.len()
    }

    /// Creates an empty [`Stack`].
    pub fn new() -> (r: Self)
        ensures
            layers_within(r@),
            r@ == empty_stack::<Element>(),
    {
        Self::from_vec(Vec::new())
    }

    /// Creates a [`Stack`] with the given capacity.
    pub fn with_capacity(capacity: usize) -> (r: Self)
        ensures
            layers_within(r@),
            r@ == empty_stack::<Element>(),
    {
        Self::from_vec(Vec::with_capacity(capacity))
    }

    /// Creates a [`Stack`] with the given children, each with the size hint
    /// of its widget.
    pub fn with_children(children: Vec<(Element, Size)>) -> (r: Self)
        ensures
            layers_within(r@),
            r@ == pushed_all(empty_stack::<Element>(), children@),
    {
        let n = children.len();
        Self::with_capacity(n).extend(children)
    }

    /// Creates a [`Stack`] from an already allocated [`Vec`]. The stack does
    /// not inspect the children, so it does not adapt to their sizing.
    pub fn from_vec(children: Vec<Element>) -> (r: Self)
        ensures
            layers_within(r@),
            r@ == (StackView { children: children@, ..empty_stack::<Element>() }),
    {
        Stack { width: Length::Shrink, height: Length::Shrink, children, clip: false, base_layer: 0 }
    }

    /// Sets the width of the [`Stack`].
    pub fn width(self, width: Length) -> (r: Self)
        ensures
            layers_within(r@),
            r@ == (StackView { width, ..self@ }),
    {
        proof {
            use_type_invariant(&self);
        }
        Stack { width, ..self }
    }

    /// Sets the height of the [`Stack`].
    pub fn height(self, height: Length) -> (r: Self)
        ensures
            layers_within(r@),
            r@ == (StackView { height, ..self@ }),
    {
        proof {
            use_type_invariant(&self);
        }
        Stack { height, ..self }
    }

    /// Adds a child on top of the [`Stack`]; `child_size` is the size hint
    /// of its widget.
    pub fn push(self, child: Element, child_size: Size) -> (r: Self)
        ensures
            layers_within(r@),
            r@ == pushed(self@, child, child_size),
    {
        proof {
            use_type_invariant(&self);
        }
        let Stack { mut width, mut height, mut children, clip, base_layer } = self;
        if !child_size.is_void() {
            if children.len() == 0 {
                width = width.enclose(child_size.width);
                height = height.enclose(child_size.height);
            }
            children.push(child);
        }
        Stack { width, height, children, clip, base_layer }
    }

    /// Adds a child under the [`Stack`], without changing its size.
    pub fn push_under(self, child: Element) -> (r: Self)
        ensures
            layers_within(r@),
            r@ == (StackView {
                children: seq![child] + self@.children,
                base_layer: (self@.base_layer + 1) as usize,
                ..self@
            }),
            r@.base_layer == self@.base_layer + 1,
    {
        proof {
            use_type_invariant(&self);
        }
        let Stack { width, height, mut children, clip, base_layer } = self;
        children.insert(0, child);
        let n = children.len();
        assert(base_layer < n);
        assert(children@ =~= seq![child] + self.children@);
        Stack { width, height, children, clip, base_layer: base_layer + 1 }
    }

    /// Extends the [`Stack`] with the given children, each with the size hint
    /// of its widget, pushing them in order.
    pub fn extend(self, children: Vec<(Element, Size)>) -> (r: Self)
        ensures
            layers_within(r@),
            r@ == pushed_all(self@, children@),
    {
        proof {
            use_type_invariant(&self);
        }
        let mut s = self;
        let mut rest = children;
        while rest.len() > 0
            invariant
                pushed_all(self@, children@) == pushed_all(s@, rest@),
                layers_within(s@),
            decreases rest@.len(),
        {
            let ghost before = rest@;
            let (child, size) = rest.remove(0);
            assert(before.drop_first() =~= rest@);
            s = s.push(child, size);
        }
        s
    }

    /// Sets whether the [`Stack`] should clip overflowing content.
    pub fn clip(self, clip: bool) -> (r: Self)
        ensures
            layers_within(r@),
            r@ == (StackView { clip, ..self@ }),
    {
        proof {
            use_type_invariant(&self);
        }
        Stack { clip, ..self }
    }

    /// The size of the stack's widget.
    pub fn size(&self) -> (r: Size)
        ensures
            layers_within(self@),
            r == (Size { width: self@.width, height: self@.height }),
    {
        proof {
            use_type_invariant(self);
        }
        Size { width: self.width, height: self.height }
    }
}

impl<Element> Default for Stack<Element> {
    fn default() -> (r: Self)
        ensures
            r@ == empty_stack::<Element>(),
    {
        Self::new()
    }
}

/// A stack grows its size only from its first visible child: once it has a
/// child, pushing more children never changes its width or height, and
/// pushing a child that takes no room changes nothing.
pub proof fn lemma_push_keeps_size<Element>(stack: StackView<Element>, child: Element, size: Size)
    ensures
        stack.children.len() > 0 ==> pushed(stack, child, size).width == stack.width
            && pushed(stack, child, size).height == stack.height,
        is_void(size) ==> pushed(stack, child, size) == stack,
{
}

} // verus!

//! Intercept keyboard events before they reach child widgets.
use vstd::prelude::*;
use crate::keyboard::{Key, Modifiers};

verus! {

/// A key binding of a [`Shortcut`]: the key presses it matches, and the
/// message it produces.
pub struct Binding<Matcher, Message> {
    /// Whether a key press (key and modifiers) is consumed.
    pub matcher: Matcher,
    /// The message produced when it is.
    pub message: Message,
}

/// A widget that intercepts keyboard events before they reach its child.
pub struct Shortcut<Element, Matcher, Message> {
    content: Element,
    bindings: Vec<Binding<Matcher, Message>>,
}

impl<Element, Matcher, Message> Shortcut<Element, Matcher, Message> {
    /// The wrapped content.
    pub closed spec fn spec_content(&self) -> Element {
        self.content
    }

    /// The registered bindings, in order.
    pub closed spec fn spec_bindings(&self) -> Seq<Binding<Matcher, Message>> {
        self.bindings@
    }

    /// Creates a new [`Shortcut`] widget wrapping the given content.
    pub fn new(content: Element) -> (r: Self)
        ensures
            r.spec_content() == content,
            r.spec_bindings().len() == 0,
    {
        Shortcut { content, bindings: Vec::new() }
    }

    /// Registers a key binding that is intercepted before reaching children:
    /// when `matcher` accepts a key press, `message` is published and the
    /// children never see the event.
    pub fn on_key(self, matcher: Matcher, message: Message) -> (r: Self)
        ensures
            r.spec_content() == self.spec_content(),
            r.spec_bindings() == self.spec_bindings().push(Binding { matcher, message }),
    {
        let Shortcut { content, mut bindings } = self;
        bindings.push(Binding { matcher, message });
        Shortcut { content, bindings }
    }
}

impl<Element, Matcher: Fn(&Key, Modifiers) -> bool, Message> Shortcut<
    Element,
    Matcher,
    Message,
> {
    /// The binding that consumes a key press: the first whose matcher
    /// accepts it, if any. The widget then publishes its message and stops
    /// the event.
    pub fn matching(&self, key: &Key, modifiers: Modifiers) -> (r: Option<&Message>)
        requires
            forall|i: int|
                0 <= i < self.spec_bindings().len() ==> call_requires(
                    #[trigger] self.spec_bindings()[i].matcher,
                    (key, modifiers),
                ),
        ensures
            match r {
                Some(m) => exists|i: int|
                    0 <= i < self.spec_bindings().len() && *m == self.spec_bindings()[i].message
                        && call_ensures(self.spec_bindings()[i].matcher, (key, modifiers), true)
                        && forall|j: int|
                        0 <= j < i ==> call_ensures(
                            #[trigger] self.spec_bindings()[j].matcher,
                            (key, modifiers),
                            false,
                        ),
                None => forall|j: int|
                    0 <= j < self.spec_bindings().len() ==> call_ensures(
                        #[trigger] self.spec_bindings()[j].matcher,
                        (key, modifiers),
                        false,
                    ),
            },
    {
        let mut i: usize = 0;
        while i < self.bindings.len()
            invariant
                i <= self.spec_bindings().len(),
                self.spec_bindings() == self.bindings@,
                forall|k: int|
                    0 <= k < self.spec_bindings().len() ==> call_requires(
                        #[trigger] self.spec_bindings()[k].matcher,
                        (key, modifiers),
                    ),
                forall|j: int|
                    0 <= j < i ==> call_ensures(
                        #[trigger] self.spec_bindings()[j].matcher,
                        (key, modifiers),
                        false,
                    ),
            decreases self.bindings@.len() - i,
        {
            let binding = &self.bindings[i];
            let matched = (binding.matcher)(key, modifiers);
            if matched {
                assert(0 <= i < self.spec_bindings().len() && binding.message
                    == self.spec_bindings()[i as int].message && call_ensures(
                    self.spec_bindings()[i as int].matcher,
                    (key, modifiers),
                    true,
                ));
                return Some(&binding.message);
            }
            i += 1;
        }
        None
    }
}

/// Creates a [`Shortcut`] widget that intercepts keyboard events before its
/// child.
pub fn shortcut<Element, Matcher, Message>(content: Element) -> (r: Shortcut<Element, Matcher, Message>)
    ensures
        r.spec_content() == content,
        r.spec_bindings().len() == 0,
{
    Shortcut::new(content)
}

} // verus!

use vstd::prelude::*;
use crate::layout::{Class, Padding};
use crate::pane_grid::controls::Controls;
use crate::pane_grid::draggable::PickArea;

verus! {

/// The title bar of a pane.
pub struct TitleBar<Element, Style> {
    content: Element,
    controls: Option<Controls<Element>>,
    padding: Padding,
    always_show_controls: bool,
    class: Class<Style>,
}

/// What a [`TitleBar`] holds.
pub struct TitleBarView<Element, Style> {
    /// The title.
    pub content: Element,
    /// The controls, if any.
    pub controls: Option<Controls<Element>>,
    /// The padding around the title.
    pub padding: Padding,
    /// Whether the controls are visible even when the pane is not hovered.
    pub always_show_controls: bool,
    /// The style class.
    pub class: Class<Style>,
}

impl<Element, Style> View for TitleBar<Element, Style> {
    type V = TitleBarView<Element, Style>;

    closed spec fn view(&self) -> TitleBarView<Element, Style> {
        TitleBarView {
            content: self.content,
            controls: self.controls,
            padding: self.padding,
            always_show_controls: self.always_show_controls,
            class: self.class,
        }
    }
}

/// Whether the cursor is over the pick area of a title bar: the whole title
/// bar but its controls (the compact controls, when the full ones do not fit
/// beside the title and a compact variant exists).
pub open spec fn over_pick_area(has_controls: bool, has_compact: bool, area: PickArea) -> bool {
    if !area.over_bounds {
        false
    } else if has_controls {
        if area.overflows && has_compact {
            !area.over_compact
        } else {
            !area.over_controls
        }
    } else {
        true
    }
}

/// The parts of a title bar that are drawn and receive events.
#[derive(Debug, Clone, Copy, PartialEq, Eq, Structural)]
pub struct ShownParts {
    /// The title.
    pub title: bool,
    /// The full controls.
    pub full_controls: bool,
    /// The compact controls.
    pub compact_controls: bool,
}

/// The parts shown, for controls that are shown (`controls`), that have a
/// compact variant (`has_compact`), and that overflow the title bar.
pub open spec fn shown_parts_spec(controls: bool, has_compact: bool, overflows: bool) -> ShownParts {
    if !controls {
        ShownParts { title: true, full_controls: false, compact_controls: false }
    } else if overflows {
        if has_compact {
            ShownParts { title: true, full_controls: false, compact_controls: true }
        } else {
            ShownParts { title: false, full_controls: true, compact_controls: false }
        }
    } else {
        ShownParts { title: true, full_controls: true, compact_controls: false }
    }
}

impl<Element, Style> TitleBar<Element, Style> {
    /// Creates a new [`TitleBar`] with the given content.
    pub fn new(content: Element) -> (r: Self)
        ensures
            r@ == (TitleBarView {
                content,
                controls: None,
                padding: Padding { top: 0, right: 0, bottom: 0, left: 0 },
                always_show_controls: false,
                class: Class::<Style>::Default,
            }),
    {
        TitleBar {
            content,
            controls: None,
            padding: Padding::zero(),
            always_show_controls: false,
            class: Class::Default,
        }
    }

    /// Sets the controls of the [`TitleBar`].
    pub fn controls(self, controls: Controls<Element>) -> (r: Self)
        ensures
            r@ == (TitleBarView { controls: Some(controls), ..self@ }),
    {
        TitleBar { controls: Some(controls), ..self }
    }

    /// Sets the padding of the [`TitleBar`].
    pub fn padding(self, padding: Padding) -> (r: Self)
        ensures
            r@ == (TitleBarView { padding, ..self@ }),
    {
        TitleBar { padding, ..self }
    }

    /// Makes the controls always visible; by default they are only visible
    /// when the pane is hovered.
    pub fn always_show_controls(self) -> (r: Self)
        ensures
            r@ == (TitleBarView { always_show_controls: true, ..self@ }),
    {
        TitleBar { always_show_controls: true, ..self }
    }

    /// Sets the style of the [`TitleBar`].
    pub fn style(self, style: Style) -> (r: Self)
        ensures
            r@ == (TitleBarView { class: Class::Custom(style), ..self@ }),
    {
        TitleBar { class: Class::Custom(style), ..self }
    }

    /// Sets the style class of the [`TitleBar`].
    pub fn class(self, class: Class<Style>) -> (r: Self)
        ensures
            r@ == (TitleBarView { class, ..self@ }),
    {
        TitleBar { class, ..self }
    }

    /// Which parts of the title bar are drawn and receive events, when the
    /// title and the full controls together are wider than the padded title
    /// bar (`overflows`) and when the controls are to be shown
    /// (`show_controls`, as when the pane is hovered; events always reach
    /// the controls, as if it were set): without the controls,
    /// only the title; with them, the full controls beside the title, or,
    /// when they overflow, the compact controls beside the title, or the
    /// full controls alone without a compact variant.
    pub fn shown_parts(&self, overflows: bool, show_controls: bool) -> (r: ShownParts)
        ensures
            r == shown_parts_spec(
                self@.controls is Some && (show_controls || self@.always_show_controls),
                self@.controls matches Some(c) && c.compact is Some,
                overflows,
            ),
    {
        match &self.controls {
            Some(controls) => {
                if show_controls || self.always_show_controls {
                    if overflows {
                        if controls.compact.is_some() {
                            ShownParts { title: true, full_controls: false, compact_controls: true }
                        } else {
                            ShownParts { title: false, full_controls: true, compact_controls: false }
                        }
                    } else {
                        ShownParts { title: true, full_controls: true, compact_controls: false }
                    }
                } else {
                    ShownParts { title: true, full_controls: false, compact_controls: false }
                }
            },
            None => ShownParts { title: true, full_controls: false, compact_controls: false },
        }
    }

    /// Returns whether the mouse cursor is over the pick area of the
    /// [`TitleBar`] or not: the whole title bar is a pick area, except its
    /// controls.
    pub fn is_over_pick_area(&self, area: PickArea) -> (r: bool)
        ensures
            r == over_pick_area(
                self@.controls is Some,
                self@.controls matches Some(c) && c.compact is Some,
                area,
            ),
    {
        if area.over_bounds {
            match &self.controls {
                Some(controls) => {
                    if area.overflows && controls.compact.is_some() {
                        !area.over_compact
                    } else {
                        !area.over_controls
                    }
                },
                None => true,
            }
        } else {
            false
        }
    }
}

} // verus!

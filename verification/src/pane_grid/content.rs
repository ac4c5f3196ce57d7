use vstd::prelude::*;
use crate::layout::Class;
use crate::mouse::Interaction;
use crate::pane_grid::draggable::{Draggable, PickArea};
use crate::pane_grid::title_bar::{TitleBar, over_pick_area};

verus! {

/// The content of a pane: a body and an optional title bar.
pub struct Content<Element, Style> {
    title_bar: Option<TitleBar<Element, Style>>,
    body: Element,
    class: Class<Style>,
}

/// What a [`Content`] holds.
pub struct ContentView<Element, Style> {
    /// The title bar, if any.
    pub title_bar: Option<TitleBar<Element, Style>>,
    /// The body.
    pub body: Element,
    /// The style class.
    pub class: Class<Style>,
}

impl<Element, Style> View for Content<Element, Style> {
    type V = ContentView<Element, Style>;

    closed spec fn view(&self) -> ContentView<Element, Style> {
        ContentView { title_bar: self.title_bar, body: self.body, class: self.class }
    }
}

impl<Element, Style> Content<Element, Style> {
    /// Creates a new [`Content`] with the provided body.
    pub fn new(body: Element) -> (r: Self)
        ensures
            r@ == (ContentView { title_bar: None, body, class: Class::<Style>::Default }),
    {
        Content { title_bar: None, body, class: Class::Default }
    }

    /// Sets the [`TitleBar`] of the [`Content`].
    pub fn title_bar(self, title_bar: TitleBar<Element, Style>) -> (r: Self)
        ensures
            r@ == (ContentView { title_bar: Some(title_bar), ..self@ }),
    {
        Content { title_bar: Some(title_bar), ..self }
    }

    /// Sets the style of the [`Content`].
    pub fn style(self, style: Style) -> (r: Self)
        ensures
            r@ == (ContentView { class: Class::Custom(style), ..self@ }),
    {
        Content { class: Class::Custom(style), ..self }
    }

    /// Sets the style class of the [`Content`].
    pub fn class(self, class: Class<Style>) -> (r: Self)
        ensures
            r@ == (ContentView { class, ..self@ }),
    {
        Content { class, ..self }
    }
}

impl<Element, Style> Content<Element, Style> {
    /// The interaction the pane grid shows over a pane: grabbing, when
    /// dragging is enabled and the cursor (if in the window, `area` tells
    /// where it stands) is over the pick area of the title bar.
    pub fn grid_interaction(&self, area: Option<PickArea>, drag_enabled: bool) -> (r: Option<
        Interaction,
    >)
        ensures
            r == match area {
                Some(a) => if drag_enabled && self.can_be_dragged_at_spec(a) {
                    Some(Interaction::Grab)
                } else {
                    None
                },
                None => None,
            },
    {
        match &self.title_bar {
            Some(title_bar) => {
                let over = match area {
                    Some(a) => title_bar.is_over_pick_area(a),
                    None => false,
                };
                if over && drag_enabled {
                    Some(Interaction::Grab)
                } else {
                    None
                }
            },
            None => None,
        }
    }

    /// Whether the pick area of the title bar is under the cursor.
    pub open spec fn can_be_dragged_at_spec(&self, area: PickArea) -> bool {
        match self@.title_bar {
            Some(t) => over_pick_area(
                t@.controls is Some,
                t@.controls matches Some(c) && c.compact is Some,
                area,
            ),
            None => false,
        }
    }
}

impl<Element, Style> Draggable for Content<Element, Style> {
    /// A pane can be dragged by the pick area of its title bar, and not at
    /// all without a title bar.
    fn can_be_dragged_at(&self, area: PickArea) -> (r: bool)
        ensures
            r == match self@.title_bar {
                Some(t) => over_pick_area(
                    t@.controls is Some,
                    t@.controls matches Some(c) && c.compact is Some,
                    area,
                ),
                None => false,
            },
    {
        match &self.title_bar {
            Some(title_bar) => title_bar.is_over_pick_area(area),
            None => false,
        }
    }
}

} // verus!

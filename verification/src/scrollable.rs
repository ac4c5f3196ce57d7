//! Navigate an endless amount of content with a scrollbar.
use vstd::prelude::*;

verus! {

/// The anchor of the scroller of the scrollable relative to its viewport on
/// a given axis.
#[derive(Debug, Clone, Copy, PartialEq, Eq, Structural)]
pub enum Anchor {
    /// Scroller is anchored to the start of the viewport.
    Start,
    /// Content is aligned to the end of the viewport.
    End,
}

impl Default for Anchor {
    fn default() -> (r: Self)
        ensures
            r == Anchor::Start,
    {
        Anchor::Start
    }
}

/// The source of a scroll notification.
#[derive(Debug, Clone, Copy, PartialEq, Eq, Structural)]
pub enum Source {
    /// The user scrolled with a mouse wheel or touchpad.
    Wheel,
    /// The user scrolled by swiping with a touch.
    Touch,
    /// The user scrolled by dragging the scrollbar's scroller.
    Scrollbar,
    /// The user scrolled by auto-scrolling with the middle mouse button.
    AutoScroll,
    /// A scroll operation (`scroll_to`, `snap_to` or `scroll_by`) scrolled.
    Operation,
    /// The size of the content changed.
    Content,
    /// The size of the scrollable changed.
    Resize,
}

/// An axis of a scrollable.
#[derive(Debug, Clone, Copy, PartialEq, Eq, Structural)]
pub enum Axis {
    /// The horizontal axis.
    X,
    /// The vertical axis.
    Y,
}

/// The possible status of a scrollable.
#[derive(Debug, Clone, Copy, PartialEq, Eq, Structural)]
pub enum Status {
    /// The scrollable can be interacted with.
    Active {
        /// Whether the horizontal scrollbar is disabled, the content not
        /// overflowing.
        is_horizontal_scrollbar_disabled: bool,
        /// Whether the vertical scrollbar is disabled, the content not
        /// overflowing.
        is_vertical_scrollbar_disabled: bool,
    },
    /// The scrollable is being hovered.
    Hovered {
        /// Whether the horizontal scrollbar is being hovered.
        is_horizontal_scrollbar_hovered: bool,
        /// Whether the vertical scrollbar is being hovered.
        is_vertical_scrollbar_hovered: bool,
        /// Whether the horizontal scrollbar is disabled.
        is_horizontal_scrollbar_disabled: bool,
        /// Whether the vertical scrollbar is disabled.
        is_vertical_scrollbar_disabled: bool,
    },
    /// The scrollable is being dragged.
    Dragged {
        /// Whether the horizontal scrollbar is being dragged.
        is_horizontal_scrollbar_dragged: bool,
        /// Whether the vertical scrollbar is being dragged.
        is_vertical_scrollbar_dragged: bool,
        /// Whether the horizontal scrollbar is disabled.
        is_horizontal_scrollbar_disabled: bool,
        /// Whether the vertical scrollbar is disabled.
        is_vertical_scrollbar_disabled: bool,
    },
}

/// The status of a scrollable: dragged while a scrollbar is dragged along
/// `dragged`, else hovered while the cursor is over it (`hovered_bar` being
/// the scrollbar under the cursor), else active.
pub open spec fn status_spec(
    dragged: Option<Axis>,
    is_over: bool,
    hovered_bar: Option<Axis>,
    x_disabled: bool,
    y_disabled: bool,
) -> Status {
    match dragged {
        Some(axis) => Status::Dragged {
            is_horizontal_scrollbar_dragged: axis == Axis::X,
            is_vertical_scrollbar_dragged: axis == Axis::Y,
            is_horizontal_scrollbar_disabled: x_disabled,
            is_vertical_scrollbar_disabled: y_disabled,
        },
        None => if is_over {
            Status::Hovered {
                is_horizontal_scrollbar_hovered: hovered_bar == Some(Axis::X),
                is_vertical_scrollbar_hovered: hovered_bar == Some(Axis::Y),
                is_horizontal_scrollbar_disabled: x_disabled,
                is_vertical_scrollbar_disabled: y_disabled,
            }
        } else {
            Status::Active {
                is_horizontal_scrollbar_disabled: x_disabled,
                is_vertical_scrollbar_disabled: y_disabled,
            }
        },
    }
}

/// Computes the status a scrollable is styled with.
pub fn status(
    dragged: Option<Axis>,
    is_over: bool,
    hovered_bar: Option<Axis>,
    x_disabled: bool,
    y_disabled: bool,
) -> (r: Status)
    ensures
        r == status_spec(dragged, is_over, hovered_bar, x_disabled, y_disabled),
{
    match dragged {
        Some(axis) => Status::Dragged {
            is_horizontal_scrollbar_dragged: axis == Axis::X,
            is_vertical_scrollbar_dragged: axis == Axis::Y,
            is_horizontal_scrollbar_disabled: x_disabled,
            is_vertical_scrollbar_disabled: y_disabled,
        },
        None => if is_over {
            Status::Hovered {
                is_horizontal_scrollbar_hovered: hovered_bar == Some(Axis::X),
                is_vertical_scrollbar_hovered: hovered_bar == Some(Axis::Y),
                is_horizontal_scrollbar_disabled: x_disabled,
                is_vertical_scrollbar_disabled: y_disabled,
            }
        } else {
            Status::Active {
                is_horizontal_scrollbar_disabled: x_disabled,
                is_vertical_scrollbar_disabled: y_disabled,
            }
        },
    }
}

/// The kinds of events after which a scroll transaction may end.
#[derive(Debug, Clone, Copy, PartialEq, Eq, Structural)]
pub enum TransactionEvent {
    /// A mouse button was pressed or released, or the cursor left the
    /// window.
    ButtonOrLeave,
    /// The cursor moved.
    CursorMoved,
    /// Any other event.
    Other,
}

/// Whether a scroll transaction ends with an event, `elapsed_nanos`
/// nanoseconds after the last scroll: a press, a release or the cursor
/// leaving end it at once; a cursor move once more than 100 ms have passed;
/// any other event once more than 1500 ms have passed.
pub fn clears_transaction(event: TransactionEvent, elapsed_nanos: u128) -> (r: bool)
    ensures
        r == match event {
            TransactionEvent::ButtonOrLeave => true,
            TransactionEvent::CursorMoved => elapsed_nanos > 100_000_000,
            TransactionEvent::Other => elapsed_nanos > 1_500_000_000,
        },
{
    match event {
        TransactionEvent::ButtonOrLeave => true,
        TransactionEvent::CursorMoved => elapsed_nanos > 100_000_000,
        TransactionEvent::Other => elapsed_nanos > 1_500_000_000,
    }
}

} // verus!

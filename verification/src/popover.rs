//! A popover is a floating piece of content that appears over some element.
//!
//! A popover always displays its overlay; it is up to the application to
//! remove it from the view when it is "closed". When the user presses outside
//! of the popover's bounds, and outside of its base, the popover asks the
//! application to close it through its `on_close` message.
use vstd::prelude::*;
use crate::layout::Pixels;

verus! {

/// The position of the popover.
#[derive(Debug, Clone, Copy, PartialEq, Eq, Structural)]
pub enum Position {
    /// The popover will appear on the top of the widget.
    Top,
    /// The popover will appear on the bottom of the widget.
    Bottom,
    /// The popover will appear on the left of the widget.
    Left,
    /// The popover will appear on the right of the widget.
    Right,
}

impl Default for Position {
    fn default() -> (r: Self)
        ensures
            r == Position::Bottom,
    {
        Position::Bottom
    }
}

/// The default padding of a [`Popover`]: the bits of the `f32` 5.0.
pub const DEFAULT_PADDING_BITS: u32 = 0x40A0_0000;

/// A floating piece of content that appears over another element.
pub struct Popover<Element, Message> {
    content: Element,
    popover: Element,
    position: Position,
    gap: Pixels,
    padding: Pixels,
    snap_within_viewport: bool,
    on_close: Option<Message>,
}

/// What a [`Popover`] holds.
pub struct PopoverView<Element, Message> {
    /// The base the popover is anchored to.
    pub content: Element,
    /// The floating content.
    pub popover: Element,
    /// Where the popover appears relative to the base.
    pub position: Position,
    /// The gap between the base and the popover.
    pub gap: Pixels,
    /// The padding around the popover.
    pub padding: Pixels,
    /// Whether the popover is kept within the viewport.
    pub snap_within_viewport: bool,
    /// The message asking to close the popover.
    pub on_close: Option<Message>,
}

impl<Element, Message> View for Popover<Element, Message> {
    type V = PopoverView<Element, Message>;

    closed spec fn view(&self) -> PopoverView<Element, Message> {
        PopoverView {
            content: self.content,
            popover: self.popover,
            position: self.position,
            gap: self.gap,
            padding: self.padding,
            snap_within_viewport: self.snap_within_viewport,
            on_close: self.on_close,
        }
    }
}

impl<Element, Message> Popover<Element, Message> {
    /// Creates a new [`Popover`] of the `popover` element anchored to the
    /// `content` element at the given `position`, with no gap, the default
    /// padding, snapped within the viewport.
    pub fn new(content: Element, popover: Element, position: Position) -> (r: Self)
        ensures
            r@ == (PopoverView::<Element, Message> {
                content,
                popover,
                position,
                gap: Pixels(0),
                padding: Pixels(DEFAULT_PADDING_BITS),
                snap_within_viewport: true,
                on_close: None,
            }),
    {
        Popover {
            content,
            popover,
            position,
            gap: Pixels(0),
            padding: Pixels(DEFAULT_PADDING_BITS),
            snap_within_viewport: true,
            on_close: None,
        }
    }

    /// Sets the message that will be produced when the user clicks outside
    /// of the [`Popover`]'s bounds.
    pub fn on_close(self, message: Message) -> (r: Self)
        ensures
            r@ == (PopoverView { on_close: Some(message), ..self@ }),
    {
        Popover { on_close: Some(message), ..self }
    }

    /// Sets the gap between the content and its [`Popover`].
    pub fn gap(self, gap: Pixels) -> (r: Self)
        ensures
            r@ == (PopoverView { gap, ..self@ }),
    {
        Popover { gap, ..self }
    }

    /// Sets the padding of the [`Popover`].
    pub fn padding(self, padding: Pixels) -> (r: Self)
        ensures
            r@ == (PopoverView { padding, ..self@ }),
    {
        Popover { padding, ..self }
    }

    /// Sets whether the [`Popover`] is snapped within the viewport.
    pub fn snap_within_viewport(self, snap: bool) -> (r: Self)
        ensures
            r@ == (PopoverView { snap_within_viewport: snap, ..self@ }),
    {
        Popover { snap_within_viewport: snap, ..self }
    }
}

/// The kinds of events the overlay of a popover tells apart.
#[derive(Debug, Clone, Copy, PartialEq, Eq, Structural)]
pub enum EventKind {
    /// The left mouse button was pressed.
    LeftPress,
    /// A finger touched the screen.
    FingerPress,
    /// Another mouse or touch event.
    Pointer,
    /// Any other event (keyboard, window, ...).
    Other,
}

/// Whether the event is a press that dismisses the popover.
pub open spec fn is_press_spec(event: EventKind) -> bool {
    event is LeftPress || event is FingerPress
}

/// Returns whether the given event is a press that should dismiss the
/// popover.
pub fn is_press(event: EventKind) -> (r: bool)
    ensures
        r == is_press_spec(event),
{
    match event {
        EventKind::LeftPress | EventKind::FingerPress => true,
        _ => false,
    }
}

/// What the overlay of a popover does with an event.
#[derive(Debug, Clone, Copy, PartialEq, Eq, Structural)]
pub enum OverlayAction {
    /// Nothing: the base handles the event itself, or the event is a mouse
    /// or touch event outside of the popover.
    Ignore,
    /// Publish the close message, if one is left.
    Close,
    /// Hand the event to the popover's content.
    Forward,
}

/// The action of the overlay for an event: a press outside of the popover
/// closes it, unless it lies over the base; an event inside the popover, or
/// one that is no mouse or touch event, goes to its content.
pub open spec fn overlay_action_spec(event: EventKind, is_inside: bool, is_over_base: bool) -> OverlayAction {
    if is_press_spec(event) && !is_inside {
        if is_over_base {
            OverlayAction::Ignore
        } else {
            OverlayAction::Close
        }
    } else if is_inside || event is Other {
        OverlayAction::Forward
    } else {
        OverlayAction::Ignore
    }
}

/// Decides what the overlay does with an event, given whether the cursor
/// lies inside the popover and over its base.
pub fn overlay_action(event: EventKind, is_inside: bool, is_over_base: bool) -> (r: OverlayAction)
    ensures
        r == overlay_action_spec(event, is_inside, is_over_base),
{
    if is_press(event) && !is_inside {
        if is_over_base {
            return OverlayAction::Ignore;
        }
        return OverlayAction::Close;
    }
    match event {
        EventKind::Other => OverlayAction::Forward,
        _ => if is_inside {
            OverlayAction::Forward
        } else {
            OverlayAction::Ignore
        },
    }
}

/// Takes the close message when the overlay closes: it is published at most
/// once.
pub fn close<Message>(on_close: &mut Option<Message>) -> (r: Option<Message>)
    ensures
        r == *old(on_close),
        *final(on_close) is None,
{
    on_close.take()
}

} // verus!

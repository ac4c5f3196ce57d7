use iced_widget::layout::{Extent, Length, Pixels, Point, Size};
use iced_widget::mouse::Interaction;
use iced_widget::pick_list;
use iced_widget::pin::Pin;
use iced_widget::pop::{Notification, Pop, State as PopState};
use iced_widget::popover::{is_press, overlay_action, close, EventKind, OverlayAction, Popover, Position};
use iced_widget::radio;
use iced_widget::scrollable::{self, Anchor, Axis, Status, TransactionEvent};
use iced_widget::shader::Shader;
use iced_widget::space::{self, Space};
use iced_widget::stack::Stack;
use iced_widget::svg;
use iced_widget::keyboard::Modifiers;

fn size(width: Length, height: Length) -> Size {
    Size { width, height }
}

fn extent(width: f32, height: f32) -> Extent {
    Extent { width: width.to_bits(), height: height.to_bits() }
}

#[test]
fn length_enclose() {
    assert_eq!(Length::Shrink.enclose(Length::Fill), Length::Fill);
    assert_eq!(Length::Shrink.enclose(Length::FillPortion(2)), Length::FillPortion(2));
    assert_eq!(Length::Shrink.enclose(Length::Fixed(3.0f32.to_bits())), Length::Shrink);
    assert_eq!(Length::Fixed(1.0f32.to_bits()).enclose(Length::Fill), Length::Fixed(1.0f32.to_bits()));
    assert!(Length::Fixed(0.0f32.to_bits()).is_fixed_zero());
    assert!(Length::Fixed((-0.0f32).to_bits()).is_fixed_zero());
    assert!(!Length::Fill.is_fixed_zero());
    assert!(size(Length::Fixed(0), Length::Fill).is_void());
    assert!(!size(Length::Fill, Length::Shrink).is_void());
}

#[test]
fn stack_adapts_to_its_first_child() {
    let stack: Stack<&str> = Stack::new()
        .push("void", size(Length::Fixed(0), Length::Fill))
        .push("first", size(Length::Fill, Length::Shrink))
        .push("second", size(Length::Shrink, Length::Fill));
    assert_eq!(stack.size(), size(Length::Fill, Length::Shrink));
    let with: Stack<&str> =
        Stack::with_children(vec![("a", size(Length::Shrink, Length::FillPortion(3)))]);
    assert_eq!(with.size(), size(Length::Shrink, Length::FillPortion(3)));
    let sized: Stack<&str> = Stack::from_vec(vec!["a", "b"]).width(Length::Fill).clip(true);
    assert_eq!(sized.size(), size(Length::Fill, Length::Shrink));
    let under: Stack<&str> = Stack::with_capacity(2).push_under("x").extend(vec![]);
    assert_eq!(under.size(), size(Length::Shrink, Length::Shrink));
}

#[test]
fn space_sizes() {
    assert_eq!(space::horizontal().size(), size(Length::Fill, Length::Shrink));
    assert_eq!(space::vertical().size(), size(Length::Shrink, Length::Fill));
    assert_eq!(Space::new().height(Length::Fixed(5)).size(), size(Length::Shrink, Length::Fixed(5)));
}

#[test]
fn pin_and_shader_sizes() {
    let pin = Pin::new("content").width(Length::Shrink).x(Pixels(2.0f32.to_bits()));
    assert_eq!(pin.size(), size(Length::Shrink, Length::Fill));
    let pin = Pin::new("content").position(Point { x: 1, y: 2 }).height(Length::Fixed(7));
    assert_eq!(pin.size(), size(Length::Fill, Length::Fixed(7)));
    let shader: Shader<(), ()> = Shader::new(());
    assert_eq!(f32::from_bits(match shader.size().width { Length::Fixed(b) => b, _ => 0 }), 100.0);
    assert_eq!(shader.width(Length::Fill).size().width, Length::Fill);
}

fn pop() -> Pop<&'static str, &'static str, fn(Extent) -> &'static str, fn(Extent) -> &'static str> {
    Pop::new("content")
}

#[test]
fn pop_shows_after_its_delay() {
    let show: fn(Extent) -> &'static str = |_| "shown";
    let widget = pop().on_show(show).on_hide("hidden").delay(10);
    let mut state = PopState::new();
    let size = extent(10.0, 20.0);
    // Out of view: nothing.
    let r = widget.on_redraw(&mut state, 0, false, size);
    assert_eq!(r.notification, None);
    assert!(!state.has_popped_in);
    // Into view at t = 5: the show message waits until t = 15.
    let r = widget.on_redraw(&mut state, 5, true, size);
    assert!(state.has_popped_in);
    assert_eq!(r.notification, None);
    assert_eq!(r.redraw_at, Some(15));
    let r = widget.on_redraw(&mut state, 15, true, size);
    assert_eq!(r.notification, Some(Notification::Show(size)));
    assert_eq!(r.redraw_at, None);
    assert_eq!(state.should_notify_at, None);
    // Out of view: the hide message waits, then fires.
    let r = widget.on_redraw(&mut state, 20, false, size);
    assert_eq!(r.redraw_at, Some(30));
    let r = widget.on_redraw(&mut state, 31, false, size);
    assert_eq!(r.notification, Some(Notification::Hide));
}

#[test]
fn pop_without_delay_fires_at_once_and_resizes() {
    let show: fn(Extent) -> &'static str = |_| "shown";
    let resize: fn(Extent) -> &'static str = |_| "resized";
    let widget = pop().on_show(show).on_resize(resize).anticipate(Pixels(50.0f32.to_bits()));
    assert_eq!(widget.anticipation(), Pixels(50.0f32.to_bits()));
    let mut state = PopState::default();
    let r = widget.on_redraw(&mut state, 0, true, extent(1.0, 1.0));
    assert_eq!(r.notification, Some(Notification::Show(extent(1.0, 1.0))));
    assert_eq!(r.resized, None);
    let r = widget.on_redraw(&mut state, 1, true, extent(1.0, 1.0));
    assert_eq!(r.resized, None);
    let r = widget.on_redraw(&mut state, 2, true, extent(2.0, 1.0));
    assert_eq!(r.resized, Some(extent(2.0, 1.0)));
}

#[test]
fn pop_key_change_triggers_again() {
    let show: fn(Extent) -> &'static str = |_| "shown";
    let widget = pop().on_show(show).key(String::from("a"));
    let mut state = PopState::new();
    widget.on_redraw(&mut state, 0, true, extent(1.0, 1.0));
    assert!(state.has_popped_in);
    // The remembered key was never set, so it differs: the pop starts over
    // and shows again.
    let r = widget.on_redraw(&mut state, 1, true, extent(1.0, 1.0));
    assert_eq!(state.last_key, Some(String::from("a")));
    assert_eq!(r.notification, Some(Notification::Show(extent(1.0, 1.0))));
    let r = widget.on_redraw(&mut state, 2, true, extent(1.0, 1.0));
    assert_eq!(r.notification, None);
}

#[test]
fn popover_overlay() {
    assert_eq!(Position::default(), Position::Bottom);
    assert!(is_press(EventKind::LeftPress));
    assert!(!is_press(EventKind::Pointer));
    assert_eq!(overlay_action(EventKind::LeftPress, false, false), OverlayAction::Close);
    assert_eq!(overlay_action(EventKind::FingerPress, false, true), OverlayAction::Ignore);
    assert_eq!(overlay_action(EventKind::LeftPress, true, false), OverlayAction::Forward);
    assert_eq!(overlay_action(EventKind::Pointer, false, false), OverlayAction::Ignore);
    assert_eq!(overlay_action(EventKind::Other, false, false), OverlayAction::Forward);
    let mut on_close = Some("close");
    assert_eq!(close(&mut on_close), Some("close"));
    assert_eq!(close(&mut on_close), None);
    let _p: Popover<&str, &str> =
        Popover::new("base", "floating", Position::Top).on_close("close").gap(Pixels(0)).snap_within_viewport(false);
}

#[test]
fn statuses() {
    assert_eq!(radio::status(true, false), radio::Status::Hovered { is_selected: false });
    assert_eq!(radio::status(false, true), radio::Status::Active { is_selected: true });
    assert!(radio::is_clicked(true, true));
    assert!(!radio::is_clicked(true, false));
    assert_eq!(svg::status(true), svg::Status::Hovered);
    assert_eq!(svg::status(false), svg::Status::Idle);
    assert_eq!(
        scrollable::status(Some(Axis::Y), true, Some(Axis::X), false, true),
        Status::Dragged {
            is_horizontal_scrollbar_dragged: false,
            is_vertical_scrollbar_dragged: true,
            is_horizontal_scrollbar_disabled: false,
            is_vertical_scrollbar_disabled: true,
        }
    );
    assert_eq!(
        scrollable::status(None, true, Some(Axis::X), false, false),
        Status::Hovered {
            is_horizontal_scrollbar_hovered: true,
            is_vertical_scrollbar_hovered: false,
            is_horizontal_scrollbar_disabled: false,
            is_vertical_scrollbar_disabled: false,
        }
    );
    assert_eq!(
        scrollable::status(None, false, None, true, false),
        Status::Active { is_horizontal_scrollbar_disabled: true, is_vertical_scrollbar_disabled: false }
    );
    assert_eq!(Anchor::default(), Anchor::Start);
    assert!(scrollable::clears_transaction(TransactionEvent::ButtonOrLeave, 0));
    assert!(!scrollable::clears_transaction(TransactionEvent::CursorMoved, 100_000_000));
    assert!(scrollable::clears_transaction(TransactionEvent::CursorMoved, 100_000_001));
    assert!(scrollable::clears_transaction(TransactionEvent::CursorMoved, 100_500_000));
    assert!(!scrollable::clears_transaction(TransactionEvent::Other, 1_500_000_000));
    assert!(scrollable::clears_transaction(TransactionEvent::Other, 1_500_000_001));
}

#[test]
fn pick_list_opens_on_the_selected_option() {
    let options = vec![10u64, 20, 30, 20];
    let mut state = pick_list::State::new();
    assert!(!state.press(false, &options, Some(20)));
    assert!(state.press(true, &options, Some(20)));
    assert!(state.is_open);
    assert_eq!(state.hovered_option, Some(1));
    assert!(state.press(false, &options, Some(20)));
    assert!(!state.is_open);
    assert!(state.press(true, &options, Some(99)));
    assert_eq!(state.hovered_option, None);
    assert_eq!(pick_list::mouse_interaction(true), Interaction::Pointer);
    assert_eq!(pick_list::mouse_interaction(false), Interaction::Unset);
}

#[test]
fn pick_list_wheel_steps_through_options() {
    let options = vec![10u64, 20, 30, 20];
    let mut state = pick_list::State::new();
    assert_eq!(state.wheel(true, -1, &options, Some(10)), (false, None));
    state.modifiers_changed(Modifiers { shift: false, control: true, alt: false, logo: false });
    assert_eq!(state.wheel(true, -1, &options, Some(10)), (true, Some(1)));
    assert_eq!(state.wheel(true, -1, &options, Some(20)), (true, Some(2)));
    assert_eq!(state.wheel(true, 1, &options, Some(20)), (true, Some(2)));
    assert_eq!(state.wheel(true, 1, &options, Some(10)), (true, None));
    assert_eq!(state.wheel(true, -1, &options, None), (true, Some(0)));
    assert_eq!(state.wheel(true, 1, &options, None), (true, Some(3)));
    assert_eq!(state.wheel(true, 0, &options, None), (true, None));
    assert_eq!(state.wheel(false, -1, &options, None), (false, None));
}

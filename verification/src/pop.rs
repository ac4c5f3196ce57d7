//! Generate messages when content pops in and out of view.
//!
//! Times are counted in nanoseconds from a starting point that the caller
//! picks and keeps.
use vstd::prelude::*;
use crate::layout::{Extent, Pixels};

verus! {

/// A widget that can generate messages when its content pops in and out of
/// view.
///
/// It can even notify you with anticipation at a given distance!
pub struct Pop<Element, Message, Show, Resize> {
    content: Element,
    key: Option<String>,
    on_show: Option<Show>,
    on_resize: Option<Resize>,
    on_hide: Option<Message>,
    anticipate: Pixels,
    delay: u128,
}

/// What a [`Pop`] holds.
pub struct PopView<Element, Message, Show, Resize> {
    /// The content watched.
    pub content: Element,
    /// The key, for continuity.
    pub key: Option<Seq<char>>,
    /// The message maker for when the content pops into view.
    pub on_show: Option<Show>,
    /// The message maker for when the content changes size in view.
    pub on_resize: Option<Resize>,
    /// The message for when the content pops out of view.
    pub on_hide: Option<Message>,
    /// The distance at which the content counts as in view.
    pub anticipate: Pixels,
    /// The nanoseconds to wait before a show or hide message.
    pub delay: nat,
}

/// The characters of an optional key.
pub open spec fn key_view(key: Option<String>) -> Option<Seq<char>> {
    match key {
        Some(k) => Some(k@),
        None => None,
    }
}

impl<Element, Message, Show, Resize> View for Pop<Element, Message, Show, Resize> {
    type V = PopView<Element, Message, Show, Resize>;

    closed spec fn view(&self) -> PopView<Element, Message, Show, Resize> {
        PopView {
            content: self.content,
            key: key_view(self.key),
            on_show: self.on_show,
            on_resize: self.on_resize,
            on_hide: self.on_hide,
            anticipate: self.anticipate,
            delay: self.delay as nat,
        }
    }
}

/// What a [`Pop`] remembers between redraws.
#[derive(Debug, Clone)]
pub struct State {
    /// Whether the content is in view.
    pub has_popped_in: bool,
    /// A show (`true`) or hide (`false`) message waiting for its time.
    pub should_notify_at: Option<(bool, u128)>,
    /// The size of the content when last seen in view.
    pub last_size: Option<Extent>,
    /// The key when the content last popped in.
    pub last_key: Option<String>,
}

/// What a [`State`] holds.
pub struct StateView {
    /// Whether the content is in view.
    pub has_popped_in: bool,
    /// A show (`true`) or hide (`false`) message waiting for its time.
    pub should_notify_at: Option<(bool, nat)>,
    /// The size of the content when last seen in view.
    pub last_size: Option<Extent>,
    /// The key when the content last popped in.
    pub last_key: Option<Seq<char>>,
}

impl View for State {
    type V = StateView;

    open spec fn view(&self) -> StateView {
        StateView {
            has_popped_in: self.has_popped_in,
            should_notify_at: match self.should_notify_at {
                Some((shown, at)) => Some((shown, at as nat)),
                None => None,
            },
            last_size: self.last_size,
            last_key: key_view(self.last_key),
        }
    }
}

impl State {
    /// The state of a content never seen.
    pub fn new() -> (r: Self)
        ensures
            r@ == (StateView {
                has_popped_in: false,
                should_notify_at: None,
                last_size: None,
                last_key: None,
            }),
    {
        State { has_popped_in: false, should_notify_at: None, last_size: None, last_key: None }
    }
}

impl Default for State {
    fn default() -> (r: Self)
        ensures
            r@ == (StateView {
                has_popped_in: false,
                should_notify_at: None,
                last_size: None,
                last_key: None,
            }),
    {
        State::new()
    }
}

/// A message to publish once its time has come.
#[derive(Debug, Clone, Copy, PartialEq, Eq, Structural)]
pub enum Notification {
    /// The content popped into view; it has this size now.
    Show(Extent),
    /// The content popped out of view.
    Hide,
}

/// What a redraw asks of the caller.
#[derive(Debug, Clone, Copy, PartialEq, Eq, Structural)]
pub struct Redraw {
    /// The content changed size while in view: publish the resize message
    /// for this size.
    pub resized: Option<Extent>,
    /// A show or hide message is due: publish it.
    pub notification: Option<Notification>,
    /// A message waits: redraw again at this time.
    pub redraw_at: Option<u128>,
}

/// What a redraw acts upon: whether each message is set, the key and the
/// delay.
pub struct Settings {
    /// Whether a show message is set.
    pub shows: bool,
    /// Whether a resize message is set.
    pub resizes: bool,
    /// Whether a hide message is set.
    pub hides: bool,
    /// The key.
    pub key: Option<Seq<char>>,
    /// The delay, in nanoseconds.
    pub delay: nat,
}

/// The settings of a pop.
pub open spec fn settings<E, M, S, R>(p: PopView<E, M, S, R>) -> Settings {
    Settings {
        shows: p.on_show is Some,
        resizes: p.on_resize is Some,
        hides: p.on_hide is Some,
        key: p.key,
        delay: p.delay,
    }
}

/// First step of a redraw: when the key changed since the content popped
/// in, the content counts as never seen under the new key.
pub open spec fn after_key(s: StateView, p: Settings) -> StateView {
    if s.has_popped_in && s.last_key != p.key {
        StateView { has_popped_in: false, should_notify_at: None, last_key: p.key, ..s }
    } else {
        s
    }
}

/// Second step: the content comes into view or leaves it. Returns the new
/// state and the size to publish a resize message for.
pub open spec fn after_visibility(s: StateView, p: Settings, now: nat, within: bool, size: Extent) -> (
    StateView,
    Option<Extent>,
) {
    if s.has_popped_in {
        if within {
            if p.resizes && s.last_size != Some(size) {
                (StateView { last_size: Some(size), ..s }, Some(size))
            } else {
                (s, None)
            }
        } else if p.hides {
            (StateView { has_popped_in: false, should_notify_at: Some((false, now + p.delay)), ..s }, None)
        } else {
            (s, None)
        }
    } else if p.shows && within {
        (
            StateView {
                has_popped_in: true,
                should_notify_at: Some((true, now + p.delay)),
                last_size: Some(size),
                ..s
            },
            None,
        )
    } else {
        (s, None)
    }
}

/// Last step: a waiting message whose time has come is published (when its
/// message is set) and dropped; one still waiting asks for a redraw at its
/// time.
pub open spec fn after_notify(s: StateView, p: Settings, now: nat, size: Extent) -> (
    StateView,
    Option<Notification>,
    Option<nat>,
) {
    match s.should_notify_at {
        Some((shown, at)) => if at <= now {
            let n = if shown {
                if p.shows {
                    Some(Notification::Show(size))
                } else {
                    None
                }
            } else if p.hides {
                Some(Notification::Hide)
            } else {
                None
            };
            (StateView { should_notify_at: None, ..s }, n, None)
        } else {
            (s, None, Some(at))
        },
        None => (s, None, None),
    }
}

/// The state after a redraw at `now`, with the content `within` the
/// anticipated distance of the viewport and of the given size.
pub open spec fn redrawn_state(s: StateView, p: Settings, now: nat, within: bool, size: Extent) -> StateView {
    after_notify(after_visibility(after_key(s, p), p, now, within, size).0, p, now, size).0
}

/// What a redraw publishes and requests.
pub open spec fn redraw_outcome(s: StateView, p: Settings, now: nat, within: bool, size: Extent) -> (
    Option<Extent>,
    Option<Notification>,
    Option<nat>,
) {
    let v = after_visibility(after_key(s, p), p, now, within, size);
    let n = after_notify(v.0, p, now, size);
    (v.1, n.1, n.2)
}

/// If the key changes, the pop triggers again: a pop that had popped in
/// under another key, redrawn with its content in view and a show message
/// set, shows again, at once when it has no delay, else after its delay,
/// and remembers the new key.
pub proof fn lemma_key_change_triggers_again(
    s: StateView,
    p: Settings,
    now: nat,
    size: Extent,
)
    requires
        s.has_popped_in,
        s.last_key != p.key,
        p.shows,
    ensures
        redrawn_state(s, p, now, true, size).last_key == p.key,
        redrawn_state(s, p, now, true, size).has_popped_in,
        p.delay == 0 ==> redraw_outcome(s, p, now, true, size).1 == Some(Notification::Show(size)),
        p.delay > 0 ==> redrawn_state(s, p, now, true, size).should_notify_at == Some(
            (true, now + p.delay),
        ),
{
}

/// The time requested for the next redraw, as a number.
pub open spec fn time_view(t: Option<u128>) -> Option<nat> {
    match t {
        Some(at) => Some(at as nat),
        None => None,
    }
}

/// Whether the key of the pop differs from the one remembered.
fn key_changed(last: &Option<String>, key: &Option<String>) -> (r: bool)
    ensures
        r == (key_view(*last) != key_view(*key)),
{
    match (last, key) {
        (Some(a), Some(b)) => {
            let same = *a == *b;
            if !same {
                assert(key_view(*last) != key_view(*key));
            }
            !same
        },
        (None, None) => false,
        _ => true,
    }
}

impl<Element, Message, Show, Resize> Pop<Element, Message, Show, Resize> {
    /// Creates a new [`Pop`] widget with the given content.
    pub fn new(content: Element) -> (r: Self)
        ensures
            r@ == (PopView::<Element, Message, Show, Resize> {
                content,
                key: None,
                on_show: None,
                on_resize: None,
                on_hide: None,
                anticipate: Pixels(0),
                delay: 0,
            }),
    {
        Pop {
            content,
            key: None,
            on_show: None,
            on_resize: None,
            on_hide: None,
            anticipate: Pixels(0),
            delay: 0,
        }
    }

    /// Sets the message to be produced when the content pops into view.
    ///
    /// The closure receives the size of the content in that moment.
    pub fn on_show(self, on_show: Show) -> (r: Self)
        ensures
            r@ == (PopView { on_show: Some(on_show), ..self@ }),
    {
        Pop { on_show: Some(on_show), ..self }
    }

    /// Sets the message to be produced when the content changes size once
    /// it is in view.
    ///
    /// The closure receives the new size of the content.
    pub fn on_resize(self, on_resize: Resize) -> (r: Self)
        ensures
            r@ == (PopView { on_resize: Some(on_resize), ..self@ }),
    {
        Pop { on_resize: Some(on_resize), ..self }
    }

    /// Sets the message to be produced when the content pops out of view.
    pub fn on_hide(self, on_hide: Message) -> (r: Self)
        ensures
            r@ == (PopView { on_hide: Some(on_hide), ..self@ }),
    {
        Pop { on_hide: Some(on_hide), ..self }
    }

    /// Sets the key of the [`Pop`] widget, for continuity.
    ///
    /// If the key changes, the [`Pop`] widget will trigger again.
    pub fn key(self, key: String) -> (r: Self)
        ensures
            r@ == (PopView { key: Some(key@), ..self@ }),
    {
        Pop { key: Some(key), ..self }
    }

    /// Sets the distance in pixels to use in anticipation of the content
    /// popping into view.
    pub fn anticipate(self, distance: Pixels) -> (r: Self)
        ensures
            r@ == (PopView { anticipate: distance, ..self@ }),
    {
        Pop { anticipate: distance, ..self }
    }

    /// Sets the amount of time, in nanoseconds, to wait before firing a show
    /// or hide message, after the content is shown or hidden.
    ///
    /// When combined with [`Pop::key`], this can be useful to debounce key
    /// changes.
    pub fn delay(self, delay: u128) -> (r: Self)
        ensures
            r@ == (PopView { delay: delay as nat, ..self@ }),
    {
        Pop { delay, ..self }
    }

    /// The distance at which the content counts as in view.
    pub fn anticipation(&self) -> (r: Pixels)
        ensures
            r == self@.anticipate,
    {
        self.anticipate
    }

    /// Handles a redraw at time `now`: `within` tells whether the content
    /// lies within the anticipated distance of the viewport, `size` is its
    /// size. Updates the state and says which messages to publish and when
    /// to redraw again.
    ///
    /// After it, a message still waiting is due strictly later than `now`,
    /// and a redraw is requested exactly at its time; a show message is only
    /// published when one is set, and so is a hide message.
    pub fn on_redraw(&self, state: &mut State, now: u128, within: bool, size: Extent) -> (r: Redraw)
        requires
            now + self@.delay <= u128::MAX,
        ensures
            final(state)@ == redrawn_state(old(state)@, settings(self@), now as nat, within, size),
            (r.resized, r.notification, time_view(r.redraw_at)) == redraw_outcome(
                old(state)@,
                settings(self@),
                now as nat,
                within,
                size,
            ),
            final(state).should_notify_at matches Some((_, at)) ==> at > now,
            time_view(r.redraw_at) == match final(state)@.should_notify_at {
                Some((_, at)) => Some(at),
                None => None,
            },
            r.notification matches Some(Notification::Show(_)) ==> self@.on_show is Some,
            r.notification matches Some(Notification::Hide) ==> self@.on_hide is Some,
    {
        let ghost p = settings(self@);
        if state.has_popped_in && key_changed(&state.last_key, &self.key) {
            state.has_popped_in = false;
            state.should_notify_at = None;
            state.last_key = match &self.key {
                Some(k) => Some(k.clone()),
                None => None,
            };
        }
        assert(state@ == after_key(old(state)@, p));
        let mut resized: Option<Extent> = None;
        if state.has_popped_in {
            if within {
                if self.on_resize.is_some() {
                    let changed = match state.last_size {
                        Some(last) => last != size,
                        None => true,
                    };
                    if changed {
                        state.last_size = Some(size);
                        resized = Some(size);
                    }
                }
            } else if self.on_hide.is_some() {
                state.has_popped_in = false;
                state.should_notify_at = Some((false, now + self.delay));
            }
        } else if self.on_show.is_some() && within {
            state.has_popped_in = true;
            state.should_notify_at = Some((true, now + self.delay));
            state.last_size = Some(size);
        }
        assert(state@ == after_visibility(after_key(old(state)@, p), p, now as nat, within, size).0);
        let mut notification: Option<Notification> = None;
        let mut redraw_at: Option<u128> = None;
        match state.should_notify_at {
            Some((shown, at)) => {
                if at <= now {
                    if shown {
                        if self.on_show.is_some() {
                            notification = Some(Notification::Show(size));
                        }
                    } else if self.on_hide.is_some() {
                        notification = Some(Notification::Hide);
                    }
                    state.should_notify_at = None;
                } else {
                    redraw_at = Some(at);
                }
            },
            None => {},
        }
        Redraw { resized, notification, redraw_at }
    }
}

} // verus!

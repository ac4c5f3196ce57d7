//! Drag-and-drop offers made to a text input: which offers it accepts, when
//! it asks for the dropped data, and when the data is pasted.
//!
//! Drag-and-drop actions are sets of the protocol's flags: copy (`1`),
//! move (`2`) and ask (`4`).
use vstd::prelude::*;
use vstd::utf8::*;
use crate::text_input::wayland::{same_text, supported_mime_type};

verus! {

/// No action.
pub const ACTION_NONE: u32 = 0;

/// The copy action.
pub const ACTION_COPY: u32 = 1;

/// The move action.
pub const ACTION_MOVE: u32 = 2;

/// The state of the drag-and-drop offer that a text input sees.
#[derive(Debug, Clone)]
pub enum DndOfferState {
    /// No offer.
    NoOffer,
    /// An offer of the given mime types, with the cursor outside the input.
    OutsideWidget(Vec<String>, u32),
    /// An offer of the given mime types that the input accepts.
    HandlingOffer(Vec<String>, u32),
    /// The offer was dropped on the input; its data is on the way.
    Dropped,
}

/// What a [`DndOfferState`] holds.
pub enum OfferView {
    /// No offer.
    Idle,
    /// An offer of the given mime types, with the cursor outside the input.
    Outside(Seq<Seq<char>>, u32),
    /// An offer of the given mime types that the input accepts.
    Handling(Seq<Seq<char>>, u32),
    /// The offer was dropped on the input.
    Dropped,
}

/// The characters of each string.
pub open spec fn texts(v: Seq<String>) -> Seq<Seq<char>> {
    v.map_values(|s: String| s@)
}

impl View for DndOfferState {
    type V = OfferView;

    open spec fn view(&self) -> OfferView {
        match self {
            DndOfferState::NoOffer => OfferView::Idle,
            DndOfferState::OutsideWidget(m, a) => OfferView::Outside(texts(m@), *a),
            DndOfferState::HandlingOffer(m, a) => OfferView::Handling(texts(m@), *a),
            DndOfferState::Dropped => OfferView::Dropped,
        }
    }
}

/// An event of a drag-and-drop offer.
#[derive(Debug, Clone)]
pub enum DndEvent {
    /// An offer entered the window; `inside` tells whether it is over the
    /// text input.
    Enter {
        /// Whether the offer is over the text input.
        inside: bool,
        /// The mime types offered.
        mime_types: Vec<String>,
    },
    /// The offer moved; `inside` tells whether it is over the text input.
    Motion {
        /// Whether the offer is over the text input.
        inside: bool,
    },
    /// The offer was dropped.
    DropPerformed,
    /// The offer left the window.
    Leave,
    /// The data of the dropped offer arrived.
    Data {
        /// Its mime type.
        mime_type: String,
        /// Its bytes.
        data: Vec<u8>,
    },
    /// The source of the offer tells the actions it allows.
    SourceActions(u32),
}

/// A request to the drag-and-drop system.
#[derive(Debug, Clone, PartialEq, Eq)]
pub enum DndCommand {
    /// Accept the offer for a mime type (or refuse it, with `None`).
    Accept(Option<String>),
    /// Set the preferred and the accepted actions.
    SetActions {
        /// The preferred action.
        preferred: u32,
        /// The accepted actions.
        accepted: u32,
    },
    /// Ask for the data of the dropped offer in a mime type.
    RequestDndData(String),
    /// The drop is handled.
    DndFinished,
}

/// What a [`DndCommand`] asks, with its text as characters.
pub enum CommandView {
    /// Accept the offer for a mime type (or refuse it).
    Accept(Option<Seq<char>>),
    /// Set the preferred and the accepted actions.
    SetActions(u32, u32),
    /// Ask for the data in a mime type.
    RequestDndData(Seq<char>),
    /// The drop is handled.
    DndFinished,
}

impl View for DndCommand {
    type V = CommandView;

    open spec fn view(&self) -> CommandView {
        match self {
            DndCommand::Accept(Some(m)) => CommandView::Accept(Some(m@)),
            DndCommand::Accept(None) => CommandView::Accept(None),
            DndCommand::SetActions { preferred, accepted } => CommandView::SetActions(
                *preferred,
                *accepted,
            ),
            DndCommand::RequestDndData(m) => CommandView::RequestDndData(m@),
            DndCommand::DndFinished => CommandView::DndFinished,
        }
    }
}

/// What the text input does with an offer event.
#[derive(Debug, Clone)]
pub struct DndOutcome {
    /// The requests to send, in order.
    pub commands: Vec<DndCommand>,
    /// Whether the cursor moves to the position under the offer.
    pub move_cursor: bool,
    /// Dropped text to paste at the cursor.
    pub paste: Option<String>,
    /// Whether the event is captured.
    pub captured: bool,
}

/// The offered mime types that the text input can take, in order.
pub open spec fn supported_of(mimes: Seq<Seq<char>>) -> Seq<Seq<char>>
    decreases mimes.len(),
{
    if mimes.len() == 0 {
        Seq::empty()
    } else {
        let init = supported_of(mimes.drop_last());
        if supported_mime_type(mimes.last()) {
            init.push(mimes.last())
        } else {
            init
        }
    }
}

/// The requests that accept each supported mime type, and then set the
/// actions to moving (or copying) when there is one.
pub open spec fn acceptance(mimes: Seq<Seq<char>>) -> Seq<CommandView> {
    let accepted = supported_of(mimes).map_values(|m: Seq<char>| CommandView::Accept(Some(m)));
    if supported_of(mimes).len() > 0 {
        accepted.push(CommandView::SetActions(ACTION_MOVE, ACTION_MOVE | ACTION_COPY))
    } else {
        accepted
    }
}

/// The mime types that a text input takes, in the order it prefers them.
pub open spec fn preference() -> Seq<Seq<char>> {
    seq![
        "text/plain;charset=utf-8"@,
        "text/plain;charset=UTF-8"@,
        "UTF8_STRING"@,
        "STRING"@,
        "text/plain"@,
        "TEXT"@,
    ]
}

/// The first of the preferred mime types from position `i` on that is
/// offered.
pub open spec fn preferred_from(mimes: Seq<Seq<char>>, i: int) -> Option<Seq<char>>
    decreases 6 - i,
{
    if i < 0 || i >= 6 {
        None
    } else if mimes.contains(preference()[i]) {
        Some(preference()[i])
    } else {
        preferred_from(mimes, i + 1)
    }
}

/// The offer state, requests, cursor move, paste and capture after an
/// event; `enabled` tells whether the text input takes drops.
pub open spec fn offer_step(
    state: OfferView,
    event: DndEvent,
    enabled: bool,
) -> (OfferView, Seq<CommandView>, bool, Option<Seq<u8>>, bool) {
    let ignored = (state, Seq::<CommandView>::empty(), false, None::<Seq<u8>>, false);
    match event {
        DndEvent::Leave => (
            if state is Dropped {
                state
            } else {
                OfferView::Idle
            },
            Seq::empty(),
            false,
            None,
            true,
        ),
        _ => if !enabled {
            ignored
        } else {
            match event {
                DndEvent::Enter { inside, mime_types } => {
                    let m = texts(mime_types@);
                    if !inside {
                        (OfferView::Outside(m, ACTION_NONE), Seq::empty(), false, None, true)
                    } else if supported_of(m).len() > 0 {
                        (OfferView::Handling(m, ACTION_NONE), acceptance(m), true, None, true)
                    } else {
                        ignored
                    }
                },
                DndEvent::Motion { inside } => if !inside {
                    match state {
                        OfferView::Handling(m, a) => (
                            OfferView::Outside(m, a),
                            seq![
                                CommandView::SetActions(ACTION_NONE, ACTION_NONE),
                                CommandView::Accept(None),
                            ],
                            false,
                            None,
                            true,
                        ),
                        _ => (state, Seq::empty(), false, None, true),
                    }
                } else {
                    match state {
                        OfferView::Outside(m, a) => (
                            if supported_of(m).len() > 0 {
                                OfferView::Handling(m, a)
                            } else {
                                state
                            },
                            acceptance(m),
                            true,
                            None,
                            true,
                        ),
                        _ => (state, Seq::empty(), true, None, true),
                    }
                },
                DndEvent::DropPerformed => match state {
                    OfferView::Handling(m, _) => match preferred_from(m, 0) {
                        Some(t) => (
                            OfferView::Dropped,
                            seq![CommandView::RequestDndData(t)],
                            false,
                            None,
                            false,
                        ),
                        None => (OfferView::Idle, Seq::empty(), false, None, true),
                    },
                    OfferView::Outside(_, _) => (OfferView::Idle, Seq::empty(), false, None, true),
                    _ => ignored,
                },
                DndEvent::Data { mime_type, data } => if state is Dropped {
                    if !supported_mime_type(mime_type@) || data@.len() == 0 || !valid_utf8(data@) {
                        (OfferView::Idle, Seq::empty(), false, None, true)
                    } else {
                        (
                            OfferView::Idle,
                            seq![CommandView::DndFinished],
                            false,
                            Some(data@),
                            true,
                        )
                    }
                } else {
                    ignored
                },
                DndEvent::SourceActions(actions) => if state is Handling {
                    (
                        state,
                        seq![CommandView::SetActions(actions & ACTION_MOVE, actions)],
                        false,
                        None,
                        true,
                    )
                } else {
                    ignored
                },
                DndEvent::Leave => ignored,
            }
        },
    }
}

/// The requests, each by its view.
pub open spec fn command_views(commands: Seq<DndCommand>) -> Seq<CommandView> {
    commands.map_values(|c: DndCommand| c@)
}

/// The bytes of a pasted text, if any.
pub open spec fn paste_bytes(paste: Option<String>) -> Option<Seq<u8>> {
    match paste {
        Some(s) => Some(encode_utf8(s@)),
        None => None,
    }
}

/// Decodes dropped bytes as UTF-8 text with `String::from_utf8`, which the
/// standard library documents as failing on bytes that are not valid UTF-8
/// and otherwise giving the text those bytes encode. Stated here: a text,
/// when one comes back, encodes to the bytes, and valid bytes give a text.
#[verifier::external_body]
fn utf8_text(data: Vec<u8>) -> (r: Option<String>)
    ensures
        r matches Some(s) ==> encode_utf8(s@) == data@,
        valid_utf8(data@) <==> r is Some,
{
    String::from_utf8(data).ok()
}

/// Whether the text input takes a mime type.
fn is_supported(mime_type: &str) -> (r: bool)
    ensures
        r == supported_mime_type(mime_type@),
{
    same_text(mime_type, "text/plain;charset=utf-8") || same_text(
        mime_type,
        "text/plain;charset=UTF-8",
    ) || same_text(mime_type, "UTF8_STRING") || same_text(mime_type, "STRING") || same_text(
        mime_type,
        "text/plain",
    ) || same_text(mime_type, "TEXT")
}

/// The requests that accept the supported mime types of an offer.
fn accept_commands(mime_types: &Vec<String>) -> (r: Vec<DndCommand>)
    ensures
        command_views(r@) == acceptance(texts(mime_types@)),
{
    let ghost m = texts(mime_types@);
    let mut r: Vec<DndCommand> = Vec::new();
    let mut i: usize = 0;
    while i < mime_types.len()
        invariant
            i <= mime_types@.len(),
            m == texts(mime_types@),
            command_views(r@) == supported_of(m.take(i as int)).map_values(
                |t: Seq<char>| CommandView::Accept(Some(t)),
            ),
        decreases mime_types@.len() - i,
    {
        let ghost before = r@;
        assert(m.take(i + 1).drop_last() =~= m.take(i as int));
        assert(m.take(i + 1).last() == mime_types@[i as int]@);
        if is_supported(mime_types[i].as_str()) {
            r.push(DndCommand::Accept(Some(mime_types[i].clone())));
            assert(command_views(r@) =~= command_views(before).push(
                CommandView::Accept(Some(mime_types@[i as int]@)),
            ));
        }
        assert(command_views(r@) =~= supported_of(m.take(i + 1)).map_values(
            |t: Seq<char>| CommandView::Accept(Some(t)),
        ));
        i += 1;
    }
    assert(m.take(mime_types@.len() as int) =~= m);
    let any = r.len() > 0;
    if any {
        let ghost before = r@;
        r.push(DndCommand::SetActions { preferred: ACTION_MOVE, accepted: ACTION_MOVE | ACTION_COPY });
        assert(command_views(r@) =~= command_views(before).push(
            CommandView::SetActions(ACTION_MOVE, ACTION_MOVE | ACTION_COPY),
        ));
    }
    r
}

/// Whether a mime type is among the offered ones.
fn offered(mime_types: &Vec<String>, wanted: &str) -> (r: bool)
    ensures
        r == texts(mime_types@).contains(wanted@),
{
    let mut i: usize = 0;
    while i < mime_types.len()
        invariant
            i <= mime_types@.len(),
            forall|j: int| 0 <= j < i ==> mime_types@[j]@ != wanted@,
        decreases mime_types@.len() - i,
    {
        if same_text(mime_types[i].as_str(), wanted) {
            assert(texts(mime_types@)[i as int] == wanted@);
            return true;
        }
        i += 1;
    }
    assert(forall|j: int| 0 <= j < texts(mime_types@).len() ==> texts(mime_types@)[j] != wanted@);
    false
}

/// The preferred mime type among the offered ones, if any.
fn preferred_type(mime_types: &Vec<String>) -> (r: Option<String>)
    ensures
        match preferred_from(texts(mime_types@), 0) {
            Some(t) => r matches Some(s) && s@ == t,
            None => r is None,
        },
{
    let candidates: [&str; 6] = [
        "text/plain;charset=utf-8",
        "text/plain;charset=UTF-8",
        "UTF8_STRING",
        "STRING",
        "text/plain",
        "TEXT",
    ];
    assert(candidates@.map_values(|c: &str| c@) =~= preference());
    let mut i: usize = 0;
    while i < 6
        invariant
            i <= 6,
            candidates@.map_values(|c: &str| c@) == preference(),
            preferred_from(texts(mime_types@), 0) == preferred_from(texts(mime_types@), i as int),
        decreases 6 - i,
    {
        let candidate = candidates[i];
        assert(candidate@ == preference()[i as int]);
        if offered(mime_types, candidate) {
            return Some(candidate.to_string());
        }
        i += 1;
    }
    None
}

impl DndOfferState {
    /// Handles an event of a drag-and-drop offer, for a text input that
    /// takes drops when `enabled`: an offer over the input that holds text
    /// is accepted (and the cursor follows it); a drop asks for the data in
    /// the preferred text type, and the data, when it is text, is pasted.
    pub fn handle(&mut self, event: DndEvent, enabled: bool) -> (r: DndOutcome)
        ensures
            ({
                let (next, commands, move_cursor, paste, captured) = offer_step(
                    old(self)@,
                    event,
                    enabled,
                );
                &&& final(self)@ == next
                &&& command_views(r.commands@) == commands
                &&& r.move_cursor == move_cursor
                &&& paste_bytes(r.paste) == paste
                &&& r.captured == captured
            }),
    {
        broadcast use vstd::string::group_string_axioms;

        let none = DndOutcome { commands: Vec::new(), move_cursor: false, paste: None, captured: false };
        let captured = DndOutcome { commands: Vec::new(), move_cursor: false, paste: None, captured: true };
        match event {
            DndEvent::Leave => {
                match self {
                    DndOfferState::Dropped => {},
                    _ => {
                        *self = DndOfferState::NoOffer;
                    },
                }
                return captured;
            },
            _ => {},
        }
        if !enabled {
            return none;
        }
        match event {
            DndEvent::Enter { inside, mime_types } => {
                if !inside {
                    *self = DndOfferState::OutsideWidget(mime_types, ACTION_NONE);
                    return captured;
                }
                let commands = accept_commands(&mime_types);
                if commands.len() > 0 {
                    proof {
                        assert(acceptance(texts(mime_types@)).len() > 0);
                    }
                    *self = DndOfferState::HandlingOffer(mime_types, ACTION_NONE);
                    DndOutcome { commands, move_cursor: true, paste: None, captured: true }
                } else {
                    proof {
                        assert(acceptance(texts(mime_types@)).len() == 0);
                    }
                    none
                }
            },
            DndEvent::Motion { inside } => {
                if !inside {
                    let mut taken = DndOfferState::NoOffer;
                    std::mem::swap(self, &mut taken);
                    match taken {
                        DndOfferState::HandlingOffer(m, a) => {
                            *self = DndOfferState::OutsideWidget(m, a);
                            let mut commands: Vec<DndCommand> = Vec::new();
                            commands.push(
                                DndCommand::SetActions { preferred: ACTION_NONE, accepted: ACTION_NONE },
                            );
                            commands.push(DndCommand::Accept(None));
                            proof {
                                assert(command_views(commands@) =~= seq![
                                    CommandView::SetActions(ACTION_NONE, ACTION_NONE),
                                    CommandView::Accept(None),
                                ]);
                            }
                            DndOutcome { commands, move_cursor: false, paste: None, captured: true }
                        },
                        other => {
                            *self = other;
                            captured
                        },
                    }
                } else {
                    let mut taken = DndOfferState::NoOffer;
                    std::mem::swap(self, &mut taken);
                    match taken {
                        DndOfferState::OutsideWidget(m, a) => {
                            let commands = accept_commands(&m);
                            if commands.len() > 0 {
                                proof {
                                    assert(acceptance(texts(m@)).len() > 0);
                                    assert(supported_of(texts(m@)).len() > 0);
                                }
                                *self = DndOfferState::HandlingOffer(m, a);
                            } else {
                                proof {
                                    assert(command_views(commands@).len() == 0);
                                    assert(acceptance(texts(m@)).len() == 0);
                                    if supported_of(texts(m@)).len() > 0 {
                                        assert(acceptance(texts(m@)).len() > 0);
                                    }
                                }
                                *self = DndOfferState::OutsideWidget(m, a);
                            }
                            DndOutcome { commands, move_cursor: true, paste: None, captured: true }
                        },
                        other => {
                            *self = other;
                            DndOutcome { commands: Vec::new(), move_cursor: true, paste: None, captured: true }
                        },
                    }
                }
            },
            DndEvent::DropPerformed => {
                let mut taken = DndOfferState::NoOffer;
                    std::mem::swap(self, &mut taken);
                match taken {
                    DndOfferState::HandlingOffer(m, a) => {
                        match preferred_type(&m) {
                            Some(t) => {
                                *self = DndOfferState::Dropped;
                                let mut commands: Vec<DndCommand> = Vec::new();
                                let ghost tv = t@;
                                commands.push(DndCommand::RequestDndData(t));
                                proof {
                                    assert(command_views(commands@) =~= seq![
                                        CommandView::RequestDndData(tv),
                                    ]);
                                }
                                DndOutcome { commands, move_cursor: false, paste: None, captured: false }
                            },
                            None => captured,
                        }
                    },
                    DndOfferState::OutsideWidget(_, _) => captured,
                    other => {
                        *self = other;
                        none
                    },
                }
            },
            DndEvent::Data { mime_type, data } => {
                match self {
                    DndOfferState::Dropped => {},
                    _ => {
                        return none;
                    },
                }
                *self = DndOfferState::NoOffer;
                if !is_supported(mime_type.as_str()) || data.len() == 0 {
                    return captured;
                }
                let ghost bytes = data@;
                match utf8_text(data) {
                    Some(text) => {
                        let mut commands: Vec<DndCommand> = Vec::new();
                        commands.push(DndCommand::DndFinished);
                        proof {
                            assert(command_views(commands@) =~= seq![CommandView::DndFinished]);
                        }
                        DndOutcome { commands, move_cursor: false, paste: Some(text), captured: true }
                    },
                    None => captured,
                }
            },
            DndEvent::SourceActions(actions) => {
                match self {
                    DndOfferState::HandlingOffer(_, _) => {
                        let mut commands: Vec<DndCommand> = Vec::new();
                        commands.push(
                            DndCommand::SetActions { preferred: actions & ACTION_MOVE, accepted: actions },
                        );
                        proof {
                            assert(command_views(commands@) =~= seq![
                                CommandView::SetActions(actions & ACTION_MOVE, actions),
                            ]);
                        }
                        DndOutcome { commands, move_cursor: false, paste: None, captured: true }
                    },
                    _ => none,
                }
            },
            DndEvent::Leave => captured,
        }
    }
}

} // verus!

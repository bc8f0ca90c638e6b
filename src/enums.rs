//! The engine's enumerations as host types, with their native codes.
use vstd::prelude::*;

verus! {

/// The state of a player.
#[derive(Clone, Copy, Debug, PartialEq, Eq, Structural)]
pub enum State {
    NothingSpecial,
    Opening,
    Buffering,
    Playing,
    Paused,
    Stopped,
    Ended,
    Error,
}

/// The engine's code for each state.
pub open spec fn state_code(s: State) -> u32 {
    match s {
        State::NothingSpecial => 0,
        State::Opening => 1,
        State::Buffering => 2,
        State::Playing => 3,
        State::Paused => 4,
        State::Stopped => 5,
        State::Ended => 6,
        State::Error => 7,
    }
}

/// Ended, Error and Stopped end a playback; no other state does.
pub open spec fn spec_is_terminal(s: State) -> bool {
    s == State::Ended || s == State::Error || s == State::Stopped
}

impl State {
    /// The state the engine names by `code`; `None` for a code it never uses.
    pub fn from_native(code: u32) -> (r: Option<State>)
        ensures
            r is None <==> code > 7,
            r matches Some(s) ==> state_code(s) == code,
    {
        match code {
            0 => Some(State::NothingSpecial),
            1 => Some(State::Opening),
            2 => Some(State::Buffering),
            3 => Some(State::Playing),
            4 => Some(State::Paused),
            5 => Some(State::Stopped),
            6 => Some(State::Ended),
            7 => Some(State::Error),
            _ => None,
        }
    }

    pub fn to_native(&self) -> (r: u32)
        ensures
            r == state_code(*self),
    {
        match self {
            State::NothingSpecial => 0,
            State::Opening => 1,
            State::Buffering => 2,
            State::Playing => 3,
            State::Paused => 4,
            State::Stopped => 5,
            State::Ended => 6,
            State::Error => 7,
        }
    }

    /// Whether the state ends a playback.
    pub fn is_terminal(&self) -> (r: bool)
        ensures
            r == spec_is_terminal(*self),
    {
        match self {
            State::Stopped | State::Ended | State::Error => true,
            _ => false,
        }
    }
}

/// Each state's code names it back.
pub proof fn lemma_state_code_round_trip(s: State, t: State)
    ensures
        state_code(s) <= 7,
        state_code(s) == state_code(t) ==> s == t,
{
}

/// The order in which a list player walks its list.
#[derive(Clone, Copy, Debug, PartialEq, Eq, Structural)]
pub enum PlaybackMode {
    Default,
    Loop,
    Repeat,
}

pub open spec fn playback_mode_code(m: PlaybackMode) -> u32 {
    match m {
        PlaybackMode::Default => 0,
        PlaybackMode::Loop => 1,
        PlaybackMode::Repeat => 2,
    }
}

impl PlaybackMode {
    pub fn to_native(&self) -> (r: u32)
        ensures
            r == playback_mode_code(*self),
    {
        match self {
            PlaybackMode::Default => 0,
            PlaybackMode::Loop => 1,
            PlaybackMode::Repeat => 2,
        }
    }
}

/// An event as the engine reports it, decoded.
#[derive(Clone, Copy, Debug, PartialEq, Eq, Structural)]
pub enum Event {
    MediaStateChanged(State),
    MediaPlayerOpening,
    MediaPlayerPlaying,
    MediaPlayerPaused,
    MediaPlayerStopped,
    MediaPlayerEndReached,
    MediaPlayerEncounteredError,
    MediaPlayerTimeChanged(i64),
    MediaPlayerLengthChanged(i64),
    MediaListPlayerPlayed,
    MediaListPlayerNextItemSet,
    MediaListPlayerStopped,
}

pub const MEDIA_STATE_CHANGED: u32 = 5;
pub const MEDIA_PLAYER_OPENING: u32 = 0x102;
pub const MEDIA_PLAYER_PLAYING: u32 = 0x104;
pub const MEDIA_PLAYER_PAUSED: u32 = 0x105;
pub const MEDIA_PLAYER_STOPPED: u32 = 0x106;
pub const MEDIA_PLAYER_END_REACHED: u32 = 0x109;
pub const MEDIA_PLAYER_ENCOUNTERED_ERROR: u32 = 0x10A;
pub const MEDIA_PLAYER_TIME_CHANGED: u32 = 0x10B;
pub const MEDIA_PLAYER_LENGTH_CHANGED: u32 = 0x111;
pub const MEDIA_LIST_PLAYER_PLAYED: u32 = 0x400;
pub const MEDIA_LIST_PLAYER_NEXT_ITEM_SET: u32 = 0x401;
pub const MEDIA_LIST_PLAYER_STOPPED: u32 = 0x402;

/// The engine's event type code of each event.
pub open spec fn event_code(e: Event) -> u32 {
    match e {
        Event::MediaStateChanged(_) => MEDIA_STATE_CHANGED,
        Event::MediaPlayerOpening => MEDIA_PLAYER_OPENING,
        Event::MediaPlayerPlaying => MEDIA_PLAYER_PLAYING,
        Event::MediaPlayerPaused => MEDIA_PLAYER_PAUSED,
        Event::MediaPlayerStopped => MEDIA_PLAYER_STOPPED,
        Event::MediaPlayerEndReached => MEDIA_PLAYER_END_REACHED,
        Event::MediaPlayerEncounteredError => MEDIA_PLAYER_ENCOUNTERED_ERROR,
        Event::MediaPlayerTimeChanged(_) => MEDIA_PLAYER_TIME_CHANGED,
        Event::MediaPlayerLengthChanged(_) => MEDIA_PLAYER_LENGTH_CHANGED,
        Event::MediaListPlayerPlayed => MEDIA_LIST_PLAYER_PLAYED,
        Event::MediaListPlayerNextItemSet => MEDIA_LIST_PLAYER_NEXT_ITEM_SET,
        Event::MediaListPlayerStopped => MEDIA_LIST_PLAYER_STOPPED,
    }
}

/// The integer that the event carries in the engine's payload, where it
/// carries one.
pub open spec fn event_payload(e: Event) -> Option<i64> {
    match e {
        Event::MediaStateChanged(s) => Some(state_code(s) as i64),
        Event::MediaPlayerTimeChanged(t) => Some(t),
        Event::MediaPlayerLengthChanged(t) => Some(t),
        _ => None,
    }
}

/// What `decode_event` makes of an event type and its integer payload:
/// the event with that code whose payload is `payload`, if there is one.
pub open spec fn decodes_to(kind: u32, payload: i64, e: Event) -> bool {
    event_code(e) == kind && (event_payload(e) matches Some(p) ==> p == payload)
}

/// An event type and payload decode to at most one event: the code tells
/// the variant, and the payload its value.
pub proof fn lemma_decode_unique(kind: u32, payload: i64, a: Event, b: Event)
    requires
        decodes_to(kind, payload, a),
        decodes_to(kind, payload, b),
    ensures
        a == b,
{
    match (a, b) {
        (Event::MediaStateChanged(x), Event::MediaStateChanged(y)) => {
            lemma_state_code_round_trip(x, y);
        },
        _ => {},
    }
}

/// Decodes an event from its type code and its integer payload (the new
/// state, time or length; ignored by events that carry none). `None` for an
/// event type not handled here or a state code the engine never uses.
pub fn decode_event(kind: u32, payload: i64) -> (r: Option<Event>)
    ensures
        r matches Some(e) ==> decodes_to(kind, payload, e),
        r matches Some(e) ==> forall|x: Event| #[trigger] decodes_to(kind, payload, x) ==> x == e,
        r is None <==> !(exists|e: Event| decodes_to(kind, payload, e)),
{
    let r = decode_cases(kind, payload);
    proof {
        if let Some(e) = r {
            assert(decodes_to(kind, payload, e));
            assert forall|x: Event| #[trigger] decodes_to(kind, payload, x) implies x == e by {
                lemma_decode_unique(kind, payload, x, e);
            }
        }
    }
    r
}

fn decode_cases(kind: u32, payload: i64) -> (r: Option<Event>)
    ensures
        r matches Some(e) ==> decodes_to(kind, payload, e),
        r is None ==> forall|e: Event| !decodes_to(kind, payload, e),
{
    if kind == MEDIA_STATE_CHANGED {
        if payload < 0 || payload > 7 {
            proof {
                assert forall|e: Event| !decodes_to(kind, payload, e) by {
                    if let Event::MediaStateChanged(s) = e {
                        lemma_state_code_round_trip(s, s);
                    }
                }
            }
            None
        } else {
            match State::from_native(payload as u32) {
                Some(s) => Some(Event::MediaStateChanged(s)),
                None => None,
            }
        }
    } else if kind == MEDIA_PLAYER_OPENING {
        Some(Event::MediaPlayerOpening)
    } else if kind == MEDIA_PLAYER_PLAYING {
        Some(Event::MediaPlayerPlaying)
    } else if kind == MEDIA_PLAYER_PAUSED {
        Some(Event::MediaPlayerPaused)
    } else if kind == MEDIA_PLAYER_STOPPED {
        Some(Event::MediaPlayerStopped)
    } else if kind == MEDIA_PLAYER_END_REACHED {
        Some(Event::MediaPlayerEndReached)
    } else if kind == MEDIA_PLAYER_ENCOUNTERED_ERROR {
        Some(Event::MediaPlayerEncounteredError)
    } else if kind == MEDIA_PLAYER_TIME_CHANGED {
        Some(Event::MediaPlayerTimeChanged(payload))
    } else if kind == MEDIA_PLAYER_LENGTH_CHANGED {
        Some(Event::MediaPlayerLengthChanged(payload))
    } else if kind == MEDIA_LIST_PLAYER_PLAYED {
        Some(Event::MediaListPlayerPlayed)
    } else if kind == MEDIA_LIST_PLAYER_NEXT_ITEM_SET {
        Some(Event::MediaListPlayerNextItemSet)
    } else if kind == MEDIA_LIST_PLAYER_STOPPED {
        Some(Event::MediaListPlayerStopped)
    } else {
        proof {
            assert forall|e: Event| !decodes_to(kind, payload, e) by {
                assert(event_code(e) != kind);
            }
        }
        None
    }
}

impl Event {
    /// The state a player reaches with this event, where it names one.
    pub fn state(&self) -> (r: Option<State>)
        ensures
            r == (match *self {
                Event::MediaStateChanged(s) => Some(s),
                Event::MediaPlayerOpening => Some(State::Opening),
                Event::MediaPlayerPlaying => Some(State::Playing),
                Event::MediaPlayerPaused => Some(State::Paused),
                Event::MediaPlayerStopped => Some(State::Stopped),
                Event::MediaPlayerEndReached => Some(State::Ended),
                Event::MediaPlayerEncounteredError => Some(State::Error),
                _ => None,
            }),
    {
        match self {
            Event::MediaStateChanged(s) => Some(*s),
            Event::MediaPlayerOpening => Some(State::Opening),
            Event::MediaPlayerPlaying => Some(State::Playing),
            Event::MediaPlayerPaused => Some(State::Paused),
            Event::MediaPlayerStopped => Some(State::Stopped),
            Event::MediaPlayerEndReached => Some(State::Ended),
            Event::MediaPlayerEncounteredError => Some(State::Error),
            _ => None,
        }
    }
}

} // verus!

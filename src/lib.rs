//! A checked binding layer over the libvlc C interface: handle lifetimes,
//! string marshaling, status and sentinel conversion, and the event
//! subscription registry, each stated as a contract and proved.
use vstd::prelude::*;

mod enums;
mod error;
mod event;
mod handles;
mod media_library;
mod media_list_player;
mod native;
mod tools;
mod vlm;

pub use crate::enums::{
    decode_event, decodes_to, event_code, event_payload, lemma_decode_unique, lemma_state_code_round_trip,
    playback_mode_code,
    spec_is_terminal, state_code, Event, PlaybackMode, State, MEDIA_LIST_PLAYER_NEXT_ITEM_SET,
    MEDIA_LIST_PLAYER_PLAYED, MEDIA_LIST_PLAYER_STOPPED, MEDIA_PLAYER_ENCOUNTERED_ERROR,
    MEDIA_PLAYER_END_REACHED, MEDIA_PLAYER_LENGTH_CHANGED, MEDIA_PLAYER_OPENING, MEDIA_PLAYER_PAUSED,
    MEDIA_PLAYER_PLAYING, MEDIA_PLAYER_STOPPED, MEDIA_PLAYER_TIME_CHANGED, MEDIA_STATE_CHANGED,
};
pub use crate::error::{EmbeddedNul, InternalError};
pub use crate::event::{
    attach_model, begin_model, begins, callbacks_kept, detach_model, end_model, is_active, lemma_attach_then_detach,
    lemma_detach_during_dispatch, lemma_freed_stays_freed, lemma_steps_keep_wf, registry_wf, EventRegistry,
    RegistryModel, SlotModel, Token,
};
pub use crate::handles::{EventManager, Instance, Media, MediaList, MediaPlayer};
pub use crate::media_library::MediaLibrary;
pub use crate::media_list_player::MediaListPlayer;
pub use crate::native::{
    bool_to_native, native_bool, position_result, sentinel_result, status_result, NativeHandle,
    OwnedHandle, UNAVAILABLE, UNAVAILABLE_POSITION_BITS,
};
pub use crate::vlm::{
    all_nul_free, encodes_all, flag, marshal_strings, option_count_fits, options_text, show_result, texts,
    BroadcastRequest,
    MediaQuery, Vlm, VodRequest,
};
pub use crate::tools::{
    c_text, from_cstr, from_cstr_ref, lemma_c_text_of_terminated, lemma_nul_byte_iff_nul_char, lemma_round_trip,
    lossy_utf8, nul_free,
    to_cstr, NativeString,
};

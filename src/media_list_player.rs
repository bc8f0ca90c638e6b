//! A player of a whole media list, in the order its playback mode sets.
use vstd::prelude::*;

use crate::enums::{playback_mode_code, state_code, PlaybackMode, State};
use crate::error::InternalError;
use crate::handles::{EventManager, MediaList, MediaPlayer};
use crate::native::{bool_to_native, native_bool, status_result, NativeHandle, OwnedHandle};

verus! {

pub struct MediaListPlayer {
    handle: OwnedHandle,
}

impl View for MediaListPlayer {
    type V = NativeHandle;

    closed spec fn view(&self) -> NativeHandle {
        self.handle@
    }
}

impl MediaListPlayer {
    /// Wraps what the engine's "new media list player" call returned; a
    /// null handle is a failure to create.
    pub fn new(created: NativeHandle) -> (r: Result<MediaListPlayer, InternalError>)
        ensures
            r is Err <==> created.spec_is_null(),
            r matches Ok(p) ==> p@ == created,
    {
        match OwnedHandle::from_created(created) {
            Ok(handle) => Ok(MediaListPlayer { handle }),
            Err(e) => Err(e),
        }
    }

    /// The event manager that the engine returned for this player.
    pub fn event_manager<'a>(&'a self, em: NativeHandle) -> (r: EventManager<'a>)
        requires
            !em.spec_is_null(),
        ensures
            r.spec_raw() == em,
            r.spec_owner() == self@,
    {
        EventManager::new(&self.handle, em)
    }

    /// The arguments of the engine's "set media player" call: this player
    /// and the media player it is to drive.
    pub fn set_media_player(&self, mdp: &MediaPlayer) -> (r: (NativeHandle, NativeHandle))
        ensures
            r == (self@, mdp@),
    {
        (self.raw(), mdp.raw())
    }

    /// The media player in use, from the handle the engine returned; the
    /// engine hands out a new reference, which the result owns.
    pub fn get_media_player(&self, p: NativeHandle) -> (r: Option<MediaPlayer>)
        ensures
            r is None <==> p.spec_is_null(),
            r matches Some(m) ==> m@ == p,
    {
        match MediaPlayer::new(p) {
            Ok(m) => Some(m),
            Err(_) => None,
        }
    }

    /// The arguments of the engine's "set media list" call: this player and
    /// the list it is to play.
    pub fn set_media_list(&self, ml: &MediaList) -> (r: (NativeHandle, NativeHandle))
        ensures
            r == (self@, ml@),
    {
        (self.raw(), ml.raw())
    }

    /// Playing a list reports no failure of its own.
    pub fn play(&self) -> (r: Result<(), InternalError>)
        ensures
            r is Ok,
    {
        Ok(())
    }

    /// The flag of the engine's "set pause" call: one pauses, zero resumes.
    pub fn set_pause(&self, do_pause: bool) -> (r: i32)
        ensures
            r == (if do_pause { 1i32 } else { 0i32 }),
    {
        bool_to_native(do_pause)
    }

    /// Whether the list is playing, from what the engine's query returned.
    pub fn is_playing(&self, value: i32) -> (r: bool)
        ensures
            r <==> value != 0,
    {
        native_bool(value)
    }

    /// The player's state, from the code the engine's query returned.
    pub fn state(&self, code: u32) -> (r: State)
        requires
            code <= 7,
        ensures
            state_code(r) == code,
    {
        match State::from_native(code) {
            Some(s) => s,
            None => State::Error,
        }
    }

    /// The outcome of playing the item at an index, from the engine's status.
    pub fn play_item_at_index(&self, status: i32) -> (r: Result<(), InternalError>)
        ensures
            r is Ok <==> status == 0,
    {
        status_result(status)
    }

    /// The outcome of playing one media of the list, from the engine's status.
    pub fn play_item(&self, status: i32) -> (r: Result<(), InternalError>)
        ensures
            r is Ok <==> status == 0,
    {
        status_result(status)
    }

    /// The outcome of moving to the next item, from the engine's status.
    pub fn next(&self, status: i32) -> (r: Result<(), InternalError>)
        ensures
            r is Ok <==> status == 0,
    {
        status_result(status)
    }

    /// The outcome of moving to the previous item, from the engine's status.
    pub fn previous(&self, status: i32) -> (r: Result<(), InternalError>)
        ensures
            r is Ok <==> status == 0,
    {
        status_result(status)
    }

    /// The code of the engine's "set playback mode" call.
    pub fn set_playback_mode(&self, mode: PlaybackMode) -> (r: u32)
        ensures
            r == playback_mode_code(mode),
    {
        mode.to_native()
    }

    pub fn raw(&self) -> (r: NativeHandle)
        ensures
            r == self@,
            !r.spec_is_null(),
    {
        self.handle.raw()
    }

    /// Gives the handle up for its one release.
    pub fn release(self) -> (r: NativeHandle)
        ensures
            r == self@,
            !r.spec_is_null(),
    {
        self.handle.release()
    }
}

} // verus!

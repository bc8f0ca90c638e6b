//! The owning wrappers of the engine's objects, and the event manager view
//! that borrows from its owner.
use vstd::prelude::*;

use crate::error::{EmbeddedNul, InternalError};
use crate::native::{NativeHandle, OwnedHandle};
use crate::tools::NativeString;
use crate::vlm::{all_nul_free, encodes_all, marshal_strings, texts};

verus! {

/// An engine object's event manager. It borrows the object that produced
/// it, so it cannot be used once that object has been released.
pub struct EventManager<'a> {
    owner: &'a OwnedHandle,
    handle: NativeHandle,
}

impl<'a> EventManager<'a> {
    pub closed spec fn spec_raw(&self) -> NativeHandle {
        self.handle
    }

    pub closed spec fn spec_owner(&self) -> NativeHandle {
        self.owner@
    }

    /// The manager that the engine returned for `owner`; the engine never
    /// returns a null one for a live object.
    pub fn new(owner: &'a OwnedHandle, handle: NativeHandle) -> (r: EventManager<'a>)
        requires
            !handle.spec_is_null(),
        ensures
            r.spec_raw() == handle,
            r.spec_owner() == owner@,
    {
        EventManager { owner, handle }
    }

    pub fn raw(&self) -> (r: NativeHandle)
        ensures
            r == self.spec_raw(),
    {
        self.handle
    }

    /// The object the events come from.
    pub fn owner(&self) -> (r: NativeHandle)
        ensures
            r == self.spec_owner(),
    {
        self.owner.raw()
    }
}

/// One initialised engine session, the root that every other object refers to.
pub struct Instance {
    pub(crate) handle: OwnedHandle,
}

/// One playable resource: a file, a URL or a stream.
pub struct Media {
    pub(crate) handle: OwnedHandle,
}

/// A player of one media at a time.
pub struct MediaPlayer {
    pub(crate) handle: OwnedHandle,
}

/// An ordered list of media.
pub struct MediaList {
    pub(crate) handle: OwnedHandle,
}

impl View for Instance {
    type V = NativeHandle;

    closed spec fn view(&self) -> NativeHandle {
        self.handle@
    }
}

impl View for Media {
    type V = NativeHandle;

    closed spec fn view(&self) -> NativeHandle {
        self.handle@
    }
}

impl View for MediaPlayer {
    type V = NativeHandle;

    closed spec fn view(&self) -> NativeHandle {
        self.handle@
    }
}

impl View for MediaList {
    type V = NativeHandle;

    closed spec fn view(&self) -> NativeHandle {
        self.handle@
    }
}

impl Instance {
    /// The engine's start-up options in its form, passed when an instance
    /// is created; fails exactly where one of them holds a nul.
    pub fn marshal_args(args: &Vec<String>) -> (r: Result<Vec<NativeString>, EmbeddedNul>)
        requires
            args@.len() <= i32::MAX,
        ensures
            r is Ok <==> all_nul_free(texts(args@)),
            r matches Ok(m) ==> encodes_all(m@, texts(args@)) && m@.len() <= i32::MAX,
    {
        marshal_strings(args)
    }

    /// Wraps what the engine's "new instance" call returned.
    pub fn new(created: NativeHandle) -> (r: Result<Instance, InternalError>)
        ensures
            r is Err <==> created.spec_is_null(),
            r matches Ok(i) ==> i@ == created,
    {
        match OwnedHandle::from_created(created) {
            Ok(handle) => Ok(Instance { handle }),
            Err(e) => Err(e),
        }
    }

    pub fn raw(&self) -> (r: NativeHandle)
        ensures
            r == self@,
            !r.spec_is_null(),
    {
        self.handle.raw()
    }

    /// Gives the handle up for its one release.
    pub fn release(self) -> (r: NativeHandle)
        ensures
            r == self@,
            !r.spec_is_null(),
    {
        self.handle.release()
    }
}

impl Media {
    /// Wraps what one of the engine's "new media" calls returned.
    pub fn new(created: NativeHandle) -> (r: Result<Media, InternalError>)
        ensures
            r is Err <==> created.spec_is_null(),
            r matches Ok(m) ==> m@ == created,
    {
        match OwnedHandle::from_created(created) {
            Ok(handle) => Ok(Media { handle }),
            Err(e) => Err(e),
        }
    }

    pub fn raw(&self) -> (r: NativeHandle)
        ensures
            r == self@,
            !r.spec_is_null(),
    {
        self.handle.raw()
    }

    /// The event manager that the engine returned for this media.
    pub fn event_manager<'a>(&'a self, em: NativeHandle) -> (r: EventManager<'a>)
        requires
            !em.spec_is_null(),
        ensures
            r.spec_raw() == em,
            r.spec_owner() == self@,
    {
        EventManager::new(&self.handle, em)
    }

    /// Gives the handle up for its one release.
    pub fn release(self) -> (r: NativeHandle)
        ensures
            r == self@,
            !r.spec_is_null(),
    {
        self.handle.release()
    }
}

impl MediaPlayer {
    /// Wraps what the engine's "new player" call returned.
    pub fn new(created: NativeHandle) -> (r: Result<MediaPlayer, InternalError>)
        ensures
            r is Err <==> created.spec_is_null(),
            r matches Ok(p) ==> p@ == created,
    {
        match OwnedHandle::from_created(created) {
            Ok(handle) => Ok(MediaPlayer { handle }),
            Err(e) => Err(e),
        }
    }

    pub fn raw(&self) -> (r: NativeHandle)
        ensures
            r == self@,
            !r.spec_is_null(),
    {
        self.handle.raw()
    }

    /// The event manager that the engine returned for this player.
    pub fn event_manager<'a>(&'a self, em: NativeHandle) -> (r: EventManager<'a>)
        requires
            !em.spec_is_null(),
        ensures
            r.spec_raw() == em,
            r.spec_owner() == self@,
    {
        EventManager::new(&self.handle, em)
    }

    /// Gives the handle up for its one release; the media set on the player
    /// is let go by the engine with it.
    pub fn release(self) -> (r: NativeHandle)
        ensures
            r == self@,
            !r.spec_is_null(),
    {
        self.handle.release()
    }
}

impl MediaList {
    /// Wraps what the engine's "new list" call returned.
    pub fn new(created: NativeHandle) -> (r: Result<MediaList, InternalError>)
        ensures
            r is Err <==> created.spec_is_null(),
            r matches Ok(l) ==> l@ == created,
    {
        match OwnedHandle::from_created(created) {
            Ok(handle) => Ok(MediaList { handle }),
            Err(e) => Err(e),
        }
    }

    pub fn raw(&self) -> (r: NativeHandle)
        ensures
            r == self@,
            !r.spec_is_null(),
    {
        self.handle.raw()
    }

    /// Gives the handle up for its one release.
    pub fn release(self) -> (r: NativeHandle)
        ensures
            r == self@,
            !r.spec_is_null(),
    {
        self.handle.release()
    }
}

} // verus!

//! The engine's media library: once loaded, it shows its items as a list.
use vstd::prelude::*;

use crate::error::InternalError;
use crate::handles::MediaList;
use crate::native::{status_result, NativeHandle, OwnedHandle};

verus! {

pub struct MediaLibrary {
    handle: OwnedHandle,
}

impl View for MediaLibrary {
    type V = NativeHandle;

    closed spec fn view(&self) -> NativeHandle {
        self.handle@
    }
}

impl MediaLibrary {
    /// Wraps what the engine's "new media library" call returned; a null
    /// handle is a failure to create.
    pub fn new(created: NativeHandle) -> (r: Result<MediaLibrary, InternalError>)
        ensures
            r is Err <==> created.spec_is_null(),
            r matches Ok(l) ==> l@ == created,
    {
        match OwnedHandle::from_created(created) {
            Ok(handle) => Ok(MediaLibrary { handle }),
            Err(e) => Err(e),
        }
    }

    /// The outcome of loading, from the status the engine's load returned.
    pub fn load(&self, status: i32) -> (r: Result<(), InternalError>)
        ensures
            r is Ok <==> status == 0,
    {
        status_result(status)
    }

    /// The list of the library's items, from the handle the engine
    /// returned for it; a null handle means the library has none.
    pub fn media_list(&self, list: NativeHandle) -> (r: Option<MediaList>)
        ensures
            r is None <==> list.spec_is_null(),
            r matches Some(l) ==> l@ == list,
    {
        match MediaList::new(list) {
            Ok(l) => Some(l),
            Err(_) => None,
        }
    }

    pub fn raw(&self) -> (r: NativeHandle)
        ensures
            r == self@,
            !r.spec_is_null(),
    {
        self.handle.raw()
    }

    /// Gives the handle up for its one release.
    pub fn release(self) -> (r: NativeHandle)
        ensures
            r == self@,
            !r.spec_is_null(),
    {
        self.handle.release()
    }
}

} // verus!

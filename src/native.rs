//! The engine's side of the boundary as plain values: handle addresses,
//! status codes and sentinels, each turned into a host result at once.
use vstd::prelude::*;

use crate::error::InternalError;

verus! {

/// The address of an engine object, zero standing for a null pointer.
#[derive(Clone, Copy, Debug, PartialEq, Eq, Structural)]
pub struct NativeHandle {
    pub addr: usize,
}

impl NativeHandle {
    pub open spec fn spec_is_null(&self) -> bool {
        self.addr == 0
    }

    #[verifier::when_used_as_spec(spec_is_null)]
    pub fn is_null(&self) -> (r: bool)
        ensures
            r == self.spec_is_null(),
    {
        self.addr == 0
    }

    pub fn null() -> (r: NativeHandle)
        ensures
            r.spec_is_null(),
    {
        NativeHandle { addr: 0 }
    }
}

/// An engine object owned by one host value. It is never null, and it is
/// given back for release only by consuming the owner, so at most once.
pub struct OwnedHandle {
    handle: NativeHandle,
}

impl View for OwnedHandle {
    type V = NativeHandle;

    closed spec fn view(&self) -> NativeHandle {
        self.handle
    }
}

impl OwnedHandle {
    #[verifier::type_invariant]
    spec fn inv(&self) -> bool {
        !self.handle.spec_is_null()
    }

    /// Takes ownership of what a "create" call returned; a null handle is
    /// the engine's failure to create.
    pub fn from_created(created: NativeHandle) -> (r: Result<OwnedHandle, InternalError>)
        ensures
            r is Err <==> created.spec_is_null(),
            r matches Ok(h) ==> h@ == created,
    {
        if created.is_null() {
            Err(InternalError)
        } else {
            Ok(OwnedHandle { handle: created })
        }
    }

    /// Takes ownership of what a lookup returned; null means there is none.
    pub fn from_returned(returned: NativeHandle) -> (r: Option<OwnedHandle>)
        ensures
            r is None <==> returned.spec_is_null(),
            r matches Some(h) ==> h@ == returned,
    {
        if returned.is_null() {
            None
        } else {
            Some(OwnedHandle { handle: returned })
        }
    }

    /// The handle, for a call on the object; ownership stays here.
    pub fn raw(&self) -> (r: NativeHandle)
        ensures
            r == self@,
            !r.spec_is_null(),
    {
        proof {
            use_type_invariant(self);
        }
        self.handle
    }

    /// Gives the handle up for its one release; the owner is gone after.
    pub fn release(self) -> (r: NativeHandle)
        ensures
            r == self@,
            !r.spec_is_null(),
    {
        proof {
            use_type_invariant(&self);
        }
        self.handle
    }
}

/// A status code: zero is success, anything else failure, whatever its sign.
pub fn status_result(code: i32) -> (r: Result<(), InternalError>)
    ensures
        r is Ok <==> code == 0,
{
    if code == 0 {
        Ok(())
    } else {
        Err(InternalError)
    }
}

/// The "unavailable" sentinel of integer queries.
pub const UNAVAILABLE: i32 = -1;

/// An integer query result: the sentinel is failure, any other value is
/// returned unchanged.
pub fn sentinel_result(value: i32) -> (r: Result<i32, InternalError>)
    ensures
        r is Err <==> value == UNAVAILABLE,
        r matches Ok(v) ==> v == value,
{
    if value == UNAVAILABLE {
        Err(InternalError)
    } else {
        Ok(value)
    }
}

/// The bits of the single-precision `-1.0`, the sentinel of position
/// queries; no other bit pattern compares equal to it.
pub const UNAVAILABLE_POSITION_BITS: u32 = 0xBF80_0000;

/// A position query result, as the bits of a single-precision float: exactly
/// the sentinel `-1.0` is failure; any other value, `0.0` included, comes
/// back unchanged.
pub fn position_result(bits: u32) -> (r: Result<u32, InternalError>)
    ensures
        r is Err <==> bits == UNAVAILABLE_POSITION_BITS,
        r matches Ok(v) ==> v == bits,
{
    if bits == UNAVAILABLE_POSITION_BITS {
        Err(InternalError)
    } else {
        Ok(bits)
    }
}

/// A truth value from the engine: any non-zero integer is true.
pub fn native_bool(value: i32) -> (r: bool)
    ensures
        r <==> value != 0,
{
    value != 0
}

/// A truth value for the engine: one or zero.
pub fn bool_to_native(b: bool) -> (r: i32)
    ensures
        r == (if b { 1i32 } else { 0i32 }),
{
    if b {
        1
    } else {
        0
    }
}

} // verus!

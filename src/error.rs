use vstd::prelude::*;

verus! {

/// The engine reported a failure: a null handle on creation, a non-zero
/// status code, or the "unavailable" sentinel of a query.
#[derive(Clone, Copy, Debug, PartialEq, Eq, Structural)]
pub struct InternalError;

/// A host string held a nul byte and so has no nul-terminated form.
#[derive(Clone, Copy, Debug, PartialEq, Eq, Structural)]
pub struct EmbeddedNul {
    /// Byte offset of the first nul in the string's encoding.
    pub position: usize,
}

} // verus!

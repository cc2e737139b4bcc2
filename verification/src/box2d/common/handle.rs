//! Identities of foreign objects.
//!
//! The engine names each of its objects by a pointer-sized token.  The host
//! never looks inside a token: it compares it, stores it and hands it back.
//! One value is special on both sides of the boundary: the null identity,
//! by which the engine says "no object" (the end of a list, an empty
//! registration slot).

use vstd::prelude::*;

verus! {

/// The identity by which the engine says "no object".
pub const NULL: usize = 0;

/// What a raw identity names: nothing when it is null, else itself.
pub open spec fn present(ptr: usize) -> Option<usize> {
    if ptr == NULL {
        None
    } else {
        Some(ptr)
    }
}

/// The raw identity the engine is given for an optional one: null for none.
pub open spec fn raw(identity: Option<usize>) -> usize {
    match identity {
        Some(ptr) => ptr,
        None => NULL,
    }
}

/// Turns an identity that came back from the engine into an explicit
/// option, so that "no object" can never be mistaken for an object.
pub fn non_null(ptr: usize) -> (r: Option<usize>)
    ensures
        r == present(ptr),
{
    if ptr == NULL {
        None
    } else {
        Some(ptr)
    }
}

/// Turns an optional identity into what the engine expects in its place.
pub fn or_null(identity: Option<usize>) -> (r: usize)
    ensures
        r == raw(identity),
{
    match identity {
        Some(ptr) => ptr,
        None => NULL,
    }
}

/// Every raw identity survives the trip through the option and back.
pub proof fn lemma_raw_of_present(ptr: usize)
    ensures
        raw(present(ptr)) == ptr,
{
}

/// Every optional identity but `Some(NULL)`, which names no object yet
/// claims to, survives the trip through the raw identity and back.
pub proof fn lemma_present_of_raw(identity: Option<usize>)
    requires
        identity != Some(NULL),
    ensures
        present(raw(identity)) == identity,
{
}

} // verus!

use vstd::prelude::*;
use crate::box2d::common::handle::{non_null, present, NULL};

verus! {

/// A rigid body, owned by the world that created it.
///
/// The handle is a borrowed view: only the world can destroy the body, and
/// a handle kept past that point names nothing.
#[derive(Copy, Clone, Debug, PartialEq, Eq, Structural)]
pub struct Body {
    pub ptr: usize,
}

impl Body {
    /// The handle for what the engine returned where it may return "no
    /// body", as for the head of an empty body list.
    pub open spec fn spec_from_ptr(ptr: usize) -> Option<Body> {
        match present(ptr) {
            Some(p) => Some(Body { ptr: p }),
            None => None,
        }
    }

    /// The identity the engine is given where a body is optional.
    pub open spec fn spec_ptr_or_null(body: Option<Body>) -> usize {
        match body {
            Some(b) => b.ptr,
            None => NULL,
        }
    }

    /// Wraps an identity that the engine returned for "the first body" or
    /// "the next body": the null identity is the end of the list.
    pub fn from_ptr(ptr: usize) -> (body: Option<Body>)
        ensures
            body == Self::spec_from_ptr(ptr),
            body is None <==> ptr == NULL,
    {
        match non_null(ptr) {
            Some(p) => Some(Body { ptr: p }),
            None => None,
        }
    }

    /// The identity to hand to the engine where a definition may name a
    /// body or leave it out: the body's own, or null.
    pub fn ptr_or_null(body: &Option<Body>) -> (ptr: usize)
        ensures
            ptr == Self::spec_ptr_or_null(*body),
    {
        match body {
            Some(b) => b.ptr,
            None => NULL,
        }
    }

    /// An absent body and a present one with a real identity both come back
    /// unchanged from the engine's side of the boundary.
    pub proof fn lemma_from_ptr_of_ptr_or_null(body: Option<Body>)
        requires
            body matches Some(b) ==> b.ptr != NULL,
        ensures
            Self::spec_from_ptr(Self::spec_ptr_or_null(body)) == body,
    {
    }

    /// Whatever identity the engine returns is the one it is given back.
    pub proof fn lemma_ptr_or_null_of_from_ptr(ptr: usize)
        ensures
            Self::spec_ptr_or_null(Self::spec_from_ptr(ptr)) == ptr,
    {
    }
}

} // verus!

use vstd::prelude::*;
use crate::box2d::common::handle::{non_null, present, NULL};

verus! {

/// A particle system, owned by the world that created it.
///
/// The handle is a borrowed view and never deallocates the system.
#[derive(Copy, Clone, Debug, PartialEq, Eq, Structural)]
pub struct ParticleSystem {
    pub ptr: usize,
}

impl ParticleSystem {
    /// The handle for what the engine returned where it may return "no
    /// particle system".
    pub open spec fn spec_from_ptr(ptr: usize) -> Option<ParticleSystem> {
        match present(ptr) {
            Some(p) => Some(ParticleSystem { ptr: p }),
            None => None,
        }
    }

    /// Wraps an identity that the engine returned for "the first particle
    /// system" or "the next one": the null identity is the end of the list.
    pub fn from_ptr(ptr: usize) -> (system: Option<ParticleSystem>)
        ensures
            system == Self::spec_from_ptr(ptr),
            system is None <==> ptr == NULL,
    {
        match non_null(ptr) {
            Some(p) => Some(ParticleSystem { ptr: p }),
            None => None,
        }
    }
}

} // verus!

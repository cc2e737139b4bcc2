use vstd::prelude::*;
use crate::box2d::common::handle::{non_null, present, NULL};

verus! {

/// This holds contact filtering data.
#[derive(Debug)]
pub struct Filter {
    /// The collision category bits. Normally you would just set one bit.
    pub category_bits: u16,
    /// The collision mask bits. This states the categories that this
    /// shape would accept for collision.
    pub mask_bits: u16,
    /// Collision groups allow a certain group of objects to never collide (negative)
    /// or always collide (positive). Zero means no collision group. Non-zero group
    /// filtering always wins against the mask bits.
    pub group_index: i16,
}

impl Default for Filter {
    /// The filter of a fixture that collides with everything: first
    /// category, every category accepted, no group.
    fn default() -> (filter: Filter)
        ensures
            filter.category_bits == 0x0001,
            filter.mask_bits == 0xFFFF,
            filter.group_index == 0,
    {
        Filter { category_bits: 0x0001, mask_bits: 0xFFFF, group_index: 0 }
    }
}

/// A fixture is used to attach a shape to a body for collision detection. A fixture
/// inherits its transform from its parent. Fixtures hold additional non-geometric data
/// such as friction, collision filters, etc.
///
/// The handle is a borrowed view: it never deallocates the fixture, and any
/// number of handles may name the same one.
#[derive(Copy, Clone, Debug, PartialEq, Eq, Structural, PartialOrd, Ord)]
pub struct Fixture {
    pub masked_ptr: usize,
}

impl Fixture {
    /// The handle for what the engine returned where it may return "no
    /// fixture", as at the end of a body's fixture list.
    pub open spec fn spec_from_ptr(ptr: usize) -> Option<Fixture> {
        match present(ptr) {
            Some(p) => Some(Fixture { masked_ptr: p }),
            None => None,
        }
    }

    /// Wraps an identity that the engine returned for "the next fixture":
    /// the null identity is the end of the list, anything else is a fixture.
    pub fn from_ptr(ptr: usize) -> (next: Option<Fixture>)
        ensures
            next == Self::spec_from_ptr(ptr),
            next is None <==> ptr == NULL,
    {
        match non_null(ptr) {
            Some(p) => Some(Fixture { masked_ptr: p }),
            None => None,
        }
    }

    /// The identity to hand to the engine for this fixture.
    pub fn get_ptr(&self) -> (ptr: usize)
        ensures
            ptr == self.masked_ptr,
    {
        self.masked_ptr
    }
}

} // verus!

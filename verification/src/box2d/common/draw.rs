//! What a debug renderer is asked to draw, and how much of it.
//!
//! The categories to draw are combined into one word of flags, one bit
//! each.  A word may also carry bits that belong to no category: they are
//! kept as they are and mean nothing to the engine.
//!
//! Polygons and particles reach the renderer as arrays that the engine
//! passes by a pointer and a count; `array_len` says how many elements of
//! such an array there are to see.

use vstd::prelude::*;
use crate::box2d::common::handle::NULL;

verus! {

/// Flags for specifying what to draw, using set_flags()
#[derive(Debug, Copy, Clone, PartialEq, Eq, Hash, Structural)]
pub enum DrawFlags {
    /// draw shapes
    ShapeBit,
    /// draw joint connections
    JointBit,
    /// draw axis aligned bounding boxes
    AabbBit,
    /// draw broad-phase pairs
    PairBit,
    /// draw center of mass frame
    CenterOfMassBit,
    /// draw particles
    ParticleBit,
}

impl DrawFlags {
    /// The bit of a category within a word of flags.
    pub open spec fn spec_bits(self) -> u32 {
        match self {
            DrawFlags::ShapeBit => 0x0001,
            DrawFlags::JointBit => 0x0002,
            DrawFlags::AabbBit => 0x0004,
            DrawFlags::PairBit => 0x0008,
            DrawFlags::CenterOfMassBit => 0x0010,
            DrawFlags::ParticleBit => 0x0020,
        }
    }

    /// The bit of a category within a word of flags.
    #[verifier::when_used_as_spec(spec_bits)]
    pub fn bits(self) -> (bits: u32)
        ensures
            bits == self.spec_bits(),
    {
        match self {
            DrawFlags::ShapeBit => 0x0001,
            DrawFlags::JointBit => 0x0002,
            DrawFlags::AabbBit => 0x0004,
            DrawFlags::PairBit => 0x0008,
            DrawFlags::CenterOfMassBit => 0x0010,
            DrawFlags::ParticleBit => 0x0020,
        }
    }
}

/// The number of elements in an array that the engine passes as a pointer
/// and a count.
pub open spec fn spec_array_len(ptr: usize, count: i32) -> usize {
    if ptr != NULL && count > 0 {
        count as usize
    } else {
        0
    }
}

/// The number of elements to read from an array that the engine passes as a
/// pointer and a count: the count itself, and nothing at all where the
/// array is null or the count is not positive.  The host thus never reads
/// from the null identity, nor more elements than the engine has announced.
pub fn array_len(ptr: usize, count: i32) -> (len: usize)
    ensures
        len == spec_array_len(ptr, count),
{
    if ptr != NULL && count > 0 {
        count as usize
    } else {
        0
    }
}

/// Whether a word of flags asks for a category.
pub open spec fn draws(flags: u32, category: DrawFlags) -> bool {
    flags & category.spec_bits() != 0
}

/// The flags after `more` has been appended to `flags`.
pub open spec fn appended(flags: u32, more: u32) -> u32 {
    flags | more
}

/// The flags after `fewer` has been cleared from `flags`.
pub open spec fn cleared(flags: u32, fewer: u32) -> u32 {
    flags & !fewer
}

/// Each category has a bit of its own.
pub proof fn lemma_categories_are_disjoint(a: DrawFlags, b: DrawFlags)
    ensures
        a != b ==> a.spec_bits() & b.spec_bits() == 0,
        a.spec_bits() != 0,
{
    let x = a.spec_bits();
    let y = b.spec_bits();
    assert((x == 0x0001 || x == 0x0002 || x == 0x0004 || x == 0x0008 || x == 0x0010 || x == 0x0020)
        && (y == 0x0001 || y == 0x0002 || y == 0x0004 || y == 0x0008 || y == 0x0010 || y == 0x0020)
        && x != y ==> x & y == 0) by (bit_vector);
}

/// A word made of one category draws that category and no other.
pub proof fn lemma_category_draws_itself(a: DrawFlags, b: DrawFlags)
    ensures
        draws(a.spec_bits(), b) <==> a == b,
{
    let x = a.spec_bits();
    lemma_categories_are_disjoint(a, b);
    assert(x & x == x) by (bit_vector);
}

/// The empty word draws nothing.
pub proof fn lemma_nothing_drawn_by_zero(category: DrawFlags)
    ensures
        !draws(0, category),
{
    let c = category.spec_bits();
    assert(0u32 & c == 0) by (bit_vector);
}

/// After appending, a category is drawn if it was drawn before or is among
/// what was appended.
pub proof fn lemma_appended_draws(flags: u32, more: u32, category: DrawFlags)
    ensures
        draws(appended(flags, more), category) <==> draws(flags, category) || draws(more, category),
{
    let c = category.spec_bits();
    assert(((flags | more) & c != 0) <==> (flags & c != 0 || more & c != 0)) by (bit_vector);
}

/// After clearing, a category is drawn if it was drawn before and is not
/// among what was cleared.
pub proof fn lemma_cleared_draws(flags: u32, fewer: u32, category: DrawFlags)
    ensures
        draws(cleared(flags, fewer), category) <==> draws(flags, category) && !draws(fewer, category),
{
    let c = category.spec_bits();
    assert((c == 0x0001 || c == 0x0002 || c == 0x0004 || c == 0x0008 || c == 0x0010 || c == 0x0020)
        ==> (((flags & !fewer) & c != 0) <==> (flags & c != 0 && !(fewer & c != 0)))) by (bit_vector);
}

/// Appending is idempotent and does not depend on the order.
pub proof fn lemma_appended_algebra(flags: u32, a: u32, b: u32)
    ensures
        appended(appended(flags, a), a) == appended(flags, a),
        appended(appended(flags, a), b) == appended(appended(flags, b), a),
        appended(flags, 0) == flags,
{
    assert((flags | a) | a == flags | a) by (bit_vector);
    assert((flags | a) | b == (flags | b) | a) by (bit_vector);
    assert(flags | 0 == flags) by (bit_vector);
}

/// Clearing is idempotent, and undoes an append of bits that were not set
/// before.
pub proof fn lemma_cleared_algebra(flags: u32, a: u32)
    ensures
        cleared(cleared(flags, a), a) == cleared(flags, a),
        cleared(appended(flags, a), a) == cleared(flags, a),
        flags & a == 0 ==> cleared(appended(flags, a), a) == flags,
        cleared(flags, 0) == flags,
{
    assert((flags & !a) & !a == flags & !a) by (bit_vector);
    assert((flags | a) & !a == flags & !a) by (bit_vector);
    assert(flags & a == 0 ==> (flags | a) & !a == flags) by (bit_vector);
    assert(flags & !0u32 == flags) by (bit_vector);
}

/// Starting from nothing, appending two sets of bits that share none and
/// then clearing the first leaves exactly the second.
pub proof fn lemma_append_append_clear(a: u32, b: u32)
    requires
        a & b == 0,
    ensures
        appended(appended(0, a), b) == a | b,
        cleared(appended(appended(0, a), b), a) == b,
{
    assert((0u32 | a) | b == a | b) by (bit_vector);
    assert(a & b == 0 ==> ((0u32 | a) | b) & !a == b) by (bit_vector);
}

} // verus!

use vstd::prelude::*;

verus! {

/// Small color object for each particle
/// Four elements: r (red), g (green), b (blue), and a (opacity).
/// Each element can be specified 0 to 255.
#[derive(Debug, Copy, Clone, PartialEq, Eq, Structural, Hash)]
pub struct ParticleColor {
    pub r: u8,
    pub g: u8,
    pub b: u8,
    pub a: u8,
}

impl ParticleColor {
    /// A color from its four elements.
    pub fn new(r: u8, g: u8, b: u8, a: u8) -> (color: ParticleColor)
        ensures
            color == (ParticleColor { r, g, b, a }),
    {
        ParticleColor { r, g, b, a }
    }
}

impl Default for ParticleColor {
    /// The color whose four elements are 0: the one for which the engine
    /// allocates no color buffer.
    fn default() -> (color: ParticleColor)
        ensures
            color == (ParticleColor { r: 0, g: 0, b: 0, a: 0 }),
    {
        ParticleColor { r: 0, g: 0, b: 0, a: 0 }
    }
}

/// Small color object for each particle, allocated by the engine.
///
/// The handle owns the native color: whoever holds it deallocates the color
/// when the handle goes away.  It is therefore not `Clone`: a second handle
/// to the same color would deallocate it a second time.
pub struct ParticleColorHandle {
    pub ptr: usize,
}

impl ParticleColorHandle {
    /// Get ParticleColorHandle's raw identity.
    pub fn ptr(&self) -> (ptr: usize)
        ensures
            ptr == self.ptr,
    {
        self.ptr
    }
}

} // verus!

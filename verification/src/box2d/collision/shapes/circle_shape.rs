use vstd::prelude::*;

verus! {

/// A circle
///
/// The handle either owns the native shape, and is then the one that
/// deallocates it, or is a borrowed view of a shape that the engine owns.
pub struct CircleShape {
    ptr: usize,
    owned: bool,
}

impl CircleShape {
    /// The identity of the native shape.
    pub closed spec fn identity(&self) -> usize {
        self.ptr
    }

    /// Whether the native shape is this handle's to deallocate.
    pub closed spec fn owning(&self) -> bool {
        self.owned
    }

    /// Takes ownership of a circle shape that the engine has just
    /// allocated for the caller.
    pub fn new(ptr: usize) -> (shape: CircleShape)
        ensures
            shape.identity() == ptr,
            shape.owning(),
    {
        CircleShape { ptr, owned: true }
    }

    /// Cast a CircleShape from a shape that the engine owns.
    pub fn from_shape(ptr: usize) -> (shape: CircleShape)
        ensures
            shape.identity() == ptr,
            !shape.owning(),
    {
        CircleShape { ptr, owned: false }
    }

    /// The identity to hand to the engine for this shape.
    pub fn ptr(&self) -> (ptr: usize)
        ensures
            ptr == self.identity(),
    {
        self.ptr
    }

    /// Whether the native shape is this handle's to deallocate.
    pub fn is_owned(&self) -> (owned: bool)
        ensures
            owned == self.owning(),
    {
        self.owned
    }

    /// Gives up the native shape at the end of the handle's life: returns
    /// the identity to deallocate if the handle owns it, and nothing if it
    /// is a borrowed view.  Afterwards the handle owns nothing, so that a
    /// shape is handed out for deallocation once and never again.
    pub fn release(&mut self) -> (doomed: Option<usize>)
        ensures
            doomed == (if old(self).owning() { Some(old(self).identity()) } else { None }),
            final(self).identity() == old(self).identity(),
            !final(self).owning(),
    {
        if self.owned {
            self.owned = false;
            Some(self.ptr)
        } else {
            None
        }
    }
}

} // verus!

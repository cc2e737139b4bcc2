use vstd::prelude::*;

verus! {

/// A contact between two fixtures, as the engine hands it to a listener.
///
/// The handle is a borrowed view that is valid for the duration of the
/// callback that received it.
#[derive(Debug, PartialEq, Eq, Structural)]
pub struct Contact {
    pub ptr: usize,
}

impl Clone for Contact {
    /// Another view of the same contact.
    fn clone(&self) -> (contact: Contact)
        ensures
            contact == *self,
    {
        Contact { ptr: self.ptr }
    }
}

} // verus!

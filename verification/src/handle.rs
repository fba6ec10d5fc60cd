//! Handles: how the engine names values that the host runtime owns.

use vstd::prelude::*;

verus! {

/// A borrowed reference to a value in the host runtime.
///
/// The engine only carries it around and hands it back to the host; it is
/// valid for the duration of the encode call it was given to.
#[derive(Clone, Copy, Debug, PartialEq, Eq, Structural)]
pub struct ValueHandle {
    pub id: usize,
}

impl ValueHandle {
    pub fn new(id: usize) -> (handle: Self)
        ensures
            handle.id == id,
    {
        ValueHandle { id }
    }
}

/// A reference that owns one unit of the host's hold on a value.
///
/// The fallback callable returns one for each substitute it creates. It cannot
/// be copied: whoever holds it owes the host exactly one release.
#[derive(Debug, PartialEq, Eq, Structural)]
pub struct OwnedHandle {
    pub id: usize,
}

impl OwnedHandle {
    pub fn new(id: usize) -> (handle: Self)
        ensures
            handle.id == id,
    {
        OwnedHandle { id }
    }

    /// The value behind the handle, as a borrowed reference.
    pub open spec fn lent(&self) -> ValueHandle {
        ValueHandle { id: self.id }
    }

    #[verifier::when_used_as_spec(lent)]
    pub fn borrow(&self) -> (handle: ValueHandle)
        ensures
            handle == self.lent(),
    {
        ValueHandle { id: self.id }
    }
}

} // verus!

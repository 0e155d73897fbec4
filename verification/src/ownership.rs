//! Handles to native objects: which one owns its object, and when the
//! object is to be destroyed.

use vstd::prelude::*;

verus! {

/// A handle that does not own: it says which native object is meant, by
/// the object's address, and nothing else. Two such handles are equal
/// where they mean the same object.
#[derive(Debug, Clone, Copy, PartialEq, Eq, Structural)]
pub struct Ref {
    pub address: usize,
}

impl Ref {
    /// Tells whether both handles mean the same object.
    pub fn same_object(&self, other: &Ref) -> (r: bool)
        ensures
            r == (self.address == other.address),
    {
        self.address == other.address
    }
}

/// A handle that owns one native object, until the object is handed on or
/// destroyed. After that the handle is empty.
#[derive(Debug)]
pub struct CppBox {
    object: Option<Ref>,
}

impl CppBox {
    /// The object that the handle owns, if it owns one.
    pub closed spec fn owned(&self) -> Option<Ref> {
        self.object
    }

    /// Takes ownership of the object at `address`.
    pub fn new(address: usize) -> (r: CppBox)
        ensures
            r.owned() == Some(Ref { address }),
    {
        CppBox { object: Some(Ref { address }) }
    }

    /// Tells whether the handle owns an object.
    pub fn is_live(&self) -> (r: bool)
        ensures
            r == self.owned() is Some,
    {
        self.object.is_some()
    }

    /// Returns a handle to the owned object that does not own it. The
    /// handle must own an object.
    pub fn as_ref(&self) -> (r: Ref)
        requires
            self.owned() is Some,
        ensures
            Some(r) == self.owned(),
    {
        match self.object {
            Some(r) => r,
            None => Ref { address: 0 },
        }
    }

    /// Hands the owned object on to a new handle and leaves this one
    /// empty.
    pub fn transfer(&mut self) -> (r: CppBox)
        ensures
            r.owned() == old(self).owned(),
            final(self).owned() is None,
    {
        let object = self.object;
        self.object = None;
        CppBox { object }
    }

    /// Ends the ownership and says which object is to be destroyed now:
    /// the owned one, the first time; none after that, and none for a
    /// handle whose object was handed on.
    pub fn release(&mut self) -> (r: Option<Ref>)
        ensures
            r == old(self).owned(),
            final(self).owned() is None,
    {
        let object = self.object;
        self.object = None;
        object
    }
}

} // verus!

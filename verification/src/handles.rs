//! Handles of the host runtime, carried as plain addresses.
//!
//! The library never looks behind a handle: it stores, compares and hands them
//! back. Two handles are the same method, or the same class, exactly when
//! their addresses are equal.

use vstd::prelude::*;

verus! {

/// Identity of a resolved method; the key of the hook table.
#[derive(Clone, Copy, Debug, PartialEq, Eq, Structural)]
pub struct SafeJMethodId(pub usize);

impl SafeJMethodId {
    pub fn new(id: usize) -> (r: Self)
        ensures
            r.0 == id,
    {
        SafeJMethodId(id)
    }

    pub fn get(&self) -> (r: usize)
        ensures
            r == self.0,
    {
        self.0
    }
}

/// Global reference to the class that owns a hooked method.
#[derive(Clone, Copy, Debug, PartialEq, Eq, Structural)]
pub struct SafeJClass(pub usize);

impl SafeJClass {
    pub fn new(class: usize) -> (r: Self)
        ensures
            r.0 == class,
    {
        SafeJClass(class)
    }

    pub fn get(&self) -> (r: usize)
        ensures
            r == self.0,
    {
        self.0
    }
}

} // verus!

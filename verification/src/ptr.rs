//! A pointer value that can only be read through a mutable reference.

use vstd::prelude::*;
use core::cmp::Ordering;

verus! {

/// Wrapper around a pointer, held by its address, that ensures the address can
/// only be read through a mutable reference.
///
/// Some handles of the C API can be shared between threads as long as only
/// one thread uses them at a time. Requiring `&mut self` to read the address
/// enforces that statically. The wrapper does not require the address to be
/// non-null.
pub struct MutPtr<T> {
    addr: usize,
    marker: core::marker::PhantomData<T>,
}

impl<T> MutPtr<T> {
    /// The address held by this pointer.
    pub closed spec fn address(&self) -> usize {
        self.addr
    }

    /// Creates a new `MutPtr` wrapping the pointer at address `addr`.
    pub fn new(addr: usize) -> (res: Self)
        ensures
            res.address() == addr,
    {
        MutPtr { addr, marker: core::marker::PhantomData }
    }

    /// Returns the wrapped pointer's address.
    pub fn get(&mut self) -> (res: usize)
        ensures
            res == old(self).address(),
            *final(self) == *old(self),
    {
        self.addr
    }

    /// Returns `true` if the pointer is null.
    pub fn is_null(&self) -> (res: bool)
        ensures
            res == (self.address() == 0),
    {
        self.addr == 0
    }
}

impl<T> PartialEq for MutPtr<T> {
    fn eq(&self, other: &Self) -> (res: bool) {
        self.addr == other.addr
    }
}

impl<T> vstd::std_specs::cmp::PartialEqSpecImpl for MutPtr<T> {
    open spec fn obeys_eq_spec() -> bool {
        true
    }

    open spec fn eq_spec(&self, other: &Self) -> bool {
        self.address() == other.address()
    }
}

impl<T> Eq for MutPtr<T> {
}

/// The three-way comparison of two addresses.
pub open spec fn compare_addresses(a: usize, b: usize) -> Ordering {
    if a < b {
        Ordering::Less
    } else if a == b {
        Ordering::Equal
    } else {
        Ordering::Greater
    }
}

impl<T> PartialOrd for MutPtr<T> {
    /// Pointers are ordered by their addresses.
    fn partial_cmp(&self, other: &Self) -> (res: Option<Ordering>) {
        if self.addr < other.addr {
            Some(Ordering::Less)
        } else if self.addr == other.addr {
            Some(Ordering::Equal)
        } else {
            Some(Ordering::Greater)
        }
    }
}

impl<T> vstd::std_specs::cmp::PartialOrdSpecImpl for MutPtr<T> {
    open spec fn obeys_partial_cmp_spec() -> bool {
        true
    }

    open spec fn partial_cmp_spec(&self, other: &Self) -> Option<Ordering> {
        Some(compare_addresses(self.address(), other.address()))
    }
}

} // verus!

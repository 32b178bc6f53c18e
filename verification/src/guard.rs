//! Scoped accessors over the logical value of a container: one uniform
//! interface whether the value sits directly in the container or behind a
//! shared, runtime-checked cell.

use vstd::prelude::*;

use crate::cell;

verus! {

/// A scoped read guard over a container's logical value.
///
/// `Raw` is a plain reference into a slot the container owns; `Shared` is a
/// runtime-checked read guard into a shared cell, which releases its claim on
/// the cell when the guard is dropped.
#[verifier::reject_recursive_types(T)]
pub enum ValRef<'a, T> {
    Raw(&'a T),
    Shared(std::cell::Ref<'a, T>),
}

impl<'a, T> ValRef<'a, T> {
    /// Read access to the guarded value.  For a direct guard the result is
    /// exactly the referenced value; what a shared cell holds is not tracked
    /// statically, so nothing is claimed of it.
    pub fn get(&self) -> (r: &T)
        ensures
            self is Raw ==> r == self->Raw_0,
    {
        match self {
            ValRef::Raw(v) => v,
            ValRef::Shared(g) => cell::ref_deref(g),
        }
    }
}

/// A scoped write guard over a container's logical value, granting exclusive
/// access to it.
///
/// `Raw` is a plain mutable reference into a slot the container owns;
/// `Shared` is a runtime-checked write guard into a shared cell, which
/// releases its claim on the cell when the guard is dropped.
#[verifier::reject_recursive_types(T)]
pub enum ValRefMut<'a, T> {
    Raw(&'a mut T),
    Shared(std::cell::RefMut<'a, T>),
}

impl<'a, T> ValRefMut<'a, T> {
    /// Read access to the guarded value.  For a direct guard the result is
    /// exactly the current value of the guarded slot.
    pub fn get(&self) -> (r: &T)
        ensures
            self is Raw ==> *r == *self->Raw_0,
    {
        match self {
            ValRefMut::Raw(v) => v,
            ValRefMut::Shared(g) => cell::refmut_deref(g),
        }
    }

    /// Write access to the guarded value: writes through the result land in
    /// the place the guard was taken from.
    pub fn get_mut(&mut self) -> (r: &mut T)
        ensures
            (*old(self)) is Raw ==> {
                &&& *r == *(*old(self))->Raw_0
                &&& (*final(self)) is Raw
                &&& *(*final(self))->Raw_0 == *final(r)
                &&& *final((*final(self))->Raw_0) == *final((*old(self))->Raw_0)
            },
    {
        match self {
            ValRefMut::Raw(v) => &mut **v,
            ValRefMut::Shared(g) => cell::refmut_deref_mut(g),
        }
    }
}

} // verus!

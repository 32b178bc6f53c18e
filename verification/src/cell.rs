//! The shared-mutable cell: one reference-counted, runtime-checked cell of a
//! value, with as many handles as its sharers need.
//!
//! The cell itself is std's `RefCell` behind an `Rc`.  Both are opaque to the
//! verifier, so nothing is ever claimed about what a live cell holds: any
//! aliasing handle may have written to it since it was last read.  Every
//! handle carries a ghost identity naming the cell it points into, so that
//! contracts can say which handles alias one another, and a ghost record of
//! the value the cell was seeded with at creation.

use vstd::prelude::*;

use std::cell::RefCell;
use std::rc::Rc;

verus! {

/// std's `RefCell`, declared opaque: its contents can change through any
/// other handle to the same cell.
#[verifier::external_type_specification]
#[verifier::external_body]
#[verifier::reject_recursive_types(T)]
pub struct ExRefCell<T: ?Sized>(RefCell<T>);

/// std's `Ref`: a scoped read guard into a `RefCell`, releasing its claim on
/// the cell when dropped.
#[verifier::external_type_specification]
#[verifier::external_body]
#[verifier::reject_recursive_types(T)]
pub struct ExRef<'b, T: ?Sized>(std::cell::Ref<'b, T>);

/// std's `RefMut`: a scoped write guard into a `RefCell`, releasing its claim
/// on the cell when dropped.
#[verifier::external_type_specification]
#[verifier::external_body]
#[verifier::reject_recursive_types(T)]
pub struct ExRefMut<'b, T: ?Sized + 'b>(std::cell::RefMut<'b, T>);

/// Relies on `RefCell::new`: returns a fresh cell that holds `v`.
#[verifier::external_body]
fn refcell_new<T>(v: T) -> RefCell<T> {
    RefCell::new(v)
}

/// Relies on `RefCell::borrow`: grants shared read access to the cell.
/// Aborts if a write guard on the same cell is outstanding: the fatal
/// single-writer-or-multiple-readers fault, by design not a recoverable
/// condition.
#[verifier::external_body]
fn refcell_read<'a, T>(c: &'a RefCell<T>) -> std::cell::Ref<'a, T> {
    c.borrow()
}

/// Relies on `RefCell::borrow_mut`: grants exclusive write access to the
/// cell.  Aborts if any guard on the same cell is outstanding: the fatal
/// single-writer-or-multiple-readers fault, by design not a recoverable
/// condition.
#[verifier::external_body]
fn refcell_write<'a, T>(c: &'a RefCell<T>) -> std::cell::RefMut<'a, T> {
    c.borrow_mut()
}

/// Relies on `Ref`'s `Deref` impl: reads through a read guard.
#[verifier::external_body]
pub(crate) fn ref_deref<'a, 'b, T>(g: &'b std::cell::Ref<'a, T>) -> &'b T {
    g
}

/// Relies on `RefMut`'s `Deref` impl: reads through a write guard.
#[verifier::external_body]
pub(crate) fn refmut_deref<'a, 'b, T>(g: &'b std::cell::RefMut<'a, T>) -> &'b T {
    g
}

/// Relies on `RefMut`'s `DerefMut` impl: writes through the result go into
/// the cell the guard was taken from, where every aliasing handle observes
/// them.
#[verifier::external_body]
pub(crate) fn refmut_deref_mut<'a, 'b, T>(g: &'b mut std::cell::RefMut<'a, T>) -> &'b mut T {
    &mut **g
}

/// Relies on `Rc::as_ref`: a reference to the value the handle points at.
#[verifier::external_body]
pub(crate) fn rc_get<'a, T>(rc: &'a Rc<T>) -> (r: &'a T)
    ensures
        *r == **rc,
{
    rc.as_ref()
}

/// One handle to a shared, runtime-checked mutable cell.  Handles are
/// reference-counted: the cell lives as long as any handle does, and a write
/// through any handle is observed by every other handle on its next access.
///
/// `id` names the cell this handle points into: handles minted from one
/// another by [`SharedCell::dup`] share it.  `seed` records the value the
/// cell was created with.  Neither says what the cell holds now.
#[verifier::reject_recursive_types(T)]
pub struct SharedCell<T> {
    cell: Rc<RefCell<T>>,
    id: Ghost<int>,
    seed: Ghost<T>,
}

impl<T> SharedCell<T> {
    /// The identity of the underlying cell: two handles with the same `id`
    /// alias the same cell.
    pub closed spec fn id(self) -> int {
        self.id@
    }

    /// The value the underlying cell was seeded with at creation.
    pub closed spec fn seed(self) -> T {
        self.seed@
    }

    /// A fresh cell holding `v`, with this one handle to it.
    pub fn new(v: T) -> (c: Self)
        ensures
            c.seed() == v,
    {
        let ghost s: T = v;
        SharedCell { cell: Rc::new(refcell_new(v)), id: Ghost(arbitrary()), seed: Ghost(s) }
    }

    /// Another handle to the same cell.
    pub fn dup(&self) -> (c: Self)
        ensures
            c.id() == self.id(),
            c.seed() == self.seed(),
    {
        SharedCell { cell: self.cell.clone(), id: Ghost(self.id@), seed: Ghost(self.seed@) }
    }

    /// A scoped read guard into the cell.
    pub fn read<'a>(&'a self) -> std::cell::Ref<'a, T> {
        refcell_read(rc_get(&self.cell))
    }

    /// A scoped write guard into the cell.
    pub fn write<'a>(&'a self) -> std::cell::RefMut<'a, T> {
        refcell_write(rc_get(&self.cell))
    }
}

impl<T: Clone> SharedCell<T> {
    /// A copy of whatever the cell holds right now.  Which value that is
    /// depends on the writes of every aliasing handle, so nothing is claimed
    /// of the result.
    pub fn read_out(&self) -> T {
        let g = self.read();
        let r = ref_deref(&g);
        r.clone()
    }
}

} // verus!

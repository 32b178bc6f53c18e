//! One logical value under three interchangeable ownership modes.
//!
//! A [`Data`] container holds a value either exclusively (`Value`), behind a
//! reference-counted runtime-checked mutable cell that any number of handles
//! share and mutate (`Ref`), or behind a reference-counted immutable snapshot
//! that any number of handles share until one of them asks to mutate, at
//! which point that handle forks away with its own copy (`Cow`).
//!
//! Callers construct a container in one mode, convert handles between modes
//! with [`Data::by_val`], [`Data::by_ref`] and [`Data::by_cow`], and read or
//! write the value through the scoped guards of [`Data::borrow`] and
//! [`Data::borrow_mut`], the same way in every mode.

use vstd::prelude::*;

use std::rc::Rc;

mod cell;
mod guard;

pub use cell::SharedCell;
pub use guard::ValRef;
pub use guard::ValRefMut;

verus! {

/// The tri-mode container.  It is always in exactly one of the three states,
/// and the slots inside `Value` and `Cow` are empty only transiently, inside
/// the body of a single transition call; see [`Data::wf`].
#[verifier::reject_recursive_types(T)]
pub enum Data<T> {
    /// Exclusive ownership: no other handle can observe mutations.
    Value(Option<T>),
    /// Shared mutability: every handle to the same cell observes every write;
    /// the cell enforces single-writer-or-multiple-readers at runtime.
    Ref(SharedCell<T>),
    /// Shared snapshot, copy on write: every handle reads the same value, and
    /// a handle that mutates first forks away with its own copy.
    Cow(Option<Rc<T>>),
}

impl<T> Data<T> {
    /// The slots inside `Value` and `Cow` hold a value whenever the container
    /// is observed; they are empty only inside the body of a single
    /// transition call.  Every operation preserves this, so under correct
    /// use of the constructors and transitions it always holds.
    pub open spec fn wf(self) -> bool {
        match self {
            Data::Value(slot) => slot is Some,
            Data::Ref(_) => true,
            Data::Cow(slot) => slot is Some,
        }
    }

    /// The logical value of a container that holds it directly: the owned
    /// slot's contents, or the shared snapshot's contents.  A `Ref` container
    /// has no statically-known value, since any aliasing handle may write to
    /// the shared cell at any time.
    pub open spec fn stored(self) -> T
        recommends
            self.wf(),
            !(self is Ref),
    {
        match self {
            Data::Value(slot) => slot->Some_0,
            Data::Ref(_) => arbitrary(),
            Data::Cow(slot) => *slot->Some_0,
        }
    }

    /// A fresh container in the exclusively-owned state, holding `data`.
    pub fn value(data: T) -> (d: Self)
        ensures
            d == Data::Value(Some(data)),
    {
        Data::Value(Some(data))
    }

    /// A fresh container in the shared-mutable state: a new cell seeded with
    /// `data`, with this one handle to it.
    pub fn reference(data: T) -> (d: Self)
        ensures
            d is Ref,
            d->Ref_0.seed() == data,
    {
        Data::Ref(SharedCell::new(data))
    }

    /// A fresh container in the shared-snapshot state: a new snapshot seeded
    /// with `data`, with this one handle to it.
    pub fn cow(data: T) -> (d: Self)
        ensures
            d is Cow,
            d.wf(),
            d.stored() == data,
    {
        Data::Cow(Some(Rc::new(data)))
    }

    /// Whether the container is in the exclusively-owned state.
    pub fn is_val(&self) -> (b: bool)
        ensures
            b == (self is Value),
    {
        match self {
            Data::Value(_) => true,
            _ => false,
        }
    }

    /// Whether the container is in the shared-mutable state.
    pub fn is_ref(&self) -> (b: bool)
        ensures
            b == (self is Ref),
    {
        match self {
            Data::Ref(_) => true,
            _ => false,
        }
    }

    /// Whether the container is in the shared-snapshot state.
    pub fn is_cow(&self) -> (b: bool)
        ensures
            b == (self is Cow),
    {
        match self {
            Data::Cow(_) => true,
            _ => false,
        }
    }
}

impl<T: Clone> Data<T> {
    /// Duplicate by value: a new exclusively-owned container holding an
    /// independent copy of the current logical value.  The receiver is left
    /// completely unchanged: same state, same sharing relationships, and no
    /// later mutation of the one can be observed through the other.
    pub fn by_val(&self) -> (r: Self)
        requires
            self.wf(),
        ensures
            r is Value,
            r.wf(),
            !(self is Ref) ==> cloned::<T>(self.stored(), r.stored()),
    {
        match self {
            Data::Value(slot) => {
                match slot {
                    Some(v) => Data::Value(Some(v.clone())),
                    None => unreached(),
                }
            },
            Data::Ref(c) => Data::Value(Some(c.read_out())),
            Data::Cow(slot) => {
                match slot {
                    Some(rc) => Data::Value(Some(cell::rc_get(rc).clone())),
                    None => unreached(),
                }
            },
        }
    }

    /// Convert to shared-mutable: the receiver becomes a handle to a
    /// shared-mutable cell, and a second handle to that same cell is
    /// returned, so that a write through either is observed through the
    /// other.
    ///
    /// From `Value`, the owned value moves into a fresh cell.  From `Ref`,
    /// the receiver is unchanged and the result is one more handle to its
    /// cell.  From `Cow`, the receiver detaches from the snapshot: the
    /// snapshot's value goes into a fresh cell, moved if the receiver was the
    /// snapshot's sole owner and copied otherwise, and any sibling snapshot
    /// handles keep the original snapshot, unaffected.
    pub fn by_ref(&mut self) -> (r: Self)
        requires
            (*old(self)).wf(),
        ensures
            (*final(self)) is Ref,
            r is Ref,
            r->Ref_0.id() == (*final(self))->Ref_0.id(),
            r->Ref_0.seed() == (*final(self))->Ref_0.seed(),
            (*old(self)) is Ref ==> *final(self) == *old(self),
            (*old(self)) is Value ==> (*final(self))->Ref_0.seed() == (*old(self)).stored(),
            (*old(self)) is Cow ==> cloned::<T>((*old(self)).stored(), (*final(self))->Ref_0.seed()),
    {
        match self {
            Data::Ref(c) => Data::Ref(c.dup()),
            Data::Value(slot) => {
                let t = match slot.take() {
                    Some(t) => t,
                    None => unreached(),
                };
                let c = SharedCell::new(t);
                let r = c.dup();
                *self = Data::Ref(c);
                Data::Ref(r)
            },
            Data::Cow(slot) => {
                let rc = match slot.take() {
                    Some(rc) => rc,
                    None => unreached(),
                };
                let t = match Rc::try_unwrap(rc) {
                    Ok(t) => t,
                    Err(shared) => cell::rc_get(&shared).clone(),
                };
                let c = SharedCell::new(t);
                let r = c.dup();
                *self = Data::Ref(c);
                Data::Ref(r)
            },
        }
    }

    /// Convert to copy-on-write: returns a new shared-snapshot handle.
    ///
    /// From `Value`, the owned value moves into a fresh snapshot and the
    /// receiver becomes a handle to it, aliased with the result.  From `Ref`,
    /// the receiver is left in the shared-mutable state, unchanged — it is
    /// not converted and not aliased to the result, which is a fresh,
    /// independently-owned snapshot of the cell's current value; this
    /// asymmetry with the other two source states is intentional.  From
    /// `Cow`, receiver and result alias the same snapshot.
    pub fn by_cow(&mut self) -> (r: Self)
        requires
            (*old(self)).wf(),
        ensures
            r is Cow,
            r.wf(),
            (*final(self)).wf(),
            (*old(self)) is Value ==> {
                &&& (*final(self)) is Cow
                &&& (*final(self)).stored() == (*old(self)).stored()
                &&& r.stored() == (*old(self)).stored()
            },
            (*old(self)) is Ref ==> *final(self) == *old(self),
            (*old(self)) is Cow ==> {
                &&& *final(self) == *old(self)
                &&& r.stored() == (*old(self)).stored()
            },
    {
        match self {
            Data::Value(slot) => {
                let t = match slot.take() {
                    Some(t) => t,
                    None => unreached(),
                };
                let rc = Rc::new(t);
                let r = Data::Cow(Some(rc.clone()));
                *self = Data::Cow(Some(rc));
                r
            },
            Data::Ref(c) => Data::Cow(Some(Rc::new(c.read_out()))),
            Data::Cow(slot) => {
                match slot {
                    Some(rc) => Data::Cow(Some(rc.clone())),
                    None => unreached(),
                }
            },
        }
    }

    /// A scoped read guard over the current logical value.  In the `Value`
    /// and `Cow` states it reads exactly the stored value; in the `Ref` state
    /// it is a runtime-checked read guard into the shared cell, and aborts if
    /// a write guard on the same cell is outstanding.
    pub fn borrow<'a>(&'a self) -> (g: ValRef<'a, T>)
        requires
            self.wf(),
        ensures
            !(self is Ref) ==> g is Raw && *g->Raw_0 == self.stored(),
            self is Ref ==> g is Shared,
    {
        match self {
            Data::Value(slot) => {
                match slot {
                    Some(v) => ValRef::Raw(v),
                    None => unreached(),
                }
            },
            Data::Ref(c) => ValRef::Shared(c.read()),
            Data::Cow(slot) => {
                match slot {
                    Some(rc) => ValRef::Raw(cell::rc_get(rc)),
                    None => unreached(),
                }
            },
        }
    }

    /// A scoped write guard granting exclusive access to the logical value.
    ///
    /// In the `Value` state it writes directly into the owned slot.  In the
    /// `Ref` state it is a runtime-checked write guard into the shared cell,
    /// and aborts if any other guard on the same cell is outstanding.  In the
    /// `Cow` state the copy-on-write fork happens here: the receiver leaves
    /// the snapshot, taking its value (moved if it was the sole owner, copied
    /// otherwise), becomes exclusively owned for good, and the guard writes
    /// into the receiver alone; sibling handles keep the snapshot and its
    /// pre-mutation value.
    pub fn borrow_mut<'a>(&'a mut self) -> (g: ValRefMut<'a, T>)
        requires
            (*old(self)).wf(),
        ensures
            (*final(self)).wf(),
            (*old(self)) is Value ==> {
                &&& g is Raw
                &&& *g->Raw_0 == (*old(self)).stored()
                &&& *final(self) == Data::Value(Some(*final(g->Raw_0)))
            },
            (*old(self)) is Cow ==> {
                &&& g is Raw
                &&& cloned::<T>((*old(self)).stored(), *g->Raw_0)
                &&& *final(self) == Data::Value(Some(*final(g->Raw_0)))
            },
            (*old(self)) is Ref ==> g is Shared && *final(self) == *old(self),
    {
        let forked: Option<T> = match self {
            Data::Cow(slot) => {
                let rc = match slot.take() {
                    Some(rc) => rc,
                    None => unreached(),
                };
                match Rc::try_unwrap(rc) {
                    Ok(t) => Some(t),
                    Err(shared) => Some(cell::rc_get(&shared).clone()),
                }
            },
            _ => None,
        };
        match forked {
            Some(t) => {
                *self = Data::Value(Some(t));
            },
            None => {},
        }
        match self {
            Data::Value(slot) => {
                match slot {
                    Some(v) => ValRefMut::Raw(v),
                    None => unreached(),
                }
            },
            Data::Ref(c) => ValRefMut::Shared(c.write()),
            Data::Cow(_) => unreached(),
        }
    }
}

} // verus!

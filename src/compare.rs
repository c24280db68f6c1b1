use vstd::prelude::*;

use crate::Owned;

verus! {

/// A cell named either by its bare index or through a borrowed owner.
enum Handle<'a, T> {
    Raw(usize),
    Borrow(&'a Owned<T>),
}

impl<'a, T> Handle<'a, T> {
    spec fn identity(&self) -> usize {
        match *self {
            Handle::Raw(id) => id,
            Handle::Borrow(owner) => owner.cell(),
        }
    }

    /// The cell's index, read without touching any count.
    fn using_borrow(&self) -> (r: usize)
        ensures
            r == self.identity(),
    {
        match *self {
            Handle::Raw(id) => id,
            Handle::Borrow(owner) => owner.cell_id(),
        }
    }
}

/// Compares two handles for naming the same cell, never the contents.
pub struct PtrCompare<'a, T>(Handle<'a, T>);

impl<'a, T> PtrCompare<'a, T> {
    /// The cell that this handle names.
    pub closed spec fn identity(&self) -> usize {
        self.0.identity()
    }

    /// A handle for the cell at index `id`.
    pub fn from_raw(id: usize) -> (r: PtrCompare<'a, T>)
        ensures
            r.identity() == id,
    {
        PtrCompare(Handle::Raw(id))
    }

    /// A handle for the cell that `owner` owns.
    pub fn from_rc(owner: &'a Owned<T>) -> (r: PtrCompare<'a, T>)
        ensures
            r.identity() == owner.cell(),
    {
        PtrCompare(Handle::Borrow(owner))
    }
}

impl<'a, T> PartialEq for PtrCompare<'a, T> {
    fn eq(&self, other: &PtrCompare<'a, T>) -> (r: bool) {
        self.0.using_borrow() == other.0.using_borrow()
    }
}

impl<'a, T> vstd::std_specs::cmp::PartialEqSpecImpl for PtrCompare<'a, T> {
    open spec fn obeys_eq_spec() -> bool {
        true
    }

    open spec fn eq_spec(&self, other: &PtrCompare<'a, T>) -> bool {
        self.identity() == other.identity()
    }
}

impl<'a, T> Eq for PtrCompare<'a, T> {
}

} // verus!

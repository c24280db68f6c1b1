//! Shared cells with runtime-checked borrows.
//!
//! A `Store` holds cells. `Owned` is a strong owner of one cell, `Link` a
//! weak reference to it, and `Ref` / `RefMut` are shared / exclusive borrow
//! guards. Each guard holds a strong reference of its own, so it stays valid
//! after the handle it came from is given back, and it can be narrowed to a
//! part of the value with `map` (through a `Lens`) without taking the borrow
//! again. A cell's borrow state admits any number of readers or one writer;
//! a conflicting request is refused, never blocked.

use std::marker::PhantomData;
use vstd::prelude::*;

mod compare;
mod laws;
mod lens;
mod refs;
mod store;

pub use compare::PtrCompare;
pub use laws::{
    lemma_borrow_conflicts, lemma_borrow_release_restores, lemma_clone_release, lemma_guard_outlives_owner,
    lemma_last_owner_gone, lemma_new_then_borrow, lemma_store_borrow_release,
};
pub use lens::{Fst, Lens, Snd, Then, Whole};
pub use refs::{Ref, RefMut};
pub use store::{Slot, Store};

verus! {

/// A shared borrow was refused because the cell is borrowed exclusively.
#[derive(Debug, Clone, Copy, PartialEq, Eq, Structural)]
pub struct AlreadyMutBorrowed;

/// An exclusive borrow was refused because the cell is borrowed.
#[derive(Debug, Clone, Copy, PartialEq, Eq, Structural)]
pub struct AlreadyBorrowed;

/// Why a borrow through a `Link` failed.
#[derive(Debug, Clone, Copy, PartialEq, Eq, Structural)]
pub enum BorrowError {
    /// The link is empty, or its cell has no strong reference left.
    Missing,
    /// The cell is borrowed exclusively.
    Busy(AlreadyMutBorrowed),
}

/// Why an exclusive borrow through a `Link` failed.
#[derive(Debug, Clone, Copy, PartialEq, Eq, Structural)]
pub enum BorrowMutError {
    /// The link is empty, or its cell has no strong reference left.
    Missing,
    /// The cell is borrowed.
    Busy(AlreadyBorrowed),
}

impl From<AlreadyMutBorrowed> for BorrowError {
    fn from(value: AlreadyMutBorrowed) -> (r: BorrowError)
        ensures
            r == BorrowError::Busy(value),
    {
        BorrowError::Busy(value)
    }
}

impl vstd::std_specs::convert::FromSpecImpl<AlreadyMutBorrowed> for BorrowError {
    open spec fn obeys_from_spec() -> bool {
        true
    }

    open spec fn from_spec(v: AlreadyMutBorrowed) -> BorrowError {
        BorrowError::Busy(v)
    }
}

impl From<AlreadyBorrowed> for BorrowMutError {
    fn from(value: AlreadyBorrowed) -> (r: BorrowMutError)
        ensures
            r == BorrowMutError::Busy(value),
    {
        BorrowMutError::Busy(value)
    }
}

impl vstd::std_specs::convert::FromSpecImpl<AlreadyBorrowed> for BorrowMutError {
    open spec fn obeys_from_spec() -> bool {
        true
    }

    open spec fn from_spec(v: AlreadyBorrowed) -> BorrowMutError {
        BorrowMutError::Busy(v)
    }
}

/// A strong owner of one cell of a `Store`. It keeps the cell's value alive
/// until it is given back with `release`, unless guards taken from it still
/// hold strong references of their own.
pub struct Owned<T> {
    id: usize,
    marker: PhantomData<T>,
}

/// A weak reference to a cell: it never keeps the value alive, and a borrow
/// through it fails with `Missing` once no strong reference is left.
pub struct Link<T> {
    target: Option<usize>,
    marker: PhantomData<T>,
}

impl<T> Owned<T> {
    /// The cell this handle owns.
    pub closed spec fn cell(&self) -> usize {
        self.id
    }

    /// This handle's strong reference is counted in `store`, beside those of
    /// the borrows of its cell.
    pub open spec fn held_in(&self, store: &Store<T>) -> bool {
        &&& store.wf()
        &&& store.live(self.cell())
        &&& store@[self.cell() as int].borrows() < store@[self.cell() as int].strong
    }

    pub fn cell_id(&self) -> (r: usize)
        ensures
            r == self.cell(),
    {
        self.id
    }

    /// A new cell in `store` that holds `value`, with this handle as its
    /// one strong reference.
    pub fn new(value: T, store: &mut Store<T>) -> (r: Owned<T>)
        requires
            old(store).wf(),
            old(store)@.len() < usize::MAX,
        ensures
            final(store).wf(),
            r.cell() == old(store)@.len(),
            final(store)@ == old(store)@.push(Slot::fresh(value)),
            r.held_in(final(store)),
    {
        let id = store.allocate(value);
        Owned { id, marker: PhantomData }
    }

    /// A weak link to this handle's cell; no count changes.
    pub fn share(&self) -> (r: Link<T>)
        ensures
            r.target() == Some(self.cell()),
    {
        Link { target: Some(self.id), marker: PhantomData }
    }

    /// A shared guard on this handle's cell, unless a writer holds it.
    pub fn try_borrow(ptr: &Self, store: &mut Store<T>) -> (r: Result<Ref<T>, AlreadyMutBorrowed>)
        requires
            ptr.held_in(old(store)),
            old(store)@[ptr.cell() as int].strong < usize::MAX,
        ensures
            final(store).wf(),
            r is Ok <==> old(store)@[ptr.cell() as int].can_share(),
            r is Ok ==> r->Ok_0.cell() == ptr.cell() && r->Ok_0.lens() == Whole && final(store)@
                == old(store)@.update(ptr.cell() as int, old(store)@[ptr.cell() as int].shared()),
            r is Err ==> final(store)@ == old(store)@,
    {
        Ref::new(ptr.id, store)
    }

    /// An exclusive guard on this handle's cell, unless it is borrowed.
    pub fn try_borrow_mut(ptr: &Self, store: &mut Store<T>) -> (r: Result<RefMut<T>, AlreadyBorrowed>)
        requires
            ptr.held_in(old(store)),
            old(store)@[ptr.cell() as int].strong < usize::MAX,
        ensures
            final(store).wf(),
            r is Ok <==> old(store)@[ptr.cell() as int].can_take(),
            r is Ok ==> r->Ok_0.cell() == ptr.cell() && r->Ok_0.lens() == Whole && final(store)@
                == old(store)@.update(ptr.cell() as int, old(store)@[ptr.cell() as int].taken()),
            r is Err ==> final(store)@ == old(store)@,
    {
        RefMut::new(ptr.id, store)
    }

    /// Gives this handle's strong reference back; the last one frees the value.
    pub fn release(self, store: &mut Store<T>)
        requires
            self.held_in(old(store)),
        ensures
            final(store).wf(),
            final(store)@ == old(store)@.update(
                self.cell() as int,
                old(store)@[self.cell() as int].released(),
            ),
    {
        store.release(self.id)
    }
}

impl<T> Clone for Link<T> {
    fn clone(&self) -> (r: Link<T>)
        ensures
            r.target() == self.target(),
    {
        Link { target: self.target, marker: PhantomData }
    }
}

impl<T> Link<T> {
    /// The cell this link names, if any.
    pub closed spec fn target(&self) -> Option<usize> {
        self.target
    }

    /// The link names a cell of `store` that has a strong reference left.
    pub open spec fn reaches(&self, store: &Store<T>) -> bool {
        &&& self.target() is Some
        &&& store.live(self.target()->Some_0)
    }

    /// An empty link, for building a cycle before its target exists.
    pub fn new() -> (r: Link<T>)
        ensures
            r.target() is None,
    {
        Link { target: None, marker: PhantomData }
    }

    pub fn target_id(&self) -> (r: Option<usize>)
        ensures
            r == self.target(),
    {
        self.target
    }

    /// A shared guard on the linked cell: `Missing` when no strong reference
    /// is left, `Busy` when a writer holds it.
    pub fn try_borrow(&self, store: &mut Store<T>) -> (r: Result<Ref<T>, BorrowError>)
        requires
            old(store).wf(),
            self.reaches(old(store)) ==> old(store)@[self.target()->Some_0 as int].strong
                < usize::MAX,
        ensures
            final(store).wf(),
            r == Err::<Ref<T>, BorrowError>(BorrowError::Missing) <==> !self.reaches(old(store)),
            r is Err ==> final(store)@ == old(store)@,
            r is Ok <==> self.reaches(old(store)) && old(store)@[self.target()->Some_0 as int].can_share(),
            r is Ok ==> r->Ok_0.cell() == self.target()->Some_0 && r->Ok_0.lens() == Whole
                && final(store)@ == old(store)@.update(
                self.target()->Some_0 as int,
                old(store)@[self.target()->Some_0 as int].shared(),
            ),
    {
        let id = match self.target {
            Some(id) => id,
            None => return Err(BorrowError::Missing),
        };
        if !store.is_live(id) {
            return Err(BorrowError::Missing);
        }
        match Ref::new(id, store) {
            Ok(g) => Ok(g),
            Err(e) => Err(BorrowError::from(e)),
        }
    }

    /// An exclusive guard on the linked cell: `Missing` when no strong
    /// reference is left, `Busy` when it is borrowed.
    pub fn try_borrow_mut(&self, store: &mut Store<T>) -> (r: Result<RefMut<T>, BorrowMutError>)
        requires
            old(store).wf(),
            self.reaches(old(store)) ==> old(store)@[self.target()->Some_0 as int].strong
                < usize::MAX,
        ensures
            final(store).wf(),
            r == Err::<RefMut<T>, BorrowMutError>(BorrowMutError::Missing) <==> !self.reaches(old(store)),
            r is Err ==> final(store)@ == old(store)@,
            r is Ok <==> self.reaches(old(store)) && old(store)@[self.target()->Some_0 as int].can_take(),
            r is Ok ==> r->Ok_0.cell() == self.target()->Some_0 && r->Ok_0.lens() == Whole
                && final(store)@ == old(store)@.update(
                self.target()->Some_0 as int,
                old(store)@[self.target()->Some_0 as int].taken(),
            ),
    {
        let id = match self.target {
            Some(id) => id,
            None => return Err(BorrowMutError::Missing),
        };
        if !store.is_live(id) {
            return Err(BorrowMutError::Missing);
        }
        match RefMut::new(id, store) {
            Ok(g) => Ok(g),
            Err(e) => Err(BorrowMutError::from(e)),
        }
    }
}

} // verus!

use std::marker::PhantomData;
use vstd::prelude::*;

use crate::lens::{Lens, Then, Whole};
use crate::store::{Slot, Store};
use crate::{AlreadyBorrowed, AlreadyMutBorrowed};

verus! {

/// One strong reference to a cell, held as the cell's index: it names no
/// borrow of the handle it came from, so a guard can keep it for as long as
/// it likes.
struct Token {
    id: usize,
}

impl Token {
    /// Takes a new strong reference to the live cell `id`.
    fn new<T>(id: usize, store: &mut Store<T>) -> (r: Token)
        requires
            old(store).wf(),
            old(store).live(id),
            old(store)@[id as int].strong < usize::MAX,
        ensures
            final(store).wf(),
            r.id == id,
            final(store)@ == old(store)@.update(id as int, old(store)@[id as int].retained()),
    {
        store.retain(id);
        Token { id }
    }

    /// A second token for the same cell: a fresh strong reference, not a
    /// copy of the index alone.
    fn clone_in<T>(&self, store: &mut Store<T>) -> (r: Token)
        requires
            old(store).wf(),
            old(store).live(self.id),
            old(store)@[self.id as int].strong < usize::MAX,
        ensures
            final(store).wf(),
            r.id == self.id,
            final(store)@ == old(store)@.update(
                self.id as int,
                old(store)@[self.id as int].retained(),
            ),
    {
        Token::new(self.id, store)
    }

    /// Gives the strong reference back; the last one frees the value.
    fn drop_in<T>(self, store: &mut Store<T>)
        requires
            old(store).wf(),
            old(store).live(self.id),
            old(store)@[self.id as int].borrows() < old(store)@[self.id as int].strong,
        ensures
            final(store).wf(),
            final(store)@ == old(store)@.update(
                self.id as int,
                old(store)@[self.id as int].released(),
            ),
    {
        store.release(self.id);
    }
}

/// A borrow of a cell together with the strong reference that keeps the
/// cell alive, and the lens through which the borrow sees the value.
struct Guard<S, L> {
    token: Token,
    lens: L,
    marker: PhantomData<S>,
}

impl<S> Guard<S, Whole> {
    /// Takes a strong reference, then tries a shared borrow; on refusal the
    /// strong reference is given back and the store is as before.
    fn new_shared(id: usize, store: &mut Store<S>) -> (r: Option<Guard<S, Whole>>)
        requires
            old(store).wf(),
            old(store).live(id),
            old(store)@[id as int].strong < usize::MAX,
        ensures
            final(store).wf(),
            r is Some <==> old(store)@[id as int].can_share(),
            r is Some ==> r->Some_0.token.id == id && final(store)@ == old(store)@.update(
                id as int,
                old(store)@[id as int].shared(),
            ),
            r is None ==> final(store)@ == old(store)@,
    {
        let token = Token::new(id, store);
        if store.try_share(id) {
            Some(Guard { token, lens: Whole, marker: PhantomData })
        } else {
            token.drop_in(store);
            proof {
                assert(store@ =~= old(store)@);
            }
            None
        }
    }

    /// Takes a strong reference, then tries an exclusive borrow; on refusal
    /// the strong reference is given back and the store is as before.
    fn new_exclusive(id: usize, store: &mut Store<S>) -> (r: Option<Guard<S, Whole>>)
        requires
            old(store).wf(),
            old(store).live(id),
            old(store)@[id as int].strong < usize::MAX,
        ensures
            final(store).wf(),
            r is Some <==> old(store)@[id as int].can_take(),
            r is Some ==> r->Some_0.token.id == id && final(store)@ == old(store)@.update(
                id as int,
                old(store)@[id as int].taken(),
            ),
            r is None ==> final(store)@ == old(store)@,
    {
        let token = Token::new(id, store);
        if store.try_take(id) {
            Some(Guard { token, lens: Whole, marker: PhantomData })
        } else {
            token.drop_in(store);
            proof {
                assert(store@ =~= old(store)@);
            }
            None
        }
    }
}

impl<S, L> Guard<S, L> {
    /// The same token, seen through `m` after the current lens. The borrow
    /// is not taken again.
    fn map<M>(self, m: M) -> (r: Guard<S, Then<L, M>>)
        ensures
            r.token.id == self.token.id,
            r.lens == (Then { first: self.lens, second: m }),
    {
        let Guard { token, lens, marker: _ } = self;
        Guard { token, lens: Then { first: lens, second: m }, marker: PhantomData }
    }

    /// A second shared guard: a new strong reference and one more reader.
    fn clone_shared(&self, store: &mut Store<S>) -> (r: Guard<S, L>)
        where L: Copy
        requires
            old(store).wf(),
            self.token.id < old(store)@.len(),
            old(store)@[self.token.id as int].readers > 0,
            old(store)@[self.token.id as int].strong < usize::MAX,
        ensures
            final(store).wf(),
            r.token.id == self.token.id,
            r.lens == self.lens,
            final(store)@ == old(store)@.update(
                self.token.id as int,
                old(store)@[self.token.id as int].shared(),
            ),
    {
        let token = self.token.clone_in(store);
        store.try_share(token.id);
        Guard { token, lens: self.lens, marker: PhantomData }
    }

    /// Ends a shared borrow: the reader goes first, then the strong reference.
    fn drop_shared(self, store: &mut Store<S>)
        requires
            old(store).wf(),
            self.token.id < old(store)@.len(),
            old(store)@[self.token.id as int].readers > 0,
        ensures
            final(store).wf(),
            final(store)@ == old(store)@.update(
                self.token.id as int,
                old(store)@[self.token.id as int].unshared(),
            ),
    {
        store.end_share(self.token.id);
        self.token.drop_in(store);
    }

    /// Ends an exclusive borrow: the writer goes first, then the strong reference.
    fn drop_exclusive(self, store: &mut Store<S>)
        requires
            old(store).wf(),
            self.token.id < old(store)@.len(),
            old(store)@[self.token.id as int].writer,
        ensures
            final(store).wf(),
            final(store)@ == old(store)@.update(
                self.token.id as int,
                old(store)@[self.token.id as int].untaken(),
            ),
    {
        store.end_take(self.token.id);
        self.token.drop_in(store);
    }
}

/// A shared borrow of a cell, seen through the lens `L`. It holds its own
/// strong reference, so it stays valid after the handle it came from is
/// given back, and it is given back with `release`.
pub struct Ref<S, L = Whole> {
    inner: Guard<S, L>,
}

/// An exclusive borrow of a cell, seen through the lens `L`. It holds its
/// own strong reference and is given back with `release`.
pub struct RefMut<S, L = Whole> {
    inner: Guard<S, L>,
}

impl<S, L> Ref<S, L> {
    /// The cell this guard borrows.
    pub closed spec fn cell(&self) -> usize {
        self.inner.token.id
    }

    /// The lens through which this guard sees the cell's value.
    pub closed spec fn lens(&self) -> L {
        self.inner.lens
    }

    /// The guard is one of the readers of its cell in `store`.
    pub open spec fn held_in(&self, store: &Store<S>) -> bool {
        &&& store.wf()
        &&& self.cell() < store@.len()
        &&& store@[self.cell() as int].readers > 0
    }

    pub fn cell_id(&self) -> (r: usize)
        ensures
            r == self.cell(),
    {
        self.inner.token.id
    }

    /// The part of the cell's value that this guard sees.
    pub fn get<'a>(&self, store: &'a Store<S>) -> (r: &'a L::Part)
        where L: Lens<S>
        requires
            self.held_in(store),
        ensures
            *r == self.lens().part(store@[self.cell() as int].value->Some_0),
    {
        let whole = store.value(self.inner.token.id);
        self.inner.lens.get(whole)
    }

    /// A second shared guard on the same cell and part: one more strong
    /// reference and one more reader, released independently of `this`.
    pub fn clone(this: &Self, store: &mut Store<S>) -> (r: Self)
        where L: Copy
        requires
            this.held_in(old(store)),
            old(store)@[this.cell() as int].strong < usize::MAX,
        ensures
            final(store).wf(),
            r.cell() == this.cell(),
            r.lens() == this.lens(),
            final(store)@ == old(store)@.update(
                this.cell() as int,
                old(store)@[this.cell() as int].shared(),
            ),
    {
        Ref { inner: this.inner.clone_shared(store) }
    }

    /// Narrows the guard to the part that `m` selects in what it sees now.
    /// The borrow and the strong reference move into the new guard as they
    /// are; the store is not touched.
    pub fn map<M>(this: Self, m: M) -> (r: Ref<S, Then<L, M>>)
        ensures
            r.cell() == this.cell(),
            r.lens() == (Then { first: this.lens(), second: m }),
    {
        Ref { inner: this.inner.map(m) }
    }

    /// Gives the guard back: its reader first, then its strong reference.
    pub fn release(self, store: &mut Store<S>)
        requires
            self.held_in(old(store)),
        ensures
            final(store).wf(),
            final(store)@ == old(store)@.update(
                self.cell() as int,
                old(store)@[self.cell() as int].unshared(),
            ),
    {
        self.inner.drop_shared(store)
    }
}

impl<S> Ref<S, Whole> {
    /// A shared guard on the live cell `id`, unless a writer holds it.
    pub(crate) fn new(id: usize, store: &mut Store<S>) -> (r: Result<Ref<S, Whole>, AlreadyMutBorrowed>)
        requires
            old(store).wf(),
            old(store).live(id),
            old(store)@[id as int].strong < usize::MAX,
        ensures
            final(store).wf(),
            r is Ok <==> old(store)@[id as int].can_share(),
            r is Ok ==> r->Ok_0.cell() == id && r->Ok_0.lens() == Whole && final(store)@
                == old(store)@.update(id as int, old(store)@[id as int].shared()),
            r is Err ==> final(store)@ == old(store)@,
    {
        match Guard::new_shared(id, store) {
            Some(inner) => Ok(Ref { inner }),
            None => Err(AlreadyMutBorrowed),
        }
    }
}

impl<S, L> RefMut<S, L> {
    /// The cell this guard borrows.
    pub closed spec fn cell(&self) -> usize {
        self.inner.token.id
    }

    /// The lens through which this guard sees the cell's value.
    pub closed spec fn lens(&self) -> L {
        self.inner.lens
    }

    /// The guard is the writer of its cell in `store`.
    pub open spec fn held_in(&self, store: &Store<S>) -> bool {
        &&& store.wf()
        &&& self.cell() < store@.len()
        &&& store@[self.cell() as int].writer
    }

    pub fn cell_id(&self) -> (r: usize)
        ensures
            r == self.cell(),
    {
        self.inner.token.id
    }

    /// The part of the cell's value that this guard sees.
    pub fn get<'a>(&self, store: &'a Store<S>) -> (r: &'a L::Part)
        where L: Lens<S>
        requires
            self.held_in(store),
        ensures
            *r == self.lens().part(store@[self.cell() as int].value->Some_0),
    {
        let whole = store.value(self.inner.token.id);
        self.inner.lens.get(whole)
    }

    /// The part of the cell's value that this guard sees, to be written; what
    /// is written there becomes that part of the cell's value.
    pub fn get_mut<'a>(&self, store: &'a mut Store<S>) -> (r: &'a mut L::Part)
        where L: Lens<S>
        requires
            self.held_in(old(store)),
        ensures
            *r == self.lens().part(old(store)@[self.cell() as int].value->Some_0),
            final(store)@ == old(store)@.update(
                self.cell() as int,
                Slot {
                    value: Some(
                        self.lens().put(old(store)@[self.cell() as int].value->Some_0, *final(r)),
                    ),
                    ..old(store)@[self.cell() as int]
                },
            ),
    {
        let whole = store.value_mut(self.inner.token.id);
        self.inner.lens.get_mut(whole)
    }

    /// Narrows the guard to the part that `m` selects in what it sees now.
    /// The borrow and the strong reference move into the new guard as they
    /// are; the store is not touched.
    pub fn map<M>(this: Self, m: M) -> (r: RefMut<S, Then<L, M>>)
        ensures
            r.cell() == this.cell(),
            r.lens() == (Then { first: this.lens(), second: m }),
    {
        RefMut { inner: this.inner.map(m) }
    }

    /// Gives the guard back: its writer first, then its strong reference.
    pub fn release(self, store: &mut Store<S>)
        requires
            self.held_in(old(store)),
        ensures
            final(store).wf(),
            final(store)@ == old(store)@.update(
                self.cell() as int,
                old(store)@[self.cell() as int].untaken(),
            ),
    {
        self.inner.drop_exclusive(store)
    }
}

impl<S> RefMut<S, Whole> {
    /// An exclusive guard on the live cell `id`, unless it is borrowed.
    pub(crate) fn new(id: usize, store: &mut Store<S>) -> (r: Result<RefMut<S, Whole>, AlreadyBorrowed>)
        requires
            old(store).wf(),
            old(store).live(id),
            old(store)@[id as int].strong < usize::MAX,
        ensures
            final(store).wf(),
            r is Ok <==> old(store)@[id as int].can_take(),
            r is Ok ==> r->Ok_0.cell() == id && r->Ok_0.lens() == Whole && final(store)@
                == old(store)@.update(id as int, old(store)@[id as int].taken()),
            r is Err ==> final(store)@ == old(store)@,
    {
        match Guard::new_exclusive(id, store) {
            Some(inner) => Ok(RefMut { inner }),
            None => Err(AlreadyBorrowed),
        }
    }
}

} // verus!

use vstd::prelude::*;

verus! {

/// One shared cell: its value while any strong reference exists, the number
/// of strong references, and its borrow state (some readers, or one writer).
pub struct Slot<T> {
    pub value: Option<T>,
    pub strong: usize,
    pub readers: usize,
    pub writer: bool,
}

impl<T> Slot<T> {
    /// Number of borrows that are live on this cell.
    pub open spec fn borrows(self) -> int {
        self.readers + if self.writer {
            1int
        } else {
            0int
        }
    }

    /// The value is held exactly while a strong reference exists; every
    /// borrow holds its own strong reference; a writer excludes readers.
    pub open spec fn wf(self) -> bool {
        &&& (self.value is Some <==> self.strong > 0)
        &&& self.borrows() <= self.strong
        &&& !(self.writer && self.readers > 0)
    }

    pub open spec fn live(self) -> bool {
        self.strong > 0
    }

    /// A shared borrow is granted unless a writer holds the cell.
    pub open spec fn can_share(self) -> bool {
        !self.writer
    }

    /// An exclusive borrow is granted only to a cell with no borrow at all.
    pub open spec fn can_take(self) -> bool {
        !self.writer && self.readers == 0
    }

    pub open spec fn fresh(v: T) -> Slot<T> {
        Slot { value: Some(v), strong: 1, readers: 0, writer: false }
    }

    /// One more strong reference.
    pub open spec fn retained(self) -> Slot<T> {
        Slot { strong: (self.strong + 1) as usize, ..self }
    }

    /// One strong reference less; the last one frees the value.
    pub open spec fn released(self) -> Slot<T> {
        if self.strong == 1 {
            Slot { value: None, strong: 0, ..self }
        } else {
            Slot { strong: (self.strong - 1) as usize, ..self }
        }
    }

    pub open spec fn add_reader(self) -> Slot<T> {
        Slot { readers: (self.readers + 1) as usize, ..self }
    }

    pub open spec fn drop_reader(self) -> Slot<T> {
        Slot { readers: (self.readers - 1) as usize, ..self }
    }

    pub open spec fn add_writer(self) -> Slot<T> {
        Slot { writer: true, ..self }
    }

    pub open spec fn drop_writer(self) -> Slot<T> {
        Slot { writer: false, ..self }
    }

    /// A shared guard taken: a strong reference, then a reader.
    pub open spec fn shared(self) -> Slot<T> {
        self.retained().add_reader()
    }

    /// A shared guard given back: the reader first, then its strong reference.
    pub open spec fn unshared(self) -> Slot<T> {
        self.drop_reader().released()
    }

    /// An exclusive guard taken: a strong reference, then the writer.
    pub open spec fn taken(self) -> Slot<T> {
        self.retained().add_writer()
    }

    /// An exclusive guard given back: the writer first, then its strong reference.
    pub open spec fn untaken(self) -> Slot<T> {
        self.drop_writer().released()
    }
}

/// All cells that share one owner family: strong references, weak links and
/// guards name a cell by its index here. A cell's index is never reused, so
/// the index is the cell's identity for the whole life of the store.
pub struct Store<T> {
    slots: Vec<Slot<T>>,
}

impl<T> View for Store<T> {
    type V = Seq<Slot<T>>;

    closed spec fn view(&self) -> Seq<Slot<T>> {
        self.slots@
    }
}

impl<T> Store<T> {
    pub open spec fn wf(&self) -> bool {
        forall|i: int| 0 <= i < self@.len() ==> (#[trigger] self@[i]).wf()
    }

    /// The cell `id` exists and still has a strong reference.
    pub open spec fn live(&self, id: usize) -> bool {
        id < self@.len() && self@[id as int].live()
    }

    pub fn new() -> (r: Store<T>)
        ensures
            r@ == Seq::<Slot<T>>::empty(),
            r.wf(),
    {
        Store { slots: Vec::new() }
    }

    /// Number of cells ever made in this store.
    pub fn len(&self) -> (r: usize)
        ensures
            r == self@.len(),
    {
        self.slots.len()
    }

    pub fn is_live(&self, id: usize) -> (r: bool)
        ensures
            r == self.live(id),
    {
        id < self.slots.len() && self.slots[id].strong > 0
    }

    /// Strong references to the cell `id`.
    pub fn strong_count(&self, id: usize) -> (r: usize)
        requires
            id < self@.len(),
        ensures
            r == self@[id as int].strong,
    {
        self.slots[id].strong
    }

    /// Shared borrows held on the cell `id`.
    pub fn reader_count(&self, id: usize) -> (r: usize)
        requires
            id < self@.len(),
        ensures
            r == self@[id as int].readers,
    {
        self.slots[id].readers
    }

    /// Whether an exclusive borrow is held on the cell `id`.
    pub fn has_writer(&self, id: usize) -> (r: bool)
        requires
            id < self@.len(),
        ensures
            r == self@[id as int].writer,
    {
        self.slots[id].writer
    }

    /// A new cell holding `v`, with one strong reference.
    pub(crate) fn allocate(&mut self, v: T) -> (id: usize)
        requires
            old(self).wf(),
            old(self)@.len() < usize::MAX,
        ensures
            final(self).wf(),
            id == old(self)@.len(),
            final(self)@ == old(self)@.push(Slot::fresh(v)),
    {
        let id = self.slots.len();
        self.slots.push(Slot { value: Some(v), strong: 1, readers: 0, writer: false });
        id
    }

    /// One more strong reference to a live cell.
    pub(crate) fn retain(&mut self, id: usize)
        requires
            old(self).wf(),
            old(self).live(id),
            old(self)@[id as int].strong < usize::MAX,
        ensures
            final(self).wf(),
            final(self)@ == old(self)@.update(id as int, old(self)@[id as int].retained()),
    {
        let slot = &mut self.slots[id];
        slot.strong = slot.strong + 1;
    }

    /// Gives back a strong reference that no borrow stands on.
    pub(crate) fn release(&mut self, id: usize)
        requires
            old(self).wf(),
            old(self).live(id),
            old(self)@[id as int].borrows() < old(self)@[id as int].strong,
        ensures
            final(self).wf(),
            final(self)@ == old(self)@.update(id as int, old(self)@[id as int].released()),
    {
        let slot = &mut self.slots[id];
        if slot.strong == 1 {
            slot.value = None;
        }
        slot.strong = slot.strong - 1;
    }

    /// Adds a reader unless a writer holds the cell.
    pub(crate) fn try_share(&mut self, id: usize) -> (r: bool)
        requires
            old(self).wf(),
            old(self).live(id),
            old(self)@[id as int].borrows() < old(self)@[id as int].strong,
        ensures
            final(self).wf(),
            r == old(self)@[id as int].can_share(),
            final(self)@ == if r {
                old(self)@.update(id as int, old(self)@[id as int].add_reader())
            } else {
                old(self)@
            },
    {
        let slot = &mut self.slots[id];
        if slot.writer {
            false
        } else {
            slot.readers = slot.readers + 1;
            true
        }
    }

    /// Sets the writer if the cell has no borrow.
    pub(crate) fn try_take(&mut self, id: usize) -> (r: bool)
        requires
            old(self).wf(),
            old(self).live(id),
            old(self)@[id as int].borrows() < old(self)@[id as int].strong,
        ensures
            final(self).wf(),
            r == old(self)@[id as int].can_take(),
            final(self)@ == if r {
                old(self)@.update(id as int, old(self)@[id as int].add_writer())
            } else {
                old(self)@
            },
    {
        let slot = &mut self.slots[id];
        if slot.writer || slot.readers > 0 {
            false
        } else {
            slot.writer = true;
            true
        }
    }

    pub(crate) fn end_share(&mut self, id: usize)
        requires
            old(self).wf(),
            id < old(self)@.len(),
            old(self)@[id as int].readers > 0,
        ensures
            final(self).wf(),
            final(self)@ == old(self)@.update(id as int, old(self)@[id as int].drop_reader()),
    {
        let slot = &mut self.slots[id];
        slot.readers = slot.readers - 1;
    }

    pub(crate) fn end_take(&mut self, id: usize)
        requires
            old(self).wf(),
            id < old(self)@.len(),
            old(self)@[id as int].writer,
        ensures
            final(self).wf(),
            final(self)@ == old(self)@.update(id as int, old(self)@[id as int].drop_writer()),
    {
        let slot = &mut self.slots[id];
        slot.writer = false;
    }

    pub(crate) fn value(&self, id: usize) -> (r: &T)
        requires
            id < self@.len(),
            self@[id as int].value is Some,
        ensures
            *r == self@[id as int].value->Some_0,
    {
        self.slots[id].value.as_ref().unwrap()
    }

    pub(crate) fn value_mut(&mut self, id: usize) -> (r: &mut T)
        requires
            id < old(self)@.len(),
            old(self)@[id as int].value is Some,
        ensures
            *r == old(self)@[id as int].value->Some_0,
            final(self)@ == old(self)@.update(
                id as int,
                Slot { value: Some(*final(r)), ..old(self)@[id as int] },
            ),
    {
        self.slots[id].value.as_mut().unwrap()
    }
}

} // verus!

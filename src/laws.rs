use vstd::prelude::*;

use crate::lens::{Lens, Whole};
use crate::store::Slot;

verus! {

/// A new cell can be borrowed at once, and the guard sees the value it was
/// made with.
pub proof fn lemma_new_then_borrow<T>(v: T)
    ensures
        Slot::fresh(v).wf(),
        Slot::fresh(v).borrows() < Slot::fresh(v).strong,
        Slot::fresh(v).can_share(),
        Slot::fresh(v).shared().wf(),
        Slot::fresh(v).shared().readers > 0,
        Lens::<T>::part(&Whole, Slot::fresh(v).shared().value->Some_0) == v,
{
}

/// Shared borrows coexist; an exclusive borrow is refused while a shared one
/// is live, and a shared borrow while an exclusive one is live.
pub proof fn lemma_borrow_conflicts<T>(s: Slot<T>)
    requires
        s.wf(),
        s.live(),
        s.strong + 2 <= usize::MAX,
    ensures
        s.can_share() ==> s.shared().can_share() && s.shared().shared().readers == s.readers + 2,
        s.can_share() ==> !s.shared().can_take(),
        s.can_take() ==> !s.taken().can_share() && !s.taken().can_take(),
{
}

/// Once the last strong reference is given back, the cell is no longer
/// live, so a borrow through a link to it is `Missing`.
pub proof fn lemma_last_owner_gone<T>(s: Slot<T>)
    requires
        s.wf(),
        s.strong == 1,
        s.borrows() == 0,
    ensures
        !s.released().live(),
        s.released().value is None,
{
}

/// Taking a shared guard and giving it back, mapped or not (mapping keeps the
/// cell and touches no count), leaves the cell exactly as it was, so an
/// exclusive borrow that was possible before is possible again.
pub proof fn lemma_borrow_release_restores<T>(s: Slot<T>)
    requires
        s.wf(),
        s.live(),
        s.can_share(),
        s.strong < usize::MAX,
    ensures
        s.shared().wf(),
        s.shared().unshared() == s,
        s.can_take() ==> s.shared().unshared().can_take(),
{
}

/// After a guard is cloned, giving one clone back leaves the value and the
/// other clone's borrow in place; giving both back restores the cell.
pub proof fn lemma_clone_release<T>(s: Slot<T>)
    requires
        s.wf(),
        s.live(),
        s.can_share(),
        s.strong + 2 <= usize::MAX,
    ensures
        s.shared().shared().unshared().wf(),
        s.shared().shared().unshared().value == s.value,
        s.shared().shared().unshared().readers > 0,
        s.shared().shared().unshared().unshared() == s,
{
}

/// A guard keeps its cell alive after the owner it came from is given back;
/// giving the guard back then frees the value.
pub proof fn lemma_guard_outlives_owner<T>(s: Slot<T>)
    requires
        s.wf(),
        s.strong == 1,
        s.borrows() == 0,
    ensures
        s.shared().released().wf(),
        s.shared().released().live(),
        s.shared().released().value == s.value,
        s.shared().released().readers > 0,
        !s.shared().released().unshared().live(),
{
}

/// In a store, a shared guard taken on cell `id` and given back, mapped any
/// number of times in between, leaves every cell as it was.
pub proof fn lemma_store_borrow_release<T>(cells: Seq<Slot<T>>, id: int)
    requires
        0 <= id < cells.len(),
        cells[id].wf(),
        cells[id].live(),
        cells[id].can_share(),
        cells[id].strong < usize::MAX,
    ensures
        ({
            let held = cells.update(id, cells[id].shared());
            held.update(id, held[id].unshared()) == cells
        }),
{
    let held = cells.update(id, cells[id].shared());
    assert(held.update(id, held[id].unshared()) =~= cells);
}

} // verus!

//! The small inline vector of the `smallvec` crate, as the partition-key
//! encoder uses it: one slot per key component, holding the position of the
//! bound value that fills it.

use vstd::prelude::*;

use smallvec::SmallVec;

verus! {

/// Key-component slots, inline up to eight components.
#[verifier::external_body]
pub struct KeySlots {
    slots: SmallVec<[Option<usize>; 8]>,
}

/// What the slots hold, in order.
pub uninterp spec fn slot_contents(v: KeySlots) -> Seq<Option<usize>>;

/// Relies on `SmallVec::from_elem`: `n` copies of one element. Larger counts
/// go to the heap through `vec!`, whose allocation `requires` keeps small.
#[verifier::external_body]
pub(crate) fn slots_new(n: usize) -> (r: KeySlots)
    requires
        n <= 65536,
    ensures
        slot_contents(r) == Seq::new(n as nat, |i: int| None::<usize>),
{
    KeySlots { slots: SmallVec::from_elem(None, n) }
}

/// Relies on `IndexMut` for `SmallVec`: writes one slot; an index out of
/// bounds panics, which `requires` leaves out.
#[verifier::external_body]
pub(crate) fn slots_set(v: &mut KeySlots, i: usize, x: Option<usize>)
    requires
        i < slot_contents(*old(v)).len(),
    ensures
        slot_contents(*final(v)) == slot_contents(*old(v)).update(i as int, x),
{
    v.slots[i] = x;
}

/// Relies on `Index` for `SmallVec`: reads one slot; an index out of bounds
/// panics, which `requires` leaves out.
#[verifier::external_body]
pub(crate) fn slots_get(v: &KeySlots, i: usize) -> (r: Option<usize>)
    requires
        i < slot_contents(*v).len(),
    ensures
        r == slot_contents(*v)[i as int],
{
    v.slots[i]
}

} // verus!

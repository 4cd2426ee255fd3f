//! The fixed-capacity registries that hold a world's walkers.
use vstd::prelude::*;

use arrayvec::ArrayVec;

use crate::walker::{Walker, WalkerState};

verus! {

/// Most walkers one registry can hold: one per cell of the grid.
pub const MAX_WALKERS: usize = 108;

#[verifier::external_type_specification]
#[verifier::external_body]
#[verifier::reject_recursive_types(T)]
pub struct ExArrayVec<T, const CAP: usize>(ArrayVec<T, CAP>);

/// The walkers a registry holds, in order.
pub uninterp spec fn walkers_of(v: ArrayVec<Walker, MAX_WALKERS>) -> Seq<Walker>;

/// The walkers of `s` that are still alive, in their order.
pub open spec fn alive_only(s: Seq<Walker>) -> Seq<Walker> {
    s.filter(|w: Walker| w.state == WalkerState::Alive)
}

/// Relies on `ArrayVec::new`: the new vector is empty.
#[verifier::external_body]
pub(crate) fn registry_new() -> (r: ArrayVec<Walker, MAX_WALKERS>)
    ensures
        walkers_of(r) == Seq::<Walker>::empty(),
{
    ArrayVec::new()
}

/// Relies on `ArrayVec::len`: the number of elements held.
#[verifier::external_body]
pub(crate) fn registry_len(v: &ArrayVec<Walker, MAX_WALKERS>) -> (r: usize)
    ensures
        r == walkers_of(*v).len(),
{
    v.len()
}

/// Relies on `ArrayVec::push`, which appends at the end and panics only when
/// the vector is full.
#[verifier::external_body]
pub(crate) fn registry_push(v: &mut ArrayVec<Walker, MAX_WALKERS>, w: Walker)
    requires
        walkers_of(*old(v)).len() < MAX_WALKERS,
    ensures
        walkers_of(*final(v)) == walkers_of(*old(v)).push(w),
{
    v.push(w)
}

/// Relies on indexing through `ArrayVec`'s slice: the element at `i`.
#[verifier::external_body]
pub(crate) fn registry_get(v: &ArrayVec<Walker, MAX_WALKERS>, i: usize) -> (r: Walker)
    requires
        i < walkers_of(*v).len(),
    ensures
        r == walkers_of(*v)[i as int],
{
    v[i]
}

/// Relies on mutable indexing through `ArrayVec`'s slice: replaces the
/// element at `i`.
#[verifier::external_body]
pub(crate) fn registry_set(v: &mut ArrayVec<Walker, MAX_WALKERS>, i: usize, w: Walker)
    requires
        i < walkers_of(*old(v)).len(),
    ensures
        walkers_of(*final(v)) == walkers_of(*old(v)).update(i as int, w),
{
    v[i] = w;
}

/// Relies on `ArrayVec::retain`, which keeps the elements for which the
/// predicate holds, in their order.
#[verifier::external_body]
pub(crate) fn registry_keep_alive(v: &mut ArrayVec<Walker, MAX_WALKERS>)
    ensures
        walkers_of(*final(v)) == alive_only(walkers_of(*old(v))),
{
    v.retain(|w| w.is_alive())
}

} // verus!

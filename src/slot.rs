use vstd::prelude::*;
use std::sync::Arc;
use arc_swap::ArcSwap;
use crate::snapshot::Inner;

verus! {

/// A shared, atomically replaceable strong reference to a snapshot. Loads never
/// block and always yield a complete snapshot: either the one stored last or one
/// stored concurrently.
#[verifier::external_body]
#[verifier::reject_recursive_types(M)]
pub struct SnapshotSlot<M, const N: usize> {
    cell: ArcSwap<Inner<M, N>>,
}

impl<M, const N: usize> SnapshotSlot<M, N> {
    /// Relies on arc_swap::ArcSwapAny::new: the slot starts out holding `first`.
    #[verifier::external_body]
    pub(crate) fn new(first: Arc<Inner<M, N>>) -> (r: Self) {
        SnapshotSlot { cell: ArcSwap::new(first) }
    }

    /// Relies on arc_swap::ArcSwapAny::load_full: an already counted strong
    /// reference to the snapshot held at this instant. What it is depends on
    /// concurrent stores, so nothing is said of it beyond its type.
    #[verifier::external_body]
    pub(crate) fn load(&self) -> (r: Arc<Inner<M, N>>) {
        self.cell.load_full()
    }

    /// Relies on arc_swap::ArcSwapAny::store: `next` becomes the held snapshot
    /// and the slot's reference to the previous one is released.
    #[verifier::external_body]
    pub(crate) fn store(&self, next: Arc<Inner<M, N>>) {
        self.cell.store(next)
    }
}

/// Relies on std's Arc::ptr_eq: true when both point to the same allocation,
/// which then holds one and the same snapshot.
#[verifier::external_body]
pub(crate) fn same_snapshot<M, const N: usize>(a: &Arc<Inner<M, N>>, b: &Arc<Inner<M, N>>) -> (r: bool)
    ensures
        r ==> **a == **b,
{
    Arc::ptr_eq(a, b)
}

} // verus!

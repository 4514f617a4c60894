//! The owner of the row collection and of the identity counter.

use crate::laws::lemma_reconcile_wf;
use crate::rows::{ids_of, reconcile, Item, Rows};
use vstd::prelude::*;

verus! {

/// Owns the rows of the grid and the counter that names new rows. The rows
/// change only through [`CollectionSynchronizer::reconcile`], so their
/// identities always grow strictly along the collection and stay below the
/// counter.
pub struct CollectionSynchronizer {
    items: Vec<Item>,
    next_id: usize,
}

impl View for CollectionSynchronizer {
    type V = Rows;

    closed spec fn view(&self) -> Rows {
        Rows::of(self.items@, self.next_id as nat)
    }
}

impl CollectionSynchronizer {
    /// Holds of every synchronizer at every moment.
    #[verifier::type_invariant]
    spec fn inv(self) -> bool {
        self@.wf()
    }

    /// A synchronizer without rows whose counter stands at zero.
    pub fn new() -> (s: Self)
        ensures
            s@ == Rows::empty(),
    {
        let s = CollectionSynchronizer { items: Vec::new(), next_id: 0 };
        assert(s@.ids =~= Rows::empty().ids);
        s
    }

    /// The rows, in creation order.
    pub fn items(&self) -> (items: &Vec<Item>)
        ensures
            ids_of(items@) == self@.ids,
            self@.wf(),
    {
        proof {
            use_type_invariant(self);
        }
        &self.items
    }

    /// The number of rows.
    pub fn len(&self) -> (n: usize)
        ensures
            n == self@.ids.len(),
    {
        self.items.len()
    }

    /// The identity that the next new row will get.
    pub fn next_id(&self) -> (id: usize)
        ensures
            id == self@.next_id,
            self@.wf(),
    {
        proof {
            use_type_invariant(self);
        }
        self.next_id
    }

    /// Whether the counter has room for the rows that a reconciliation
    /// towards `desired` rows would create.
    pub fn has_ids_for(&self, desired: usize) -> (ok: bool)
        ensures
            ok == self@.fits(desired as nat),
    {
        let len = self.items.len();
        desired <= len || desired - len <= usize::MAX - self.next_id
    }

    /// Brings the collection to `desired` rows: missing rows are appended
    /// with fresh identities, surplus rows are removed from the end.
    pub fn reconcile(&mut self, desired: usize)
        requires
            old(self)@.fits(desired as nat),
        ensures
            final(self)@ == old(self)@.reconcile(desired as nat),
            final(self)@.ids.len() == desired,
            final(self)@.wf(),
    {
        proof {
            use_type_invariant(&*self);
            lemma_reconcile_wf(self@, desired as nat);
        }
        let mut items: Vec<Item> = Vec::new();
        std::mem::swap(&mut items, &mut self.items);
        let next_id = reconcile(&mut items, self.next_id, desired);
        self.next_id = next_id;
        self.items = items;
    }
}

} // verus!

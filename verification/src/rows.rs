//! The row collection and the reconciliation that keeps its length equal to
//! the desired row count.

use vstd::prelude::*;

verus! {

/// One row of the grid. A row carries nothing but its identity.
#[derive(Clone, Copy, Debug, PartialEq, Eq, Structural)]
pub struct Item {
    pub id: usize,
}

/// The identities of a sequence of rows, in order.
pub open spec fn ids_of(items: Seq<Item>) -> Seq<nat> {
    Seq::new(items.len(), |i: int| items[i].id as nat)
}

/// The `count` identities handed out next when the counter stands at `next_id`.
pub open spec fn fresh_ids(next_id: nat, count: nat) -> Seq<nat> {
    Seq::new(count, |k: int| (next_id + k) as nat)
}

/// Mathematical state of the row collection: the identities of the rows, in
/// creation order, and the identity that the next new row will get.
pub struct Rows {
    pub ids: Seq<nat>,
    pub next_id: nat,
}

impl Rows {
    /// The state that holds the rows `items` and the counter `next_id`.
    pub open spec fn of(items: Seq<Item>, next_id: nat) -> Rows {
        Rows { ids: ids_of(items), next_id }
    }

    /// No rows, and a counter that starts at zero.
    pub open spec fn empty() -> Rows {
        Rows { ids: Seq::empty(), next_id: 0 }
    }

    /// The identities grow strictly along the collection and all lie below
    /// the counter.
    pub open spec fn wf(self) -> bool {
        &&& forall|i: int| 0 <= i < self.ids.len() ==> self.ids[i] < self.next_id
        &&& forall|i: int, j: int| 0 <= i < j < self.ids.len() ==> self.ids[i] < self.ids[j]
    }

    /// The identities that a reconciliation towards `desired` rows creates.
    pub open spec fn created(self, desired: nat) -> Seq<nat> {
        if desired > self.ids.len() {
            fresh_ids(self.next_id, (desired - self.ids.len()) as nat)
        } else {
            Seq::empty()
        }
    }

    /// The state after a reconciliation towards `desired` rows: missing rows
    /// are appended with fresh identities, surplus rows are cut off the end.
    pub open spec fn reconcile(self, desired: nat) -> Rows {
        if desired > self.ids.len() {
            Rows {
                ids: self.ids + self.created(desired),
                next_id: self.next_id + (desired - self.ids.len()) as nat,
            }
        } else {
            Rows { ids: self.ids.take(desired as int), next_id: self.next_id }
        }
    }

    /// The state after reconciling towards each value of `trace` in turn.
    pub open spec fn run(self, trace: Seq<nat>) -> Rows
        decreases trace.len(),
    {
        if trace.len() == 0 {
            self
        } else {
            self.run(trace.drop_last()).reconcile(trace.last())
        }
    }

    /// Every identity created while reconciling along `trace`, in the order
    /// of creation.
    pub open spec fn created_along(self, trace: Seq<nat>) -> Seq<nat>
        decreases trace.len(),
    {
        if trace.len() == 0 {
            Seq::empty()
        } else {
            self.created_along(trace.drop_last()) + self.run(trace.drop_last()).created(
                trace.last(),
            )
        }
    }

    /// Whether the counter can hand out the identities that a reconciliation
    /// towards `desired` rows needs without leaving the range of `usize`.
    pub open spec fn fits(self, desired: nat) -> bool {
        self.reconcile(desired).next_id <= usize::MAX
    }
}

/// Brings `items` to `desired` rows and returns the counter's new value.
///
/// Missing rows are appended with the identities `next_id`, `next_id + 1`, ...
/// in that order; surplus rows are removed from the end. Rows that stay keep
/// their identity and their place.
pub fn reconcile(items: &mut Vec<Item>, next_id: usize, desired: usize) -> (new_next_id: usize)
    requires
        Rows::of(old(items)@, next_id as nat).fits(desired as nat),
    ensures
        Rows::of(final(items)@, new_next_id as nat) == Rows::of(
            old(items)@,
            next_id as nat,
        ).reconcile(desired as nat),
        final(items)@.len() == desired,
        desired >= old(items)@.len() ==> final(items)@.take(old(items)@.len() as int) == old(
            items,
        )@,
        desired <= old(items)@.len() ==> final(items)@ == old(items)@.take(desired as int),
{
    let len = items.len();
    if desired > len {
        let count: usize = desired - len;
        let mut k: usize = 0;
        while k < count
            invariant
                k <= count,
                count == desired - len,
                len == old(items)@.len(),
                next_id + count <= usize::MAX,
                items@.len() == len + k,
                items@.take(len as int) == old(items)@,
                forall|j: int| 0 <= j < k ==> (#[trigger] items@[len + j]).id == next_id + j,
            decreases count - k,
        {
            items.push(Item { id: next_id + k });
            k = k + 1;
        }
        proof {
            let grown = Rows::of(old(items)@, next_id as nat).reconcile(desired as nat);
            assert forall|i: int| 0 <= i < items@.len() implies ids_of(items@)[i] == grown.ids[i] by {
                if i < len {
                    assert(items@.take(len as int)[i] == items@[i]);
                } else {
                    assert(items@[len + (i - len)].id == next_id + (i - len));
                }
            }
            assert(ids_of(items@) =~= grown.ids);
        }
        next_id + count
    } else {
        items.truncate(desired);
        assert(ids_of(items@) =~= ids_of(old(items)@).take(desired as int));
        next_id
    }
}

} // verus!

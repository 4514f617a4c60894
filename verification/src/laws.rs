//! What holds of reconciliation on every state and along every sequence of
//! desired row counts.

use crate::display::DisplayIconKind;
use crate::grid::{Cell, GridState};
use crate::rows::{fresh_ids, Rows};
use vstd::prelude::*;

verus! {

/// After a reconciliation the collection has exactly the desired length.
pub proof fn lemma_reconcile_length(s: Rows, desired: nat)
    ensures
        s.reconcile(desired).ids.len() == desired,
{
}

/// After each value of a sequence of desired row counts has been processed,
/// the collection has that value as its length.
pub proof fn lemma_run_length(s: Rows, trace: Seq<nat>, i: int)
    requires
        0 <= i < trace.len(),
    ensures
        s.run(trace.take(i + 1)).ids.len() == trace[i],
{
    let prefix = trace.take(i + 1);
    assert(prefix.last() == trace[i]);
    lemma_reconcile_length(s.run(prefix.drop_last()), prefix.last());
}

/// Reconciliation keeps the state well formed.
pub proof fn lemma_reconcile_wf(s: Rows, desired: nat)
    requires
        s.wf(),
    ensures
        s.reconcile(desired).wf(),
        s.reconcile(desired).next_id >= s.next_id,
{
}

/// Growing keeps the rows that exist, in their order, and appends the
/// missing ones with consecutive identities that start at the counter: they
/// grow strictly and none of them is the identity of a row that exists.
pub proof fn lemma_grow(s: Rows, desired: nat)
    requires
        s.wf(),
        desired > s.ids.len(),
    ensures
        s.reconcile(desired).ids.len() == desired,
        s.reconcile(desired).ids.take(s.ids.len() as int) == s.ids,
        s.reconcile(desired).ids.skip(s.ids.len() as int) == fresh_ids(
            s.next_id,
            (desired - s.ids.len()) as nat,
        ),
        s.reconcile(desired).next_id == s.next_id + (desired - s.ids.len()),
        forall|k: int|
            s.ids.len() <= k < desired ==> #[trigger] s.reconcile(desired).ids[k] == s.next_id + (k
                - s.ids.len()),
        forall|j: int, k: int|
            s.ids.len() <= j < k < desired ==> s.reconcile(desired).ids[j] < s.reconcile(
                desired,
            ).ids[k],
        forall|i: int, k: int|
            0 <= i < s.ids.len() <= k < desired ==> s.ids[i] < s.reconcile(desired).ids[k],
{
    let r = s.reconcile(desired);
    let a = s.ids.len() as int;
    assert(r.ids.take(a) =~= s.ids);
    assert(r.ids.skip(a) =~= fresh_ids(s.next_id, (desired - a) as nat));
}

/// Shrinking leaves exactly the first `desired` rows, in their order, and
/// does not move the counter.
pub proof fn lemma_shrink(s: Rows, desired: nat)
    requires
        desired < s.ids.len(),
    ensures
        s.reconcile(desired).ids == s.ids.take(desired as int),
        s.reconcile(desired).next_id == s.next_id,
        s.created(desired).len() == 0,
{
}

/// Reconciling a second time towards the same value changes nothing and
/// creates nothing.
pub proof fn lemma_reconcile_idempotent(s: Rows, desired: nat)
    ensures
        s.reconcile(desired).reconcile(desired) == s.reconcile(desired),
        s.reconcile(desired).created(desired) == Seq::<nat>::empty(),
{
    let r = s.reconcile(desired);
    assert(r.ids.take(desired as int) =~= r.ids);
}

/// Along any sequence of desired row counts the counter never falls, and
/// the identities created are, in order of creation, exactly the consecutive
/// numbers from the counter's first value up to its last.
pub proof fn lemma_created_along(s: Rows, trace: Seq<nat>)
    ensures
        s.run(trace).next_id >= s.next_id,
        s.created_along(trace) == fresh_ids(
            s.next_id,
            (s.run(trace).next_id - s.next_id) as nat,
        ),
    decreases trace.len(),
{
    if trace.len() == 0 {
        assert(s.created_along(trace) =~= fresh_ids(s.next_id, 0));
    } else {
        lemma_created_along(s, trace.drop_last());
        assert(s.created_along(trace) =~= fresh_ids(
            s.next_id,
            (s.run(trace).next_id - s.next_id) as nat,
        ));
    }
}

/// Along any sequence of desired row counts the state stays well formed,
/// and every row of the collection is one that existed at the start or was
/// created on the way.
pub proof fn lemma_run_wf(s: Rows, trace: Seq<nat>)
    requires
        s.wf(),
    ensures
        s.run(trace).wf(),
        forall|i: int|
            0 <= i < s.run(trace).ids.len() ==> (s.ids + s.created_along(trace)).contains(
                #[trigger] s.run(trace).ids[i],
            ),
    decreases trace.len(),
{
    let all = s.ids + s.created_along(trace);
    if trace.len() == 0 {
        assert forall|i: int| 0 <= i < s.ids.len() implies all.contains(#[trigger] s.ids[i]) by {
            assert(all[i] == s.ids[i]);
        }
    } else {
        let head = trace.drop_last();
        let before = s.run(head);
        let after = s.run(trace);
        let earlier = s.ids + s.created_along(head);
        lemma_run_wf(s, head);
        lemma_reconcile_wf(before, trace.last());
        assert forall|i: int| 0 <= i < after.ids.len() implies all.contains(
            #[trigger] after.ids[i],
        ) by {
            if i < before.ids.len() {
                assert(after.ids[i] == before.ids[i]);
                let w = choose|w: int| 0 <= w < earlier.len() && earlier[w] == before.ids[i];
                assert(all[w] == earlier[w]);
            } else {
                let k = i - before.ids.len();
                let w = earlier.len() + k;
                assert(all[w] == before.created(trace.last())[k]);
            }
        }
    }
}

/// No two rows that ever exist share an identity: the rows present at the
/// start together with every row created along any sequence of desired row
/// counts, shrinking and growing again included, have pairwise different
/// identities.
pub proof fn lemma_identities_unique(s: Rows, trace: Seq<nat>)
    requires
        s.wf(),
    ensures
        (s.ids + s.created_along(trace)).no_duplicates(),
        s.run(trace).ids.no_duplicates(),
{
    lemma_created_along(s, trace);
    lemma_run_wf(s, trace);
}

/// Once a display mode is set, every cell that the grid shows is drawn in
/// it, whatever row counts are reconciled and whatever column count is set
/// afterwards: the cells of rows that existed, and the cells of rows and
/// columns that come later.
pub proof fn lemma_no_stale_cell(
    s: GridState,
    kind: DisplayIconKind,
    trace: Seq<nat>,
    num_cols: nat,
    shown: Seq<Vec<Cell>>,
    i: int,
    j: int,
)
    requires
        (GridState { rows: s.rows.run(trace), num_cols, display: kind }).shows(shown),
        0 <= i < shown.len(),
        0 <= j < shown[i]@.len(),
    ensures
        shown[i]@[j].icon == kind,
{
}

} // verus!

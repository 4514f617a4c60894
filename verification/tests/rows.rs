use icon_grid::rows::{reconcile, Item};
use icon_grid::sync::CollectionSynchronizer;

fn ids(items: &Vec<Item>) -> Vec<usize> {
    let mut out = Vec::new();
    for item in items {
        out.push(item.id);
    }
    out
}

#[test]
fn new_synchronizer_is_empty() {
    let sync = CollectionSynchronizer::new();
    assert_eq!(sync.len(), 0);
    assert_eq!(sync.next_id(), 0);
    assert!(sync.items().is_empty());
}

#[test]
fn length_follows_every_desired_count() {
    let mut sync = CollectionSynchronizer::new();
    for n in [10usize, 13, 5, 7, 0, 1, 1, 40, 39, 0, 0, 3] {
        assert!(sync.has_ids_for(n));
        sync.reconcile(n);
        assert_eq!(sync.len(), n);
        assert_eq!(sync.items().len(), n);
    }
}

#[test]
fn growing_keeps_rows_and_appends_consecutive_ids() {
    let mut sync = CollectionSynchronizer::new();
    sync.reconcile(4);
    sync.reconcile(2);
    let before = ids(sync.items());
    let counter = sync.next_id();
    assert_eq!(before, vec![0, 1]);
    assert_eq!(counter, 4);
    sync.reconcile(6);
    let after = ids(sync.items());
    assert_eq!(after.len(), 6);
    assert_eq!(&after[..2], &before[..]);
    assert_eq!(&after[2..], &[4, 5, 6, 7][..]);
    for id in &after[2..] {
        assert!(*id >= counter);
        assert!(!before.contains(id));
    }
    assert_eq!(sync.next_id(), 8);
}

#[test]
fn shrinking_leaves_the_first_rows() {
    let mut sync = CollectionSynchronizer::new();
    sync.reconcile(9);
    let before = ids(sync.items());
    sync.reconcile(3);
    assert_eq!(ids(sync.items()), before[..3].to_vec());
    assert_eq!(ids(sync.items()), vec![0, 1, 2]);
    assert_eq!(sync.next_id(), 9);
}

#[test]
fn shrinking_to_zero_empties_the_collection() {
    let mut sync = CollectionSynchronizer::new();
    sync.reconcile(5);
    sync.reconcile(0);
    assert!(sync.items().is_empty());
    assert_eq!(sync.next_id(), 5);
    sync.reconcile(2);
    assert_eq!(ids(sync.items()), vec![5, 6]);
}

#[test]
fn zero_on_empty_changes_nothing() {
    let mut sync = CollectionSynchronizer::new();
    sync.reconcile(0);
    assert_eq!(sync.len(), 0);
    assert_eq!(sync.next_id(), 0);
}

#[test]
fn identities_are_never_reused() {
    let mut sync = CollectionSynchronizer::new();
    let mut ever: Vec<usize> = Vec::new();
    for n in [3usize, 1, 4, 0, 2, 2, 6, 5, 9] {
        let counter = sync.next_id();
        sync.reconcile(n);
        for item in sync.items() {
            if item.id >= counter {
                assert!(!ever.contains(&item.id));
                ever.push(item.id);
            } else {
                assert!(ever.contains(&item.id));
            }
        }
        let now = ids(sync.items());
        for (i, a) in now.iter().enumerate() {
            for b in &now[i + 1..] {
                assert!(a < b);
            }
        }
    }
    assert_eq!(ever, (0..sync.next_id()).collect::<Vec<usize>>());
    assert_eq!(sync.next_id(), 16);
}

#[test]
fn same_count_twice_is_a_no_op() {
    let mut sync = CollectionSynchronizer::new();
    for n in [6usize, 2, 8] {
        sync.reconcile(n);
        let items = sync.items().clone();
        let counter = sync.next_id();
        sync.reconcile(n);
        assert_eq!(sync.items(), &items);
        assert_eq!(sync.next_id(), counter);
    }
}

#[test]
fn ten_thirteen_five_seven() {
    let mut sync = CollectionSynchronizer::new();
    sync.reconcile(10);
    assert_eq!(ids(sync.items()), vec![0, 1, 2, 3, 4, 5, 6, 7, 8, 9]);
    sync.reconcile(13);
    assert_eq!(ids(sync.items()), vec![0, 1, 2, 3, 4, 5, 6, 7, 8, 9, 10, 11, 12]);
    sync.reconcile(5);
    assert_eq!(ids(sync.items()), vec![0, 1, 2, 3, 4]);
    sync.reconcile(7);
    assert_eq!(ids(sync.items()), vec![0, 1, 2, 3, 4, 13, 14]);
    assert_eq!(sync.next_id(), 15);
}

#[test]
fn counter_room_is_told_exactly() {
    let mut sync = CollectionSynchronizer::new();
    assert!(sync.has_ids_for(usize::MAX));
    sync.reconcile(10);
    assert!(sync.has_ids_for(usize::MAX));
    sync.reconcile(0);
    assert!(!sync.has_ids_for(usize::MAX));
    assert!(!sync.has_ids_for(usize::MAX - 9));
    assert!(sync.has_ids_for(usize::MAX - 10));
    assert!(sync.has_ids_for(0));
}

#[test]
fn free_reconcile_grows_from_any_counter() {
    let mut items = vec![Item { id: 3 }, Item { id: 7 }];
    let next = reconcile(&mut items, 100, 5);
    assert_eq!(next, 103);
    assert_eq!(
        items,
        vec![
            Item { id: 3 },
            Item { id: 7 },
            Item { id: 100 },
            Item { id: 101 },
            Item { id: 102 },
        ]
    );
}

#[test]
fn free_reconcile_shrinks_and_keeps_the_counter() {
    let mut items = vec![Item { id: 3 }, Item { id: 7 }, Item { id: 8 }];
    let next = reconcile(&mut items, 100, 1);
    assert_eq!(next, 100);
    assert_eq!(items, vec![Item { id: 3 }]);
    let next = reconcile(&mut items, next, 1);
    assert_eq!(next, 100);
    assert_eq!(items, vec![Item { id: 3 }]);
}

#[test]
fn free_reconcile_reaches_the_last_identity() {
    let mut items: Vec<Item> = Vec::new();
    let next = reconcile(&mut items, usize::MAX - 2, 2);
    assert_eq!(next, usize::MAX);
    assert_eq!(items, vec![Item { id: usize::MAX - 2 }, Item { id: usize::MAX - 1 }]);
}

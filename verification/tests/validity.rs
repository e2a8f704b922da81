// Tests of the lock/validity mechanism itself: one-way invalidation, chain
// soundness, locality of invalidation, clone sharing, and at-most-once
// release.

use lockdownd::memory_lock::{CellTable, Lock};

#[test]
fn check_succeeds_while_whole_chain_alive() {
    let mut t = CellTable::new();
    let root = Lock::new(&mut t, 10, None);
    let child = Lock::new(&mut t, 20, Some(root));
    let grandchild = Lock::new(&mut t, 30, Some(child));
    assert_eq!(root.check(&t).ok(), Some(10));
    assert_eq!(child.check(&t).ok(), Some(20));
    assert_eq!(grandchild.check(&t).ok(), Some(30));
}

#[test]
fn invalidation_is_one_way() {
    let mut t = CellTable::new();
    let root = Lock::new(&mut t, 10, None);
    root.invalidate(&mut t);
    assert!(root.check(&t).is_err());
    // no later operation revives the cell: repeated invalidation, new cells,
    // even a fresh child chained under it leave the dead cell dead
    root.invalidate(&mut t);
    assert!(root.check(&t).is_err());
    let _other = Lock::new(&mut t, 40, None);
    let child = Lock::new(&mut t, 50, Some(root));
    assert!(root.check(&t).is_err());
    assert!(child.check(&t).is_err());
}

#[test]
fn dead_ancestor_fails_every_descendant() {
    let mut t = CellTable::new();
    let root = Lock::new(&mut t, 1, None);
    let mid = Lock::new(&mut t, 2, Some(root));
    let leaf = Lock::new(&mut t, 3, Some(mid));
    mid.invalidate(&mut t);
    // the middle cell and everything under it fail ...
    assert!(mid.check(&t).is_err());
    assert!(leaf.check(&t).is_err());
    // ... while the ancestor above the dead cell still passes
    assert_eq!(root.check(&t).ok(), Some(1));
}

#[test]
fn sibling_chains_are_unaffected() {
    let mut t = CellTable::new();
    let root = Lock::new(&mut t, 1, None);
    let left = Lock::new(&mut t, 2, Some(root));
    let right = Lock::new(&mut t, 3, Some(root));
    left.invalidate(&mut t);
    assert!(left.check(&t).is_err());
    assert_eq!(right.check(&t).ok(), Some(3));
    assert_eq!(root.check(&t).ok(), Some(1));
}

#[test]
fn clone_shares_the_cell() {
    let mut t = CellTable::new();
    let root = Lock::new(&mut t, 1, None);
    let original = Lock::new(&mut t, 2, Some(root));
    let clone = original.clone();
    assert_eq!(clone.check(&t).ok(), Some(2));
    // invalidating the clone is observably the same as invalidating the
    // original: both locks fail identically afterwards
    clone.invalidate(&mut t);
    assert!(original.check(&t).is_err());
    assert!(clone.check(&t).is_err());
    assert_eq!(root.check(&t).ok(), Some(1));
}

#[test]
fn release_frees_at_most_once() {
    let mut t = CellTable::new();
    let root = Lock::new(&mut t, 1, None);
    let lock = Lock::new(&mut t, 2, Some(root));
    let copy = lock.clone();
    // the first release hands back the handle to free; the second — here
    // through a copy sharing the same cell — finds the chain dead
    assert_eq!(lock.release(&mut t), Some(2));
    assert_eq!(copy.release(&mut t), None);
    assert_eq!(lock.release(&mut t), None);
    assert_eq!(root.check(&t).ok(), Some(1));
}

#[test]
fn release_of_already_dead_chain_skips_the_free() {
    let mut t = CellTable::new();
    let root = Lock::new(&mut t, 1, None);
    let child = Lock::new(&mut t, 2, Some(root));
    root.invalidate(&mut t);
    // the child's own cell was never touched, but its chain is dead, so its
    // release must not hand out a handle
    assert_eq!(child.release(&mut t), None);
    assert!(child.check(&t).is_err());
}

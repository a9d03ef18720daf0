use std::cell::Cell;
use std::rc::Rc;

use growvec::TryClone;
use growvec::Vec;
use growvec::VecError;

/// Test element that counts how many instances are alive and can be told to
/// fail when duplicated.
struct Counted {
    id: u64,
    fail: bool,
    alive: Rc<Cell<i64>>,
}

impl Counted {
    fn new(id: u64, fail: bool, alive: &Rc<Cell<i64>>) -> Counted {
        alive.set(alive.get() + 1);
        Counted { id, fail, alive: Rc::clone(alive) }
    }
}

impl Drop for Counted {
    fn drop(&mut self) {
        self.alive.set(self.alive.get() - 1);
    }
}

impl TryClone for Counted {
    fn try_clone(&self) -> Result<Self, VecError> {
        if self.fail {
            Err(VecError::Alloc)
        } else {
            Ok(Counted::new(self.id, self.fail, &self.alive))
        }
    }
}

#[test]
fn iter_yields_in_order() {
    let mut v = Vec::new();
    v.push(1u64).unwrap();
    v.push(2).unwrap();
    v.push(3).unwrap();
    let mut it = v.iter();
    assert_eq!(*it.next().unwrap(), 1);
    assert_eq!(*it.next().unwrap(), 2);
    assert_eq!(*it.next().unwrap(), 3);
    assert!(it.next().is_none());
    assert!(it.next().is_none());
    assert_eq!(v.len(), 3);
}

#[test]
fn iter_mut_updates_in_place() {
    let mut v = Vec::new();
    v.push(1u64).unwrap();
    v.push(2).unwrap();
    v.push(3).unwrap();
    {
        let mut it = v.iter_mut();
        while let Some(e) = it.next() {
            *e = *e * 2;
        }
    }
    assert_eq!(v.slice_all(), &[2, 4, 6][..]);
}

#[test]
fn into_iter_transfers_ownership_in_order() {
    let mut v = Vec::new();
    v.push(10u64).unwrap();
    v.push(20).unwrap();
    let mut it = v.into_iter();
    assert_eq!(it.next(), Some(10));
    assert_eq!(it.next(), Some(20));
    assert_eq!(it.next(), None);
}

#[test]
fn into_iter_abandoned_destructs_rest_once() {
    let alive = Rc::new(Cell::new(0i64));
    let mut v = Vec::new();
    v.push(Counted::new(1, false, &alive)).unwrap();
    v.push(Counted::new(2, false, &alive)).unwrap();
    v.push(Counted::new(3, false, &alive)).unwrap();
    assert_eq!(alive.get(), 3);
    let mut it = v.into_iter();
    let first = it.next().unwrap();
    assert_eq!(first.id, 1);
    assert_eq!(alive.get(), 3);
    drop(first);
    assert_eq!(alive.get(), 2);
    drop(it);
    assert_eq!(alive.get(), 0);
}

#[test]
fn try_clone_is_a_deep_copy() {
    let mut v = Vec::with_capacity(5).unwrap();
    v.push(1u64).unwrap();
    v.push(2).unwrap();
    v.push(3).unwrap();
    let mut c = v.try_clone().unwrap();
    assert_eq!(c.len(), 3);
    assert_eq!(c.capacity(), v.capacity());
    *v.index_mut(0) = 99;
    assert_eq!(*c.index(0), 1);
    *c.index_mut(2) = 33;
    assert_eq!(*v.index(2), 3);
}

#[test]
fn try_clone_failure_rolls_back_without_leak() {
    let alive = Rc::new(Cell::new(0i64));
    let mut v = Vec::new();
    v.push(Counted::new(1, false, &alive)).unwrap();
    v.push(Counted::new(2, false, &alive)).unwrap();
    v.push(Counted::new(3, true, &alive)).unwrap();
    v.push(Counted::new(4, false, &alive)).unwrap();
    assert_eq!(alive.get(), 4);
    let r = v.try_clone();
    assert!(matches!(r, Err(VecError::Alloc)));
    assert_eq!(alive.get(), 4);
    assert_eq!(v.len(), 4);
    assert_eq!(v.index(0).id, 1);
    drop(v);
    assert_eq!(alive.get(), 0);
}

#[test]
fn drop_destructs_live_elements_exactly_once() {
    let alive = Rc::new(Cell::new(0i64));
    let mut v = Vec::new();
    v.push(Counted::new(1, false, &alive)).unwrap();
    v.push(Counted::new(2, false, &alive)).unwrap();
    v.push(Counted::new(3, false, &alive)).unwrap();
    v.truncate(1).unwrap();
    assert_eq!(alive.get(), 1);
    drop(v);
    assert_eq!(alive.get(), 0);
}

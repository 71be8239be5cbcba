use std::cell::Cell;
use std::rc::Rc;

use stream::{LazyCell, SyncLazyCell};

#[test]
fn lazy_cell_single_evaluation() {
    let counter = Rc::new(Cell::new(0u32));
    let c = counter.clone();
    let mut cell = LazyCell::new(move || {
        c.set(c.get() + 1);
        c.get()
    });
    assert_eq!(counter.get(), 0);
    assert!(!cell.forced());
    let v1 = *cell.force();
    let v2 = *cell.force();
    let v3 = *cell.force();
    assert_eq!(v1, 1);
    assert_eq!(v2, 1);
    assert_eq!(v3, 1);
    assert_eq!(counter.get(), 1);
    assert!(cell.forced());
}

#[test]
fn lazy_cell_evaluated_runs_nothing() {
    let mut cell: LazyCell<u32, fn() -> u32> = LazyCell::evaluated(42);
    assert!(cell.forced());
    assert_eq!(*cell.force(), 42);
    assert_eq!(*cell.force(), 42);
}

#[test]
fn lazy_cell_value_stability() {
    let mut cell = LazyCell::new(|| String::from("once"));
    let v1 = cell.force().clone();
    let v2 = cell.force().clone();
    assert_eq!(v1, "once");
    assert_eq!(v1, v2);
}

#[test]
fn sync_cell_single_evaluation() {
    let counter = Rc::new(Cell::new(0u32));
    let c = counter.clone();
    let cell = SyncLazyCell::new(move || {
        c.set(c.get() + 1);
        c.get()
    });
    assert_eq!(counter.get(), 0);
    let v1 = cell.force();
    let v2 = cell.force();
    let v3 = cell.force();
    assert_eq!(v1, 1);
    assert_eq!(v2, 1);
    assert_eq!(v3, 1);
    assert_eq!(counter.get(), 1);
}

#[test]
fn sync_cell_value_stability() {
    let cell = SyncLazyCell::new(|| vec![1u8, 2, 3]);
    assert_eq!(cell.force(), vec![1u8, 2, 3]);
    assert_eq!(cell.force(), vec![1u8, 2, 3]);
}

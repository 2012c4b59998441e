use std::cell::Cell;
use std::rc::Rc;

use refs::{Own, Registry, ThreadAffinity, ToOwn, set_current_thread_as_main};

#[test]
fn deref() {
    let mut m = Registry::new();
    let num = Own::new(&mut m, 5);
    assert_eq!(num.deref(&m), &5);
    assert_eq!(num.weak().deref(&m), &5);
}

#[test]
fn deref_mut() {
    let mut g = ThreadAffinity::new();
    let tid: u64 = 1;
    set_current_thread_as_main(&mut g, tid);
    let mut m = Registry::new();
    let num = Own::new(&mut m, 5);
    *num.deref_mut(&mut m, &g, tid) = 10;
    assert_eq!(num.deref(&m), &10);
    assert_eq!(num.weak().deref_mut(&mut m, &g, tid), &10);
}

struct ToDrop {
    flag: Rc<Cell<u64>>,
}

impl Drop for ToDrop {
    fn drop(&mut self) {
        self.flag.set(20);
    }
}

#[test]
fn check_drop() {
    let flag = Rc::new(Cell::new(0u64));
    assert_eq!(flag.get(), 0);

    let mut m = Registry::new();
    let num = Own::new(&mut m, ToDrop { flag: flag.clone() });
    let weak = num.weak();
    assert!(!weak.is_null(&m));
    let payload = num.free(&mut m);
    drop(payload);
    assert!(weak.is_null(&m));

    assert_eq!(flag.get(), 20);
}

#[test]
fn misc() {
    let mut m = Registry::new();
    let five = Own::new(&mut m, 5);
    let ten = Own::new(&mut m, 10);
    let another_five = Own::new(&mut m, 5);
    let five_int: i32 = 5;

    assert_eq!(five.deref(&m), another_five.deref(&m));
    assert_ne!(five.deref(&m), ten.deref(&m));
    assert_eq!(five.deref(&m), &5);
    assert_ne!(five.deref(&m), &10);
    assert_eq!("5", &format!("{:?}", five.deref(&m)));
    assert_eq!(five.deref(&m), &five_int);
}

#[test]
fn into_own() {
    let mut g = ThreadAffinity::new();
    set_current_thread_as_main(&mut g, 1);
    let mut m = Registry::new();
    let own: Own<i32> = Own::new(&mut m, 5);
    assert_eq!(5, *own.deref(&m));
}

#[test]
fn to_own() {
    let mut g = ThreadAffinity::new();
    set_current_thread_as_main(&mut g, 1);
    let mut m = Registry::new();
    let own = 5.to_own(&mut m);
    assert_eq!(5, *own.deref(&m));
}

#[test]
fn freed_owner_payload_returned() {
    let mut m = Registry::new();
    let own = Own::new(&mut m, String::from("payload"));
    let value = own.free(&mut m);
    assert_eq!(value, "payload");
}

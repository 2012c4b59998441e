use refs::{
    Own, Registry, ThreadAffinity, ToWeak, Weak, set_current_thread_as_main, weak_from_ref,
};

#[test]
fn test_erased() {
    let mut m = Registry::new();
    let a: Own<i32> = Own::new(&mut m, 5);
    let weak = a.weak();
    let erased = weak.erase();
    assert_eq!(erased.raw(), weak.raw());
}

#[test]
fn to_weak_test() {
    let mut g = ThreadAffinity::new();
    set_current_thread_as_main(&mut g, 1);
    let mut m = Registry::new();
    let five = Own::new(&mut m, 5);

    let weak = ToWeak::weak(&five);
    assert_eq!(*weak.deref(&m), 5);

    let weak = ToWeak::weak(&weak);
    assert_eq!(*weak.deref(&m), 5);
}

#[test]
fn default_weak_is_null() {
    let m = Registry::<i32>::new();
    let null = Weak::<i32>::default();
    assert!(null.is_null(&m));
    assert_eq!(null.is_ok(&m), false);
    assert!(null.get(&m).is_none());
    assert!(!null.was_initialized());
    assert!(Weak::<i32>::const_default().is_null(&m));
}

#[test]
fn weak_after_free() {
    let mut m = Registry::new();
    let h = Own::new(&mut m, 5);
    let w = h.weak();
    assert_eq!(*w.deref(&m), 5);
    h.free(&mut m);
    assert!(w.is_null(&m));
    assert!(w.get(&m).is_none());
    assert!(w.was_initialized());
}

#[test]
fn reuse_keeps_old_observers_null() {
    let mut m = Registry::new();
    let h0 = Own::new(&mut m, 1);
    let a0 = h0.addr();
    let w0 = h0.weak();
    h0.free(&mut m);

    let h1 = Own::new(&mut m, 2);
    assert_eq!(h1.addr(), a0);
    let w1 = h1.weak();

    assert!(w0.is_null(&m));
    assert!(w1.is_ok(&m));
    assert_ne!(w0, w1);
    assert_eq!(*w1.deref(&m), 2);
}

#[test]
fn get_mut_updates() {
    let mut g = ThreadAffinity::new();
    let tid: u64 = 1;
    set_current_thread_as_main(&mut g, tid);
    let mut m = Registry::new();
    let five = Own::new(&mut m, 5);
    let weak = five.weak();

    let five_ref = weak.get_mut(&mut m, &g, tid).unwrap();
    assert_eq!(five_ref, &5);
    *five_ref = 10;
    assert_eq!(weak.deref(&m), &10);
    assert_eq!(weak.get(&m), Some(&10));

    five.free(&mut m);
    assert!(weak.get_mut(&mut m, &g, tid).is_none());
    assert_eq!(weak.get(&m), None);
}

#[test]
fn weaks_from_same_owner_are_equal() {
    let mut m = Registry::new();
    let h = Own::new(&mut m, 5);
    let w1 = h.weak();
    let w2 = h.weak();
    assert_eq!(w1, w2);
    assert_eq!(w1, w1.clone());
}

#[test]
fn from_ref_test() {
    let mut m = Registry::new();
    let five = Own::new(&mut m, 5);
    let weak = weak_from_ref(&m, five.addr());
    assert_eq!(*weak.deref(&m), 5);
    assert_eq!(weak, five.weak());
}

#[test]
fn downcast_weak() {
    let mut ints = Registry::new();
    let others = Registry::<String>::new();
    let own = Own::new(&mut ints, 50);
    let erased = own.weak().erase();

    let back: Option<Weak<i32>> = erased.downcast(&ints);
    assert_eq!(*back.unwrap().deref(&ints), 50);

    let wrong: Option<Weak<String>> = erased.downcast(&others);
    assert!(wrong.is_none());

    let via_own: Option<Weak<i32>> = own.downcast(&ints);
    assert!(via_own.unwrap().is_ok(&ints));
}

#[test]
fn leak_weak() {
    let mut g = ThreadAffinity::new();
    set_current_thread_as_main(&mut g, 1);
    let mut m = Registry::new();
    let leaked = Weak::leak(&mut m, 5);
    assert_eq!(*leaked.deref(&m), 5);
    assert!(leaked.is_ok(&m));
}

#[test]
fn raw_roundtrip() {
    let mut m = Registry::new();
    let a = Own::new(&mut m, 5);
    let w = a.weak();
    let erased = w.erase();
    let raw = a.raw();

    let from_raw: Weak<i32> = Weak::from_raw(raw.addr(), raw.stamp());
    assert_eq!(w.raw(), from_raw.raw());
    assert_eq!(w.raw(), erased.raw());
    assert!(from_raw.is_ok(&m));
}

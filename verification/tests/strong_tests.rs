use refs::{Registry, Strong, ToWeak};

#[test]
fn shared_handles() {
    let mut m = Registry::new();
    let s1 = Strong::new(&mut m, 10);
    let w1 = s1.weak();

    let s2 = s1.clone(&mut m);
    assert_eq!(s1.ref_count(&m), 2);
    assert_eq!(s1.address(), s2.address());

    assert!(s1.free(&mut m).is_none());
    assert_eq!(s2.ref_count(&m), 1);
    assert!(s2.weak().is_ok(&m));
    assert!(w1.is_ok(&m));

    assert_eq!(s2.free(&mut m), Some(10));
    assert!(w1.is_null(&m));
}

#[test]
fn dropping_one_clone_keeps_payload() {
    let mut m = Registry::new();
    let s1 = Strong::new(&mut m, 7);
    let s2 = s1.clone(&mut m);
    let s3 = s2.clone(&mut m);
    assert_eq!(s3.ref_count(&m), 3);

    assert!(s2.free(&mut m).is_none());
    assert_eq!(*s1.deref(&m), 7);
    assert_eq!(s1.ref_count(&m), 2);

    assert!(s1.free(&mut m).is_none());
    assert_eq!(s3.free(&mut m), Some(7));
}

#[test]
fn strong_to_weak_trait() {
    let mut m = Registry::new();
    let s = Strong::new(&mut m, 3);
    let w = ToWeak::weak(&s);
    assert_eq!(*w.deref(&m), 3);
}

use refs::{DataStorage, Registry, Weak};

#[test]
fn data_storage_add_and_get() {
    let mut m = Registry::new();
    let mut store = DataStorage::new();

    let five = String::from("five");
    let w = store.add_with_name(&mut m, &five, || 5);
    assert_eq!(*w.deref(&m), 5);
    assert_eq!(store.len(), 1);

    let again = store.add_with_name(&mut m, &five, || 99);
    assert_eq!(again, w);
    assert_eq!(*again.deref(&m), 5);
    assert_eq!(store.len(), 1);

    let got = store.get_existing(&five).unwrap();
    assert_eq!(got, w);
    assert!(store.get_existing(&String::from("other")).is_none());
}

#[test]
fn data_storage_free_with_name() {
    let mut m = Registry::new();
    let mut store = DataStorage::new();

    let a = store.add_with_name(&mut m, &String::from("a"), || 1);
    let b = store.add_with_name(&mut m, &String::from("b"), || 2);

    store.free_with_name(&mut m, &String::from("a"));
    assert!(a.is_null(&m));
    assert!(b.is_ok(&m));
    assert_eq!(*b.deref(&m), 2);
    assert_eq!(store.len(), 1);

    // Freeing an absent name changes nothing.
    store.free_with_name(&mut m, &String::from("a"));
    assert_eq!(store.len(), 1);
}

#[test]
fn data_storage_free_by_handle() {
    let mut m = Registry::new();
    let mut store = DataStorage::new();

    let a = store.add_with_name(&mut m, &String::from("a"), || 1);
    let b = store.add_with_name(&mut m, &String::from("b"), || 2);
    let c = store.add_with_name(&mut m, &String::from("c"), || 3);
    assert_eq!(store.len(), 3);

    store.free(&mut m, b);
    assert!(b.is_null(&m));
    assert_eq!(store.len(), 2);
    assert_eq!(*a.deref(&m), 1);
    assert_eq!(*c.deref(&m), 3);
    assert_eq!(store.get_existing(&String::from("b")), None);

    // A null handle is ignored.
    store.free(&mut m, Weak::default());
    assert_eq!(store.len(), 2);

    // A stale handle is ignored too.
    store.free(&mut m, b);
    assert_eq!(store.len(), 2);
}

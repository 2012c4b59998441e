use std::mem::size_of;

use refs::{
    Address, ExistsManaged, Own, OwnVec, Registry, Strong, ThreadAffinity, ToOwnVec, TotalSize,
    Weak, set_current_thread_as_main,
};

#[test]
fn convert() {
    let mut g = ThreadAffinity::new();
    set_current_thread_as_main(&mut g, 1);
    let mut m = Registry::new();
    let vec: Vec<u32> = vec![1, 2, 3, 4, 5];
    let owned_vec: OwnVec<u32> = vec.to_own_vec(&mut m);

    let values: Vec<u32> = owned_vec.iter().map(|h| *h.deref(&m)).collect();
    assert_eq!(&values, &[1, 2, 3, 4, 5]);
}

#[test]
fn eq() {
    let mut g = ThreadAffinity::new();
    set_current_thread_as_main(&mut g, 1);
    let mut m = Registry::new();
    let vec: Vec<u32> = vec![1, 2, 3, 4, 5];
    let owned_vec: OwnVec<u32> = vec.clone().to_own_vec(&mut m);
    let owned_vec2: OwnVec<u32> = vec.clone().to_own_vec(&mut m);

    let values: Vec<u32> = owned_vec.iter().map(|h| *h.deref(&m)).collect();
    let values2: Vec<u32> = owned_vec2.iter().map(|h| *h.deref(&m)).collect();
    assert_eq!(values, values2);
    assert_eq!(values, vec);
}

#[derive(Default)]
struct WithHeapData {
    _int: i32,
    data: Box<u8>,
}

impl TotalSize for WithHeapData {
    fn total_size(&self) -> usize {
        size_of::<Self>() + self.data.as_ref().total_size()
    }
}

#[test]
fn total_size() {
    assert_eq!(size_of::<i32>(), 5.total_size());
    assert_eq!(size_of::<String>(), String::new().total_size());

    let data = WithHeapData::default();

    assert_eq!(data.total_size(), size_of::<WithHeapData>() + size_of::<u8>());
}

#[test]
fn address() {
    let mut m = Registry::new();
    let own = Own::new(&mut m, 5);
    let weak = own.weak();
    assert_eq!(own.address(), weak.address());

    let strong = Strong::new(&mut m, 5);
    assert_eq!(Address::address(&strong), strong.weak().address());

    assert_ne!(own.address(), strong.address());
}

#[test]
fn diagnostics_ledger() {
    let mut m = Registry::new();
    m.enable_diagnostics(true);

    let h1 = Own::new(&mut m, 1);
    let h2 = Own::new(&mut m, 2);
    let h3 = Own::new(&mut m, 3);
    assert_eq!(m.live_count(), 3);

    h1.free(&mut m);
    h2.free(&mut m);
    assert_eq!(m.live_count(), 1);

    h3.free(&mut m);
    assert_eq!(m.live_count(), 0);
}

#[test]
fn diagnostics_disabled_counts_nothing() {
    let mut m = Registry::new();
    let h = Own::new(&mut m, 1);
    assert_eq!(m.live_count(), 0);
    m.enable_diagnostics(true);
    let h2 = Own::new(&mut m, 2);
    assert_eq!(m.live_count(), 1);
    h.free(&mut m);
    h2.free(&mut m);
    assert_eq!(m.live_count(), 0);
}

#[test]
fn exists_managed() {
    let mut m = Registry::new();
    let own = Own::new(&mut m, 5);
    assert!(own.weak().exists_managed());
    assert!(!Weak::<i32>::default().exists_managed());
}

#[test]
fn registry_lookup() {
    let mut m = Registry::new();
    assert!(!m.is_registered(1));
    assert_eq!(m.stamp_for_address(1), None);

    let own = Own::new(&mut m, 5);
    let addr = own.addr();
    assert!(m.is_registered(addr));
    let stamp = m.stamp_for_address(addr).unwrap();
    assert!(stamp >= 1);
    assert_eq!(own.raw().stamp(), stamp);

    own.free(&mut m);
    assert!(!m.is_registered(addr));
    assert_eq!(m.stamp_for_address(addr), None);
}

#[test]
fn strong_count_outside() {
    let mut m = Registry::<i32>::new();
    assert_eq!(m.strong_count(1), 0);
    let s = Strong::new(&mut m, 1);
    assert_eq!(m.strong_count(s.address()), 1);
}

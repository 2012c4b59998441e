use refs::{
    LockCheck, MainLock, MainState, Own, Registry, ThreadAffinity, assert_main_thread,
    is_main_thread, set_current_thread_as_main, supposed_main_id,
};

#[test]
fn utils_test() {
    let g = ThreadAffinity::new();
    assert_eq!(supposed_main_id(&g), 1);
}

#[test]
fn affinity() {
    let mut g = ThreadAffinity::new();
    assert!(is_main_thread(&g, 1));
    assert!(!is_main_thread(&g, 2));

    set_current_thread_as_main(&mut g, 7);
    assert_eq!(supposed_main_id(&g), 7);
    assert!(is_main_thread(&g, 7));
    assert!(!is_main_thread(&g, 1));
    assert_main_thread(&g, 7);
}

#[test]
fn read_needs_no_designation() {
    let mut g = ThreadAffinity::new();
    set_current_thread_as_main(&mut g, 7);
    let mut m = Registry::new();
    let h = Own::new(&mut m, 5);
    // Reading takes no thread id at all: any thread may read.
    assert_eq!(*h.deref(&m), 5);
    assert_eq!(*h.weak().deref(&m), 5);
}

struct AlwaysLocked;

impl LockCheck for AlwaysLocked {
    fn locked(&self) -> bool {
        true
    }
}

#[test]
fn main_state() {
    let mut g = ThreadAffinity::new();
    set_current_thread_as_main(&mut g, 7);

    let mut state: MainState<AlwaysLocked> = MainState::new();
    assert!(state.safe(&g, 7));
    assert!(!state.safe(&g, 8));

    state.set_lock_check(AlwaysLocked);
    assert!(state.safe(&g, 7));
    assert!(state.safe(&g, 8));
}

#[test]
fn main_lock_basics() {
    let mut g = ThreadAffinity::new();
    let tid: u64 = 1;
    set_current_thread_as_main(&mut g, tid);

    let mut lock: MainLock<i32> = MainLock::new();
    assert!(!lock.is_set(&g, tid));
    assert!(lock.try_get(&g, tid).is_none());
    assert!(lock.try_get_mut(&g, tid).is_none());

    lock.set(&g, tid, 77);
    assert!(lock.is_set(&g, tid));
    assert_eq!(*lock.try_get(&g, tid).unwrap(), 77);

    *lock.try_get_mut(&g, tid).unwrap() = 40;
    assert_eq!(*lock.try_get(&g, tid).unwrap(), 40);
}

#[test]
fn main_lock_get_or_init() {
    let mut g = ThreadAffinity::new();
    let tid: u64 = 1;
    set_current_thread_as_main(&mut g, tid);

    let mut lock: MainLock<i32> = MainLock::new();
    let value = lock.get_or_init(&g, tid, || 44);
    assert_eq!(*value, 44);
    assert_eq!(*lock.get_or_init(&g, tid, || 0), 44);
}

#[test]
fn main_lock_get_mut_defaults() {
    let mut g = ThreadAffinity::new();
    let tid: u64 = 1;
    set_current_thread_as_main(&mut g, tid);

    let mut lock: MainLock<i32> = MainLock::new();
    assert_eq!(*lock.get_mut(&g, tid), 0);
    *lock.get_mut(&g, tid) = 40;
    assert_eq!(*lock.get_mut(&g, tid), 40);
}

//! Managed-handle safety layer: owning, shared, and weak handles over a
//! generation-stamped registry, with a thread-affinity guard for mutation.
//!
//! A [`Registry`] is the single source of truth for liveness: it maps each
//! allocation's address to a generation stamp, a share count and the payload.
//! [`Own`] is the unique owner of one allocation, [`Strong`] one of several
//! shared owners, and [`Weak`] a non-owning observer that re-checks the
//! registry (address and stamp both) before every access, so a freed or
//! reallocated target is always detected instead of being dereferenced.

mod address;
mod clock;
mod erased;
mod exists_managed;
mod from_ref;
mod main_lock;
mod main_state;
mod manage;
mod own;
mod raw_pointer;
mod registry;
mod stamp;
mod strong;
mod to_own;
mod to_weak;
mod total_size;
mod utils;
mod vec;
mod weak;

pub use address::Address;
pub use erased::Erased;
pub use exists_managed::ExistsManaged;
pub use from_ref::weak_from_ref;
pub use main_lock::MainLock;
pub use main_state::{LockCheck, MainState};
pub use manage::{lemma_stored_weak_is_ok, DataStorage};
pub use own::{
    lemma_freed_owner_weak_is_null, lemma_new_weak_observes_payload, lemma_reuse_does_not_revive,
    Own,
};
pub use raw_pointer::RawPointer;
pub use registry::{
    diag_after_add, diag_after_remove, lemma_live_is_real, preserves_live_entries, same_entries,
    same_entries_except, Registry,
};
pub use stamp::{first_stamp, next_stamp};
pub use strong::{lemma_shared_release_preserves_observers, Strong};
pub use to_own::ToOwn;
pub use to_weak::ToWeak;
pub use total_size::TotalSize;
pub use utils::{
    assert_main_thread, is_main_thread, set_current_thread_as_main, spec_is_main,
    spec_supposed_main, supposed_main_id, ThreadAffinity,
};
pub use vec::{OwnVec, ToOwnVec};
pub use weak::{
    lemma_dead_address_is_null, lemma_same_identity_weaks_equal, lemma_stamp_mismatch_is_null,
    Weak,
};

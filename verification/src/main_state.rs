//! Relaxing the thread-affinity discipline under an external lock.
//!
//! Some callers hold a lock of their own that makes access from other
//! threads safe. They may install a lock check; an operation then counts as
//! safe either on the designated thread or while the check answers true.

use vstd::prelude::*;

use crate::utils::{is_main_thread, spec_is_main, ThreadAffinity};

verus! {

/// A caller-supplied test for "the external lock is held". Its verdict is
/// the caller's own; nothing is assumed of it.
pub trait LockCheck {
    /// Whether the external lock currently makes access safe.
    fn locked(&self) -> bool;
}

/// The process's safety state: the installed lock check, if any.
pub struct MainState<C> {
    check: Option<C>,
}

impl<C: LockCheck> MainState<C> {
    /// Whether a lock check has been installed.
    pub closed spec fn spec_has_check(&self) -> bool {
        self.check is Some
    }

    /// A state with no lock check installed.
    pub fn new() -> (s: Self)
        ensures
            !s.spec_has_check(),
    {
        MainState { check: None }
    }

    /// The installed check's verdict; false while none is installed.
    fn locked(&self) -> (r: bool)
        ensures
            !self.spec_has_check() ==> r == false,
    {
        match &self.check {
            Some(check) => check.locked(),
            None => false,
        }
    }

    /// Whether access is safe for the thread with id `thread_id`: it is the
    /// designated thread, or the installed lock check answers for it. On
    /// the designated thread the answer is always yes; with no check
    /// installed, the designated thread is the only safe one.
    pub fn safe(&self, g: &ThreadAffinity, thread_id: u64) -> (r: bool)
        ensures
            spec_is_main(*g, thread_id) ==> r,
            !self.spec_has_check() ==> r == spec_is_main(*g, thread_id),
    {
        is_main_thread(g, thread_id) || self.locked()
    }

    /// Install (or replace) the lock check.
    pub fn set_lock_check(&mut self, check: C)
        ensures
            final(self).spec_has_check(),
    {
        self.check = Some(check);
    }
}

impl<C: LockCheck> Default for MainState<C> {
    fn default() -> (s: Self)
        ensures
            !s.spec_has_check(),
    {
        MainState::new()
    }
}

} // verus!

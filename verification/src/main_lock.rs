//! A lazily-initialized slot restricted to the designated thread.
//!
//! Every access checks the thread-affinity guard first (elsewhere a wrong
//! thread aborts): with access confined to one thread, the slot needs no
//! locking of its own.

use vstd::prelude::*;

use crate::utils::{assert_main_thread, spec_is_main, ThreadAffinity};

verus! {

/// A slot holding one lazily-initialized value, for main-thread use only.
pub struct MainLock<T> {
    val: Option<T>,
}

impl<T> MainLock<T> {
    /// Whether the slot has been initialized.
    pub closed spec fn spec_is_set(&self) -> bool {
        self.val is Some
    }

    /// The held value (meaningful only when set).
    pub closed spec fn spec_value(&self) -> T {
        self.val->0
    }

    /// An empty slot.
    pub fn new() -> (l: Self)
        ensures
            !l.spec_is_set(),
    {
        MainLock { val: None }
    }

    /// Store a value, replacing whatever was there.
    pub fn set(&mut self, g: &ThreadAffinity, thread_id: u64, value: T)
        requires
            spec_is_main(*g, thread_id),
        ensures
            final(self).spec_is_set(),
            final(self).spec_value() == value,
    {
        assert_main_thread(g, thread_id);
        self.val = Some(value);
    }

    /// Whether the slot has been initialized.
    pub fn is_set(&self, g: &ThreadAffinity, thread_id: u64) -> (r: bool)
        requires
            spec_is_main(*g, thread_id),
        ensures
            r == self.spec_is_set(),
    {
        assert_main_thread(g, thread_id);
        self.val.is_some()
    }

    /// The value, if one was stored.
    pub fn try_get(&self, g: &ThreadAffinity, thread_id: u64) -> (r: Option<&T>)
        requires
            spec_is_main(*g, thread_id),
        ensures
            match r {
                Some(v) => self.spec_is_set() && *v == self.spec_value(),
                None => !self.spec_is_set(),
            },
    {
        assert_main_thread(g, thread_id);
        self.val.as_ref()
    }

    /// Write access to the value, if one was stored.
    pub fn try_get_mut(&mut self, g: &ThreadAffinity, thread_id: u64) -> (r: Option<&mut T>)
        requires
            spec_is_main(*g, thread_id),
        ensures
            r is Some <==> old(self).spec_is_set(),
            r matches Some(v) ==> *v == old(self).spec_value() && final(self).spec_is_set()
                && final(self).spec_value() == *final(v),
            r is None ==> *final(self) == *old(self),
    {
        assert_main_thread(g, thread_id);
        self.val.as_mut()
    }

    /// The value, initialized by `init` on first use.
    pub fn get_or_init<F: FnOnce() -> T>(
        &mut self,
        g: &ThreadAffinity,
        thread_id: u64,
        init: F,
    ) -> (r: &mut T)
        requires
            spec_is_main(*g, thread_id),
            !old(self).spec_is_set() ==> call_requires(init, ()),
        ensures
            old(self).spec_is_set() ==> *r == old(self).spec_value(),
            !old(self).spec_is_set() ==> call_ensures(init, (), *r),
            final(self).spec_is_set(),
            final(self).spec_value() == *final(r),
    {
        assert_main_thread(g, thread_id);
        if self.val.is_none() {
            self.val = Some(init());
        }
        match &mut self.val {
            Some(v) => v,
            None => vstd::pervasive::unreached(),
        }
    }
}

impl<T: Default> MainLock<T> {
    /// The value, initialized to the type's default on first use. What the
    /// default is belongs to the payload type; nothing is assumed of it.
    pub fn get_mut(&mut self, g: &ThreadAffinity, thread_id: u64) -> (r: &mut T)
        requires
            spec_is_main(*g, thread_id),
        ensures
            old(self).spec_is_set() ==> *r == old(self).spec_value(),
            final(self).spec_is_set(),
            final(self).spec_value() == *final(r),
    {
        assert_main_thread(g, thread_id);
        if self.val.is_none() {
            self.val = Some(T::default());
        }
        match &mut self.val {
            Some(v) => v,
            None => vstd::pervasive::unreached(),
        }
    }
}

impl<T> Default for MainLock<T> {
    fn default() -> (l: Self)
        ensures
            !l.spec_is_set(),
    {
        MainLock::new()
    }
}

} // verus!

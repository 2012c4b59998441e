//! The thread-affinity guard: one designated thread may mutate through
//! handles; read-only access is unrestricted.
//!
//! The guard records the designated thread's id (0 while unset). Callers
//! obtain the current thread's id at the process boundary and pass it in;
//! the runtime guarantees thread ids are nonzero, and the process's first
//! thread has id 1, which is the default designee while the slot is unset.

use vstd::prelude::*;

verus! {

/// The slot holding the designated ("main") thread's id; 0 until assigned.
pub struct ThreadAffinity {
    main_id: u64,
}

impl ThreadAffinity {
    /// The recorded id; 0 while unset.
    pub closed spec fn spec_main_id(&self) -> u64 {
        self.main_id
    }

    /// A guard with no thread designated yet.
    pub fn new() -> (g: Self)
        ensures
            g.spec_main_id() == 0,
    {
        ThreadAffinity { main_id: 0 }
    }
}

impl Default for ThreadAffinity {
    fn default() -> (g: Self)
        ensures
            g.spec_main_id() == 0,
    {
        ThreadAffinity::new()
    }
}

/// The thread the guard designates: the recorded one, or the process's
/// first thread (id 1) while none was recorded.
pub open spec fn spec_supposed_main(g: ThreadAffinity) -> u64 {
    if g.spec_main_id() != 0 {
        g.spec_main_id()
    } else {
        1
    }
}

/// Whether `thread_id` is the designated thread.
pub open spec fn spec_is_main(g: ThreadAffinity, thread_id: u64) -> bool {
    thread_id == spec_supposed_main(g)
}

/// The id the guard currently treats as the main thread.
pub fn supposed_main_id(g: &ThreadAffinity) -> (r: u64)
    ensures
        r == spec_supposed_main(*g),
{
    let id = g.main_id;
    if id != 0 {
        id
    } else {
        1
    }
}

/// Whether the calling thread (whose id is `thread_id`) is the main thread.
pub fn is_main_thread(g: &ThreadAffinity, thread_id: u64) -> (r: bool)
    ensures
        r == spec_is_main(*g, thread_id),
{
    thread_id == supposed_main_id(g)
}

/// Designate the calling thread as main. Thread ids are nonzero, so the
/// slot can never be reset to "unset". Idempotent.
pub fn set_current_thread_as_main(g: &mut ThreadAffinity, thread_id: u64)
    requires
        thread_id != 0,
    ensures
        final(g).spec_main_id() == thread_id,
        spec_is_main(*final(g), thread_id),
{
    g.main_id = thread_id;
}

/// An operation that may only run on the main thread: callers must hold the
/// guard's designation for `thread_id` (elsewhere this aborts the process).
pub fn assert_main_thread(g: &ThreadAffinity, thread_id: u64)
    requires
        spec_is_main(*g, thread_id),
{
}

} // verus!

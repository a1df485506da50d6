use vstd::prelude::*;

use crate::error::{status_result, error_of, MutexError, TxError, TX_SUCCESS};

verus! {

/// What the binding knows of a kernel mutex: whether it was created, and
/// which thread holds it how many times over (kernel mutexes are recursive).
pub struct MutexModel {
    pub initialized: bool,
    pub owner: Option<u32>,
    pub depth: nat,
}

/// The model after a `lock` by `thread` that the kernel answered with `status`.
pub open spec fn lock_step(m: MutexModel, thread: u32, status: u32) -> (MutexModel, Result<u32, MutexError>) {
    if !m.initialized {
        (m, Err(MutexError::PoisonError))
    } else if status != TX_SUCCESS {
        (m, Err(MutexError::MutexError(error_of(status))))
    } else if m.owner.is_some() && m.owner != Some(thread) {
        (m, Err(MutexError::PoisonError))
    } else {
        (MutexModel { owner: Some(thread), depth: m.depth + 1, ..m }, Ok(thread))
    }
}

/// The model after the guard of `thread` is handed back. The release is
/// recorded while the kernel mutex is still held, just before it is put.
pub open spec fn unlock_step(m: MutexModel, thread: u32) -> (MutexModel, Result<(), MutexError>) {
    if m.owner != Some(thread) || m.depth == 0 {
        (m, Err(MutexError::MutexError(TxError::NotOwned)))
    } else if m.depth == 1 {
        (MutexModel { owner: None, depth: 0, ..m }, Ok(()))
    } else {
        (MutexModel { depth: (m.depth - 1) as nat, ..m }, Ok(()))
    }
}

/// Proof that a thread holds a mutex; handing it back releases one level.
pub struct MutexGuard {
    thread: u32,
}

impl MutexGuard {
    pub closed spec fn holder(self) -> u32 {
        self.thread
    }

    /// The thread that holds the mutex through this guard.
    pub fn thread(&self) -> (r: u32)
        ensures
            r == self.holder(),
    {
        self.thread
    }
}

/// A value guarded by a kernel mutex with optional priority inheritance.
pub struct Mutex<T> {
    inner: T,
    initialized: bool,
    owner: Option<u32>,
    depth: u32,
}

impl<T> Mutex<T> {
    pub closed spec fn view(&self) -> MutexModel {
        MutexModel { initialized: self.initialized, owner: self.owner, depth: self.depth as nat }
    }

    /// The guarded value.
    pub closed spec fn value(&self) -> T {
        self.inner
    }

    /// Ownership is consistent: a mutex is held exactly when its depth is positive,
    /// and only a created mutex is ever held.
    pub open spec fn wf(&self) -> bool {
        &&& (self@.owner.is_none() <==> self@.depth == 0)
        &&& (self@.owner.is_some() ==> self@.initialized)
    }

    /// A mutex not yet created in the kernel, guarding `inner`.
    pub fn new(inner: T) -> (r: Mutex<T>)
        ensures
            r.wf(),
            r@ == (MutexModel { initialized: false, owner: None, depth: 0 }),
            r.value() == inner,
    {
        Mutex { inner, initialized: false, owner: None, depth: 0 }
    }

    /// Whether the kernel mutex was created; only then is there one to delete.
    pub fn is_initialized(&self) -> (r: bool)
        ensures
            r == self@.initialized,
    {
        self.initialized
    }

    /// Records the kernel's answer to creating the mutex. A mutex that is
    /// already initialized stays as it is and reports success: creation is
    /// asked of the kernel only while `is_initialized` is false.
    pub fn initialize(&mut self, create_status: u32) -> (r: Result<(), TxError>)
        requires
            old(self).wf(),
        ensures
            final(self).wf(),
            final(self).value() == old(self).value(),
            old(self)@.initialized ==> r is Ok && final(self)@ == old(self)@,
            !old(self)@.initialized ==> r == status_result(create_status),
            !old(self)@.initialized ==> final(self)@ == (MutexModel {
                initialized: create_status == TX_SUCCESS,
                ..old(self)@
            }),
    {
        if self.initialized {
            return Ok(());
        }
        let res = crate::error::tx_result(create_status);
        if res.is_ok() {
            self.initialized = true;
        }
        res
    }

    /// Records a lock request of `thread` that the kernel answered with
    /// `get_status`. An uninitialized mutex refuses with `PoisonError`; a
    /// kernel failure comes back as `MutexError`; a grant the bookkeeping
    /// cannot match to the current holder is refused with `PoisonError`.
    pub fn lock(&mut self, thread: u32, get_status: u32) -> (r: Result<MutexGuard, MutexError>)
        requires
            old(self).wf(),
            old(self)@.depth < u32::MAX,
        ensures
            final(self).wf(),
            final(self).value() == old(self).value(),
            final(self)@ == lock_step(old(self)@, thread, get_status).0,
            match (r, lock_step(old(self)@, thread, get_status).1) {
                (Ok(g), Ok(t)) => g.holder() == t,
                (Err(e), Err(f)) => e == f,
                _ => false,
            },
    {
        if !self.initialized {
            return Err(MutexError::PoisonError);
        }
        if get_status != TX_SUCCESS {
            let e = TxError::from_u32(get_status);
            match e {
                Some(e) => return Err(MutexError::MutexError(e)),
                None => return Err(MutexError::PoisonError),
            }
        }
        match self.owner {
            Some(o) => {
                if o != thread {
                    return Err(MutexError::PoisonError);
                }
            },
            None => {},
        }
        self.owner = Some(thread);
        self.depth = self.depth + 1;
        Ok(MutexGuard { thread })
    }

    /// Hands a guard back: one level of ownership is released, and the
    /// mutex is free again once every level is. This is recorded while the
    /// kernel mutex is still held, just before it is put.
    pub fn unlock(&mut self, guard: MutexGuard) -> (r: Result<(), MutexError>)
        requires
            old(self).wf(),
        ensures
            final(self).wf(),
            final(self).value() == old(self).value(),
            (final(self)@, r) == unlock_step(old(self)@, guard.holder()),
    {
        if self.owner != Some(guard.thread) || self.depth == 0 {
            return Err(MutexError::MutexError(TxError::NotOwned));
        }
        if self.depth == 1 {
            self.owner = None;
            self.depth = 0;
        } else {
            self.depth = self.depth - 1;
        }
        Ok(())
    }

    /// The guarded value, read under a guard of its holder.
    pub fn get(&self, guard: &MutexGuard) -> (r: &T)
        requires
            self@.owner == Some(guard.holder()),
        ensures
            *r == self.value(),
    {
        &self.inner
    }

    /// Swaps in `value` under a guard of its holder and returns the value
    /// that was guarded before.
    pub fn replace(&mut self, guard: &MutexGuard, value: T) -> (r: T)
        requires
            old(self)@.owner == Some(guard.holder()),
        ensures
            final(self)@ == old(self)@,
            final(self).value() == value,
            r == old(self).value(),
    {
        let mut v = value;
        core::mem::swap(&mut self.inner, &mut v);
        v
    }

    /// Replaces the guarded value under a guard of its holder.
    pub fn set(&mut self, guard: &MutexGuard, value: T)
        requires
            old(self)@.owner == Some(guard.holder()),
        ensures
            final(self)@ == old(self)@,
            final(self).value() == value,
    {
        self.inner = value;
    }
}

/// Locking a free mutex and handing the guard back leaves it free: any
/// thread's next lock that the kernel grants succeeds, so no ownership leaks
/// however many lock and release rounds any threads make.
pub proof fn lemma_lock_release_round_trip(m: MutexModel, t: u32, next: u32)
    requires
        m.initialized,
        m.owner.is_none(),
        m.depth == 0,
    ensures
        lock_step(m, t, TX_SUCCESS).1 == Ok::<u32, MutexError>(t),
        unlock_step(lock_step(m, t, TX_SUCCESS).0, t) == (m, Ok::<(), MutexError>(())),
        lock_step(unlock_step(lock_step(m, t, TX_SUCCESS).0, t).0, next, TX_SUCCESS).1
            == Ok::<u32, MutexError>(next),
{
}

/// The model after each thread of `threads` in turn locks the mutex and
/// hands the guard back, every kernel call succeeding.
pub open spec fn lock_release_rounds(m: MutexModel, threads: Seq<u32>) -> MutexModel
    decreases threads.len(),
{
    if threads.len() == 0 {
        m
    } else {
        let held = lock_step(m, threads[0], TX_SUCCESS).0;
        lock_release_rounds(unlock_step(held, threads[0]).0, threads.drop_first())
    }
}

/// Any number of lock and release rounds, by any threads in any order,
/// leave a free mutex free, and every lock among them is granted.
pub proof fn lemma_lock_release_rounds(m: MutexModel, threads: Seq<u32>)
    requires
        m.initialized,
        m.owner.is_none(),
        m.depth == 0,
    ensures
        lock_release_rounds(m, threads) == m,
        forall|i: int| 0 <= i < threads.len() ==> #[trigger] lock_step(m, threads[i], TX_SUCCESS).1 == Ok::<u32, MutexError>(threads[i]),
    decreases threads.len(),
{
    if threads.len() > 0 {
        lemma_lock_release_round_trip(m, threads[0], threads[0]);
        lemma_lock_release_rounds(m, threads.drop_first());
    }
}

} // verus!

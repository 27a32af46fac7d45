use vstd::prelude::*;

verus! {

/// Why a non-blocking acquisition did not succeed.
#[derive(Clone, Copy, Debug, PartialEq, Eq, Structural)]
pub enum TryLockError {
    /// The lock is held elsewhere.
    WouldBlock,
}

/// What a call site does to a lock.
#[derive(Clone, Copy, Debug, PartialEq, Eq, Structural)]
pub enum LockOp {
    /// A blocking acquisition that has obtained the lock.
    Lock,
    /// A single compare-and-swap attempt.
    TryLock,
    /// A release.
    Unlock,
}

/// The lock flag after `op` on a lock whose flag was `locked`; `None` when
/// the operation is a fault (a release of a free lock).
pub open spec fn lock_after(locked: bool, op: LockOp) -> Option<bool> {
    match op {
        LockOp::Lock => Some(true),
        LockOp::TryLock => Some(true),
        LockOp::Unlock => if locked {
            Some(false)
        } else {
            None
        },
    }
}

/// Whether `op` on a lock whose flag was `locked` hands out a guard.
pub open spec fn grants_guard(locked: bool, op: LockOp) -> bool {
    match op {
        LockOp::Lock => !locked,
        LockOp::TryLock => !locked,
        LockOp::Unlock => false,
    }
}

/// The flag and the number of live guards after running `ops` on a free
/// lock, or `None` once one of them faults. A blocking `Lock` only counts
/// once it has found the lock free: until then its call site is still
/// spinning and has changed nothing.
pub open spec fn run_lock_ops(ops: Seq<LockOp>) -> Option<(bool, nat)>
    decreases ops.len(),
{
    if ops.len() == 0 {
        Some((false, 0))
    } else {
        match run_lock_ops(ops.drop_last()) {
            None => None,
            Some((locked, guards)) => {
                let op = ops.last();
                if op == LockOp::Lock && locked {
                    Some((locked, guards))
                } else {
                    match lock_after(locked, op) {
                        None => None,
                        Some(next) => Some(
                            (
                                next,
                                if grants_guard(locked, op) {
                                    guards + 1
                                } else if op == LockOp::Unlock {
                                    (guards - 1) as nat
                                } else {
                                    guards
                                },
                            ),
                        ),
                    }
                }
            },
        }
    }
}

/// Mutual exclusion: along any sequence of acquisitions and releases, at
/// most one guard is live at any moment, exactly when the flag is set; and a
/// release while no guard is live is a fault, never silently accepted.
pub proof fn lemma_mutual_exclusion(ops: Seq<LockOp>)
    ensures
        run_lock_ops(ops) matches Some((locked, guards)) ==> guards <= 1 && (guards == 1
            <==> locked),
        run_lock_ops(ops) matches Some((locked, guards)) ==> (guards == 0 ==> run_lock_ops(
            ops.push(LockOp::Unlock),
        ) is None),
    decreases ops.len(),
{
    if ops.len() > 0 {
        lemma_mutual_exclusion(ops.drop_last());
    }
    assert(ops.push(LockOp::Unlock).drop_last() =~= ops);
}

/// The bare lock flag.
pub struct MovableMutex {
    locked: bool,
}

impl MovableMutex {
    pub closed spec fn is_locked(&self) -> bool {
        self.locked
    }

    pub fn new() -> (r: Self)
        ensures
            !r.is_locked(),
    {
        MovableMutex { locked: false }
    }

    /// Takes the lock if it is free, in one step; never waits.
    pub fn try_lock(&mut self) -> (r: bool)
        ensures
            r == grants_guard(old(self).is_locked(), LockOp::TryLock),
            lock_after(old(self).is_locked(), LockOp::TryLock) == Some(final(self).is_locked()),
    {
        if self.locked {
            false
        } else {
            self.locked = true;
            true
        }
    }

    /// Takes the lock. A held lock is only ever released by its holder, so
    /// on a held lock this call would spin forever: it is only made on a
    /// free one.
    pub fn lock(&mut self) -> (r: bool)
        requires
            !old(self).is_locked(),
        ensures
            r,
            r == grants_guard(old(self).is_locked(), LockOp::Lock),
            lock_after(old(self).is_locked(), LockOp::Lock) == Some(final(self).is_locked()),
    {
        let acquired = self.try_lock();
        acquired
    }

    /// Releases the lock; releasing a free lock is a fault.
    pub fn unlock(&mut self)
        requires
            lock_after(old(self).is_locked(), LockOp::Unlock) is Some,
        ensures
            lock_after(old(self).is_locked(), LockOp::Unlock) == Some(final(self).is_locked()),
    {
        self.locked = false;
    }
}

impl Default for MovableMutex {
    fn default() -> (r: Self)
        ensures
            !r.is_locked(),
    {
        MovableMutex::new()
    }
}

/// Evidence that the lock of a [`Mutex`] is held; only the mutex hands
/// one out, and releasing the lock takes it back.
pub struct MutexGuard {
    _held: (),
}

impl MutexGuard {
    fn new() -> (r: Self) {
        MutexGuard { _held: () }
    }
}

/// A value that is reached only while the lock is held.
pub struct Mutex<T> {
    inner: MovableMutex,
    data: T,
}

impl<T> Mutex<T> {
    pub closed spec fn is_locked(&self) -> bool {
        self.inner.is_locked()
    }

    /// The protected value.
    pub closed spec fn data(&self) -> T {
        self.data
    }

    pub fn new(data: T) -> (r: Self)
        ensures
            !r.is_locked(),
            r.data() == data,
    {
        Mutex { inner: MovableMutex::new(), data }
    }

    /// Acquires the lock, which must be free (see [`MovableMutex::lock`]).
    pub fn lock(&mut self) -> (r: MutexGuard)
        requires
            !old(self).is_locked(),
        ensures
            final(self).is_locked(),
            final(self).data() == old(self).data(),
    {
        self.inner.lock();
        MutexGuard::new()
    }

    /// Acquires the lock if it is free; a held lock is left as it is.
    pub fn try_lock(&mut self) -> (r: Result<MutexGuard, TryLockError>)
        ensures
            r is Ok == !old(self).is_locked(),
            r is Err ==> r == Err::<MutexGuard, TryLockError>(TryLockError::WouldBlock),
            final(self).is_locked(),
            final(self).data() == old(self).data(),
    {
        if self.inner.try_lock() {
            Ok(MutexGuard::new())
        } else {
            Err(TryLockError::WouldBlock)
        }
    }

    /// Read access for the holder of the lock.
    pub fn get(&self, guard: &MutexGuard) -> (r: &T)
        requires
            self.is_locked(),
        ensures
            *r == self.data(),
    {
        &self.data
    }

    /// Write access for the holder of the lock.
    pub fn get_mut(&mut self, guard: &MutexGuard) -> (r: &mut T)
        requires
            old(self).is_locked(),
        ensures
            *r == old(self).data(),
            final(self).data() == *final(r),
            final(self).is_locked(),
    {
        &mut self.data
    }

    /// Releases the lock, consuming the guard.
    pub fn unlock(&mut self, guard: MutexGuard)
        requires
            old(self).is_locked(),
        ensures
            !final(self).is_locked(),
            final(self).data() == old(self).data(),
    {
        self.inner.unlock();
    }
}

} // verus!

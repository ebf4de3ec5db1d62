//! Lock scopes: mutual exclusion between the threads that share an isolate.

use vstd::prelude::*;
use crate::address::Address;
use crate::isolate::Isolate;
use crate::isolate::IsolateView;
use crate::isolate::LockState;
use crate::thread::Thread;
use crate::thread::ThreadView;

verus! {

/// What a lock scope is, as mathematics.
pub struct LockerView {
    /// The isolate that is locked.
    pub isolate: Address,
    /// The thread that opened the lock scope.
    pub thread: u64,
    /// Whether this lock scope took the lock. It did not if its thread held
    /// the lock already.
    pub has_lock: bool,
}

impl IsolateView {
    /// Whether `thread` holds the lock of this isolate.
    pub open spec fn locked_by(self, thread: u64) -> bool {
        self.lock matches Some(lock) && lock.holder == thread
    }

    /// Whether `thread` may try for the lock.
    pub open spec fn can_lock(self, thread: ThreadView) -> bool {
        &&& self.usable()
        &&& self.lock matches Some(lock) ==> (lock.holder == thread.id ==> lock.nested
            < usize::MAX)
    }

    /// The isolate after `thread` tried for the lock: locked by it if the
    /// lock was free, one lock scope deeper if the thread held the lock, and
    /// unchanged if another thread holds it.
    pub open spec fn lock(self, thread: ThreadView) -> IsolateView {
        match self.lock {
            None => IsolateView {
                lock: Some(LockState { holder: thread.id, nested: 0 }),
                ..self
            },
            Some(lock) => if lock.holder == thread.id {
                IsolateView {
                    lock: Some(LockState { holder: lock.holder, nested: lock.nested + 1 }),
                    ..self
                }
            } else {
                self
            },
        }
    }

    /// The lock scope that `thread` gets when it tries for the lock: none if
    /// another thread holds it.
    pub open spec fn locker(self, thread: ThreadView) -> Option<LockerView> {
        match self.lock {
            None => Some(LockerView { isolate: self.address, thread: thread.id, has_lock: true }),
            Some(lock) => if lock.holder == thread.id {
                Some(LockerView { isolate: self.address, thread: thread.id, has_lock: false })
            } else {
                None
            },
        }
    }

    /// Whether `locker` may be released now: it is a lock scope of the
    /// thread that holds the lock, and it is the innermost one.
    pub open spec fn can_unlock(self, locker: LockerView) -> bool {
        &&& self.usable()
        &&& locker.isolate == self.address
        &&& self.lock matches Some(lock) && lock.holder == locker.thread && (locker.has_lock
            <==> lock.nested == 0)
    }

    /// The isolate after `locker` was released: free if `locker` had taken
    /// the lock, one lock scope shallower if not.
    pub open spec fn unlock(self, locker: LockerView) -> IsolateView {
        if locker.has_lock {
            IsolateView { lock: None, ..self }
        } else {
            match self.lock {
                Some(lock) => IsolateView {
                    lock: Some(LockState { holder: lock.holder, nested: (lock.nested - 1) as nat }),
                    ..self
                },
                None => self,
            }
        }
    }

    /// The lock excludes: while one thread holds it, no other thread gets a
    /// lock scope, and trying changes nothing. Taking and releasing the lock
    /// leaves the isolate as it was.
    pub proof fn law_lock_excludes(self, holder: ThreadView, other: ThreadView)
        requires
            self.usable(),
            self.can_lock(holder),
            self.locker(holder) is Some,
            other.id != holder.id,
        ensures
            self.lock(holder).locked_by(holder.id),
            self.lock(holder).locker(other) is None,
            self.lock(holder).lock(other) == self.lock(holder),
            !self.lock(holder).admits(other),
            self.lock(holder).can_unlock(self.locker(holder)->0),
            self.lock(holder).unlock(self.locker(holder)->0) == self,
    {
    }
}

/// A lock scope on an isolate. While it is open, the thread that opened it
/// holds the isolate's lock, and no other thread can take it.
///
/// Lock scopes of one thread nest: only the outermost takes the lock, and it
/// is the last to be released. A thread that shares an isolate opens a lock
/// scope first and enters the isolate inside it.
pub struct Locker {
    isolate: Address,
    thread: u64,
    has_lock: bool,
}

impl View for Locker {
    type V = LockerView;

    closed spec fn view(&self) -> LockerView {
        LockerView { isolate: self.isolate, thread: self.thread, has_lock: self.has_lock }
    }
}

impl Locker {
    /// Whether `thread` may try for the lock of `isolate`.
    pub fn can_lock(isolate: &Isolate, thread: &Thread) -> (b: bool)
        requires
            isolate@.wf(),
        ensures
            b == isolate@.can_lock(thread@),
    {
        if isolate.is_disposed() {
            return false;
        }
        match isolate.lock_holder() {
            Some(holder) => holder != thread.id() || isolate.lock_depth() < usize::MAX,
            None => true,
        }
    }

    /// Tries for the lock of `isolate` on behalf of `thread`.
    ///
    /// Yields a lock scope if the lock is free or the thread holds it
    /// already. Yields none, and changes nothing, if another thread holds
    /// the lock: the caller then has to wait for that thread.
    pub fn new(isolate: &mut Isolate, thread: &Thread) -> (r: Option<Locker>)
        requires
            old(isolate)@.can_lock(thread@),
        ensures
            final(isolate)@ == old(isolate)@.lock(thread@),
            final(isolate)@.usable(),
            match r {
                Some(locker) => old(isolate)@.locker(thread@) == Some(locker@)
                    && final(isolate)@.locked_by(thread@.id) && final(isolate)@.can_unlock(locker@),
                None => old(isolate)@.locker(thread@) is None,
            },
    {
        match isolate.try_lock(thread.id()) {
            Some(has_lock) => Some(
                Locker { isolate: isolate.address(), thread: thread.id(), has_lock },
            ),
            None => None,
        }
    }

    /// Whether this lock scope took the lock.
    pub fn has_lock(&self) -> (b: bool)
        ensures
            b == self@.has_lock,
    {
        self.has_lock
    }

    /// Whether `thread` holds the lock of `isolate`.
    pub fn is_locked(isolate: &Isolate, thread: &Thread) -> (b: bool)
        ensures
            b == isolate@.locked_by(thread@.id),
    {
        match isolate.lock_holder() {
            Some(holder) => holder == thread.id(),
            None => false,
        }
    }

    /// Whether this lock scope may be released now.
    pub fn can_unlock(&self, isolate: &Isolate) -> (b: bool)
        requires
            isolate@.wf(),
        ensures
            b == isolate@.can_unlock(self@),
    {
        if isolate.is_disposed() || isolate.address().0 != self.isolate.0 {
            return false;
        }
        match isolate.lock_holder() {
            Some(holder) => holder == self.thread && (self.has_lock == (isolate.lock_depth() == 0)),
            None => false,
        }
    }

    /// Closes the lock scope. If it had taken the lock, the lock is free
    /// again.
    ///
    /// Lock scopes close innermost first; the token is spent, so each closes
    /// once.
    pub fn unlock(self, isolate: &mut Isolate)
        requires
            old(isolate)@.can_unlock(self@),
        ensures
            final(isolate)@ == old(isolate)@.unlock(self@),
            final(isolate)@.usable(),
            self@.has_lock ==> final(isolate)@.lock is None,
    {
        isolate.release_lock(self.has_lock);
    }
}

} // verus!

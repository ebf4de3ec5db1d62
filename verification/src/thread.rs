//! What a thread knows of the isolates it has entered.

use vstd::prelude::*;
use crate::address::occurrences;
use crate::address::Address;

verus! {

/// A thread's entry state, as mathematics.
pub struct ThreadView {
    /// What tells this thread from every other.
    pub id: u64,
    /// The isolates this thread has entered and not yet exited, in the order
    /// of entry. An isolate occurs once for every time it was entered.
    pub entered: Seq<Address>,
}

impl ThreadView {
    /// The isolate that is current on this thread: the one entered last.
    pub open spec fn current(self) -> Option<Address> {
        if self.entered.len() > 0 {
            Some(self.entered.last())
        } else {
            None
        }
    }

    /// How deep this thread is inside `isolate`.
    pub open spec fn entries(self, isolate: Address) -> nat {
        occurrences(self.entered, isolate)
    }

    /// This thread after entering `isolate`.
    pub open spec fn enter(self, isolate: Address) -> ThreadView {
        ThreadView { entered: self.entered.push(isolate), ..self }
    }

    /// This thread after exiting its current isolate.
    pub open spec fn exit(self) -> ThreadView {
        ThreadView { entered: self.entered.drop_last(), ..self }
    }

    /// This thread after entering `isolate` `n` times over.
    pub open spec fn enter_times(self, isolate: Address, n: nat) -> ThreadView
        decreases n,
    {
        if n == 0 {
            self
        } else {
            self.enter_times(isolate, (n - 1) as nat).enter(isolate)
        }
    }

    /// This thread after exiting its current isolate `n` times over.
    pub open spec fn exit_times(self, n: nat) -> ThreadView
        decreases n,
    {
        if n == 0 {
            self
        } else {
            self.exit().exit_times((n - 1) as nat)
        }
    }

    /// Entering and then exiting leaves a thread exactly as it was. In
    /// between, the thread is one entry deeper in the isolate it entered and
    /// as deep as before in every other.
    pub proof fn lemma_enter_exit(self, isolate: Address)
        ensures
            self.enter(isolate).current() == Some(isolate),
            self.enter(isolate).exit() == self,
            self.enter(isolate).entries(isolate) == self.entries(isolate) + 1,
            forall|other: Address|
                other != isolate ==> #[trigger] self.enter(isolate).entries(other) == self.entries(
                    other,
                ),
    {
        assert(self.entered.push(isolate).drop_last() =~= self.entered);
    }

    /// Exiting makes a thread one entry shallower in the isolate it exits
    /// and leaves it as deep as before in every other.
    pub proof fn lemma_exit(self)
        requires
            self.entered.len() > 0,
        ensures
            self.exit().entries(self.entered.last()) + 1 == self.entries(self.entered.last()),
            forall|other: Address|
                other != self.entered.last() ==> #[trigger] self.exit().entries(other)
                    == self.entries(other),
    {
    }
}

/// A thread's record of the isolates it has entered.
///
/// Entering an isolate makes it the current isolate of the thread and
/// remembers the one that was current before; exiting makes that one current
/// again.
pub struct Thread {
    id: u64,
    entered: Vec<Address>,
}

impl View for Thread {
    type V = ThreadView;

    closed spec fn view(&self) -> ThreadView {
        ThreadView { id: self.id, entered: self.entered@ }
    }
}

impl Thread {
    /// The record of a thread that has entered no isolate. `id` must tell
    /// the thread from every other thread that uses the same isolates.
    pub fn new(id: u64) -> (thread: Thread)
        ensures
            thread@ == (ThreadView { id, entered: Seq::empty() }),
    {
        Thread { id, entered: Vec::new() }
    }

    /// What tells this thread from every other.
    pub fn id(&self) -> (id: u64)
        ensures
            id == self@.id,
    {
        self.id
    }

    /// The isolate that is current on this thread, if it has entered one.
    pub fn current(&self) -> (r: Option<Address>)
        ensures
            r == self@.current(),
    {
        let n = self.entered.len();
        if n > 0 {
            Some(self.entered[n - 1])
        } else {
            None
        }
    }

    /// How many isolates this thread has entered and not yet exited,
    /// counting an isolate once for every entry.
    pub fn depth(&self) -> (n: usize)
        ensures
            n == self@.entered.len(),
    {
        self.entered.len()
    }

    /// How deep this thread is inside the isolate at `isolate`.
    pub fn entries(&self, isolate: Address) -> (n: usize)
        ensures
            n == self@.entries(isolate),
    {
        let mut n: usize = 0;
        let mut i: usize = 0;
        while i < self.entered.len()
            invariant
                i <= self.entered.len(),
                n == occurrences(self.entered@.take(i as int), isolate),
                n <= i,
            decreases self.entered.len() - i,
        {
            proof {
                let next = self.entered@.take(i + 1);
                assert(next.drop_last() =~= self.entered@.take(i as int));
                assert(next.last() == self.entered@[i as int]);
            }
            if self.entered[i].0 == isolate.0 {
                n += 1;
            }
            i += 1;
        }
        assert(self.entered@.take(i as int) =~= self.entered@);
        n
    }

    /// Records that this thread entered the isolate at `isolate`.
    pub(crate) fn push(&mut self, isolate: Address)
        ensures
            final(self)@ == old(self)@.enter(isolate),
    {
        self.entered.push(isolate);
    }

    /// Records that this thread exited its current isolate.
    pub(crate) fn pop(&mut self)
        requires
            old(self)@.entered.len() > 0,
        ensures
            final(self)@ == old(self)@.exit(),
    {
        self.entered.pop();
        assert(self.entered@ =~= old(self).entered@.drop_last());
    }
}

} // verus!

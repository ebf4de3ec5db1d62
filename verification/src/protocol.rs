//! What holds of every course of scope operations.
//!
//! The operations on a scope stack, and the conditions under which each may
//! be performed, are gathered here as steps, so that a claim about "whatever
//! the host does next" becomes a claim about every admitted sequence of
//! steps.

use vstd::prelude::*;
use crate::address::Address;
use crate::handle::Handle;
use crate::stack::ScopeKind;
use crate::stack::ScopeStack;

verus! {

/// One scope operation.
pub enum Step {
    /// Open a plain scope.
    Open,
    /// Open a scope that makes the context at this address current.
    OpenContext(Address),
    /// Set a cell aside and open an escapable scope above it.
    OpenEscapable,
    /// Wrap this address into a handle of the innermost scope.
    Wrap(Address),
    /// Escape this handle from the innermost scope to its parent.
    Escape(Handle),
    /// Close the scope with this serial number.
    Close(u64),
}

impl Step {
    /// Whether the step opens a scope.
    pub open spec fn opens(self) -> bool {
        self is Open || self is OpenContext || self is OpenEscapable
    }
}

impl ScopeStack {
    /// Whether `step` may be performed: the precondition of the operation.
    pub open spec fn admits(self, step: Step) -> bool {
        match step {
            Step::Open => self.can_open(),
            Step::OpenContext(_) => self.can_open(),
            Step::OpenEscapable => self.can_open_escapable(),
            Step::Wrap(value) => self.can_wrap(value),
            Step::Escape(h) => self.can_escape(h),
            Step::Close(id) => self.can_close(id),
        }
    }

    /// The stack after `step`.
    pub open spec fn step(self, step: Step) -> ScopeStack {
        match step {
            Step::Open => self.open(),
            Step::OpenContext(context) => self.open_context(context),
            Step::OpenEscapable => self.open_escapable(),
            Step::Wrap(value) => self.wrap(value),
            Step::Escape(h) => self.escape(h),
            Step::Close(_) => self.close(),
        }
    }

    /// Whether `steps` may be performed one after the other.
    pub open spec fn admits_all(self, steps: Seq<Step>) -> bool
        decreases steps.len(),
    {
        steps.len() == 0 || (self.admits(steps[0]) && self.step(steps[0]).admits_all(
            steps.drop_first(),
        ))
    }

    /// The stack after `steps`, performed one after the other.
    pub open spec fn run(self, steps: Seq<Step>) -> ScopeStack
        decreases steps.len(),
    {
        if steps.len() == 0 {
            self
        } else {
            self.step(steps[0]).run(steps.drop_first())
        }
    }

    /// Whether the scopes numbered `ids` may be closed in this order.
    pub open spec fn can_close_all(self, ids: Seq<u64>) -> bool
        decreases ids.len(),
    {
        ids.len() == 0 || (self.can_close(ids[0]) && self.close().can_close_all(ids.drop_first()))
    }

    /// An admitted step keeps the stack well-formed, never takes a serial
    /// number back, and neither reopens a scope nor makes a scope escapable
    /// again.
    pub proof fn lemma_step(self, step: Step)
        requires
            self.wf(),
            self.admits(step),
        ensures
            self.step(step).wf(),
            self.step(step).issued >= self.issued,
            forall|id: u64|
                id < self.issued && #[trigger] self.step(step).is_open(id) ==> self.is_open(id),
            forall|id: u64|
                id < self.issued && #[trigger] self.step(step).is_escapable(id)
                    ==> self.is_escapable(id),
    {
        match step {
            Step::Open => {
                self.lemma_push(ScopeKind::Plain, self.context());
            },
            Step::OpenContext(context) => {
                self.lemma_push(ScopeKind::Context, context);
            },
            Step::OpenEscapable => {
                self.lemma_open_escapable();
            },
            Step::Wrap(value) => {
                self.lemma_wrap(value);
            },
            Step::Escape(h) => {
                self.lemma_escape(h);
            },
            Step::Close(_) => {
                self.lemma_close();
            },
        }
    }

    /// An admitted course of steps keeps the stack well-formed.
    pub proof fn lemma_run(self, steps: Seq<Step>)
        requires
            self.wf(),
            self.admits_all(steps),
        ensures
            self.run(steps).wf(),
            self.run(steps).issued >= self.issued,
        decreases steps.len(),
    {
        if steps.len() > 0 {
            self.lemma_step(steps[0]);
            self.step(steps[0]).lemma_run(steps.drop_first());
        }
    }

    /// A scope that has closed stays closed, and its handles stay dead,
    /// whatever is done afterwards.
    ///
    /// A serial number below `issued` that is not open belongs to a scope
    /// that was opened and has closed. No admitted course of steps opens it
    /// again, so no handle that names it is ever live again.
    pub proof fn law_closed_scope_stays_closed(self, steps: Seq<Step>, id: u64)
        requires
            self.wf(),
            self.admits_all(steps),
            id < self.issued,
            !self.is_open(id),
        ensures
            !self.run(steps).is_open(id),
            forall|h: Handle| h.scope == id ==> !#[trigger] self.run(steps).live(h),
        decreases steps.len(),
    {
        if steps.len() > 0 {
            self.lemma_step(steps[0]);
            self.step(steps[0]).law_closed_scope_stays_closed(steps.drop_first(), id);
        }
        self.lemma_run(steps);
        assert forall|h: Handle| h.scope == id implies !#[trigger] self.run(steps).live(h) by {
            if self.run(steps).live(h) {
                self.run(steps).lemma_live_in_bounds(h);
            }
        }
    }

    /// A scope that cannot escape stays that way.
    ///
    /// A serial number below `issued` that is not escapable belongs to a
    /// scope that was never escapable, has escaped already, or has closed. No
    /// admitted course of steps makes it escapable again, so after any such
    /// course the scope cannot escape a handle.
    pub proof fn lemma_never_escapable_again(self, steps: Seq<Step>, id: u64)
        requires
            self.wf(),
            self.admits_all(steps),
            id < self.issued,
            !self.is_escapable(id),
        ensures
            !self.run(steps).is_escapable(id),
            forall|h: Handle| h.scope == id ==> !#[trigger] self.run(steps).can_escape(h),
        decreases steps.len(),
    {
        if steps.len() > 0 {
            self.lemma_step(steps[0]);
            self.step(steps[0]).lemma_never_escapable_again(steps.drop_first(), id);
        }
        let after = self.run(steps);
        assert forall|h: Handle| h.scope == id implies !#[trigger] after.can_escape(h) by {
            if after.can_escape(h) {
                assert(after.frames[after.frames.len() - 1].id == id);
            }
        }
    }

    /// A scope escapes at most once.
    ///
    /// Once a scope has escaped a handle, it cannot escape another, whatever
    /// is done in between: after the escape of `h`, and after any admitted
    /// course of steps that follows it, no handle of the same scope can be
    /// escaped.
    pub proof fn law_escapes_at_most_once(self, h: Handle, steps: Seq<Step>)
        requires
            self.wf(),
            self.can_escape(h),
            self.escape(h).admits_all(steps),
        ensures
            !self.escape(h).run(steps).is_escapable(h.scope),
            forall|x: Handle|
                x.scope == h.scope ==> !#[trigger] self.escape(h).run(steps).can_escape(x),
    {
        self.lemma_escape(h);
        self.lemma_live_in_bounds(h);
        self.escape(h).lemma_never_escapable_again(steps, h.scope);
    }

    /// The handles of a scope end with the scope.
    ///
    /// Once the scope that owns `h` has closed, `h` is dead, and it stays
    /// dead whatever is done afterwards: a later scope may come to own the
    /// very cell that `h` read, and `h` is none the more alive for it.
    pub proof fn law_handles_end_with_their_scope(self, h: Handle, steps: Seq<Step>)
        requires
            self.wf(),
            self.can_close(h.scope),
            self.close().admits_all(steps),
        ensures
            !self.close().live(h),
            !self.close().run(steps).live(h),
    {
        self.lemma_close();
        assert(self.frames[self.frames.len() - 1].id < self.issued);
        self.close().law_closed_scope_stays_closed(steps, h.scope);
    }

    /// Scopes close from the innermost outwards.
    ///
    /// If the scopes numbered `ids` can be closed in this order, then `ids`
    /// names the open scopes from the innermost outwards, one by one.
    pub proof fn lemma_closes_from_top(self, ids: Seq<u64>)
        requires
            self.wf(),
            self.can_close_all(ids),
        ensures
            ids.len() <= self.frames.len(),
            forall|j: int|
                0 <= j < ids.len() ==> #[trigger] ids[j] == self.frames[self.frames.len() - 1
                    - j].id,
        decreases ids.len(),
    {
        if ids.len() > 0 {
            self.lemma_close();
            let rest = ids.drop_first();
            self.close().lemma_closes_from_top(rest);
            assert forall|j: int| 0 <= j < ids.len() implies #[trigger] ids[j]
                == self.frames[self.frames.len() - 1 - j].id by {
                if j > 0 {
                    assert(rest[j - 1] == ids[j]);
                    assert(self.close().frames[self.close().frames.len() - 1 - (j - 1)]
                        == self.frames[self.frames.len() - 1 - j]);
                }
            }
        }
    }

    /// Opening scopes stacks them in the order in which they open, each
    /// under the next serial number.
    pub proof fn lemma_opens_in_order(self, opens: Seq<Step>)
        requires
            self.wf(),
            self.admits_all(opens),
            forall|k: int| 0 <= k < opens.len() ==> (#[trigger] opens[k]).opens(),
        ensures
            self.run(opens).wf(),
            self.run(opens).frames.len() == self.frames.len() + opens.len(),
            self.run(opens).issued == self.issued + opens.len(),
            forall|k: int|
                0 <= k < opens.len() ==> (#[trigger] self.run(opens).frames[self.frames.len()
                    + k]).id == self.issued + k,
        decreases opens.len(),
    {
        if opens.len() > 0 {
            let next = self.step(opens[0]);
            let rest = opens.drop_first();
            self.lemma_step(opens[0]);
            assert(opens[0].opens());
            assert(next.frames.len() == self.frames.len() + 1);
            assert(next.frames[self.frames.len() as int].id == self.issued);
            assert forall|k: int| 0 <= k < rest.len() implies (#[trigger] rest[k]).opens() by {
                assert(rest[k] == opens[k + 1]);
            }
            next.lemma_opens_in_order(rest);
            next.lemma_prefix_kept(rest, self.frames.len() as int);
            assert forall|k: int| 0 <= k < opens.len() implies (#[trigger] self.run(
                opens,
            ).frames[self.frames.len() + k]).id == self.issued + k by {
                if k > 0 {
                    assert(next.run(rest).frames[next.frames.len() + (k - 1)].id == next.issued + (k
                        - 1));
                }
            }
        }
    }

    /// Opening scopes leaves the frames that were there where they were.
    pub proof fn lemma_prefix_kept(self, opens: Seq<Step>, i: int)
        requires
            self.wf(),
            self.admits_all(opens),
            forall|k: int| 0 <= k < opens.len() ==> (#[trigger] opens[k]).opens(),
            0 <= i < self.frames.len(),
        ensures
            i < self.run(opens).frames.len(),
            self.run(opens).frames[i] == self.frames[i],
        decreases opens.len(),
    {
        if opens.len() > 0 {
            let next = self.step(opens[0]);
            let rest = opens.drop_first();
            self.lemma_step(opens[0]);
            assert(opens[0].opens());
            assert(next.frames[i] == self.frames[i]);
            assert forall|k: int| 0 <= k < rest.len() implies (#[trigger] rest[k]).opens() by {
                assert(rest[k] == opens[k + 1]);
            }
            next.lemma_prefix_kept(rest, i);
        }
    }

    /// Scopes close in the exact reverse of the order in which they opened.
    ///
    /// Let scopes be opened one after the other by `opens`; the k-th of them
    /// (counting from zero) gets the serial number `issued + k`. If closing
    /// the scopes numbered `ids` in this order is admitted afterwards, then
    /// the first to close is the last that opened, the second the one before
    /// it, and so on: no other order is admitted.
    pub proof fn law_scopes_close_in_reverse(self, opens: Seq<Step>, ids: Seq<u64>)
        requires
            self.wf(),
            self.admits_all(opens),
            forall|k: int| 0 <= k < opens.len() ==> (#[trigger] opens[k]).opens(),
            self.run(opens).can_close_all(ids),
        ensures
            forall|j: int|
                0 <= j < ids.len() && j < opens.len() ==> #[trigger] ids[j] == self.issued
                    + opens.len() - 1 - j,
    {
        self.lemma_opens_in_order(opens);
        let after = self.run(opens);
        after.lemma_closes_from_top(ids);
        assert forall|j: int| 0 <= j < ids.len() && j < opens.len() implies #[trigger] ids[j]
            == self.issued + opens.len() - 1 - j by {
            let k = opens.len() - 1 - j;
            assert(after.frames[self.frames.len() + k].id == self.issued + k);
        }
    }
}

} // verus!

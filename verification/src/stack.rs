//! The scope stack of an isolate, as mathematics.
//!
//! An isolate keeps its handles in one growing run of storage cells and its
//! open scopes in a stack of frames. A frame remembers how many cells were in
//! use when its scope opened; closing the scope cuts the storage back to that
//! mark, which frees every cell the scope handed out in one stroke. An
//! escapable scope sets one cell aside in its parent before it opens, so that
//! a single value can outlive it.
//!
//! This module defines that structure over sequences, the transitions that the
//! executable operations perform on it, and what the transitions preserve.

use vstd::prelude::*;
use crate::address::Address;
use crate::handle::Handle;

verus! {

/// What a scope does besides owning handles.
#[derive(Clone, Copy, PartialEq, Eq, Structural, Debug)]
pub enum ScopeKind {
    /// Owns handles and frees them on exit; nothing escapes.
    Plain,
    /// May still promote one handle to its parent, into the cell set aside
    /// for that when the scope opened.
    Escapable,
    /// Makes an execution context current while it is open.
    Context,
}

/// One open scope on an isolate's scope stack.
#[derive(Clone, Copy, PartialEq, Eq, Structural, Debug)]
pub struct Frame {
    /// The scope's serial number; no two scopes of one isolate share one.
    pub id: u64,
    /// How many storage cells were in use when the scope opened.
    pub base: usize,
    /// What the scope does besides owning handles.
    pub kind: ScopeKind,
    /// The execution context that is current while the scope is innermost;
    /// null if none is.
    pub context: Address,
}

/// The scope stack of one isolate: its open scopes, outermost first, the
/// storage cells they own, and how many scopes have been opened so far.
pub struct ScopeStack {
    /// The open scopes, outermost first.
    pub frames: Seq<Frame>,
    /// The storage cells in use. A null cell is set aside and not yet filled.
    pub slots: Seq<Address>,
    /// How many scopes this isolate has opened; the next serial number.
    pub issued: nat,
}

impl ScopeStack {
    /// The stack of an isolate that has not opened a scope yet.
    pub open spec fn empty() -> ScopeStack {
        ScopeStack { frames: Seq::empty(), slots: Seq::empty(), issued: 0 }
    }

    /// Frame `i` is an escapable scope's frame with its cell set aside: the
    /// cell just below the frame's mark belongs to the parent and is empty.
    pub open spec fn reserved(self, i: int) -> bool {
        &&& i > 0
        &&& self.frames[i - 1].base < self.frames[i].base
        &&& self.slots[self.frames[i].base - 1].is_null()
    }

    /// The structural invariant: serial numbers and marks grow from the
    /// outermost frame inwards, no mark lies beyond the storage in use, and
    /// every scope that may still escape has its empty cell in its parent.
    pub open spec fn wf(self) -> bool {
        &&& self.slots.len() <= usize::MAX
        &&& self.issued <= u64::MAX
        &&& forall|i: int|
            0 <= i < self.frames.len() ==> (#[trigger] self.frames[i]).id < self.issued
                && self.frames[i].base <= self.slots.len()
        &&& forall|i: int, j: int|
            0 <= i < j < self.frames.len() ==> (#[trigger] self.frames[i]).id < (
            #[trigger] self.frames[j]).id && self.frames[i].base <= self.frames[j].base
        &&& forall|i: int|
            0 <= i < self.frames.len() && (#[trigger] self.frames[i]).kind is Escapable
                ==> self.reserved(i)
    }

    /// The serial number of the innermost open scope, if any scope is open.
    pub open spec fn innermost(self) -> Option<u64> {
        if self.frames.len() > 0 {
            Some(self.frames.last().id)
        } else {
            None
        }
    }

    /// Whether the scope with this serial number is open.
    pub open spec fn is_open(self, id: u64) -> bool {
        exists|i: int| 0 <= i < self.frames.len() && (#[trigger] self.frames[i]).id == id
    }

    /// Whether the scope with this serial number is open and may still escape
    /// a handle.
    pub open spec fn is_escapable(self, id: u64) -> bool {
        exists|i: int|
            0 <= i < self.frames.len() && (#[trigger] self.frames[i]).id == id
                && self.frames[i].kind is Escapable
    }

    /// One past the last cell that frame `i` owns.
    pub open spec fn end(self, i: int) -> int {
        if i + 1 < self.frames.len() {
            self.frames[i + 1].base as int
        } else {
            self.slots.len() as int
        }
    }

    /// Frame `i` is the scope that `h` names, and `h` reads a filled cell of it.
    pub open spec fn owns(self, i: int, h: Handle) -> bool {
        &&& self.frames[i].id == h.scope
        &&& self.frames[i].base <= h.slot < self.end(i)
        &&& !self.slots[h.slot as int].is_null()
    }

    /// Whether `h` may be used: its scope is open and it reads a filled cell
    /// that this scope owns.
    pub open spec fn live(self, h: Handle) -> bool {
        exists|i: int| 0 <= i < self.frames.len() && #[trigger] self.owns(i, h)
    }

    /// The address that `h` reads.
    pub open spec fn read(self, h: Handle) -> Address {
        self.slots[h.slot as int]
    }

    /// The address of the current execution context: the one that the
    /// innermost scope runs in; null if no scope is open or none of the open
    /// scopes has made a context current.
    pub open spec fn context(self) -> Address {
        if self.frames.len() > 0 {
            self.frames.last().context
        } else {
            Address::null()
        }
    }

    /// The current execution context, if there is one.
    pub open spec fn current_context(self) -> Option<Address> {
        if self.context().is_null() {
            None
        } else {
            Some(self.context())
        }
    }

    /// This stack with one more frame, of the given kind and context, under
    /// a fresh serial number and with its mark at the current end of the
    /// storage.
    pub open spec fn push(self, kind: ScopeKind, context: Address) -> ScopeStack {
        ScopeStack {
            frames: self.frames.push(
                Frame { id: self.issued as u64, base: self.slots.len() as usize, kind, context },
            ),
            slots: self.slots,
            issued: self.issued + 1,
        }
    }

    /// Opening a plain scope pushes a frame for it. The current context
    /// stays current.
    pub open spec fn open(self) -> ScopeStack {
        self.push(ScopeKind::Plain, self.context())
    }

    /// Opening a context scope pushes a frame for it, and makes `context`
    /// the current context.
    pub open spec fn open_context(self, context: Address) -> ScopeStack {
        self.push(ScopeKind::Context, context)
    }

    /// Opening an escapable scope first sets an empty cell aside in the
    /// parent, then pushes the frame above it.
    pub open spec fn open_escapable(self) -> ScopeStack {
        ScopeStack {
            frames: self.frames.push(
                Frame {
                    id: self.issued as u64,
                    base: (self.slots.len() + 1) as usize,
                    kind: ScopeKind::Escapable,
                    context: self.context(),
                },
            ),
            slots: self.slots.push(Address::null()),
            issued: self.issued + 1,
        }
    }

    /// Wrapping an address gives it a new cell in the innermost scope.
    pub open spec fn wrap(self, value: Address) -> ScopeStack {
        ScopeStack { slots: self.slots.push(value), ..self }
    }

    /// The handle that wrapping yields in the isolate at `isolate`.
    pub open spec fn wrapped(self, isolate: Address) -> Handle {
        Handle { isolate, scope: self.frames.last().id, slot: self.slots.len() as usize }
    }

    /// Escaping copies what `h` reads into the cell set aside in the parent;
    /// the innermost scope becomes a plain one.
    pub open spec fn escape(self, h: Handle) -> ScopeStack {
        let top = self.frames.last();
        ScopeStack {
            frames: self.frames.update(
                self.frames.len() - 1,
                Frame { kind: ScopeKind::Plain, ..top },
            ),
            slots: self.slots.update(top.base - 1, self.read(h)),
            ..self
        }
    }

    /// The handle that escaping yields in the isolate at `isolate`: it reads
    /// the cell that was set aside and is owned by the parent scope.
    pub open spec fn escaped(self, isolate: Address) -> Handle {
        Handle {
            isolate,
            scope: self.frames[self.frames.len() - 2].id,
            slot: (self.frames.last().base - 1) as usize,
        }
    }

    /// Closing pops the innermost frame and cuts the storage back to its mark.
    pub open spec fn close(self) -> ScopeStack {
        ScopeStack {
            frames: self.frames.drop_last(),
            slots: self.slots.take(self.frames.last().base as int),
            ..self
        }
    }

    /// Whether a scope that sets no cell aside can open: a serial number is
    /// left for it.
    pub open spec fn can_open(self) -> bool {
        self.issued < u64::MAX
    }

    /// Whether an escapable scope can open: it needs a parent to escape to.
    pub open spec fn can_open_escapable(self) -> bool {
        &&& self.issued < u64::MAX
        &&& self.slots.len() < usize::MAX
        &&& self.frames.len() > 0
    }

    /// Whether `value` can be wrapped: some scope is open to own the handle.
    pub open spec fn can_wrap(self, value: Address) -> bool {
        &&& self.frames.len() > 0
        &&& self.slots.len() < usize::MAX
        &&& !value.is_null()
    }

    /// Whether the innermost scope can escape `h`: it has not escaped
    /// anything yet, and `h` is a live handle of its own.
    pub open spec fn can_escape(self, h: Handle) -> bool {
        &&& self.frames.len() > 0
        &&& self.frames.last().kind is Escapable
        &&& self.frames.last().id == h.scope
        &&& self.live(h)
    }

    /// Whether the scope with serial number `id` can close: only the
    /// innermost open scope can.
    pub open spec fn can_close(self, id: u64) -> bool {
        self.innermost() == Some(id)
    }

    /// In a well-formed stack a serial number names at most one frame.
    pub proof fn lemma_frame_unique(self, i: int, j: int)
        requires
            self.wf(),
            0 <= i < self.frames.len(),
            0 <= j < self.frames.len(),
            self.frames[i].id == self.frames[j].id,
        ensures
            i == j,
    {
        if i < j {
            assert(self.frames[i].id < self.frames[j].id);
        } else if j < i {
            assert(self.frames[j].id < self.frames[i].id);
        }
    }

    /// A live handle reads a cell inside the storage, and the cell is filled.
    pub proof fn lemma_live_in_bounds(self, h: Handle)
        requires
            self.wf(),
            self.live(h),
        ensures
            h.slot < self.slots.len(),
            !self.read(h).is_null(),
            self.is_open(h.scope),
            h.scope < self.issued,
    {
        let i = choose|i: int| 0 <= i < self.frames.len() && #[trigger] self.owns(i, h);
        assert(self.frames[i].id == h.scope);
        if i + 1 < self.frames.len() {
            assert(self.frames[i + 1].base <= self.slots.len());
        }
    }

    /// Opening a plain scope or a context scope keeps the stack well-formed,
    /// leaves every handle as live or dead as it was, and opens exactly one
    /// more scope: the new one.
    pub proof fn lemma_push(self, kind: ScopeKind, context: Address)
        requires
            self.wf(),
            self.can_open(),
            !(kind is Escapable),
        ensures
            self.push(kind, context).wf(),
            forall|h: Handle|
                #![trigger self.push(kind, context).live(h)]
                #![trigger self.live(h)]
                self.push(kind, context).live(h) <==> self.live(h),
            forall|h: Handle| #[trigger] self.live(h) ==> self.push(kind, context).read(h) == self.read(h),
            forall|id: u64|
                #![trigger self.push(kind, context).is_open(id)]
                #![trigger self.is_open(id)]
                self.push(kind, context).is_open(id) <==> self.is_open(id) || id == self.issued,
            forall|id: u64|
                #![trigger self.push(kind, context).is_escapable(id)]
                #![trigger self.is_escapable(id)]
                self.push(kind, context).is_escapable(id) <==> self.is_escapable(id),
    {
        let t = self.push(kind, context);
        let n = self.frames.len() as int;
        assert forall|i: int| 0 <= i < n implies #[trigger] t.frames[i] == self.frames[i] by {}
        assert(t.frames[n].id == self.issued);
        assert forall|i: int, h: Handle| 0 <= i < n implies (#[trigger] t.owns(i, h) <==> self.owns(
            i,
            h,
        )) by {
            assert(t.frames[i] == self.frames[i]);
            if i + 1 < n {
                assert(t.frames[i + 1] == self.frames[i + 1]);
            }
        }
        assert forall|h: Handle| t.live(h) <==> self.live(h) by {
            if t.live(h) {
                let i = choose|i: int| 0 <= i < t.frames.len() && #[trigger] t.owns(i, h);
                assert(i < n);
                assert(self.owns(i, h));
            }
            if self.live(h) {
                let i = choose|i: int| 0 <= i < self.frames.len() && #[trigger] self.owns(i, h);
                assert(t.owns(i, h));
            }
        }
        assert forall|id: u64| t.is_open(id) <==> self.is_open(id) || id == self.issued by {
            if t.is_open(id) {
                let i = choose|i: int| 0 <= i < t.frames.len() && (#[trigger] t.frames[i]).id == id;
                if i < n {
                    assert(self.frames[i].id == id);
                }
            }
            if self.is_open(id) {
                let i = choose|i: int|
                    0 <= i < self.frames.len() && (#[trigger] self.frames[i]).id == id;
                assert(t.frames[i].id == id);
            }
            if id == self.issued {
                assert(t.frames[n].id == id);
            }
        }
        assert forall|id: u64| t.is_escapable(id) <==> self.is_escapable(id) by {
            if t.is_escapable(id) {
                let i = choose|i: int|
                    0 <= i < t.frames.len() && (#[trigger] t.frames[i]).id == id
                        && t.frames[i].kind is Escapable;
                assert(i < n);
                assert(self.frames[i].id == id);
            }
            if self.is_escapable(id) {
                let i = choose|i: int|
                    0 <= i < self.frames.len() && (#[trigger] self.frames[i]).id == id
                        && self.frames[i].kind is Escapable;
                assert(t.frames[i].id == id);
            }
        }
        assert forall|i: int|
            0 <= i < t.frames.len() && (#[trigger] t.frames[i]).kind is Escapable implies t.reserved(
            i,
        ) by {
            assert(i < n);
            assert(self.frames[i].kind is Escapable);
            assert(self.reserved(i));
            assert(t.frames[i - 1] == self.frames[i - 1]);
        }
    }

    /// Opening an escapable scope keeps the stack well-formed and leaves
    /// every handle as live or dead as it was: the cell set aside is empty,
    /// so no handle reads it yet.
    pub proof fn lemma_open_escapable(self)
        requires
            self.wf(),
            self.can_open_escapable(),
        ensures
            self.open_escapable().wf(),
            forall|h: Handle|
                #![trigger self.open_escapable().live(h)]
                #![trigger self.live(h)]
                self.open_escapable().live(h) <==> self.live(h),
            forall|h: Handle|
                #[trigger] self.live(h) ==> self.open_escapable().read(h) == self.read(h),
            forall|id: u64|
                #![trigger self.open_escapable().is_open(id)]
                #![trigger self.is_open(id)]
                self.open_escapable().is_open(id) <==> self.is_open(id) || id == self.issued,
            forall|id: u64|
                #![trigger self.open_escapable().is_escapable(id)]
                #![trigger self.is_escapable(id)]
                self.open_escapable().is_escapable(id) <==> self.is_escapable(id) || id
                    == self.issued,
    {
        let t = self.open_escapable();
        let n = self.frames.len() as int;
        assert forall|i: int| 0 <= i < n implies #[trigger] t.frames[i] == self.frames[i] by {}
        assert(t.frames[n].id == self.issued);
        assert(t.frames[n].kind is Escapable);
        assert(self.frames[n - 1].base <= self.slots.len());
        assert forall|h: Handle| t.live(h) <==> self.live(h) by {
            if t.live(h) {
                let i = choose|i: int| 0 <= i < t.frames.len() && #[trigger] t.owns(i, h);
                assert(i < n);
                assert(t.frames[i] == self.frames[i]);
                if i + 1 < n {
                    assert(t.frames[i + 1] == self.frames[i + 1]);
                }
                assert(self.owns(i, h));
            }
            if self.live(h) {
                let i = choose|i: int| 0 <= i < self.frames.len() && #[trigger] self.owns(i, h);
                self.lemma_live_in_bounds(h);
                assert(t.frames[i] == self.frames[i]);
                if i + 1 < n {
                    assert(t.frames[i + 1] == self.frames[i + 1]);
                }
                assert(t.owns(i, h));
            }
        }
        assert forall|h: Handle| self.live(h) implies t.read(h) == self.read(h) by {
            self.lemma_live_in_bounds(h);
        }
        assert forall|id: u64| t.is_open(id) <==> self.is_open(id) || id == self.issued by {
            if t.is_open(id) {
                let i = choose|i: int| 0 <= i < t.frames.len() && (#[trigger] t.frames[i]).id == id;
                if i < n {
                    assert(self.frames[i].id == id);
                }
            }
            if self.is_open(id) {
                let i = choose|i: int|
                    0 <= i < self.frames.len() && (#[trigger] self.frames[i]).id == id;
                assert(t.frames[i].id == id);
            }
            if id == self.issued {
                assert(t.frames[n].id == id);
            }
        }
        assert forall|id: u64|
            t.is_escapable(id) <==> self.is_escapable(id) || id == self.issued by {
            if t.is_escapable(id) {
                let i = choose|i: int|
                    0 <= i < t.frames.len() && (#[trigger] t.frames[i]).id == id
                        && t.frames[i].kind is Escapable;
                if i < n {
                    assert(self.frames[i].id == id);
                }
            }
            if self.is_escapable(id) {
                let i = choose|i: int|
                    0 <= i < self.frames.len() && (#[trigger] self.frames[i]).id == id
                        && self.frames[i].kind is Escapable;
                assert(t.frames[i].id == id);
            }
            if id == self.issued {
                assert(t.frames[n].id == id);
            }
        }
        assert forall|i: int|
            0 <= i < t.frames.len() && (#[trigger] t.frames[i]).kind is Escapable implies t.reserved(
            i,
        ) by {
            if i < n {
                assert(self.frames[i].kind is Escapable);
                assert(self.reserved(i));
                assert(t.frames[i - 1] == self.frames[i - 1]);
            } else {
                assert(t.frames[n - 1] == self.frames[n - 1]);
            }
        }
    }

    /// Wrapping keeps the stack well-formed and adds exactly one live
    /// handle, which reads the address that was wrapped; every other handle
    /// stays as it was.
    pub proof fn lemma_wrap(self, value: Address)
        requires
            self.wf(),
            self.can_wrap(value),
        ensures
            self.wrap(value).wf(),
            forall|h: Handle|
                #![trigger self.wrap(value).live(h)]
                #![trigger self.live(h)]
                self.wrap(value).live(h) <==> self.live(h) || (h.scope == self.frames.last().id
                    && h.slot == self.slots.len()),
            forall|h: Handle| #[trigger] self.live(h) ==> self.wrap(value).read(h) == self.read(h),
            forall|a: Address| self.wrap(value).read(#[trigger] self.wrapped(a)) == value,
            forall|id: u64|
                #![trigger self.wrap(value).is_open(id)]
                #![trigger self.is_open(id)]
                self.wrap(value).is_open(id) <==> self.is_open(id),
            forall|id: u64|
                #![trigger self.wrap(value).is_escapable(id)]
                #![trigger self.is_escapable(id)]
                self.wrap(value).is_escapable(id) <==> self.is_escapable(id),
    {
        let t = self.wrap(value);
        let n = self.frames.len() as int;
        assert(self.frames[n - 1].base <= self.slots.len());
        assert forall|h: Handle|
            t.live(h) <==> self.live(h) || (h.scope == self.frames.last().id && h.slot
                == self.slots.len()) by {
            if t.live(h) {
                let i = choose|i: int| 0 <= i < t.frames.len() && #[trigger] t.owns(i, h);
                if h.slot < self.slots.len() {
                    assert(self.owns(i, h));
                } else {
                    assert(i == n - 1);
                }
            }
            if self.live(h) {
                let i = choose|i: int| 0 <= i < self.frames.len() && #[trigger] self.owns(i, h);
                self.lemma_live_in_bounds(h);
                assert(t.owns(i, h));
            }
            if h.scope == self.frames.last().id && h.slot == self.slots.len() {
                assert(t.owns(n - 1, h));
            }
        }
        assert forall|h: Handle| self.live(h) implies t.read(h) == self.read(h) by {
            self.lemma_live_in_bounds(h);
        }
        assert forall|i: int|
            0 <= i < t.frames.len() && (#[trigger] t.frames[i]).kind is Escapable implies t.reserved(
            i,
        ) by {
            assert(self.reserved(i));
            assert(self.frames[i].base <= self.slots.len());
        }
    }

    /// Escaping keeps the stack well-formed and adds exactly one live handle:
    /// the one in the parent's cell, which reads what the escaped handle
    /// reads. The scope that escaped can never escape again.
    pub proof fn lemma_escape(self, h: Handle)
        requires
            self.wf(),
            self.can_escape(h),
        ensures
            self.frames.len() >= 2,
            self.escape(h).wf(),
            forall|x: Handle|
                #![trigger self.escape(h).live(x)]
                #![trigger self.live(x)]
                self.escape(h).live(x) <==> self.live(x) || (x.scope == self.frames[self.frames.len()
                    - 2].id && x.slot == self.frames.last().base - 1),
            forall|x: Handle| #[trigger] self.live(x) ==> self.escape(h).read(x) == self.read(x),
            forall|a: Address| self.escape(h).read(#[trigger] self.escaped(a)) == self.read(h),
            forall|id: u64|
                #![trigger self.escape(h).is_open(id)]
                #![trigger self.is_open(id)]
                self.escape(h).is_open(id) <==> self.is_open(id),
            forall|id: u64|
                #![trigger self.escape(h).is_escapable(id)]
                #![trigger self.is_escapable(id)]
                self.escape(h).is_escapable(id) <==> self.is_escapable(id) && id
                    != self.frames.last().id,
            self.escape(h).context() == self.context(),
    {
        let t = self.escape(h);
        let n = self.frames.len() as int;
        let top = self.frames[n - 1];
        assert(top.kind is Escapable);
        assert(self.reserved(n - 1));
        assert(top.base <= self.slots.len());
        self.lemma_live_in_bounds(h);
        assert(!self.read(h).is_null());
        assert forall|i: int| 0 <= i < n implies (#[trigger] t.frames[i]).id == self.frames[i].id
            && t.frames[i].base == self.frames[i].base by {}
        assert forall|i: int| 0 <= i < n - 1 implies #[trigger] t.frames[i] == self.frames[i] by {}
        assert forall|x: Handle|
            t.live(x) <==> self.live(x) || (x.scope == self.frames[n - 2].id && x.slot == top.base
                - 1) by {
            if t.live(x) {
                let i = choose|i: int| 0 <= i < t.frames.len() && #[trigger] t.owns(i, x);
                assert(t.frames[i].id == self.frames[i].id);
                if i + 1 < n {
                    assert(t.frames[i + 1].base == self.frames[i + 1].base);
                }
                if x.slot == top.base - 1 {
                    if i < n - 2 {
                        assert(self.frames[i + 1].base <= self.frames[n - 2].base);
                    }
                    assert(i == n - 2);
                } else {
                    assert(self.owns(i, x));
                }
            }
            if self.live(x) {
                let i = choose|i: int| 0 <= i < self.frames.len() && #[trigger] self.owns(i, x);
                assert(t.frames[i].id == self.frames[i].id);
                if i + 1 < n {
                    assert(t.frames[i + 1].base == self.frames[i + 1].base);
                }
                assert(t.owns(i, x));
            }
            if x.scope == self.frames[n - 2].id && x.slot == top.base - 1 {
                assert(t.frames[n - 2].id == self.frames[n - 2].id);
                assert(t.frames[n - 1].base == top.base);
                assert(t.owns(n - 2, x));
            }
        }
        assert forall|x: Handle| self.live(x) implies t.read(x) == self.read(x) by {
            self.lemma_live_in_bounds(x);
        }
        assert forall|id: u64| t.is_open(id) <==> self.is_open(id) by {
            if t.is_open(id) {
                let i = choose|i: int| 0 <= i < t.frames.len() && (#[trigger] t.frames[i]).id == id;
                assert(self.frames[i].id == id);
            }
            if self.is_open(id) {
                let i = choose|i: int|
                    0 <= i < self.frames.len() && (#[trigger] self.frames[i]).id == id;
                assert(t.frames[i].id == id);
            }
        }
        assert forall|id: u64| t.is_escapable(id) <==> self.is_escapable(id) && id != top.id by {
            if t.is_escapable(id) {
                let i = choose|i: int|
                    0 <= i < t.frames.len() && (#[trigger] t.frames[i]).id == id
                        && t.frames[i].kind is Escapable;
                assert(i < n - 1);
                assert(self.frames[i].id == id);
                assert(self.frames[i].id < self.frames[n - 1].id);
            }
            if self.is_escapable(id) && id != top.id {
                let i = choose|i: int|
                    0 <= i < self.frames.len() && (#[trigger] self.frames[i]).id == id
                        && self.frames[i].kind is Escapable;
                assert(i < n - 1);
                assert(t.frames[i].id == id);
            }
        }
        assert forall|i: int|
            0 <= i < t.frames.len() && (#[trigger] t.frames[i]).kind is Escapable implies t.reserved(
            i,
        ) by {
            assert(i < n - 1);
            assert(self.frames[i].kind is Escapable);
            assert(self.reserved(i));
            assert(t.frames[i - 1] == self.frames[i - 1]);
            assert(self.frames[i].base <= self.frames[n - 2].base);
        }
    }

    /// Closing the innermost scope keeps the stack well-formed and kills
    /// exactly the handles that scope owns; every other handle stays as it
    /// was and reads what it read.
    pub proof fn lemma_close(self)
        requires
            self.wf(),
            self.frames.len() > 0,
        ensures
            self.close().wf(),
            forall|h: Handle|
                #![trigger self.close().live(h)]
                #![trigger self.live(h)]
                self.close().live(h) <==> self.live(h) && h.scope != self.frames.last().id,
            forall|h: Handle|
                #[trigger] self.close().live(h) ==> self.close().read(h) == self.read(h),
            forall|id: u64|
                #![trigger self.close().is_open(id)]
                #![trigger self.is_open(id)]
                self.close().is_open(id) <==> self.is_open(id) && id != self.frames.last().id,
            forall|id: u64|
                #![trigger self.close().is_escapable(id)]
                #![trigger self.is_escapable(id)]
                self.close().is_escapable(id) <==> self.is_escapable(id) && id
                    != self.frames.last().id,
            self.close().frames == self.frames.drop_last(),
    {
        let t = self.close();
        let n = self.frames.len() as int;
        let top = self.frames[n - 1];
        assert(top.base <= self.slots.len());
        assert forall|i: int| 0 <= i < n - 1 implies #[trigger] t.frames[i] == self.frames[i] by {}
        assert forall|h: Handle| t.live(h) <==> self.live(h) && h.scope != top.id by {
            if t.live(h) {
                let i = choose|i: int| 0 <= i < t.frames.len() && #[trigger] t.owns(i, h);
                assert(t.frames[i] == self.frames[i]);
                if i + 1 < n - 1 {
                    assert(t.frames[i + 1] == self.frames[i + 1]);
                }
                assert(self.frames[i].id < top.id);
                assert(self.owns(i, h));
            }
            if self.live(h) && h.scope != top.id {
                let i = choose|i: int| 0 <= i < self.frames.len() && #[trigger] self.owns(i, h);
                assert(i < n - 1);
                assert(t.frames[i] == self.frames[i]);
                if i + 1 < n - 1 {
                    assert(t.frames[i + 1] == self.frames[i + 1]);
                }
                assert(self.frames[i + 1].base <= top.base);
                assert(t.owns(i, h));
            }
        }
        assert forall|h: Handle| t.live(h) implies t.read(h) == self.read(h) by {
            let i = choose|i: int| 0 <= i < t.frames.len() && #[trigger] t.owns(i, h);
            if i + 1 < n - 1 {
                assert(t.frames[i + 1] == self.frames[i + 1]);
                assert(self.frames[i + 1].base <= top.base);
            }
        }
        assert forall|id: u64| t.is_open(id) <==> self.is_open(id) && id != top.id by {
            if t.is_open(id) {
                let i = choose|i: int| 0 <= i < t.frames.len() && (#[trigger] t.frames[i]).id == id;
                assert(self.frames[i].id == id);
                assert(self.frames[i].id < top.id);
            }
            if self.is_open(id) && id != top.id {
                let i = choose|i: int|
                    0 <= i < self.frames.len() && (#[trigger] self.frames[i]).id == id;
                assert(t.frames[i].id == id);
            }
        }
        assert forall|id: u64| t.is_escapable(id) <==> self.is_escapable(id) && id != top.id by {
            if t.is_escapable(id) {
                let i = choose|i: int|
                    0 <= i < t.frames.len() && (#[trigger] t.frames[i]).id == id
                        && t.frames[i].kind is Escapable;
                assert(self.frames[i].id == id);
                assert(self.frames[i].id < top.id);
            }
            if self.is_escapable(id) && id != top.id {
                let i = choose|i: int|
                    0 <= i < self.frames.len() && (#[trigger] self.frames[i]).id == id
                        && self.frames[i].kind is Escapable;
                assert(t.frames[i].id == id);
            }
        }
        assert forall|i: int|
            0 <= i < t.frames.len() && (#[trigger] t.frames[i]).kind is Escapable implies t.reserved(
            i,
        ) by {
            assert(self.frames[i].kind is Escapable);
            assert(self.reserved(i));
            assert(t.frames[i - 1] == self.frames[i - 1]);
            assert(self.frames[i].base <= top.base);
        }
    }
} // impl ScopeStack

} // verus!

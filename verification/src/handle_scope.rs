//! Scopes: the regions that own local handles.
//!
//! A scope is opened against an isolate, which pushes it onto the isolate's
//! scope stack, and is closed by handing its token back. Only the innermost
//! scope can close, so scopes close in the exact reverse of the order in
//! which they opened, and closing a scope ends every handle it owns.

use vstd::prelude::*;
use crate::address::Address;
use crate::handle::handle_of;
use crate::handle::Handle;
use crate::handle::Local;
use crate::isolate::Isolate;
use crate::isolate::IsolateView;
use crate::stack::ScopeKind;

verus! {

/// Which scope a scope token stands for.
pub struct ScopeId {
    /// The isolate on whose stack the scope is.
    pub isolate: Address,
    /// The scope's serial number.
    pub id: u64,
}

impl IsolateView {
    /// Whether `scope` is the innermost open scope of this isolate.
    pub open spec fn innermost_is(self, scope: ScopeId) -> bool {
        &&& scope.isolate == self.address
        &&& self.stack.can_close(scope.id)
    }

    /// `after` is this isolate once a scope was opened on it, and `scope` is
    /// the new scope: it is innermost, it was never open before, and every
    /// handle is as live or dead as before and reads what it read.
    pub open spec fn opens(self, after: IsolateView, scope: ScopeId) -> bool {
        &&& after.usable()
        &&& scope == (ScopeId { isolate: self.address, id: self.stack.issued as u64 })
        &&& after.innermost_is(scope)
        &&& !self.stack.is_open(scope.id)
        &&& after.stack.frames.len() == self.stack.frames.len() + 1
        &&& self.kept_in(after)
        &&& forall|h: Handle| #[trigger] after.live(h) ==> self.live(h)
    }

    /// `after` is this isolate once the innermost scope `scope` was closed:
    /// the scope is gone for good, the handles it owned are dead, and every
    /// other handle is as live or dead as before and reads what it read.
    pub open spec fn closes(self, after: IsolateView, scope: ScopeId) -> bool {
        &&& after == self.with_stack(self.stack.close())
        &&& after.usable()
        &&& !after.stack.is_open(scope.id)
        &&& after.stack.frames.len() == self.stack.frames.len() - 1
        &&& forall|h: Handle|
            #![trigger after.live(h)]
            #![trigger self.live(h)]
            after.live(h) <==> self.live(h) && h.scope != scope.id
        &&& forall|h: Handle| #[trigger] after.live(h) ==> after.read(h) == self.read(h)
    }

    /// Opening a plain scope or a context scope does what
    /// [`IsolateView::opens`] says.
    pub proof fn lemma_opens(self, context: Address)
        requires
            self.usable(),
            self.stack.can_open(),
        ensures
            self.opens(
                self.with_stack(self.stack.open()),
                ScopeId { isolate: self.address, id: self.stack.issued as u64 },
            ),
            self.opens(
                self.with_stack(self.stack.open_context(context)),
                ScopeId { isolate: self.address, id: self.stack.issued as u64 },
            ),
    {
        self.stack.lemma_push(ScopeKind::Plain, self.stack.context());
        self.stack.lemma_push(ScopeKind::Context, context);
        if self.stack.is_open(self.stack.issued as u64) {
            let i = choose|i: int|
                0 <= i < self.stack.frames.len() && (#[trigger] self.stack.frames[i]).id
                    == self.stack.issued as u64;
            assert(self.stack.frames[i].id < self.stack.issued);
        }
    }

    /// Opening an escapable scope does what [`IsolateView::opens`] says.
    pub proof fn lemma_opens_escapable(self)
        requires
            self.usable(),
            self.stack.can_open_escapable(),
        ensures
            self.opens(
                self.with_stack(self.stack.open_escapable()),
                ScopeId { isolate: self.address, id: self.stack.issued as u64 },
            ),
            self.with_stack(self.stack.open_escapable()).stack.is_escapable(
                self.stack.issued as u64,
            ),
    {
        self.stack.lemma_open_escapable();
        if self.stack.is_open(self.stack.issued as u64) {
            let i = choose|i: int|
                0 <= i < self.stack.frames.len() && (#[trigger] self.stack.frames[i]).id
                    == self.stack.issued as u64;
            assert(self.stack.frames[i].id < self.stack.issued);
        }
    }

    /// Closing the innermost scope does what [`IsolateView::closes`] says.
    pub proof fn lemma_closes(self, scope: ScopeId)
        requires
            self.usable(),
            self.innermost_is(scope),
        ensures
            self.closes(self.with_stack(self.stack.close()), scope),
    {
        self.stack.lemma_close();
    }
}

/// Makes handles out of what the engine hands back, on behalf of the scope
/// that is innermost while the engine is asked.
pub trait ToLocal {
    /// The scope that will own the handles.
    spec fn scope_id(&self) -> ScopeId;

    /// Wraps `ptr` into a handle that this scope owns. A null `ptr` yields
    /// none and changes nothing; any other yields one new live handle that
    /// reads `ptr`.
    fn to_local(&self, isolate: &mut Isolate, ptr: Address) -> (r: Option<Local>)
        requires
            old(isolate)@.can_lift(),
            old(isolate)@.innermost_is(self.scope_id()),
        ensures
            old(isolate)@.lifts(ptr, final(isolate)@, handle_of(r)),
            r matches Some(local) ==> local@.scope == self.scope_id().id,
    ;
}

/// A scope that owns the handles made while it is innermost and ends them
/// all when it closes. Nothing escapes it.
pub struct HandleScope {
    isolate: Address,
    id: u64,
}

impl View for HandleScope {
    type V = ScopeId;

    closed spec fn view(&self) -> ScopeId {
        ScopeId { isolate: self.isolate, id: self.id }
    }
}

impl HandleScope {
    /// Opens a scope on `isolate`. It becomes the innermost scope.
    pub fn new(isolate: &mut Isolate) -> (scope: HandleScope)
        requires
            old(isolate)@.usable(),
            old(isolate)@.stack.can_open(),
        ensures
            final(isolate)@ == old(isolate)@.with_stack(old(isolate)@.stack.open()),
            old(isolate)@.opens(final(isolate)@, scope@),
    {
        proof {
            isolate@.lemma_opens(Address::null());
        }
        let address = isolate.address();
        let id = isolate.open_frame();
        HandleScope { isolate: address, id }
    }

    /// The scope's serial number.
    pub fn id(&self) -> (id: u64)
        ensures
            id == self@.id,
    {
        self.id
    }

    /// Whether this scope is the innermost open scope of `isolate`: only
    /// then can it make handles, and only then can it close.
    pub fn is_innermost(&self, isolate: &Isolate) -> (b: bool)
        ensures
            b == isolate@.innermost_is(self@),
    {
        match isolate.innermost() {
            Some(id) => self.isolate.0 == isolate.address().0 && id == self.id,
            None => false,
        }
    }

    /// Closes the scope. Every handle it owns is dead from here on.
    ///
    /// Only the innermost scope can close; the token is spent, so a scope
    /// closes once.
    pub fn close(self, isolate: &mut Isolate)
        requires
            old(isolate)@.usable(),
            old(isolate)@.innermost_is(self@),
        ensures
            old(isolate)@.closes(final(isolate)@, self@),
    {
        proof {
            isolate@.lemma_closes(self@);
        }
        isolate.close_frame(self.id);
    }
}

impl ToLocal for HandleScope {
    open spec fn scope_id(&self) -> ScopeId {
        self@
    }

    fn to_local(&self, isolate: &mut Isolate, ptr: Address) -> (r: Option<Local>) {
        Local::from_raw(isolate, ptr)
    }
}

/// A scope that, besides owning handles, can promote one of them to its
/// parent. The cell for the promoted value is set aside in the parent when
/// the scope opens, whether or not anything escapes later.
pub struct EscapableHandleScope {
    isolate: Address,
    id: u64,
}

impl View for EscapableHandleScope {
    type V = ScopeId;

    closed spec fn view(&self) -> ScopeId {
        ScopeId { isolate: self.isolate, id: self.id }
    }
}

impl EscapableHandleScope {
    /// Sets a cell aside in the innermost scope of `isolate`, which becomes
    /// the parent, and opens an escapable scope above it.
    pub fn new(isolate: &mut Isolate) -> (scope: EscapableHandleScope)
        requires
            old(isolate)@.usable(),
            old(isolate)@.stack.can_open_escapable(),
        ensures
            final(isolate)@ == old(isolate)@.with_stack(old(isolate)@.stack.open_escapable()),
            old(isolate)@.opens(final(isolate)@, scope@),
            final(isolate)@.stack.is_escapable(scope@.id),
            final(isolate)@.stack.slots.len() == old(isolate)@.stack.slots.len() + 1,
    {
        proof {
            isolate@.lemma_opens_escapable();
        }
        let address = isolate.address();
        let id = isolate.open_escapable_frame();
        EscapableHandleScope { isolate: address, id }
    }

    /// The scope's serial number.
    pub fn id(&self) -> (id: u64)
        ensures
            id == self@.id,
    {
        self.id
    }

    /// Whether this scope is the innermost open scope of `isolate`.
    pub fn is_innermost(&self, isolate: &Isolate) -> (b: bool)
        ensures
            b == isolate@.innermost_is(self@),
    {
        match isolate.innermost() {
            Some(id) => self.isolate.0 == isolate.address().0 && id == self.id,
            None => false,
        }
    }

    /// Promotes `value` to the parent scope: copies what it reads into the
    /// cell that was set aside when this scope opened, and returns the handle
    /// that reads that cell. The parent owns the new handle, so it outlives
    /// this scope.
    ///
    /// Escaping spends the escapable scope. What comes back with the handle
    /// is the same scope as a plain one: it still owns its handles and still
    /// has to close, but it cannot escape again.
    pub fn escape(self, isolate: &mut Isolate, value: Local) -> (r: (Local, HandleScope))
        requires
            old(isolate)@.usable(),
            old(isolate)@.innermost_is(self@),
            old(isolate)@.stack.is_escapable(self@.id),
            old(isolate)@.live(value@),
            value@.scope == self@.id,
        ensures
            final(isolate)@ == old(isolate)@.with_stack(old(isolate)@.stack.escape(value@)),
            final(isolate)@.usable(),
            r.1@ == self@,
            final(isolate)@.innermost_is(self@),
            !final(isolate)@.stack.is_escapable(self@.id),
            r.0@ == old(isolate)@.stack.escaped(old(isolate)@.address),
            old(isolate)@.stack.is_open(r.0@.scope),
            r.0@.scope != self@.id,
            final(isolate)@.live(r.0@),
            final(isolate)@.read(r.0@) == old(isolate)@.read(value@),
            final(isolate)@.stack.slots.len() == old(isolate)@.stack.slots.len(),
            old(isolate)@.kept_in(final(isolate)@),
            forall|h: Handle| #[trigger]
                final(isolate)@.live(h) ==> old(isolate)@.live(h) || h == r.0@,
    {
        proof {
            let stack = isolate@.stack;
            let n = stack.frames.len() as int;
            let i = choose|i: int|
                0 <= i < stack.frames.len() && (#[trigger] stack.frames[i]).id == self@.id
                    && stack.frames[i].kind is Escapable;
            stack.lemma_frame_unique(i, n - 1);
            stack.lemma_escape(value@);
            let parent = stack.frames[n - 2];
            assert(parent.id < stack.frames[n - 1].id);
            assert(stack.escape(value@).frames[n - 1].id == self@.id);
            assert(stack.escape(value@).live(stack.escaped(isolate@.address)));
        }
        let escaped = isolate.escape_frame(&value);
        (escaped, HandleScope { isolate: self.isolate, id: self.id })
    }

    /// Closes the scope without having escaped anything. Every handle it
    /// owns is dead from here on; the cell that was set aside stays with the
    /// parent, unused.
    pub fn close(self, isolate: &mut Isolate)
        requires
            old(isolate)@.usable(),
            old(isolate)@.innermost_is(self@),
        ensures
            old(isolate)@.closes(final(isolate)@, self@),
    {
        proof {
            isolate@.lemma_closes(self@);
        }
        isolate.close_frame(self.id);
    }
}

impl ToLocal for EscapableHandleScope {
    open spec fn scope_id(&self) -> ScopeId {
        self@
    }

    fn to_local(&self, isolate: &mut Isolate, ptr: Address) -> (r: Option<Local>) {
        Local::from_raw(isolate, ptr)
    }
}

/// A scope that makes one execution context current while it is open. It
/// nests inside the scope that owns the context's handle, and like every
/// scope it owns the handles made while it is innermost.
pub struct ContextScope {
    isolate: Address,
    id: u64,
}

impl View for ContextScope {
    type V = ScopeId;

    closed spec fn view(&self) -> ScopeId {
        ScopeId { isolate: self.isolate, id: self.id }
    }
}

impl ContextScope {
    /// Opens a scope on `isolate` that makes the context behind `context`
    /// current. The handle must be live, so a scope that covers it is open
    /// and will stay open until this one has closed.
    pub fn new(isolate: &mut Isolate, context: Local) -> (scope: ContextScope)
        requires
            old(isolate)@.usable(),
            old(isolate)@.stack.can_open(),
            old(isolate)@.live(context@),
        ensures
            final(isolate)@ == old(isolate)@.with_stack(
                old(isolate)@.stack.open_context(old(isolate)@.read(context@)),
            ),
            old(isolate)@.opens(final(isolate)@, scope@),
            final(isolate)@.stack.current_context() == Some(old(isolate)@.read(context@)),
            old(isolate)@.stack.is_open(context@.scope),
    {
        let current = isolate.read(&context);
        proof {
            isolate@.lemma_opens(current);
            isolate@.stack.lemma_live_in_bounds(context@);
        }
        let address = isolate.address();
        let id = isolate.open_context_frame(current);
        ContextScope { isolate: address, id }
    }

    /// The scope's serial number.
    pub fn id(&self) -> (id: u64)
        ensures
            id == self@.id,
    {
        self.id
    }

    /// Whether this scope is the innermost open scope of `isolate`.
    pub fn is_innermost(&self, isolate: &Isolate) -> (b: bool)
        ensures
            b == isolate@.innermost_is(self@),
    {
        match isolate.innermost() {
            Some(id) => self.isolate.0 == isolate.address().0 && id == self.id,
            None => false,
        }
    }

    /// Closes the scope. The context that was current before it opened is
    /// current again, and every handle the scope owns is dead.
    pub fn close(self, isolate: &mut Isolate)
        requires
            old(isolate)@.usable(),
            old(isolate)@.innermost_is(self@),
        ensures
            old(isolate)@.closes(final(isolate)@, self@),
    {
        proof {
            isolate@.lemma_closes(self@);
        }
        isolate.close_frame(self.id);
    }
}

impl ToLocal for ContextScope {
    open spec fn scope_id(&self) -> ScopeId {
        self@
    }

    fn to_local(&self, isolate: &mut Isolate, ptr: Address) -> (r: Option<Local>) {
        Local::from_raw(isolate, ptr)
    }
}

} // verus!

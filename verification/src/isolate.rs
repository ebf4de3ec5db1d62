//! Isolates: one independent instance of the engine each, with its own heap,
//! scope stack and entry state.

use vstd::prelude::*;
use crate::address::occurrences;
use crate::address::Address;
use crate::handle::Handle;
use crate::handle::Local;
use crate::stack::Frame;
use crate::stack::ScopeKind;
use crate::stack::ScopeStack;
use crate::thread::Thread;
use crate::thread::ThreadView;

verus! {

/// Who holds an isolate's lock, and through how many nested lock scopes.
pub struct LockState {
    /// The thread that holds the lock.
    pub holder: u64,
    /// How many further lock scopes that thread has opened inside the one
    /// that took the lock.
    pub nested: nat,
}

/// One pinned cell: storage for a value that outlives the scope stack.
#[derive(Clone, Copy, PartialEq, Eq, Structural, Debug)]
pub struct Pin {
    /// What the cell holds; null once the cell was released or collected.
    pub value: Address,
    /// Whether the cell only observes its value, so that the collector may
    /// clear it.
    pub weak: bool,
}

/// Everything an isolate is, as mathematics.
pub struct IsolateView {
    /// Where the engine keeps this isolate; its identity.
    pub address: Address,
    /// The array buffer allocator it was created with, null for the engine's
    /// own.
    pub allocator: Address,
    /// Its scopes and the handles they own.
    pub stack: ScopeStack,
    /// How many times it is entered and not yet exited, over all threads.
    pub depth: nat,
    /// Who holds its lock, if anyone does.
    pub lock: Option<LockState>,
    /// Whether it was disposed. Disposal is final.
    pub disposed: bool,
    /// Its pinned cells, in the order they were made. A cell keeps its
    /// position for good.
    pub pins: Seq<Pin>,
    /// Whether the engine captures the stack trace when an exception goes
    /// uncaught. It does not unless told to.
    pub capture_stack_trace: bool,
    /// How many frames of the stack the engine captures then.
    pub frame_limit: i32,
    /// The host routines that are told of error messages, in the order they
    /// were added. A routine that was added twice is told twice.
    pub message_listeners: Seq<Address>,
    /// The host routine that is told of promises rejected without a handler;
    /// null if none was set.
    pub promise_reject_callback: Address,
}

impl IsolateView {
    /// The structural invariant of an isolate.
    pub open spec fn wf(self) -> bool {
        &&& !self.address.is_null()
        &&& self.stack.wf()
        &&& self.depth <= usize::MAX
        &&& self.pins.len() <= usize::MAX
        &&& self.message_listeners.len() <= usize::MAX
        &&& self.lock matches Some(lock) ==> lock.nested <= usize::MAX
    }

    /// Whether operations may be performed on the isolate: it is well-formed
    /// and was not disposed.
    pub open spec fn usable(self) -> bool {
        self.wf() && !self.disposed
    }

    /// Whether `h` may be used with this isolate: it belongs to it, the
    /// isolate was not disposed, and the scope that owns `h` is still open.
    pub open spec fn live(self, h: Handle) -> bool {
        &&& !self.disposed
        &&& h.isolate == self.address
        &&& self.stack.live(h)
    }

    /// The address that `h` reads.
    pub open spec fn read(self, h: Handle) -> Address {
        self.stack.read(h)
    }

    /// Whether every handle of `hs` is live.
    pub open spec fn all_live(self, hs: Seq<Handle>) -> bool {
        forall|i: int| 0 <= i < hs.len() ==> self.live(#[trigger] hs[i])
    }

    /// Whether `thread` may use the isolate. If the isolate is locked, the
    /// thread must hold the lock; if it is not, no other thread may have it
    /// entered.
    pub open spec fn admits(self, thread: ThreadView) -> bool {
        match self.lock {
            Some(lock) => lock.holder == thread.id,
            None => self.depth == thread.entries(self.address),
        }
    }

    /// Whether `thread` may enter the isolate.
    pub open spec fn can_enter(self, thread: ThreadView) -> bool {
        &&& self.usable()
        &&& self.admits(thread)
        &&& self.depth < usize::MAX
        &&& thread.entered.len() < usize::MAX
    }

    /// Whether `thread` may exit the isolate: the isolate is the thread's
    /// current one.
    pub open spec fn can_exit(self, thread: ThreadView) -> bool {
        &&& self.usable()
        &&& self.depth > 0
        &&& thread.current() == Some(self.address)
        &&& self.lock matches Some(lock) ==> lock.holder == thread.id
    }

    /// Whether a message listener can be added: the isolate is usable, the
    /// listener is a routine, and there is room to note it.
    pub open spec fn can_listen(self, callback: Address) -> bool {
        &&& self.usable()
        &&& !callback.is_null()
        &&& self.message_listeners.len() < usize::MAX
    }

    /// Whether the isolate may be disposed: it is entered nowhere.
    pub open spec fn can_dispose(self) -> bool {
        &&& self.usable()
        &&& self.depth == 0
    }

    /// This isolate, entered once more.
    pub open spec fn enter(self) -> IsolateView {
        IsolateView { depth: self.depth + 1, ..self }
    }

    /// This isolate, exited once.
    pub open spec fn exit(self) -> IsolateView {
        IsolateView { depth: (self.depth - 1) as nat, ..self }
    }

    /// This isolate, disposed.
    pub open spec fn dispose(self) -> IsolateView {
        IsolateView { disposed: true, ..self }
    }

    /// This isolate, entered `n` times more.
    pub open spec fn enter_times(self, n: nat) -> IsolateView {
        IsolateView { depth: self.depth + n, ..self }
    }

    /// An isolate that is entered and then exited, however often, leaves no
    /// trace: the thread has the current isolate it had before, and
    /// remembers the same isolates behind it; the isolate is as deep as it
    /// was. While it is entered it cannot be disposed.
    ///
    /// For every `m` below `n`: after `m` entries the next entry is
    /// admitted; after `m + 1` entries the isolate is the thread's current
    /// one, it cannot be disposed, an exit is admitted, and the exit leads
    /// back to the state after `m` entries. So `n` entries followed by `n`
    /// exits, and equally `n` rounds of entering and exiting, end where they
    /// began.
    pub proof fn law_enter_exit_restores(self, thread: ThreadView, n: nat)
        requires
            self.usable(),
            self.admits(thread),
            self.depth + n <= usize::MAX,
            thread.entered.len() + n <= usize::MAX,
        ensures
            thread.enter_times(self.address, n).exit_times(n) == thread,
            forall|m: nat|
                m < n ==> {
                    let before = #[trigger] self.enter_times(m);
                    let after = self.enter_times(m + 1);
                    let t_before = thread.enter_times(self.address, m);
                    let t_after = thread.enter_times(self.address, m + 1);
                    &&& before.can_enter(t_before)
                    &&& before.enter() == after
                    &&& t_before.enter(self.address) == t_after
                    &&& t_after.current() == Some(self.address)
                    &&& !after.can_dispose()
                    &&& after.can_exit(t_after)
                    &&& after.exit() == before
                    &&& t_after.exit() == t_before
                },
            self.enter_times(0) == self,
        decreases n,
    {
        if n > 0 {
            let m = (n - 1) as nat;
            self.law_enter_exit_restores(thread, m);
            Self::lemma_entries(thread, self.address, m);
            let t_before = thread.enter_times(self.address, m);
            t_before.lemma_enter_exit(self.address);
            assert(thread.enter_times(self.address, n) == t_before.enter(self.address));
            assert(thread.enter_times(self.address, n).exit_times(n) == t_before.exit_times(m));
            assert(self.enter_times(m).enter() == self.enter_times(n));
            assert(self.enter_times(n).exit() == self.enter_times(m));
        }
    }

    /// Entering an isolate `n` times makes a thread `n` entries deeper in it
    /// and `n` entries longer.
    pub proof fn lemma_entries(thread: ThreadView, isolate: Address, n: nat)
        ensures
            thread.enter_times(isolate, n).entries(isolate) == thread.entries(isolate) + n,
            thread.enter_times(isolate, n).entered.len() == thread.entered.len() + n,
            thread.enter_times(isolate, n).id == thread.id,
        decreases n,
    {
        if n > 0 {
            Self::lemma_entries(thread, isolate, (n - 1) as nat);
            thread.enter_times(isolate, (n - 1) as nat).lemma_enter_exit(isolate);
        }
    }

    /// Whether the pinned cell at `index` holds a value.
    pub open spec fn filled(self, index: int) -> bool {
        &&& !self.disposed
        &&& 0 <= index < self.pins.len()
        &&& !self.pins[index].value.is_null()
    }

    /// This isolate with one more pinned cell, holding `value`.
    pub open spec fn pin(self, value: Address, weak: bool) -> IsolateView {
        IsolateView { pins: self.pins.push(Pin { value, weak }), ..self }
    }

    /// This isolate with the pinned cell at `index` emptied.
    pub open spec fn unpin(self, index: int) -> IsolateView {
        IsolateView {
            pins: self.pins.update(index, Pin { value: Address::null(), weak: self.pins[index].weak }),
            ..self
        }
    }

    /// This isolate with another scope stack.
    pub open spec fn with_stack(self, stack: ScopeStack) -> IsolateView {
        IsolateView { stack, ..self }
    }

    /// This isolate after wrapping `value`: unchanged where `value` is null.
    pub open spec fn lift(self, value: Address) -> IsolateView {
        if value.is_null() {
            self
        } else {
            self.with_stack(self.stack.wrap(value))
        }
    }

    /// Whether a value can be lifted into a handle: the isolate is usable, a
    /// scope is open to own the handle, and a cell is left for it.
    pub open spec fn can_lift(self) -> bool {
        &&& self.usable()
        &&& self.stack.frames.len() > 0
        &&& self.stack.slots.len() < usize::MAX
    }

    /// The handle that lifting `value` yields: none for null, else one that
    /// the innermost scope owns.
    pub open spec fn lifted(self, value: Address) -> Option<Handle> {
        if value.is_null() {
            None
        } else {
            Some(self.stack.wrapped(self.address))
        }
    }

    /// Every handle that is live here is live in `after` and reads there
    /// what it reads here.
    pub open spec fn kept_in(self, after: IsolateView) -> bool {
        forall|h: Handle| #[trigger] self.live(h) ==> after.live(h) && after.read(h) == self.read(h)
    }

    /// `after` and `r` are what lifting `value` makes of this isolate: a null
    /// `value` yields no handle and changes nothing; any other yields one new
    /// live handle that reads `value`, and leaves the rest as it was.
    pub open spec fn lifts(self, value: Address, after: IsolateView, r: Option<Handle>) -> bool {
        &&& after == self.lift(value)
        &&& r == self.lifted(value)
        &&& after.usable()
        &&& self.kept_in(after)
        &&& forall|h: Handle| #[trigger] after.live(h) ==> self.live(h) || r == Some(h)
        &&& r matches Some(h) ==> after.live(h) && after.read(h) == value && !self.live(h)
    }

    /// Lifting does what [`IsolateView::lifts`] says.
    pub proof fn lemma_lift(self, value: Address)
        requires
            self.can_lift(),
        ensures
            self.lifts(value, self.lift(value), self.lifted(value)),
    {
        if !value.is_null() {
            self.stack.lemma_wrap(value);
            let after = self.lift(value);
            let h = self.stack.wrapped(self.address);
            assert(after.stack.live(h));
            if self.live(h) {
                self.stack.lemma_live_in_bounds(h);
            }
            assert forall|x: Handle| #[trigger] after.live(x) implies self.live(x) || self.lifted(
                value,
            ) == Some(x) by {
                if !self.live(x) {
                    assert(x.scope == h.scope && x.slot == h.slot);
                }
            }
        }
    }
}

/// The parameters an isolate is created with. They are fixed once the isolate
/// exists.
#[derive(Clone, Copy, PartialEq, Eq, Structural, Debug)]
pub struct CreateParams {
    array_buffer_allocator: Address,
}

impl CreateParams {
    /// The array buffer allocator that was set, null if none was.
    pub closed spec fn allocator(self) -> Address {
        self.array_buffer_allocator
    }

    /// Parameters that leave every choice to the engine.
    pub fn new() -> (params: CreateParams)
        ensures
            params.allocator().is_null(),
    {
        CreateParams { array_buffer_allocator: Address::null() }
    }

    /// Chooses the allocator that the isolate will use for array buffers.
    /// Setting it again replaces the earlier choice.
    pub fn set_array_buffer_allocator(&mut self, value: Address)
        ensures
            final(self).allocator() == value,
    {
        self.array_buffer_allocator = value;
    }

    /// The array buffer allocator that was set, if one was.
    pub fn array_buffer_allocator(&self) -> (r: Option<Address>)
        ensures
            r == if self.allocator().is_null() {
                None
            } else {
                Some(self.allocator())
            },
    {
        if self.array_buffer_allocator.is_null() {
            None
        } else {
            Some(self.array_buffer_allocator)
        }
    }
}

impl Default for CreateParams {
    /// Parameters that leave every choice to the engine.
    fn default() -> (params: CreateParams)
        ensures
            params.allocator().is_null(),
    {
        CreateParams::new()
    }
}

/// One independent instance of the engine.
///
/// An isolate owns its scope stack: scopes register themselves here when they
/// open and leave when they close, so the isolate always knows its innermost
/// scope. Handles of one isolate mean nothing to another.
///
/// The scopes and handles of an isolate are for the thread that has the
/// isolate entered, and that holds its lock where threads share it. Like the
/// engine, the operations on scopes and handles do not check this.
pub struct Isolate {
    address: Address,
    params: CreateParams,
    frames: Vec<Frame>,
    slots: Vec<Address>,
    issued: u64,
    depth: usize,
    holder: Option<u64>,
    nested: usize,
    disposed: bool,
    pins: Vec<Pin>,
    capture_stack_trace: bool,
    frame_limit: i32,
    message_listeners: Vec<Address>,
    promise_reject_callback: Address,
}

impl View for Isolate {
    type V = IsolateView;

    closed spec fn view(&self) -> IsolateView {
        IsolateView {
            address: self.address,
            allocator: self.params.allocator(),
            stack: ScopeStack {
                frames: self.frames@,
                slots: self.slots@,
                issued: self.issued as nat,
            },
            depth: self.depth as nat,
            lock: match self.holder {
                Some(holder) => Some(LockState { holder, nested: self.nested as nat }),
                None => None,
            },
            disposed: self.disposed,
            pins: self.pins@,
            capture_stack_trace: self.capture_stack_trace,
            frame_limit: self.frame_limit,
            message_listeners: self.message_listeners@,
            promise_reject_callback: self.promise_reject_callback,
        }
    }
}

/// An isolate together with the duty to dispose it: disposing consumes the
/// value, so it happens at most once and nothing can use the isolate after.
pub struct OwnedIsolate {
    isolate: Isolate,
}

impl View for OwnedIsolate {
    type V = IsolateView;

    closed spec fn view(&self) -> IsolateView {
        self.isolate@
    }
}

impl Isolate {
    /// Takes charge of the isolate that the engine created at `address` from
    /// `params`. A null address means that the engine could not create one,
    /// and there is then no isolate.
    ///
    /// The engine must have been initialized, once per process, before it is
    /// asked for an isolate. The new isolate is not entered.
    pub fn new(params: CreateParams, address: Address) -> (r: Option<OwnedIsolate>)
        ensures
            address.is_null() <==> r is None,
            r matches Some(owned) ==> owned@ == (IsolateView {
                address,
                allocator: params.allocator(),
                stack: ScopeStack::empty(),
                depth: 0,
                lock: None,
                disposed: false,
                pins: Seq::empty(),
                capture_stack_trace: false,
                frame_limit: 0,
                message_listeners: Seq::empty(),
                promise_reject_callback: Address::null(),
            }) && owned@.usable(),
    {
        if address.is_null() {
            None
        } else {
            let isolate = Isolate {
                address,
                params,
                frames: Vec::new(),
                slots: Vec::new(),
                issued: 0,
                depth: 0,
                holder: None,
                nested: 0,
                disposed: false,
                pins: Vec::new(),
                capture_stack_trace: false,
                frame_limit: 0,
                message_listeners: Vec::new(),
                promise_reject_callback: Address::null(),
            };
            Some(OwnedIsolate { isolate })
        }
    }

    /// Initial configuration parameters for a new isolate.
    pub fn create_params() -> (params: CreateParams)
        ensures
            params.allocator().is_null(),
    {
        CreateParams::new()
    }

    /// Where the engine keeps this isolate.
    pub fn address(&self) -> (a: Address)
        ensures
            a == self@.address,
    {
        self.address
    }

    /// The parameters this isolate was created with.
    pub fn params(&self) -> (params: CreateParams)
        ensures
            params.allocator() == self@.allocator,
    {
        self.params
    }

    /// Whether this isolate was disposed.
    pub fn is_disposed(&self) -> (b: bool)
        ensures
            b == self@.disposed,
    {
        self.disposed
    }

    /// How many scopes are open.
    pub fn scope_depth(&self) -> (n: usize)
        ensures
            n == self@.stack.frames.len(),
    {
        self.frames.len()
    }

    /// How many scopes this isolate has opened so far.
    pub fn scopes_issued(&self) -> (n: u64)
        ensures
            n == self@.stack.issued,
    {
        self.issued
    }

    /// The serial number of the innermost open scope, if any scope is open.
    pub fn innermost(&self) -> (r: Option<u64>)
        ensures
            r == self@.stack.innermost(),
    {
        let n = self.frames.len();
        if n > 0 {
            Some(self.frames[n - 1].id)
        } else {
            None
        }
    }

    /// The frame of the innermost open scope, if any scope is open.
    pub fn innermost_frame(&self) -> (r: Option<Frame>)
        ensures
            r == if self@.stack.frames.len() > 0 {
                Some(self@.stack.frames.last())
            } else {
                None
            },
    {
        let n = self.frames.len();
        if n > 0 {
            Some(self.frames[n - 1])
        } else {
            None
        }
    }

    /// Whether `local` may be used with this isolate.
    pub fn is_live(&self, local: &Local) -> (b: bool)
        requires
            self@.wf(),
        ensures
            b == self@.live(local@),
    {
        if self.disposed || local.isolate().0 != self.address.0 {
            return false;
        }
        let n = self.frames.len();
        let slot = local.slot();
        let mut i: usize = 0;
        while i < n
            invariant
                i <= n,
                n == self.frames.len(),
                self@.wf(),
                !self@.disposed,
                local@.isolate == self@.address,
                slot == local@.slot,
                forall|j: int| 0 <= j < i ==> (#[trigger] self@.stack.frames[j]).id != local@.scope,
            decreases n - i,
        {
            if self.frames[i].id == local.scope() {
                let end = if i + 1 < n {
                    self.frames[i + 1].base
                } else {
                    self.slots.len()
                };
                assert(end == self@.stack.end(i as int));
                assert(end <= self.slots.len()) by {
                    if i + 1 < n {
                        assert(self@.stack.frames[i + 1].base <= self@.stack.slots.len());
                    }
                }
                let b = if self.frames[i].base <= slot && slot < end {
                    !self.slots[slot].is_null()
                } else {
                    false
                };
                proof {
                    assert(b == self@.stack.owns(i as int, local@));
                    if self@.stack.live(local@) {
                        let k = choose|k: int|
                            0 <= k < self@.stack.frames.len() && #[trigger] self@.stack.owns(
                                k,
                                local@,
                            );
                        self@.stack.lemma_frame_unique(k, i as int);
                    }
                }
                return b;
            }
            i += 1;
        }
        proof {
            if self@.stack.live(local@) {
                let k = choose|k: int|
                    0 <= k < self@.stack.frames.len() && #[trigger] self@.stack.owns(k, local@);
                assert(self@.stack.frames[k].id == local@.scope);
            }
        }
        false
    }

    /// Whether every handle of `locals` may be used with this isolate.
    pub fn all_live(&self, locals: &Vec<Local>) -> (b: bool)
        requires
            self@.wf(),
        ensures
            b == self@.all_live(locals@.map_values(|l: Local| l@)),
    {
        let ghost hs = locals@.map_values(|l: Local| l@);
        let mut i: usize = 0;
        while i < locals.len()
            invariant
                i <= locals.len(),
                self@.wf(),
                hs == locals@.map_values(|l: Local| l@),
                forall|j: int| 0 <= j < i ==> self@.live(#[trigger] hs[j]),
            decreases locals.len() - i,
        {
            if !self.is_live(&locals[i]) {
                assert(hs[i as int] == locals@[i as int]@);
                return false;
            }
            assert(hs[i as int] == locals@[i as int]@);
            i += 1;
        }
        true
    }

    /// The address that `local` reads.
    pub fn read(&self, local: &Local) -> (a: Address)
        requires
            self@.wf(),
            self@.live(local@),
        ensures
            a == self@.read(local@),
            !a.is_null(),
    {
        proof {
            self@.stack.lemma_live_in_bounds(local@);
        }
        self.slots[local.slot()]
    }

    /// The current execution context: the one that the innermost context
    /// scope has made current, if a context scope is open.
    pub fn current_context(&self) -> (r: Option<Address>)
        ensures
            r == self@.stack.current_context(),
    {
        let context = self.context();
        if context.is_null() {
            None
        } else {
            Some(context)
        }
    }

    /// The address of the current execution context, null if there is none.
    pub fn context(&self) -> (context: Address)
        ensures
            context == self@.stack.context(),
    {
        let n = self.frames.len();
        if n > 0 {
            self.frames[n - 1].context
        } else {
            Address::null()
        }
    }

    /// Whether `thread` may enter this isolate.
    pub fn can_enter(&self, thread: &Thread) -> (b: bool)
        requires
            self@.wf(),
        ensures
            b == self@.can_enter(thread@),
    {
        if self.disposed || self.depth == usize::MAX || thread.depth() == usize::MAX {
            return false;
        }
        match self.holder {
            Some(holder) => holder == thread.id(),
            None => self.depth == thread.entries(self.address),
        }
    }

    /// Whether `thread` may exit this isolate.
    pub fn can_exit(&self, thread: &Thread) -> (b: bool)
        requires
            self@.wf(),
        ensures
            b == self@.can_exit(thread@),
    {
        if self.disposed || self.depth == 0 {
            return false;
        }
        let held = match self.holder {
            Some(holder) => holder == thread.id(),
            None => true,
        };
        match thread.current() {
            Some(current) => held && current.0 == self.address.0,
            None => false,
        }
    }

    /// Whether this isolate may be disposed.
    pub fn can_dispose(&self) -> (b: bool)
        requires
            self@.wf(),
        ensures
            b == self@.can_dispose(),
    {
        !self.disposed && self.depth == 0
    }

    /// How many times this isolate is entered and not yet exited.
    pub fn entry_depth(&self) -> (n: usize)
        requires
            self@.wf(),
        ensures
            n == self@.depth,
    {
        self.depth
    }

    /// Makes this isolate the current one of `thread`, and remembers the one
    /// that was current, so that exiting restores it. An isolate may be
    /// entered again while it is entered.
    pub fn enter(&mut self, thread: &mut Thread)
        requires
            old(self)@.can_enter(old(thread)@),
        ensures
            final(self)@ == old(self)@.enter(),
            final(self)@.usable(),
            final(thread)@ == old(thread)@.enter(old(self)@.address),
            final(thread)@.current() == Some(old(self)@.address),
            final(thread)@.entries(old(self)@.address) == old(thread)@.entries(old(self)@.address)
                + 1,
            forall|other: Address|
                other != old(self)@.address ==> #[trigger] final(thread)@.entries(other) == old(
                    thread,
                )@.entries(other),
            final(self)@.admits(final(thread)@),
            final(self)@.can_exit(final(thread)@),
            !final(self)@.can_dispose(),
    {
        proof {
            thread@.lemma_enter_exit(self@.address);
        }
        self.depth = self.depth + 1;
        thread.push(self.address);
    }

    /// Leaves this isolate: the isolate that was current on `thread` before
    /// the matching entry is current again. This isolate stays current if it
    /// was entered more than once.
    pub fn exit(&mut self, thread: &mut Thread)
        requires
            old(self)@.can_exit(old(thread)@),
        ensures
            final(self)@ == old(self)@.exit(),
            final(self)@.usable(),
            final(thread)@ == old(thread)@.exit(),
            final(thread)@.entries(old(self)@.address) + 1 == old(thread)@.entries(
                old(self)@.address,
            ),
            forall|other: Address|
                other != old(self)@.address ==> #[trigger] final(thread)@.entries(other) == old(
                    thread,
                )@.entries(other),
            old(self)@.admits(old(thread)@) ==> final(self)@.admits(final(thread)@),
    {
        proof {
            thread@.lemma_exit();
        }
        self.depth = self.depth - 1;
        thread.pop();
    }

    /// Disposes the isolate. It must not be entered by any thread. Disposal
    /// is final: nothing may be done with the isolate afterwards, and none of
    /// its handles is live.
    pub fn dispose(&mut self)
        requires
            old(self)@.can_dispose(),
        ensures
            final(self)@ == old(self)@.dispose(),
            !final(self)@.usable(),
            forall|h: Handle| !#[trigger] final(self)@.live(h),
    {
        self.disposed = true;
    }

    /// Tells the engine whether to capture the stack trace when an
    /// exception goes uncaught, for the message listeners to be told, and how
    /// many frames of it.
    pub fn set_capture_stack_trace_for_uncaught_exceptions(
        &mut self,
        capture: bool,
        frame_limit: i32,
    )
        requires
            old(self)@.usable(),
        ensures
            final(self)@ == (IsolateView {
                capture_stack_trace: capture,
                frame_limit,
                ..old(self)@
            }),
            final(self)@.usable(),
    {
        self.capture_stack_trace = capture;
        self.frame_limit = frame_limit;
    }

    /// How many frames of the stack the engine captures when an exception
    /// goes uncaught; nothing if it captures none.
    pub fn captured_frames(&self) -> (r: Option<i32>)
        ensures
            r == if self@.capture_stack_trace {
                Some(self@.frame_limit)
            } else {
                None
            },
    {
        if self.capture_stack_trace {
            Some(self.frame_limit)
        } else {
            None
        }
    }

    /// Takes note of a listener for error messages, the host routine at
    /// `callback`; `reply` is whether the engine accepted it. A routine may
    /// be added more than once, and is then told of every message as often as
    /// it was added.
    pub fn add_message_listener(&mut self, callback: Address, reply: bool) -> (added: bool)
        requires
            old(self)@.can_listen(callback),
        ensures
            added == reply,
            final(self)@ == if reply {
                IsolateView {
                    message_listeners: old(self)@.message_listeners.push(callback),
                    ..old(self)@
                }
            } else {
                old(self)@
            },
            final(self)@.usable(),
    {
        if reply {
            self.message_listeners.push(callback);
        }
        reply
    }

    /// Whether a listener for error messages can be added now.
    pub fn can_listen(&self, callback: Address) -> (b: bool)
        requires
            self@.wf(),
        ensures
            b == self@.can_listen(callback),
    {
        !self.disposed && !callback.is_null() && self.message_listeners.len() < usize::MAX
    }

    /// How often the host routine at `callback` is told of an error message.
    pub fn times_listening(&self, callback: Address) -> (n: usize)
        ensures
            n == occurrences(self@.message_listeners, callback),
    {
        let mut n: usize = 0;
        let mut i: usize = 0;
        while i < self.message_listeners.len()
            invariant
                i <= self.message_listeners.len(),
                n == occurrences(self.message_listeners@.take(i as int), callback),
                n <= i,
            decreases self.message_listeners.len() - i,
        {
            proof {
                let next = self.message_listeners@.take(i + 1);
                assert(next.drop_last() =~= self.message_listeners@.take(i as int));
                assert(next.last() == self.message_listeners@[i as int]);
            }
            if self.message_listeners[i].0 == callback.0 {
                n += 1;
            }
            i += 1;
        }
        assert(self.message_listeners@.take(i as int) =~= self.message_listeners@);
        n
    }

    /// Sets the host routine that is told when a promise is rejected and has
    /// no handler, and when such a promise gets a handler after all. It
    /// takes the place of the routine that was set before.
    pub fn set_promise_reject_callback(&mut self, callback: Address)
        requires
            old(self)@.usable(),
        ensures
            final(self)@ == (IsolateView { promise_reject_callback: callback, ..old(self)@ }),
            final(self)@.usable(),
    {
        self.promise_reject_callback = callback;
    }

    /// The host routine that is told of promises rejected without a handler,
    /// if one was set.
    pub fn promise_reject_callback(&self) -> (r: Option<Address>)
        ensures
            r == if self@.promise_reject_callback.is_null() {
                None
            } else {
                Some(self@.promise_reject_callback)
            },
    {
        if self.promise_reject_callback.is_null() {
            None
        } else {
            Some(self.promise_reject_callback)
        }
    }

    /// The thread that holds the lock of this isolate, if any does.
    pub fn lock_holder(&self) -> (r: Option<u64>)
        ensures
            r == match self@.lock {
                Some(lock) => Some(lock.holder),
                None => None,
            },
    {
        self.holder
    }

    /// How many lock scopes the holder of the lock has opened inside the one
    /// that took it; zero if the isolate is not locked.
    pub fn lock_depth(&self) -> (n: usize)
        ensures
            n == match self@.lock {
                Some(lock) => lock.nested,
                None => 0,
            },
    {
        match self.holder {
            Some(_) => self.nested,
            None => 0,
        }
    }

    /// Tries for the lock on behalf of `thread`: says whether the lock was
    /// taken by this call, or nothing if another thread holds it.
    pub(crate) fn try_lock(&mut self, thread: u64) -> (r: Option<bool>)
        requires
            old(self)@.usable(),
            old(self)@.lock matches Some(lock) ==> (lock.holder == thread ==> lock.nested
                < usize::MAX),
        ensures
            final(self)@.usable(),
            match old(self)@.lock {
                None => r == Some(true) && final(self)@ == (IsolateView {
                    lock: Some(LockState { holder: thread, nested: 0 }),
                    ..old(self)@
                }),
                Some(lock) => if lock.holder == thread {
                    r == Some(false) && final(self)@ == (IsolateView {
                        lock: Some(LockState { holder: thread, nested: lock.nested + 1 }),
                        ..old(self)@
                    })
                } else {
                    r is None && final(self)@ == old(self)@
                },
            },
    {
        match self.holder {
            None => {
                self.holder = Some(thread);
                self.nested = 0;
                Some(true)
            },
            Some(holder) => {
                if holder == thread {
                    self.nested = self.nested + 1;
                    Some(false)
                } else {
                    None
                }
            },
        }
    }

    /// Releases one lock scope of the holder: the one that took the lock if
    /// `has_lock`, a nested one if not.
    pub(crate) fn release_lock(&mut self, has_lock: bool)
        requires
            old(self)@.usable(),
            old(self)@.lock matches Some(lock) && (has_lock <==> lock.nested == 0),
        ensures
            final(self)@.usable(),
            final(self)@ == if has_lock {
                IsolateView { lock: None, ..old(self)@ }
            } else {
                IsolateView {
                    lock: Some(
                        LockState {
                            holder: old(self)@.lock->0.holder,
                            nested: (old(self)@.lock->0.nested - 1) as nat,
                        },
                    ),
                    ..old(self)@
                }
            },
    {
        if has_lock {
            self.holder = None;
            self.nested = 0;
        } else {
            self.nested = self.nested - 1;
        }
    }

    /// Whether a value can be lifted into a handle now.
    pub fn can_lift(&self) -> (b: bool)
        requires
            self@.wf(),
        ensures
            b == self@.can_lift(),
    {
        !self.disposed && self.frames.len() > 0 && self.slots.len() < usize::MAX
    }

    /// Whether a scope can be opened now.
    pub fn can_open(&self) -> (b: bool)
        requires
            self@.wf(),
        ensures
            b == (self@.usable() && self@.stack.can_open()),
    {
        !self.disposed && self.issued < u64::MAX
    }

    /// Whether an escapable scope can be opened now.
    pub fn can_open_escapable(&self) -> (b: bool)
        requires
            self@.wf(),
        ensures
            b == (self@.usable() && self@.stack.can_open_escapable()),
    {
        !self.disposed && self.issued < u64::MAX && self.slots.len() < usize::MAX
            && self.frames.len() > 0
    }

    /// Whether the scope with serial number `id` is open and may still
    /// escape a handle.
    pub fn is_escapable(&self, id: u64) -> (b: bool)
        requires
            self@.wf(),
        ensures
            b == self@.stack.is_escapable(id),
    {
        let mut i: usize = 0;
        while i < self.frames.len()
            invariant
                i <= self.frames.len(),
                forall|j: int|
                    0 <= j < i ==> !((#[trigger] self@.stack.frames[j]).id == id
                        && self@.stack.frames[j].kind is Escapable),
            decreases self.frames.len() - i,
        {
            if self.frames[i].id == id {
                match self.frames[i].kind {
                    ScopeKind::Escapable => {
                        return true;
                    },
                    _ => {},
                }
            }
            i += 1;
        }
        false
    }

    /// Lifts an address that the engine handed out, and that is not null,
    /// into a handle of the innermost scope.
    pub fn lift(&mut self, value: Address) -> (local: Local)
        requires
            old(self)@.can_lift(),
            !value.is_null(),
        ensures
            old(self)@.lifts(value, final(self)@, Some(local@)),
    {
        proof {
            self@.lemma_lift(value);
        }
        self.wrap(value)
    }

    /// Takes note that the engine scheduled `exception` to be thrown when
    /// control returns to the script; `reply` is what the engine handed
    /// back. Until the exception has been handled, the caller must not ask
    /// the engine to run any script.
    pub fn throw_exception(&mut self, exception: Local, reply: Address) -> (local: Local)
        requires
            old(self)@.can_lift(),
            old(self)@.live(exception@),
            !reply.is_null(),
        ensures
            old(self)@.lifts(reply, final(self)@, Some(local@)),
    {
        self.lift(reply)
    }

    /// How many pinned cells this isolate has made.
    pub fn pins_made(&self) -> (n: usize)
        ensures
            n == self@.pins.len(),
    {
        self.pins.len()
    }

    /// The pinned cell at `index`.
    pub fn pin_at(&self, index: usize) -> (pin: Pin)
        requires
            index < self@.pins.len(),
        ensures
            pin == self@.pins[index as int],
    {
        self.pins[index]
    }

    /// Makes a pinned cell that holds `value`, and returns its position.
    pub(crate) fn add_pin(&mut self, value: Address, weak: bool) -> (index: usize)
        requires
            old(self)@.usable(),
            old(self)@.pins.len() < usize::MAX,
        ensures
            final(self)@ == old(self)@.pin(value, weak),
            final(self)@.usable(),
            index == old(self)@.pins.len(),
    {
        let index = self.pins.len();
        self.pins.push(Pin { value, weak });
        index
    }

    /// Empties the pinned cell at `index`.
    pub(crate) fn clear_pin(&mut self, index: usize)
        requires
            old(self)@.usable(),
            index < old(self)@.pins.len(),
        ensures
            final(self)@ == old(self)@.unpin(index as int),
            final(self)@.usable(),
    {
        let weak = self.pins[index].weak;
        self.pins[index] = Pin { value: Address::null(), weak };
    }

    /// Opens a plain scope, and returns its serial number.
    pub(crate) fn open_frame(&mut self) -> (id: u64)
        requires
            old(self)@.usable(),
            old(self)@.stack.can_open(),
        ensures
            final(self)@ == old(self)@.with_stack(old(self)@.stack.open()),
            final(self)@.usable(),
            id == old(self)@.stack.issued,
    {
        let id = self.issued;
        let base = self.slots.len();
        let context = self.context();
        self.frames.push(Frame { id, base, kind: ScopeKind::Plain, context });
        self.issued = self.issued + 1;
        proof {
            old(self)@.stack.lemma_push(ScopeKind::Plain, context);
            assert(self@.stack.frames =~= old(self)@.stack.open().frames);
        }
        id
    }

    /// Opens a scope that makes `context` current, and returns its serial
    /// number.
    pub(crate) fn open_context_frame(&mut self, context: Address) -> (id: u64)
        requires
            old(self)@.usable(),
            old(self)@.stack.can_open(),
        ensures
            final(self)@ == old(self)@.with_stack(old(self)@.stack.open_context(context)),
            final(self)@.usable(),
            id == old(self)@.stack.issued,
    {
        let id = self.issued;
        let base = self.slots.len();
        self.frames.push(Frame { id, base, kind: ScopeKind::Context, context });
        self.issued = self.issued + 1;
        proof {
            old(self)@.stack.lemma_push(ScopeKind::Context, context);
            assert(self@.stack.frames =~= old(self)@.stack.open_context(context).frames);
        }
        id
    }

    /// Sets a cell aside in the innermost scope and opens an escapable scope
    /// above it; returns the new scope's serial number.
    pub(crate) fn open_escapable_frame(&mut self) -> (id: u64)
        requires
            old(self)@.usable(),
            old(self)@.stack.can_open_escapable(),
        ensures
            final(self)@ == old(self)@.with_stack(old(self)@.stack.open_escapable()),
            final(self)@.usable(),
            id == old(self)@.stack.issued,
    {
        let id = self.issued;
        let context = self.context();
        self.slots.push(Address::null());
        let base = self.slots.len();
        self.frames.push(Frame { id, base, kind: ScopeKind::Escapable, context });
        self.issued = self.issued + 1;
        proof {
            old(self)@.stack.lemma_open_escapable();
            assert(self@.stack.frames =~= old(self)@.stack.open_escapable().frames);
            assert(self@.stack.slots =~= old(self)@.stack.open_escapable().slots);
        }
        id
    }

    /// Gives `value` a cell in the innermost scope and returns the handle
    /// that reads it.
    pub(crate) fn wrap(&mut self, value: Address) -> (local: Local)
        requires
            old(self)@.can_lift(),
            !value.is_null(),
        ensures
            final(self)@ == old(self)@.with_stack(old(self)@.stack.wrap(value)),
            final(self)@.usable(),
            local@ == old(self)@.stack.wrapped(old(self)@.address),
    {
        let n = self.frames.len();
        let scope = self.frames[n - 1].id;
        let slot = self.slots.len();
        self.slots.push(value);
        proof {
            old(self)@.stack.lemma_wrap(value);
            assert(self@.stack.slots =~= old(self)@.stack.wrap(value).slots);
        }
        Local::at(self.address, scope, slot)
    }

    /// Copies what `local` reads into the cell that the innermost scope set
    /// aside in its parent, and returns the handle that reads that cell.
    pub(crate) fn escape_frame(&mut self, local: &Local) -> (escaped: Local)
        requires
            old(self)@.usable(),
            old(self)@.stack.can_escape(local@),
        ensures
            final(self)@ == old(self)@.with_stack(old(self)@.stack.escape(local@)),
            final(self)@.usable(),
            escaped@ == old(self)@.stack.escaped(old(self)@.address),
    {
        proof {
            old(self)@.stack.lemma_escape(local@);
            old(self)@.stack.lemma_live_in_bounds(local@);
        }
        let n = self.frames.len();
        let top = self.frames[n - 1];
        let parent = self.frames[n - 2].id;
        assert(old(self)@.stack.reserved(n - 1));
        let value = self.slots[local.slot()];
        let slot = top.base - 1;
        self.slots[slot] = value;
        self.frames[n - 1] = Frame {
            id: top.id,
            base: top.base,
            kind: ScopeKind::Plain,
            context: top.context,
        };
        proof {
            assert(self@.stack.frames =~= old(self)@.stack.escape(local@).frames);
            assert(self@.stack.slots =~= old(self)@.stack.escape(local@).slots);
        }
        Local::at(self.address, parent, slot)
    }

    /// Closes the innermost scope, which must be the one numbered `id`.
    pub(crate) fn close_frame(&mut self, id: u64)
        requires
            old(self)@.usable(),
            old(self)@.stack.can_close(id),
        ensures
            final(self)@ == old(self)@.with_stack(old(self)@.stack.close()),
            final(self)@.usable(),
    {
        let n = self.frames.len();
        let top = self.frames[n - 1];
        assert(top.base <= old(self)@.stack.slots.len());
        self.frames.pop();
        self.slots.truncate(top.base);
        proof {
            old(self)@.stack.lemma_close();
            assert(self@.stack.frames =~= old(self)@.stack.close().frames);
            assert(self@.stack.slots =~= old(self)@.stack.close().slots);
        }
    }
}

impl OwnedIsolate {
    /// The isolate.
    pub fn isolate(&self) -> (isolate: &Isolate)
        ensures
            isolate@ == self@,
    {
        &self.isolate
    }

    /// Disposes the isolate, which must not be entered by any thread, and
    /// hands back what is left of it: a record on which nothing is live and
    /// nothing may be done.
    pub fn dispose(self) -> (isolate: Isolate)
        requires
            self@.can_dispose(),
        ensures
            isolate@ == self@.dispose(),
            !isolate@.usable(),
            forall|h: Handle| !#[trigger] isolate@.live(h),
    {
        let mut isolate = self.isolate;
        isolate.dispose();
        isolate
    }

    /// The isolate, for operations that change it.
    pub fn isolate_mut(&mut self) -> (isolate: &mut Isolate)
        ensures
            isolate@ == old(self)@,
            final(self)@ == final(isolate)@,
    {
        &mut self.isolate
    }
}

} // verus!

//! Handles to promises of the engine and to their resolvers.

use vstd::prelude::*;
use crate::address::Address;
use crate::function::Function;
use crate::handle::handle_of;
use crate::handle::Handle;
use crate::handle::Local;
use crate::isolate::Isolate;
use crate::isolate::IsolateView;

verus! {

/// The state of a promise.
#[derive(Clone, Copy, PartialEq, Eq, Structural, Debug)]
pub enum PromiseState {
    /// Neither fulfilled nor rejected yet.
    Pending,
    /// Fulfilled with a value.
    Fulfilled,
    /// Rejected with a reason.
    Rejected,
}

impl PromiseState {
    /// The state that the engine means by `raw`: it numbers the states from
    /// zero in the order pending, fulfilled, rejected.
    pub open spec fn decode(raw: i32) -> Option<PromiseState> {
        if raw == 0 {
            Some(PromiseState::Pending)
        } else if raw == 1 {
            Some(PromiseState::Fulfilled)
        } else if raw == 2 {
            Some(PromiseState::Rejected)
        } else {
            None
        }
    }

    /// The number by which the engine means this state.
    pub open spec fn encode(self) -> i32 {
        match self {
            PromiseState::Pending => 0,
            PromiseState::Fulfilled => 1,
            PromiseState::Rejected => 2,
        }
    }

    /// The state that the engine means by `raw`, if it means one.
    pub fn from_raw(raw: i32) -> (r: Option<PromiseState>)
        ensures
            r == PromiseState::decode(raw),
    {
        if raw == 0 {
            Some(PromiseState::Pending)
        } else if raw == 1 {
            Some(PromiseState::Fulfilled)
        } else if raw == 2 {
            Some(PromiseState::Rejected)
        } else {
            None
        }
    }

    /// The number by which the engine means this state.
    pub fn raw(&self) -> (raw: i32)
        ensures
            raw == self.encode(),
            PromiseState::decode(raw) == Some(*self),
    {
        match self {
            PromiseState::Pending => 0,
            PromiseState::Fulfilled => 1,
            PromiseState::Rejected => 2,
        }
    }
}

/// A handle to a promise of the engine.
#[derive(Clone, Copy, PartialEq, Eq, Structural, Debug)]
pub struct Promise {
    handle: Local,
}

impl View for Promise {
    type V = Handle;

    closed spec fn view(&self) -> Handle {
        self.handle@
    }
}

impl IsolateView {
    /// Whether a handler can be registered with `promise` in `context`:
    /// a handle can be made for the derived promise, and every handle given
    /// is live.
    pub open spec fn can_chain(self, promise: Handle, context: Handle, handlers: Seq<Handle>) -> bool {
        &&& self.can_lift()
        &&& self.live(promise)
        &&& self.live(context)
        &&& self.all_live(handlers)
    }
}

impl Promise {
    /// Takes `local` for a handle to a promise.
    pub fn from_local(local: Local) -> (promise: Promise)
        ensures
            promise@ == local@,
    {
        Promise { handle: local }
    }

    /// The handle, as one to any value.
    pub fn handle(&self) -> (local: Local)
        ensures
            local@ == self@,
    {
        self.handle
    }

    /// Whether `handler` can be registered with this promise in `context`
    /// now.
    pub fn can_chain(&self, isolate: &Isolate, context: Local, handler: Function) -> (b: bool)
        requires
            isolate@.wf(),
        ensures
            b == isolate@.can_chain(self@, context@, seq![handler@]),
    {
        let b = isolate.can_lift() && isolate.is_live(&self.handle) && isolate.is_live(&context)
            && isolate.is_live(&handler.handle());
        proof {
            let handlers = seq![handler@];
            assert(handlers[0] == handler@);
        }
        b
    }

    /// Whether both handlers can be registered with this promise in
    /// `context` now.
    pub fn can_chain2(
        &self,
        isolate: &Isolate,
        context: Local,
        on_fulfilled: Function,
        on_rejected: Function,
    ) -> (b: bool)
        requires
            isolate@.wf(),
        ensures
            b == isolate@.can_chain(self@, context@, seq![on_fulfilled@, on_rejected@]),
    {
        let b = isolate.can_lift() && isolate.is_live(&self.handle) && isolate.is_live(&context)
            && isolate.is_live(&on_fulfilled.handle()) && isolate.is_live(&on_rejected.handle());
        proof {
            let handlers = seq![on_fulfilled@, on_rejected@];
            assert(handlers[0] == on_fulfilled@);
            assert(handlers[1] == on_rejected@);
        }
        b
    }

    /// The state of the promise, from the number `reply` that the engine
    /// gave for it; nothing if the number names no state.
    pub fn state(&self, isolate: &Isolate, reply: i32) -> (r: Option<PromiseState>)
        requires
            isolate@.live(self@),
        ensures
            r == PromiseState::decode(reply),
    {
        PromiseState::from_raw(reply)
    }

    /// The value or reason that the promise was settled with. The promise
    /// must not be pending: `state` is its state, and `reply` is what the
    /// engine handed back.
    pub fn result(&self, isolate: &mut Isolate, state: PromiseState, reply: Address) -> (local: Local)
        requires
            old(isolate)@.can_lift(),
            old(isolate)@.live(self@),
            !(state is Pending),
            !reply.is_null(),
        ensures
            old(isolate)@.lifts(reply, final(isolate)@, Some(local@)),
    {
        isolate.lift(reply)
    }

    /// The promise derived by registering `handler` for rejection; `reply`
    /// is what the engine handed back, null if it threw.
    pub fn catch(&self, isolate: &mut Isolate, context: Local, handler: Function, reply: Address) -> (r:
        Option<Promise>)
        requires
            old(isolate)@.can_chain(self@, context@, seq![handler@]),
        ensures
            old(isolate)@.lifts(reply, final(isolate)@, handle_of(r)),
    {
        match Local::from_raw(isolate, reply) {
            Some(local) => Some(Promise { handle: local }),
            None => None,
        }
    }

    /// The promise derived by registering `handler` for fulfilment; `reply`
    /// is what the engine handed back, null if it threw.
    pub fn then(&self, isolate: &mut Isolate, context: Local, handler: Function, reply: Address) -> (r:
        Option<Promise>)
        requires
            old(isolate)@.can_chain(self@, context@, seq![handler@]),
        ensures
            old(isolate)@.lifts(reply, final(isolate)@, handle_of(r)),
    {
        match Local::from_raw(isolate, reply) {
            Some(local) => Some(Promise { handle: local }),
            None => None,
        }
    }

    /// The promise derived by registering one handler for fulfilment and one
    /// for rejection; `reply` is what the engine handed back, null if it
    /// threw. The handler that applies is called with the value or the
    /// reason, at the end of the turn if the promise is settled already.
    pub fn then2(
        &self,
        isolate: &mut Isolate,
        context: Local,
        on_fulfilled: Function,
        on_rejected: Function,
        reply: Address,
    ) -> (r: Option<Promise>)
        requires
            old(isolate)@.can_chain(self@, context@, seq![on_fulfilled@, on_rejected@]),
        ensures
            old(isolate)@.lifts(reply, final(isolate)@, handle_of(r)),
    {
        match Local::from_raw(isolate, reply) {
            Some(local) => Some(Promise { handle: local }),
            None => None,
        }
    }
}

/// A handle to the resolver of a promise.
#[derive(Clone, Copy, PartialEq, Eq, Structural, Debug)]
pub struct PromiseResolver {
    handle: Local,
}

impl View for PromiseResolver {
    type V = Handle;

    closed spec fn view(&self) -> Handle {
        self.handle@
    }
}

impl PromiseResolver {
    /// Takes `local` for a handle to a resolver.
    pub fn from_local(local: Local) -> (resolver: PromiseResolver)
        ensures
            resolver@ == local@,
    {
        PromiseResolver { handle: local }
    }

    /// The handle, as one to any value.
    pub fn handle(&self) -> (local: Local)
        ensures
            local@ == self@,
    {
        self.handle
    }

    /// The resolver that the engine made in `context`, along with a pending
    /// promise; `reply` is what the engine handed back, null if it made
    /// none.
    pub fn new(isolate: &mut Isolate, context: Local, reply: Address) -> (r: Option<
        PromiseResolver,
    >)
        requires
            old(isolate)@.can_lift(),
            old(isolate)@.live(context@),
        ensures
            old(isolate)@.lifts(reply, final(isolate)@, handle_of(r)),
    {
        match Local::from_raw(isolate, reply) {
            Some(local) => Some(PromiseResolver { handle: local }),
            None => None,
        }
    }

    /// The promise that this resolver settles; `reply` is what the engine
    /// handed back.
    pub fn get_promise(&self, isolate: &mut Isolate, reply: Address) -> (promise: Promise)
        requires
            old(isolate)@.can_lift(),
            old(isolate)@.live(self@),
            !reply.is_null(),
        ensures
            old(isolate)@.lifts(reply, final(isolate)@, Some(promise@)),
    {
        Promise { handle: isolate.lift(reply) }
    }
}

} // verus!

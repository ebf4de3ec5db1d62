//! Handles to objects of the engine.

use vstd::prelude::*;
use crate::address::Address;
use crate::handle::Handle;
use crate::handle::Local;
use crate::isolate::Isolate;
use crate::isolate::IsolateView;

verus! {

/// A handle to an object of the engine.
#[derive(Clone, Copy, PartialEq, Eq, Structural, Debug)]
pub struct Object {
    handle: Local,
}

impl View for Object {
    type V = Handle;

    closed spec fn view(&self) -> Handle {
        self.handle@
    }
}

impl IsolateView {
    /// Whether an object can be made from this prototype and the first
    /// `length` of these names and values: every handle is live, and there
    /// are `length` names and `length` values.
    pub open spec fn can_make_object(
        self,
        prototype_or_null: Handle,
        names: Seq<Handle>,
        values: Seq<Handle>,
        length: nat,
    ) -> bool {
        &&& self.can_lift()
        &&& self.live(prototype_or_null)
        &&& self.all_live(names)
        &&& self.all_live(values)
        &&& length <= names.len()
        &&& length <= values.len()
    }
}

impl Object {
    /// Takes `local` for a handle to an object.
    pub fn from_local(local: Local) -> (object: Object)
        ensures
            object@ == local@,
    {
        Object { handle: local }
    }

    /// The handle, as one to any value.
    pub fn handle(&self) -> (local: Local)
        ensures
            local@ == self@,
    {
        self.handle
    }

    /// Whether an object can be made from this prototype and the first
    /// `length` of these names and values.
    pub fn can_make(
        isolate: &Isolate,
        prototype_or_null: Local,
        names: &Vec<Local>,
        values: &Vec<Local>,
        length: usize,
    ) -> (b: bool)
        requires
            isolate@.wf(),
        ensures
            b == isolate@.can_make_object(
                prototype_or_null@,
                names@.map_values(|l: Local| l@),
                values@.map_values(|l: Local| l@),
                length as nat,
            ),
    {
        isolate.can_lift() && isolate.is_live(&prototype_or_null) && isolate.all_live(names)
            && isolate.all_live(values) && length <= names.len() && length <= values.len()
    }

    /// The object that the engine made with the given prototype (which can
    /// be any value; if it is the engine's null, the object has no
    /// prototype) and with the first `length` of the given names and values
    /// as its properties; `reply` is what the engine handed back.
    pub fn new(
        isolate: &mut Isolate,
        prototype_or_null: Local,
        names: Vec<Local>,
        values: Vec<Local>,
        length: usize,
        reply: Address,
    ) -> (object: Object)
        requires
            old(isolate)@.can_make_object(
                prototype_or_null@,
                names@.map_values(|l: Local| l@),
                values@.map_values(|l: Local| l@),
                length as nat,
            ),
            !reply.is_null(),
        ensures
            old(isolate)@.lifts(reply, final(isolate)@, Some(object@)),
    {
        Object { handle: isolate.lift(reply) }
    }
}

} // verus!

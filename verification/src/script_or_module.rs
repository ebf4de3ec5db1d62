//! Handles to the metadata that the engine passes along when a script asks
//! for a module to be loaded.

use vstd::prelude::*;
use crate::address::Address;
use crate::handle::Handle;
use crate::handle::Local;
use crate::isolate::Isolate;

verus! {

/// A handle to the metadata of the script or module that asks for a module
/// to be loaded.
#[derive(Clone, Copy, PartialEq, Eq, Structural, Debug)]
pub struct ScriptOrModule {
    handle: Local,
}

impl View for ScriptOrModule {
    type V = Handle;

    closed spec fn view(&self) -> Handle {
        self.handle@
    }
}

impl ScriptOrModule {
    /// Takes `local` for a handle to such metadata.
    pub fn from_local(local: Local) -> (referrer: ScriptOrModule)
        ensures
            referrer@ == local@,
    {
        ScriptOrModule { handle: local }
    }

    /// The handle, as one to any value.
    pub fn handle(&self) -> (local: Local)
        ensures
            local@ == self@,
    {
        self.handle
    }

    /// The name that the host gave as the resource name in the script's
    /// origin: a string, or "undefined". `reply` is what the engine handed
    /// back.
    pub fn get_resource_name(&self, isolate: &mut Isolate, reply: Address) -> (local: Local)
        requires
            old(isolate)@.can_lift(),
            old(isolate)@.live(self@),
            !reply.is_null(),
        ensures
            old(isolate)@.lifts(reply, final(isolate)@, Some(local@)),
    {
        isolate.lift(reply)
    }

    /// The options that the host gave as host-defined options in the
    /// script's origin. `reply` is what the engine handed back.
    pub fn get_host_defined_options(&self, isolate: &mut Isolate, reply: Address) -> (local: Local)
        requires
            old(isolate)@.can_lift(),
            old(isolate)@.live(self@),
            !reply.is_null(),
        ensures
            old(isolate)@.lifts(reply, final(isolate)@, Some(local@)),
    {
        isolate.lift(reply)
    }
}

} // verus!

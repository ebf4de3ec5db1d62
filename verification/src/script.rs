//! Handles to compiled scripts, and the origin of a script.

use vstd::prelude::*;
use crate::address::Address;
use crate::handle::handle_of;
use crate::handle::Handle;
use crate::handle::Local;
use crate::isolate::Isolate;
use crate::isolate::IsolateView;

verus! {

/// The origin of a script, as mathematics: the handles it was made of.
pub struct OriginView {
    /// The name of the resource the script came from.
    pub resource_name: Handle,
    /// The line at which the script starts in the resource.
    pub resource_line_offset: Handle,
    /// The column at which the script starts in the resource.
    pub resource_column_offset: Handle,
    /// Whether the resource is shared across origins.
    pub resource_is_shared_cross_origin: Handle,
    /// The script's identifier.
    pub script_id: Handle,
    /// Where the source map is found.
    pub source_map_url: Handle,
    /// Whether the resource is opaque.
    pub resource_is_opaque: Handle,
    /// Whether the script is WebAssembly.
    pub is_wasm: Handle,
    /// Whether the script is a module.
    pub is_module: Handle,
}

impl IsolateView {
    /// Whether every handle of `origin` is live.
    pub open spec fn origin_live(self, origin: OriginView) -> bool {
        &&& self.live(origin.resource_name)
        &&& self.live(origin.resource_line_offset)
        &&& self.live(origin.resource_column_offset)
        &&& self.live(origin.resource_is_shared_cross_origin)
        &&& self.live(origin.script_id)
        &&& self.live(origin.source_map_url)
        &&& self.live(origin.resource_is_opaque)
        &&& self.live(origin.is_wasm)
        &&& self.live(origin.is_module)
    }

    /// Whether a script can be compiled from `source` in `context`, with
    /// `origin` if one is given: a handle can be made for the script, and
    /// every handle given is live.
    pub open spec fn can_compile(self, context: Handle, source: Handle, origin: Option<OriginView>) -> bool {
        &&& self.can_lift()
        &&& self.live(context)
        &&& self.live(source)
        &&& origin matches Some(o) ==> self.origin_live(o)
    }
}

/// The origin, within a file, of a script.
///
/// An origin holds handles, so it is good for as long as they are live.
#[derive(Clone, Copy, PartialEq, Eq, Structural, Debug)]
pub struct ScriptOrigin {
    resource_name: Local,
    resource_line_offset: Local,
    resource_column_offset: Local,
    resource_is_shared_cross_origin: Local,
    script_id: Local,
    source_map_url: Local,
    resource_is_opaque: Local,
    is_wasm: Local,
    is_module: Local,
}

impl View for ScriptOrigin {
    type V = OriginView;

    closed spec fn view(&self) -> OriginView {
        OriginView {
            resource_name: self.resource_name@,
            resource_line_offset: self.resource_line_offset@,
            resource_column_offset: self.resource_column_offset@,
            resource_is_shared_cross_origin: self.resource_is_shared_cross_origin@,
            script_id: self.script_id@,
            source_map_url: self.source_map_url@,
            resource_is_opaque: self.resource_is_opaque@,
            is_wasm: self.is_wasm@,
            is_module: self.is_module@,
        }
    }
}

/// The view of an optional origin.
pub open spec fn origin_of(origin: Option<&ScriptOrigin>) -> Option<OriginView> {
    match origin {
        Some(o) => Some(o@),
        None => None,
    }
}

impl ScriptOrigin {
    /// The origin made of these nine handles.
    pub fn new(
        resource_name: Local,
        resource_line_offset: Local,
        resource_column_offset: Local,
        resource_is_shared_cross_origin: Local,
        script_id: Local,
        source_map_url: Local,
        resource_is_opaque: Local,
        is_wasm: Local,
        is_module: Local,
    ) -> (origin: ScriptOrigin)
        ensures
            origin@ == (OriginView {
                resource_name: resource_name@,
                resource_line_offset: resource_line_offset@,
                resource_column_offset: resource_column_offset@,
                resource_is_shared_cross_origin: resource_is_shared_cross_origin@,
                script_id: script_id@,
                source_map_url: source_map_url@,
                resource_is_opaque: resource_is_opaque@,
                is_wasm: is_wasm@,
                is_module: is_module@,
            }),
    {
        ScriptOrigin {
            resource_name,
            resource_line_offset,
            resource_column_offset,
            resource_is_shared_cross_origin,
            script_id,
            source_map_url,
            resource_is_opaque,
            is_wasm,
            is_module,
        }
    }

    /// The handle to the name of the resource.
    pub fn resource_name(&self) -> (local: Local)
        ensures
            local@ == self@.resource_name,
    {
        self.resource_name
    }

    /// Whether every handle of this origin is live in `isolate`.
    pub fn is_live(&self, isolate: &Isolate) -> (b: bool)
        requires
            isolate@.wf(),
        ensures
            b == isolate@.origin_live(self@),
    {
        isolate.is_live(&self.resource_name) && isolate.is_live(&self.resource_line_offset)
            && isolate.is_live(&self.resource_column_offset) && isolate.is_live(
            &self.resource_is_shared_cross_origin,
        ) && isolate.is_live(&self.script_id) && isolate.is_live(&self.source_map_url)
            && isolate.is_live(&self.resource_is_opaque) && isolate.is_live(&self.is_wasm)
            && isolate.is_live(&self.is_module)
    }
}

/// A handle to a compiled script, tied to the context that was current when
/// it was compiled.
#[derive(Clone, Copy, PartialEq, Eq, Structural, Debug)]
pub struct Script {
    handle: Local,
}

impl View for Script {
    type V = Handle;

    closed spec fn view(&self) -> Handle {
        self.handle@
    }
}

impl Script {
    /// Takes `local` for a handle to a script.
    pub fn from_local(local: Local) -> (script: Script)
        ensures
            script@ == local@,
    {
        Script { handle: local }
    }

    /// The handle, as one to any value.
    pub fn handle(&self) -> (local: Local)
        ensures
            local@ == self@,
    {
        self.handle
    }

    /// Whether a script can be compiled from `source` in `context` now,
    /// with `origin` if one is given.
    pub fn can_compile(
        isolate: &Isolate,
        context: Local,
        source: Local,
        origin: Option<&ScriptOrigin>,
    ) -> (b: bool)
        requires
            isolate@.wf(),
        ensures
            b == isolate@.can_compile(context@, source@, origin_of(origin)),
    {
        let origin_live = match origin {
            Some(o) => o.is_live(isolate),
            None => true,
        };
        isolate.can_lift() && isolate.is_live(&context) && isolate.is_live(&source) && origin_live
    }

    /// The script that the engine compiled from `source` in `context`;
    /// `reply` is what the engine handed back, null if the source did not
    /// compile.
    pub fn compile(
        isolate: &mut Isolate,
        context: Local,
        source: Local,
        origin: Option<&ScriptOrigin>,
        reply: Address,
    ) -> (r: Option<Script>)
        requires
            old(isolate)@.can_compile(context@, source@, origin_of(origin)),
        ensures
            old(isolate)@.lifts(reply, final(isolate)@, handle_of(r)),
    {
        match Local::from_raw(isolate, reply) {
            Some(local) => Some(Script { handle: local }),
            None => None,
        }
    }

    /// The value that running the script in `context` resulted in; `reply`
    /// is what the engine handed back, null if the script threw.
    pub fn run(&self, isolate: &mut Isolate, context: Local, reply: Address) -> (r: Option<Local>)
        requires
            old(isolate)@.can_lift(),
            old(isolate)@.live(self@),
            old(isolate)@.live(context@),
        ensures
            old(isolate)@.lifts(reply, final(isolate)@, handle_of(r)),
    {
        Local::from_raw(isolate, reply)
    }
}

} // verus!

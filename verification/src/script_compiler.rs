//! Sources for the compiler, with the data that speeds up compiling them.

use vstd::prelude::*;
use crate::address::Address;
use crate::handle::handle_of;
use crate::handle::Handle;
use crate::handle::Local;
use crate::isolate::Isolate;
use crate::isolate::IsolateView;
use crate::script::OriginView;
use crate::script::ScriptOrigin;

verus! {

/// The most bytes of cached data that the engine can be handed: it counts
/// them in a signed 32-bit integer.
pub const MAX_CACHED_BYTES: usize = 0x7fff_ffff;

/// Data from an earlier compilation that the host kept, to be passed back to
/// speed up compiling the same source again.
#[derive(Clone, Copy, Debug)]
pub struct CachedData<'a> {
    data: &'a [u8],
}

impl<'a> View for CachedData<'a> {
    type V = Seq<u8>;

    closed spec fn view(&self) -> Seq<u8> {
        self.data@
    }
}

impl<'a> CachedData<'a> {
    /// The cached data in `data`. The bytes are borrowed, not copied.
    pub fn new(data: &'a [u8]) -> (cached: CachedData<'a>)
        requires
            data@.len() <= MAX_CACHED_BYTES,
        ensures
            cached@ == data@,
    {
        CachedData { data }
    }

    /// The number of bytes, as the engine counts them.
    pub fn length(&self) -> (n: i32)
        requires
            self@.len() <= MAX_CACHED_BYTES,
        ensures
            n == self@.len(),
    {
        self.data.len() as i32
    }

    /// The bytes.
    pub fn bytes(&self) -> (data: &'a [u8])
        ensures
            data@ == self@,
    {
        self.data
    }
}

/// A source for the compiler, as mathematics.
pub struct SourceView {
    /// The handle to the source text.
    pub source_string: Handle,
    /// The origin of the source.
    pub origin: OriginView,
    /// The cached data that came with the source, if any did.
    pub cached_data: Option<Seq<u8>>,
}

/// Source code which can be compiled to a script or a module, with its
/// origin and, possibly, cached data.
pub struct Source<'a> {
    source_string: Local,
    origin: ScriptOrigin,
    cached_data: Option<CachedData<'a>>,
}

impl<'a> View for Source<'a> {
    type V = SourceView;

    closed spec fn view(&self) -> SourceView {
        SourceView {
            source_string: self.source_string@,
            origin: self.origin@,
            cached_data: match self.cached_data {
                Some(cached) => Some(cached@),
                None => None,
            },
        }
    }
}

impl<'a> Source<'a> {
    /// A source without cached data.
    pub fn new(source_string: Local, origin: &ScriptOrigin) -> (source: Source<'a>)
        ensures
            source@ == (SourceView {
                source_string: source_string@,
                origin: origin@,
                cached_data: None,
            }),
    {
        Source { source_string, origin: *origin, cached_data: None }
    }

    /// A source with cached data. The source takes the cached data over.
    pub fn new_with_cached_data(
        source_string: Local,
        origin: &ScriptOrigin,
        cached_data: CachedData<'a>,
    ) -> (source: Source<'a>)
        ensures
            source@ == (SourceView {
                source_string: source_string@,
                origin: origin@,
                cached_data: Some(cached_data@),
            }),
    {
        Source { source_string, origin: *origin, cached_data: Some(cached_data) }
    }

    /// Whether this source can be compiled in `isolate` now.
    pub fn can_compile(&self, isolate: &Isolate) -> (b: bool)
        requires
            isolate@.wf(),
        ensures
            b == isolate@.can_compile_source(self@),
    {
        isolate.can_lift() && isolate.is_live(&self.source_string) && self.origin.is_live(isolate)
    }

    /// Whether cached data came with the source.
    pub fn has_cached_data(&self) -> (b: bool)
        ensures
            b == self@.cached_data is Some,
    {
        self.cached_data.is_some()
    }

    /// The cached data that came with the source.
    pub fn get_cached_data(&self) -> (cached: &CachedData<'a>)
        requires
            self@.cached_data is Some,
        ensures
            Some(cached@) == self@.cached_data,
    {
        self.cached_data.as_ref().unwrap()
    }

    /// The handle to the source text.
    pub fn source_string(&self) -> (local: Local)
        ensures
            local@ == self@.source_string,
    {
        self.source_string
    }

    /// The origin of the source.
    pub fn origin(&self) -> (origin: &ScriptOrigin)
        ensures
            origin@ == self@.origin,
    {
        &self.origin
    }
}

/// What the compiler is to do with cached data.
#[derive(Clone, Copy, PartialEq, Eq, Structural, Debug)]
pub enum CompileOptions {
    /// Compile as usual.
    NoCompileOptions,
    /// Use the cached data that came with the source.
    ConsumeCodeCache,
    /// Compile every function at once rather than when it is first called.
    EagerCompile,
}

impl CompileOptions {
    /// The number by which the engine means an option: it numbers them from
    /// zero in the order of their declaration.
    pub open spec fn encode(self) -> i32 {
        match self {
            CompileOptions::NoCompileOptions => 0,
            CompileOptions::ConsumeCodeCache => 1,
            CompileOptions::EagerCompile => 2,
        }
    }

    /// The number by which the engine means this option.
    pub fn raw(&self) -> (raw: i32)
        ensures
            raw == self.encode(),
    {
        match self {
            CompileOptions::NoCompileOptions => 0,
            CompileOptions::ConsumeCodeCache => 1,
            CompileOptions::EagerCompile => 2,
        }
    }
}

/// The reason for which no code cache is requested or provided.
#[derive(Clone, Copy, PartialEq, Eq, Structural, Debug)]
pub enum NoCacheReason {
    /// No reason is given.
    NoReason,
    /// Caching is disabled.
    BecauseCachingDisabled,
    /// There is no resource to cache for.
    BecauseNoResource,
    /// The script is inline.
    BecauseInlineScript,
    /// The source is a module.
    BecauseModule,
    /// The source is streamed.
    BecauseStreamingSource,
    /// The inspector asked for the compilation.
    BecauseInspector,
    /// The script is too small.
    BecauseScriptTooSmall,
    /// The cache is too cold.
    BecauseCacheTooCold,
    /// The script belongs to an extension of the engine.
    BecauseV8Extension,
    /// The module belongs to an extension.
    BecauseExtensionModule,
    /// The script configures a proxy.
    BecausePacScript,
    /// The script was written by the document while it loaded.
    BecauseInDocumentWrite,
    /// The resource has no handler for caches.
    BecauseResourceWithNoCacheHandler,
    /// The code cache is produced later.
    BecauseDeferredProduceCodeCache,
}

impl NoCacheReason {
    /// The number by which the engine means a reason: it numbers them from
    /// zero in the order of their declaration.
    pub open spec fn encode(self) -> i32 {
        match self {
            NoCacheReason::NoReason => 0,
            NoCacheReason::BecauseCachingDisabled => 1,
            NoCacheReason::BecauseNoResource => 2,
            NoCacheReason::BecauseInlineScript => 3,
            NoCacheReason::BecauseModule => 4,
            NoCacheReason::BecauseStreamingSource => 5,
            NoCacheReason::BecauseInspector => 6,
            NoCacheReason::BecauseScriptTooSmall => 7,
            NoCacheReason::BecauseCacheTooCold => 8,
            NoCacheReason::BecauseV8Extension => 9,
            NoCacheReason::BecauseExtensionModule => 10,
            NoCacheReason::BecausePacScript => 11,
            NoCacheReason::BecauseInDocumentWrite => 12,
            NoCacheReason::BecauseResourceWithNoCacheHandler => 13,
            NoCacheReason::BecauseDeferredProduceCodeCache => 14,
        }
    }

    /// The number by which the engine means this reason.
    pub fn raw(&self) -> (raw: i32)
        ensures
            raw == self.encode(),
    {
        match self {
            NoCacheReason::NoReason => 0,
            NoCacheReason::BecauseCachingDisabled => 1,
            NoCacheReason::BecauseNoResource => 2,
            NoCacheReason::BecauseInlineScript => 3,
            NoCacheReason::BecauseModule => 4,
            NoCacheReason::BecauseStreamingSource => 5,
            NoCacheReason::BecauseInspector => 6,
            NoCacheReason::BecauseScriptTooSmall => 7,
            NoCacheReason::BecauseCacheTooCold => 8,
            NoCacheReason::BecauseV8Extension => 9,
            NoCacheReason::BecauseExtensionModule => 10,
            NoCacheReason::BecausePacScript => 11,
            NoCacheReason::BecauseInDocumentWrite => 12,
            NoCacheReason::BecauseResourceWithNoCacheHandler => 13,
            NoCacheReason::BecauseDeferredProduceCodeCache => 14,
        }
    }
}

impl IsolateView {
    /// Whether `source` can be compiled: a handle can be made for the
    /// result, and the handles of the source are live.
    pub open spec fn can_compile_source(self, source: SourceView) -> bool {
        &&& self.can_lift()
        &&& self.live(source.source_string)
        &&& self.origin_live(source.origin)
    }
}

/// The module that the engine compiled from `source`, as usual and with no
/// reason given for not caching; `reply` is what the engine handed back,
/// null if the source did not compile.
pub fn compile_module(isolate: &mut Isolate, source: Source, reply: Address) -> (r: Option<Local>)
    requires
        old(isolate)@.can_compile_source(source@),
    ensures
        old(isolate)@.lifts(reply, final(isolate)@, handle_of(r)),
{
    compile_module2(
        isolate,
        source,
        CompileOptions::NoCompileOptions,
        NoCacheReason::NoReason,
        reply,
    )
}

/// The module that the engine compiled from `source` under `options`;
/// `reply` is what the engine handed back, null if the source did not
/// compile.
pub fn compile_module2(
    isolate: &mut Isolate,
    source: Source,
    options: CompileOptions,
    no_cache_reason: NoCacheReason,
    reply: Address,
) -> (r: Option<Local>)
    requires
        old(isolate)@.can_compile_source(source@),
    ensures
        old(isolate)@.lifts(reply, final(isolate)@, handle_of(r)),
{
    Local::from_raw(isolate, reply)
}

} // verus!

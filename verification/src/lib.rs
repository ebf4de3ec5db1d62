//! Lifetime management for handles to objects on the heap of an embedded,
//! garbage-collected engine.
//!
//! The engine reclaims an object whenever it chooses unless a handle pins it,
//! and it cannot tell when the host still holds a handle that went stale. This
//! crate keeps the books that make a stale handle detectable: every isolate
//! carries its stack of scopes and the storage cells those scopes own, every
//! [`Local`] names the cell it reads and the scope that owns it, and every
//! operation states as a precondition that the handles it is given are live.
//!
//! Nothing here calls the engine. Where an operation depends on what the engine
//! answered, the answer is a parameter: an [`Address`] that is null when the
//! engine produced no value.
//!
//! - [`stack`] defines the scope stack over sequences, and [`protocol`] proves
//!   what holds of every course of scope operations: scopes close in the
//!   reverse of the order in which they opened, a handle ends with its scope
//!   for good, and a scope escapes at most once.
//! - [`isolate`], [`thread`] and [`locker`] hold an isolate's state, the record
//!   of the isolates a thread has entered, and the lock scopes.
//! - [`handle_scope`] and [`handle`] hold the scopes and the handles: local
//!   ones that a scope owns, global and weak ones whose lifetime is their own.
//! - [`function`] holds the blocks that the engine passes to callbacks of the
//!   host, with the cell for the value to return.
//! - [`object`], [`promise`], [`script`], [`script_compiler`] and
//!   [`script_or_module`] hold the typed handles to what the engine makes.

pub mod address;
pub mod function;
pub mod handle;
pub mod handle_scope;
pub mod isolate;
pub mod locker;
pub mod object;
pub mod promise;
pub mod protocol;
pub mod script;
pub mod script_compiler;
pub mod script_or_module;
pub mod stack;
pub mod thread;

pub use address::Address;
pub use function::AccessView;
pub use function::CallView;
pub use function::Function;
pub use function::FunctionCallbackArguments;
pub use function::FunctionCallbackInfo;
pub use function::PropertyCallbackArguments;
pub use function::PropertyCallbackInfo;
pub use function::ReturnValue;
pub use function::MAX_ARGUMENTS;
pub use handle::Global;
pub use handle::Handle;
pub use handle::Local;
pub use handle::PinId;
pub use handle::Weak;
pub use handle_scope::ContextScope;
pub use handle_scope::EscapableHandleScope;
pub use handle_scope::HandleScope;
pub use handle_scope::ScopeId;
pub use handle_scope::ToLocal;
pub use isolate::CreateParams;
pub use isolate::Isolate;
pub use isolate::IsolateView;
pub use isolate::LockState;
pub use isolate::OwnedIsolate;
pub use isolate::Pin;
pub use locker::Locker;
pub use locker::LockerView;
pub use object::Object;
pub use promise::Promise;
pub use promise::PromiseResolver;
pub use promise::PromiseState;
pub use protocol::Step;
pub use script::OriginView;
pub use script::Script;
pub use script::ScriptOrigin;
pub use script_compiler::CachedData;
pub use script_or_module::ScriptOrModule;
pub use stack::Frame;
pub use stack::ScopeKind;
pub use stack::ScopeStack;
pub use thread::Thread;
pub use thread::ThreadView;

use rusty_v8::script_compiler::compile_module;
use rusty_v8::script_compiler::compile_module2;
use rusty_v8::script_compiler::CompileOptions;
use rusty_v8::script_compiler::NoCacheReason;
use rusty_v8::script_compiler::Source;
use rusty_v8::Address;
use rusty_v8::CachedData;
use rusty_v8::ContextScope;
use rusty_v8::Function;
use rusty_v8::HandleScope;
use rusty_v8::Isolate;
use rusty_v8::Local;
use rusty_v8::Object;
use rusty_v8::OwnedIsolate;
use rusty_v8::Promise;
use rusty_v8::PromiseResolver;
use rusty_v8::PromiseState;
use rusty_v8::Script;
use rusty_v8::ScriptOrModule;
use rusty_v8::ScriptOrigin;
use rusty_v8::ToLocal;
use rusty_v8::MAX_ARGUMENTS;

fn isolate_at(address: usize) -> OwnedIsolate {
    Isolate::new(Isolate::create_params(), Address::new(address)).unwrap()
}

fn origin_in(isolate: &mut Isolate, base: usize) -> ScriptOrigin {
    let mut made: Vec<Local> = Vec::new();
    for i in 0..9 {
        made.push(Local::from_raw(isolate, Address::new(base + 8 * (i + 1))).unwrap());
    }
    ScriptOrigin::new(
        made[0], made[1], made[2], made[3], made[4], made[5], made[6], made[7], made[8],
    )
}

#[test]
fn a_compiled_script_is_a_handle_of_the_innermost_scope() {
    let mut owned = isolate_at(0x1000);
    let isolate = owned.isolate_mut();
    let scope = HandleScope::new(isolate);
    let context = scope.to_local(isolate, Address::new(0x100)).unwrap();
    let source = scope.to_local(isolate, Address::new(0x200)).unwrap();
    let inner = HandleScope::new(isolate);
    let script = Script::compile(isolate, context, source, None, Address::new(0x300)).unwrap();
    assert_eq!(script.handle().scope(), inner.id());
    assert_eq!(isolate.read(&script.handle()), Address::new(0x300));
    let result = script.run(isolate, context, Address::new(0x400)).unwrap();
    assert_eq!(isolate.read(&result), Address::new(0x400));
    inner.close(isolate);
    assert!(!isolate.is_live(&script.handle()));
    assert!(!isolate.is_live(&result));
    assert!(isolate.is_live(&context));
    scope.close(isolate);
}

#[test]
fn a_null_reply_means_no_value() {
    let mut owned = isolate_at(0x1000);
    let isolate = owned.isolate_mut();
    let scope = HandleScope::new(isolate);
    let context = scope.to_local(isolate, Address::new(0x100)).unwrap();
    let source = scope.to_local(isolate, Address::new(0x200)).unwrap();
    assert_eq!(Script::compile(isolate, context, source, None, Address::null()), None);
    let script = Script::compile(isolate, context, source, None, Address::new(0x300)).unwrap();
    assert_eq!(script.run(isolate, context, Address::null()), None);
    let next = scope.to_local(isolate, Address::new(0x500)).unwrap();
    assert_eq!(next.slot(), script.handle().slot() + 1);
    scope.close(isolate);
}

#[test]
fn an_origin_is_good_while_its_handles_are_live() {
    let mut owned = isolate_at(0x1000);
    let isolate = owned.isolate_mut();
    let scope = HandleScope::new(isolate);
    let context = scope.to_local(isolate, Address::new(0x100)).unwrap();
    let source = scope.to_local(isolate, Address::new(0x200)).unwrap();
    let inner = HandleScope::new(isolate);
    let origin = origin_in(isolate, 0x4000);
    assert!(origin.is_live(isolate));
    assert_eq!(isolate.read(&origin.resource_name()), Address::new(0x4008));
    assert!(Script::can_compile(isolate, context, source, Some(&origin)));
    let script = Script::compile(isolate, context, source, Some(&origin), Address::new(0x300));
    assert!(script.is_some());
    inner.close(isolate);
    assert!(!origin.is_live(isolate));
    assert!(!Script::can_compile(isolate, context, source, Some(&origin)));
    assert!(Script::can_compile(isolate, context, source, None));
    scope.close(isolate);
}

#[test]
fn a_module_is_compiled_from_a_source() {
    let mut owned = isolate_at(0x1000);
    let isolate = owned.isolate_mut();
    let scope = HandleScope::new(isolate);
    let text = scope.to_local(isolate, Address::new(0x200)).unwrap();
    let origin = origin_in(isolate, 0x4000);
    let source = Source::new(text, &origin);
    assert!(!source.has_cached_data());
    assert!(source.can_compile(isolate));
    assert_eq!(source.source_string(), text);
    assert_eq!(*source.origin(), origin);
    let module = compile_module(isolate, source, Address::new(0x300)).unwrap();
    assert_eq!(isolate.read(&module), Address::new(0x300));
    let source = Source::new(text, &origin);
    assert_eq!(compile_module(isolate, source, Address::null()), None);
    let source = Source::new(text, &origin);
    let module = compile_module2(
        isolate,
        source,
        CompileOptions::EagerCompile,
        NoCacheReason::BecauseModule,
        Address::new(0x310),
    )
    .unwrap();
    assert_eq!(isolate.read(&module), Address::new(0x310));
    scope.close(isolate);
}

#[test]
fn a_source_keeps_its_cached_data() {
    let mut owned = isolate_at(0x1000);
    let isolate = owned.isolate_mut();
    let scope = HandleScope::new(isolate);
    let text = scope.to_local(isolate, Address::new(0x200)).unwrap();
    let origin = origin_in(isolate, 0x4000);
    let bytes = [1u8, 2, 3, 5, 8];
    let cached = CachedData::new(&bytes);
    assert_eq!(cached.length(), 5);
    assert_eq!(cached.bytes(), &bytes[..]);
    let source = Source::new_with_cached_data(text, &origin, cached);
    assert!(source.has_cached_data());
    assert_eq!(source.get_cached_data().bytes(), &[1u8, 2, 3, 5, 8][..]);
    assert_eq!(source.get_cached_data().length(), 5);
    let empty = CachedData::new(&[]);
    assert_eq!(empty.length(), 0);
    scope.close(isolate);
}

#[test]
fn options_and_reasons_are_numbered_from_zero() {
    assert_eq!(CompileOptions::NoCompileOptions.raw(), 0);
    assert_eq!(CompileOptions::ConsumeCodeCache.raw(), 1);
    assert_eq!(CompileOptions::EagerCompile.raw(), 2);
    let reasons = [
        NoCacheReason::NoReason,
        NoCacheReason::BecauseCachingDisabled,
        NoCacheReason::BecauseNoResource,
        NoCacheReason::BecauseInlineScript,
        NoCacheReason::BecauseModule,
        NoCacheReason::BecauseStreamingSource,
        NoCacheReason::BecauseInspector,
        NoCacheReason::BecauseScriptTooSmall,
        NoCacheReason::BecauseCacheTooCold,
        NoCacheReason::BecauseV8Extension,
        NoCacheReason::BecauseExtensionModule,
        NoCacheReason::BecausePacScript,
        NoCacheReason::BecauseInDocumentWrite,
        NoCacheReason::BecauseResourceWithNoCacheHandler,
        NoCacheReason::BecauseDeferredProduceCodeCache,
    ];
    for (i, reason) in reasons.iter().enumerate() {
        assert_eq!(reason.raw(), i as i32);
    }
}

#[test]
fn promise_states_are_numbered_from_zero() {
    assert_eq!(PromiseState::from_raw(0), Some(PromiseState::Pending));
    assert_eq!(PromiseState::from_raw(1), Some(PromiseState::Fulfilled));
    assert_eq!(PromiseState::from_raw(2), Some(PromiseState::Rejected));
    assert_eq!(PromiseState::from_raw(3), None);
    assert_eq!(PromiseState::from_raw(-1), None);
    for state in [PromiseState::Pending, PromiseState::Fulfilled, PromiseState::Rejected] {
        assert_eq!(PromiseState::from_raw(state.raw()), Some(state));
    }
}

#[test]
fn a_promise_is_settled_through_its_resolver() {
    let mut owned = isolate_at(0x1000);
    let isolate = owned.isolate_mut();
    let scope = HandleScope::new(isolate);
    let context = scope.to_local(isolate, Address::new(0x100)).unwrap();
    assert_eq!(PromiseResolver::new(isolate, context, Address::null()), None);
    let resolver = PromiseResolver::new(isolate, context, Address::new(0x200)).unwrap();
    let promise = resolver.get_promise(isolate, Address::new(0x300));
    assert_eq!(isolate.read(&promise.handle()), Address::new(0x300));
    assert_eq!(promise.state(isolate, 0), Some(PromiseState::Pending));
    assert_eq!(promise.state(isolate, 1), Some(PromiseState::Fulfilled));
    assert_eq!(promise.state(isolate, 7), None);
    let value = promise.result(isolate, PromiseState::Fulfilled, Address::new(0x400));
    assert_eq!(isolate.read(&value), Address::new(0x400));
    scope.close(isolate);
    assert!(!isolate.is_live(&promise.handle()));
    assert!(!isolate.is_live(&resolver.handle()));
}

#[test]
fn handlers_derive_new_promises() {
    let mut owned = isolate_at(0x1000);
    let isolate = owned.isolate_mut();
    let scope = HandleScope::new(isolate);
    let context = scope.to_local(isolate, Address::new(0x100)).unwrap();
    let current = ContextScope::new(isolate, context);
    let promise = Promise::from_local(current.to_local(isolate, Address::new(0x200)).unwrap());
    let handler = Function::new(isolate, Address::new(0xc0de), Address::new(0x300)).unwrap();
    let other = Function::new(isolate, Address::new(0xc0df), Address::new(0x310)).unwrap();
    assert!(promise.can_chain(isolate, context, handler));
    assert!(promise.can_chain2(isolate, context, handler, other));
    let caught = promise.catch(isolate, context, handler, Address::new(0x400)).unwrap();
    let then = promise.then(isolate, context, handler, Address::new(0x500)).unwrap();
    let both = promise.then2(isolate, context, handler, other, Address::new(0x600)).unwrap();
    assert_eq!(isolate.read(&caught.handle()), Address::new(0x400));
    assert_eq!(isolate.read(&then.handle()), Address::new(0x500));
    assert_eq!(isolate.read(&both.handle()), Address::new(0x600));
    assert_eq!(promise.then(isolate, context, handler, Address::null()), None);
    assert_eq!(promise.catch(isolate, context, handler, Address::null()), None);
    assert_eq!(promise.then2(isolate, context, handler, other, Address::null()), None);
    current.close(isolate);
    assert!(!promise.can_chain(isolate, context, handler));
    assert!(!Promise::from_local(context).can_chain(isolate, context, handler));
    assert!(!Promise::from_local(context).can_chain2(
        isolate,
        context,
        Function::from_local(context),
        other
    ));
    scope.close(isolate);
}

#[test]
fn a_function_is_made_in_the_current_context() {
    let mut owned = isolate_at(0x1000);
    let isolate = owned.isolate_mut();
    let scope = HandleScope::new(isolate);
    let context = scope.to_local(isolate, Address::new(0x100)).unwrap();
    assert_eq!(isolate.current_context(), None);
    assert!(!Function::can_make(isolate, Address::new(0xc0de)));
    let current = ContextScope::new(isolate, context);
    assert_eq!(isolate.current_context(), Some(Address::new(0x100)));
    assert!(Function::can_make(isolate, Address::new(0xc0de)));
    assert!(!Function::can_make(isolate, Address::null()));
    let function = Function::new(isolate, Address::new(0xc0de), Address::new(0x300)).unwrap();
    assert_eq!(isolate.read(&function.handle()), Address::new(0x300));
    assert_eq!(Function::new(isolate, Address::new(0xc0de), Address::null()), None);
    let data = current.to_local(isolate, Address::new(0x700)).unwrap();
    let with_data =
        Function::new_with_data(isolate, data, Address::new(0xc0de), Address::new(0x310)).unwrap();
    assert_eq!(isolate.read(&with_data.handle()), Address::new(0x310));
    let recv = current.to_local(isolate, Address::new(0x800)).unwrap();
    let args = vec![data, recv];
    assert_eq!(Function::argc(&args), Some(2));
    assert!(function.can_call(isolate, recv, &args));
    let result = function.call(isolate, recv, &args, Address::new(0x900)).unwrap();
    assert_eq!(isolate.read(&result), Address::new(0x900));
    assert_eq!(function.call(isolate, recv, &args, Address::null()), None);
    assert_eq!(function.call(isolate, recv, &vec![], Address::new(0x910)).map(|l| l.slot()), Some(6));
    current.close(isolate);
    assert!(!function.can_call(isolate, context, &vec![]));
    assert!(!Function::from_local(context).can_call(isolate, context, &vec![context]));
    scope.close(isolate);
}

#[test]
fn arguments_are_counted_in_32_bits() {
    assert_eq!(MAX_ARGUMENTS, i32::MAX as usize);
    assert_eq!(Function::argc(&vec![]), Some(0));
    let mut owned = isolate_at(0x1000);
    let isolate = owned.isolate_mut();
    let scope = HandleScope::new(isolate);
    let local = scope.to_local(isolate, Address::new(0x10)).unwrap();
    assert_eq!(Function::argc(&vec![local; 3]), Some(3));
    scope.close(isolate);
}

#[test]
fn an_object_is_made_of_names_and_values() {
    let mut owned = isolate_at(0x1000);
    let isolate = owned.isolate_mut();
    let scope = HandleScope::new(isolate);
    let prototype = scope.to_local(isolate, Address::new(0x100)).unwrap();
    let name = scope.to_local(isolate, Address::new(0x200)).unwrap();
    let value = scope.to_local(isolate, Address::new(0x300)).unwrap();
    let names = vec![name, name];
    let values = vec![value, value];
    assert!(Object::can_make(isolate, prototype, &names, &values, 2));
    assert!(Object::can_make(isolate, prototype, &names, &values, 0));
    assert!(!Object::can_make(isolate, prototype, &names, &values, 3));
    assert!(!Object::can_make(isolate, prototype, &names, &vec![value], 2));
    let object = Object::new(isolate, prototype, names, values, 2, Address::new(0x400));
    assert_eq!(isolate.read(&object.handle()), Address::new(0x400));
    assert_eq!(Object::from_local(object.handle()), object);
    let inner = HandleScope::new(isolate);
    let short = inner.to_local(isolate, Address::new(0x500)).unwrap();
    inner.close(isolate);
    assert!(!Object::can_make(isolate, prototype, &vec![short], &vec![value], 1));
    assert!(!Object::can_make(isolate, short, &vec![name], &vec![value], 1));
    scope.close(isolate);
}

#[test]
fn a_referrer_names_its_resource() {
    let mut owned = isolate_at(0x1000);
    let isolate = owned.isolate_mut();
    let scope = HandleScope::new(isolate);
    let referrer = ScriptOrModule::from_local(scope.to_local(isolate, Address::new(0x100)).unwrap());
    let name = referrer.get_resource_name(isolate, Address::new(0x200));
    let options = referrer.get_host_defined_options(isolate, Address::new(0x300));
    assert_eq!(isolate.read(&name), Address::new(0x200));
    assert_eq!(isolate.read(&options), Address::new(0x300));
    assert_eq!(name.scope(), scope.id());
    scope.close(isolate);
}

#[test]
fn a_thrown_exception_comes_back_as_a_handle() {
    let mut owned = isolate_at(0x1000);
    let isolate = owned.isolate_mut();
    let scope = HandleScope::new(isolate);
    let exception = scope.to_local(isolate, Address::new(0x100)).unwrap();
    let thrown = isolate.throw_exception(exception, Address::new(0x200));
    assert_eq!(isolate.read(&thrown), Address::new(0x200));
    assert!(isolate.is_live(&exception));
    scope.close(isolate);
}

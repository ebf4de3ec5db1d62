use rusty_v8::Address;
use rusty_v8::CreateParams;
use rusty_v8::HandleScope;
use rusty_v8::Isolate;
use rusty_v8::Locker;
use rusty_v8::Thread;
use rusty_v8::ToLocal;

#[test]
fn an_isolate_is_made_from_a_non_null_address() {
    assert!(Isolate::new(Isolate::create_params(), Address::null()).is_none());
    let owned = Isolate::new(Isolate::create_params(), Address::new(0x1000)).unwrap();
    let isolate = owned.isolate();
    assert_eq!(isolate.address(), Address::new(0x1000));
    assert!(!isolate.is_disposed());
    assert_eq!(isolate.entry_depth(), 0);
    assert_eq!(isolate.scope_depth(), 0);
    assert_eq!(isolate.scopes_issued(), 0);
    assert_eq!(isolate.lock_holder(), None);
    assert_eq!(isolate.current_context(), None);
}

#[test]
fn an_isolate_keeps_its_parameters() {
    let mut params = CreateParams::new();
    assert_eq!(params.array_buffer_allocator(), None);
    assert_eq!(Isolate::create_params(), params);
    params.set_array_buffer_allocator(Address::new(0x500));
    params.set_array_buffer_allocator(Address::new(0x600));
    assert_eq!(params.array_buffer_allocator(), Some(Address::new(0x600)));
    let owned = Isolate::new(params, Address::new(0x1000)).unwrap();
    assert_eq!(owned.isolate().params().array_buffer_allocator(), Some(Address::new(0x600)));
}

#[test]
fn an_isolate_notes_how_it_was_configured() {
    let mut owned = Isolate::new(Isolate::create_params(), Address::new(0x1000)).unwrap();
    let isolate = owned.isolate_mut();
    assert_eq!(isolate.captured_frames(), None);
    isolate.set_capture_stack_trace_for_uncaught_exceptions(true, 10);
    assert_eq!(isolate.captured_frames(), Some(10));
    isolate.set_capture_stack_trace_for_uncaught_exceptions(true, 32);
    assert_eq!(isolate.captured_frames(), Some(32));
    isolate.set_capture_stack_trace_for_uncaught_exceptions(false, 32);
    assert_eq!(isolate.captured_frames(), None);
    assert_eq!(isolate.promise_reject_callback(), None);
    isolate.set_promise_reject_callback(Address::new(0xa0));
    isolate.set_promise_reject_callback(Address::new(0xb0));
    assert_eq!(isolate.promise_reject_callback(), Some(Address::new(0xb0)));
}

#[test]
fn a_listener_added_twice_listens_twice() {
    let mut owned = Isolate::new(Isolate::create_params(), Address::new(0x1000)).unwrap();
    let isolate = owned.isolate_mut();
    let first = Address::new(0xa0);
    let second = Address::new(0xb0);
    assert!(isolate.can_listen(first));
    assert!(!isolate.can_listen(Address::null()));
    assert_eq!(isolate.times_listening(first), 0);
    assert!(isolate.add_message_listener(first, true));
    assert!(isolate.add_message_listener(second, true));
    assert!(isolate.add_message_listener(first, true));
    assert!(!isolate.add_message_listener(second, false));
    assert_eq!(isolate.times_listening(first), 2);
    assert_eq!(isolate.times_listening(second), 1);
    assert_eq!(isolate.times_listening(Address::new(0xc0)), 0);
    isolate.dispose();
    assert!(!isolate.can_listen(first));
}

#[test]
fn entering_makes_the_isolate_current() {
    let mut one = Isolate::new(Isolate::create_params(), Address::new(0x1000)).unwrap();
    let mut two = Isolate::new(Isolate::create_params(), Address::new(0x2000)).unwrap();
    let mut thread = Thread::new(7);
    assert_eq!(thread.id(), 7);
    assert_eq!(thread.current(), None);
    one.isolate_mut().enter(&mut thread);
    assert_eq!(thread.current(), Some(Address::new(0x1000)));
    two.isolate_mut().enter(&mut thread);
    assert_eq!(thread.current(), Some(Address::new(0x2000)));
    assert!(!one.isolate().can_exit(&thread));
    assert!(two.isolate().can_exit(&thread));
    two.isolate_mut().exit(&mut thread);
    assert_eq!(thread.current(), Some(Address::new(0x1000)));
    one.isolate_mut().exit(&mut thread);
    assert_eq!(thread.current(), None);
}

#[test]
fn entering_and_exiting_restores_the_state() {
    let mut other = Isolate::new(Isolate::create_params(), Address::new(0x2000)).unwrap();
    let mut owned = Isolate::new(Isolate::create_params(), Address::new(0x1000)).unwrap();
    let mut thread = Thread::new(1);
    other.isolate_mut().enter(&mut thread);
    let isolate = owned.isolate_mut();
    for n in 0..5usize {
        for depth in 0..n {
            assert_eq!(isolate.entry_depth(), depth);
            assert_eq!(thread.entries(Address::new(0x1000)), depth);
            assert!(isolate.can_enter(&thread));
            isolate.enter(&mut thread);
            assert_eq!(thread.current(), Some(Address::new(0x1000)));
        }
        assert_eq!(thread.depth(), n + 1);
        for _ in 0..n {
            assert!(isolate.can_exit(&thread));
            isolate.exit(&mut thread);
        }
        assert_eq!(isolate.entry_depth(), 0);
        assert_eq!(thread.depth(), 1);
        assert_eq!(thread.current(), Some(Address::new(0x2000)));
        assert_eq!(thread.entries(Address::new(0x1000)), 0);
        assert_eq!(thread.entries(Address::new(0x2000)), 1);
    }
    for _ in 0..3 {
        isolate.enter(&mut thread);
        isolate.exit(&mut thread);
        assert_eq!(thread.current(), Some(Address::new(0x2000)));
        assert_eq!(thread.depth(), 1);
    }
}

#[test]
fn one_thread_at_a_time_without_a_lock() {
    let mut owned = Isolate::new(Isolate::create_params(), Address::new(0x1000)).unwrap();
    let isolate = owned.isolate_mut();
    let mut first = Thread::new(1);
    let second = Thread::new(2);
    assert!(isolate.can_enter(&first));
    assert!(isolate.can_enter(&second));
    isolate.enter(&mut first);
    assert!(isolate.can_enter(&first));
    assert!(!isolate.can_enter(&second));
    assert!(!isolate.can_exit(&second));
    isolate.exit(&mut first);
    assert!(isolate.can_enter(&second));
}

#[test]
fn an_entered_isolate_cannot_be_disposed() {
    let mut owned = Isolate::new(Isolate::create_params(), Address::new(0x1000)).unwrap();
    let mut thread = Thread::new(1);
    assert!(owned.isolate().can_dispose());
    owned.isolate_mut().enter(&mut thread);
    assert_eq!(owned.isolate().entry_depth(), 1);
    assert!(!owned.isolate().can_dispose());
    owned.isolate_mut().enter(&mut thread);
    assert!(!owned.isolate().can_dispose());
    owned.isolate_mut().exit(&mut thread);
    assert!(!owned.isolate().can_dispose());
    owned.isolate_mut().exit(&mut thread);
    assert_eq!(owned.isolate().entry_depth(), 0);
    assert!(owned.isolate().can_dispose());
    let rest = owned.dispose();
    assert!(!rest.can_dispose());
    assert!(rest.is_disposed());
    assert!(!rest.can_enter(&thread));
    assert!(!rest.can_open());
}

#[test]
fn disposing_ends_every_handle() {
    let mut owned = Isolate::new(Isolate::create_params(), Address::new(0x1000)).unwrap();
    let isolate = owned.isolate_mut();
    let scope = HandleScope::new(isolate);
    let local = scope.to_local(isolate, Address::new(0x10)).unwrap();
    assert!(isolate.is_live(&local));
    isolate.dispose();
    assert!(isolate.is_disposed());
    assert!(!isolate.is_live(&local));
    assert!(!isolate.can_lift());
    assert!(!isolate.can_open());
    assert!(!isolate.can_open_escapable());
}

#[test]
fn the_lock_excludes_other_threads() {
    let mut owned = Isolate::new(Isolate::create_params(), Address::new(0x1000)).unwrap();
    let isolate = owned.isolate_mut();
    let first = Thread::new(1);
    let second = Thread::new(2);
    assert!(Locker::can_lock(isolate, &first));
    let lock = Locker::new(isolate, &first).unwrap();
    assert!(lock.has_lock());
    assert!(Locker::can_lock(isolate, &first));
    assert!(Locker::can_lock(isolate, &second));
    assert!(Locker::is_locked(isolate, &first));
    assert!(!Locker::is_locked(isolate, &second));
    assert!(Locker::new(isolate, &second).is_none());
    assert_eq!(isolate.lock_holder(), Some(1));
    assert!(isolate.can_enter(&first));
    assert!(!isolate.can_enter(&second));
    lock.unlock(isolate);
    assert_eq!(isolate.lock_holder(), None);
    let lock = Locker::new(isolate, &second).unwrap();
    assert!(lock.has_lock());
    assert!(Locker::new(isolate, &first).is_none());
    lock.unlock(isolate);
}

#[test]
fn lock_scopes_of_one_thread_nest() {
    let mut owned = Isolate::new(Isolate::create_params(), Address::new(0x1000)).unwrap();
    let isolate = owned.isolate_mut();
    let thread = Thread::new(1);
    let outer = Locker::new(isolate, &thread).unwrap();
    let inner = Locker::new(isolate, &thread).unwrap();
    assert!(outer.has_lock());
    assert!(!inner.has_lock());
    assert_eq!(isolate.lock_depth(), 1);
    assert!(!outer.can_unlock(isolate));
    assert!(inner.can_unlock(isolate));
    inner.unlock(isolate);
    assert_eq!(isolate.lock_depth(), 0);
    assert!(Locker::is_locked(isolate, &thread));
    assert!(outer.can_unlock(isolate));
    outer.unlock(isolate);
    assert!(!Locker::is_locked(isolate, &thread));
}

#[test]
fn a_thread_enters_inside_its_lock_scope() {
    let mut owned = Isolate::new(Isolate::create_params(), Address::new(0x1000)).unwrap();
    let isolate = owned.isolate_mut();
    let mut first = Thread::new(1);
    let mut second = Thread::new(2);
    let lock = Locker::new(isolate, &first).unwrap();
    isolate.enter(&mut first);
    isolate.exit(&mut first);
    lock.unlock(isolate);
    let lock = Locker::new(isolate, &second).unwrap();
    isolate.enter(&mut second);
    assert_eq!(second.current(), Some(Address::new(0x1000)));
    assert!(!isolate.can_exit(&first));
    isolate.exit(&mut second);
    lock.unlock(isolate);
    assert_eq!(isolate.entry_depth(), 0);
}

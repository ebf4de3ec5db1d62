use rusty_v8::Address;
use rusty_v8::Global;
use rusty_v8::HandleScope;
use rusty_v8::Isolate;
use rusty_v8::ToLocal;
use rusty_v8::Weak;

#[test]
fn a_global_outlives_the_scope_stack() {
    let mut owned = Isolate::new(Isolate::create_params(), Address::new(0x1000)).unwrap();
    let isolate = owned.isolate_mut();
    let scope = HandleScope::new(isolate);
    let local = scope.to_local(isolate, Address::new(0x10)).unwrap();
    assert!(Global::can_pin(isolate));
    let global = Global::new(isolate, local);
    scope.close(isolate);
    assert!(!isolate.is_live(&local));
    assert!(global.is_held(isolate));
    let scope = HandleScope::new(isolate);
    let again = global.get(isolate);
    assert_eq!(isolate.read(&again), Address::new(0x10));
    assert_eq!(again.scope(), scope.id());
    scope.close(isolate);
    assert!(global.is_held(isolate));
    global.reset(isolate);
    assert_eq!(isolate.pin_at(0).value, Address::null());
}

#[test]
fn a_global_is_released_once() {
    let mut owned = Isolate::new(Isolate::create_params(), Address::new(0x1000)).unwrap();
    let isolate = owned.isolate_mut();
    let scope = HandleScope::new(isolate);
    let local = scope.to_local(isolate, Address::new(0x10)).unwrap();
    let first = Global::new(isolate, local);
    let second = Global::new(isolate, local);
    assert_eq!(isolate.pins_made(), 2);
    first.reset(isolate);
    assert!(second.is_held(isolate));
    assert!(isolate.pin_at(0).value.is_null());
    assert_eq!(isolate.pin_at(1).value, Address::new(0x10));
    let third = Global::new(isolate, local);
    assert_eq!(isolate.pins_made(), 3);
    assert!(isolate.pin_at(0).value.is_null());
    second.reset(isolate);
    third.reset(isolate);
    scope.close(isolate);
}

#[test]
fn a_global_belongs_to_its_isolate() {
    let mut one = Isolate::new(Isolate::create_params(), Address::new(0x1000)).unwrap();
    let mut two = Isolate::new(Isolate::create_params(), Address::new(0x2000)).unwrap();
    let scope = HandleScope::new(one.isolate_mut());
    let local = scope.to_local(one.isolate_mut(), Address::new(0x10)).unwrap();
    let global = Global::new(one.isolate_mut(), local);
    let other_scope = HandleScope::new(two.isolate_mut());
    let other_local = other_scope.to_local(two.isolate_mut(), Address::new(0x10)).unwrap();
    let other = Global::new(two.isolate_mut(), other_local);
    assert!(global.is_held(one.isolate()));
    assert!(!global.is_held(two.isolate()));
    assert!(!other.is_held(one.isolate()));
    global.reset(one.isolate_mut());
    other.reset(two.isolate_mut());
    scope.close(one.isolate_mut());
    other_scope.close(two.isolate_mut());
}

#[test]
fn a_weak_handle_observes_until_it_is_collected() {
    let mut owned = Isolate::new(Isolate::create_params(), Address::new(0x1000)).unwrap();
    let isolate = owned.isolate_mut();
    let scope = HandleScope::new(isolate);
    let local = scope.to_local(isolate, Address::new(0x10)).unwrap();
    let weak = Weak::new(isolate, local, Address::new(0x7700));
    assert_eq!(weak.finalizer(), Some(Address::new(0x7700)));
    assert!(!weak.is_empty(isolate));
    let seen = weak.to_local(isolate).unwrap();
    assert_eq!(isolate.read(&seen), Address::new(0x10));
    let copy = weak;
    assert_eq!(weak.collected(isolate), Some(Address::new(0x7700)));
    assert!(weak.is_empty(isolate));
    assert!(copy.is_empty(isolate));
    assert_eq!(weak.to_local(isolate), None);
    assert_eq!(copy.to_local(isolate), None);
    assert!(isolate.is_live(&seen));
    scope.close(isolate);
}

#[test]
fn a_weak_handle_may_carry_no_finalizer() {
    let mut owned = Isolate::new(Isolate::create_params(), Address::new(0x1000)).unwrap();
    let isolate = owned.isolate_mut();
    let scope = HandleScope::new(isolate);
    let local = scope.to_local(isolate, Address::new(0x10)).unwrap();
    let weak = Weak::new(isolate, local, Address::null());
    assert_eq!(weak.finalizer(), None);
    assert!(isolate.pin_at(0).weak);
    assert_eq!(weak.collected(isolate), None);
    assert!(weak.is_empty(isolate));
    scope.close(isolate);
}

#[test]
fn weak_and_global_cells_do_not_mix() {
    let mut owned = Isolate::new(Isolate::create_params(), Address::new(0x1000)).unwrap();
    let isolate = owned.isolate_mut();
    let scope = HandleScope::new(isolate);
    let local = scope.to_local(isolate, Address::new(0x10)).unwrap();
    let global = Global::new(isolate, local);
    let weak = Weak::new(isolate, local, Address::null());
    weak.collected(isolate);
    assert!(global.is_held(isolate));
    let local = global.get(isolate);
    assert_eq!(isolate.read(&local), Address::new(0x10));
    global.reset(isolate);
    scope.close(isolate);
}

use rusty_v8::Address;
use rusty_v8::ContextScope;
use rusty_v8::EscapableHandleScope;
use rusty_v8::HandleScope;
use rusty_v8::Isolate;
use rusty_v8::Local;
use rusty_v8::OwnedIsolate;
use rusty_v8::ScopeKind;
use rusty_v8::ToLocal;

fn isolate_at(address: usize) -> OwnedIsolate {
    Isolate::new(Isolate::create_params(), Address::new(address)).unwrap()
}

#[test]
fn escaped_handle_outlives_its_scope() {
    let mut owned = isolate_at(0x1000);
    let isolate = owned.isolate_mut();
    let h1 = HandleScope::new(isolate);
    let a = h1.to_local(isolate, Address::new(0x10)).unwrap();
    let h2 = EscapableHandleScope::new(isolate);
    let b = h2.to_local(isolate, Address::new(0x20)).unwrap();
    assert_eq!(b.scope(), h2.id());
    let (c, h2) = h2.escape(isolate, b);
    assert_eq!(c.scope(), h1.id());
    assert!(isolate.is_live(&b));
    h2.close(isolate);
    assert!(isolate.is_live(&c));
    assert!(!isolate.is_live(&b));
    assert_eq!(isolate.read(&c), Address::new(0x20));
    assert_eq!(isolate.read(&a), Address::new(0x10));
    h1.close(isolate);
    assert!(!isolate.is_live(&a));
    assert!(!isolate.is_live(&c));
    assert_eq!(isolate.scope_depth(), 0);
}

#[test]
fn wrapping_reads_back_the_address() {
    let mut owned = isolate_at(0x1000);
    let isolate = owned.isolate_mut();
    let scope = HandleScope::new(isolate);
    let local = Local::from_raw(isolate, Address::new(0xdead0)).unwrap();
    assert!(isolate.is_live(&local));
    assert_eq!(isolate.read(&local), Address::new(0xdead0));
    assert_eq!(isolate.read(&local).raw(), 0xdead0);
    assert_eq!(local.isolate(), Address::new(0x1000));
    assert_eq!(local.scope(), scope.id());
    assert_eq!(local.slot(), 0);
    scope.close(isolate);
}

#[test]
fn wrapping_null_yields_nothing() {
    let mut owned = isolate_at(0x1000);
    let isolate = owned.isolate_mut();
    let scope = HandleScope::new(isolate);
    assert_eq!(Local::from_raw(isolate, Address::null()), None);
    assert_eq!(scope.to_local(isolate, Address::new(0)), None);
    let next = Local::from_raw(isolate, Address::new(8)).unwrap();
    assert_eq!(next.slot(), 0);
    scope.close(isolate);
}

#[test]
fn copies_of_a_local_read_the_same_cell() {
    let mut owned = isolate_at(0x1000);
    let isolate = owned.isolate_mut();
    let scope = HandleScope::new(isolate);
    let local = Local::from_raw(isolate, Address::new(0x40)).unwrap();
    let copy = local;
    assert!(copy.same(&local));
    assert_eq!(copy, local);
    assert_eq!(isolate.read(&copy), isolate.read(&local));
    let other = Local::from_raw(isolate, Address::new(0x40)).unwrap();
    assert!(!other.same(&local));
    assert_eq!(isolate.read(&other), isolate.read(&local));
    scope.close(isolate);
    assert!(!isolate.is_live(&copy));
    assert!(!isolate.is_live(&local));
}

#[test]
fn only_the_innermost_scope_can_close() {
    let mut owned = isolate_at(0x1000);
    let isolate = owned.isolate_mut();
    let s1 = HandleScope::new(isolate);
    let s2 = HandleScope::new(isolate);
    let s3 = HandleScope::new(isolate);
    assert_eq!((s1.id(), s2.id(), s3.id()), (0, 1, 2));
    assert!(!s1.is_innermost(isolate));
    assert!(!s2.is_innermost(isolate));
    assert!(s3.is_innermost(isolate));
    assert_eq!(isolate.innermost(), Some(2));
    s3.close(isolate);
    assert!(!s1.is_innermost(isolate));
    assert!(s2.is_innermost(isolate));
    s2.close(isolate);
    assert!(s1.is_innermost(isolate));
    s1.close(isolate);
    assert_eq!(isolate.innermost(), None);
    assert_eq!(isolate.scopes_issued(), 3);
}

#[test]
fn a_closed_scope_stays_closed() {
    let mut owned = isolate_at(0x1000);
    let isolate = owned.isolate_mut();
    let outer = HandleScope::new(isolate);
    let first = HandleScope::new(isolate);
    let stale = first.to_local(isolate, Address::new(0x10)).unwrap();
    first.close(isolate);
    assert!(!isolate.is_live(&stale));
    let second = HandleScope::new(isolate);
    let fresh = second.to_local(isolate, Address::new(0x20)).unwrap();
    assert_eq!(fresh.slot(), stale.slot());
    assert!(isolate.is_live(&fresh));
    assert!(!isolate.is_live(&stale));
    second.close(isolate);
    let third = outer.to_local(isolate, Address::new(0x30)).unwrap();
    assert_eq!(third.slot(), stale.slot());
    assert!(!isolate.is_live(&stale));
    assert!(!isolate.is_live(&fresh));
    outer.close(isolate);
}

#[test]
fn a_scope_escapes_once() {
    let mut owned = isolate_at(0x1000);
    let isolate = owned.isolate_mut();
    let parent = HandleScope::new(isolate);
    let scope = EscapableHandleScope::new(isolate);
    let id = scope.id();
    assert!(isolate.is_escapable(id));
    assert!(!isolate.is_escapable(parent.id()));
    let value = scope.to_local(isolate, Address::new(0x50)).unwrap();
    let (escaped, rest) = scope.escape(isolate, value);
    assert_eq!(rest.id(), id);
    assert!(!isolate.is_escapable(id));
    assert!(rest.is_innermost(isolate));
    let late = rest.to_local(isolate, Address::new(0x60)).unwrap();
    assert_eq!(late.scope(), id);
    rest.close(isolate);
    assert!(!isolate.is_escapable(id));
    assert!(isolate.is_live(&escaped));
    assert!(!isolate.is_live(&late));
    parent.close(isolate);
}

#[test]
fn the_escape_cell_is_set_aside_when_the_scope_opens() {
    let mut owned = isolate_at(0x1000);
    let isolate = owned.isolate_mut();
    let parent = HandleScope::new(isolate);
    let a = parent.to_local(isolate, Address::new(0x10)).unwrap();
    assert_eq!(a.slot(), 0);
    let scope = EscapableHandleScope::new(isolate);
    let frame = isolate.innermost_frame().unwrap();
    assert_eq!(frame.kind, ScopeKind::Escapable);
    assert_eq!(frame.base, 2);
    let b = scope.to_local(isolate, Address::new(0x20)).unwrap();
    assert_eq!(b.slot(), 2);
    let (c, rest) = scope.escape(isolate, b);
    assert_eq!(c.slot(), 1);
    assert_eq!(isolate.innermost_frame().unwrap().kind, ScopeKind::Plain);
    rest.close(isolate);
    let d = parent.to_local(isolate, Address::new(0x30)).unwrap();
    assert_eq!(d.slot(), 2);
    assert_eq!(isolate.read(&c), Address::new(0x20));
    parent.close(isolate);
}

#[test]
fn an_unused_escape_cell_stays_with_the_parent() {
    let mut owned = isolate_at(0x1000);
    let isolate = owned.isolate_mut();
    let parent = HandleScope::new(isolate);
    let scope = EscapableHandleScope::new(isolate);
    let inner = scope.to_local(isolate, Address::new(0x20)).unwrap();
    scope.close(isolate);
    assert!(!isolate.is_live(&inner));
    let next = parent.to_local(isolate, Address::new(0x30)).unwrap();
    assert_eq!(next.slot(), 1);
    parent.close(isolate);
}

#[test]
fn an_escapable_scope_needs_a_parent() {
    let mut owned = isolate_at(0x1000);
    let isolate = owned.isolate_mut();
    assert!(isolate.can_open());
    assert!(!isolate.can_open_escapable());
    assert!(!isolate.can_lift());
    let parent = HandleScope::new(isolate);
    assert!(isolate.can_open_escapable());
    assert!(isolate.can_lift());
    parent.close(isolate);
}

#[test]
fn a_context_scope_makes_its_context_current() {
    let mut owned = isolate_at(0x1000);
    let isolate = owned.isolate_mut();
    let scope = HandleScope::new(isolate);
    let first = scope.to_local(isolate, Address::new(0x100)).unwrap();
    let second = scope.to_local(isolate, Address::new(0x200)).unwrap();
    assert_eq!(isolate.current_context(), None);
    let outer = ContextScope::new(isolate, first);
    assert_eq!(isolate.current_context(), Some(Address::new(0x100)));
    let plain = HandleScope::new(isolate);
    assert_eq!(isolate.current_context(), Some(Address::new(0x100)));
    let inner = ContextScope::new(isolate, second);
    assert_eq!(isolate.current_context(), Some(Address::new(0x200)));
    assert_eq!(isolate.innermost_frame().unwrap().kind, ScopeKind::Context);
    let made = inner.to_local(isolate, Address::new(0x300)).unwrap();
    assert_eq!(made.scope(), inner.id());
    inner.close(isolate);
    assert!(!isolate.is_live(&made));
    assert_eq!(isolate.current_context(), Some(Address::new(0x100)));
    plain.close(isolate);
    assert!(outer.is_innermost(isolate));
    outer.close(isolate);
    assert_eq!(isolate.current_context(), None);
    assert!(isolate.is_live(&first));
    scope.close(isolate);
}

#[test]
fn handles_mean_nothing_to_another_isolate() {
    let mut one = isolate_at(0x1000);
    let mut two = isolate_at(0x2000);
    let a = one.isolate_mut();
    let b = two.isolate_mut();
    let sa = HandleScope::new(a);
    let sb = HandleScope::new(b);
    let la = sa.to_local(a, Address::new(0x10)).unwrap();
    let lb = sb.to_local(b, Address::new(0x10)).unwrap();
    assert_eq!(la.slot(), lb.slot());
    assert_eq!(la.scope(), lb.scope());
    assert!(a.is_live(&la));
    assert!(!a.is_live(&lb));
    assert!(b.is_live(&lb));
    assert!(!b.is_live(&la));
    assert!(!sa.is_innermost(b));
    sa.close(a);
    sb.close(b);
}

#[test]
fn all_live_checks_every_handle() {
    let mut owned = isolate_at(0x1000);
    let isolate = owned.isolate_mut();
    let outer = HandleScope::new(isolate);
    let a = outer.to_local(isolate, Address::new(0x10)).unwrap();
    let inner = HandleScope::new(isolate);
    let b = inner.to_local(isolate, Address::new(0x20)).unwrap();
    assert!(isolate.all_live(&vec![]));
    assert!(isolate.all_live(&vec![a, b, a]));
    inner.close(isolate);
    assert!(isolate.all_live(&vec![a]));
    assert!(!isolate.all_live(&vec![a, b]));
    assert!(!isolate.all_live(&vec![b, a]));
    outer.close(isolate);
}

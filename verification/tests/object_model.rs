use cocom_rs::com_ptr::Upcast;
use cocom_rs::hresult::HResult;
use cocom_rs::iface::{iunknown_chain, iunknown_guid, iweak_chain, iweak_guid};
use cocom_rs::object::{Object, WeakObject, OBJECT_VALUE_OFFSET, WEAK_OBJECT_VALUE_OFFSET};

#[derive(Debug)]
pub struct Foo {}

#[derive(Debug, PartialEq)]
pub struct Payload {
    pub i: i32,
}

#[test]
fn test1() {
    let (mut env, a) = Object::new(Foo {}, iunknown_chain(), 0x1000);
    env.AddRef();
    env.Release();
    println!("{:?}", env.GetObject());
    env.release_ptr(a);
}

#[test]
fn query_root_succeeds_on_plain_object() {
    let (mut env, p) = Object::new(Foo {}, iunknown_chain(), 0x2000);
    let mut out: Option<usize> = None;
    let r = env.QueryInterface(p.ptr(), &iunknown_guid(), &mut out);
    assert_eq!(r, HResult::ok());
    assert_eq!(out, Some(p.ptr()));
    assert_eq!(env.GetStrongCount(), 2);
    assert_eq!(env.Release(), 2);
    env.release_ptr(p);
    assert_eq!(env.GetStrongCount(), 0);
}

#[test]
fn query_weak_fails_on_plain_object() {
    let (mut env, p) = Object::new(Foo {}, iunknown_chain(), 0x3000);
    let mut out: Option<usize> = Some(7);
    let r = env.QueryInterface(p.ptr(), &iweak_guid(), &mut out);
    assert_eq!(r, HResult::no_interface());
    assert_eq!(out, Some(7), "a failed query must leave the output slot untouched");
    assert_eq!(env.GetStrongCount(), 1);
    env.release_ptr(p);
}

#[test]
fn query_weak_succeeds_on_weak_object() {
    let (mut env, p) = WeakObject::new(Foo {}, iweak_chain(), 0x4000);
    let mut out: Option<usize> = None;
    let r = env.QueryInterface(p.ptr(), &iweak_guid(), &mut out);
    assert_eq!(r, HResult::ok());
    assert_eq!(out, Some(p.ptr()));
    assert_eq!(env.GetStrongCount(), 2);
    env.Release();
    env.release_ptr(p);
}

#[test]
fn query_unknown_identifier_fails() {
    let unknown = cocom_rs::guid::Guid::from_str("12345678-1234-1234-1234-123456789abc").unwrap();
    let (mut env, p) = WeakObject::new(Foo {}, iweak_chain(), 0x5000);
    let mut out: Option<usize> = None;
    let r = env.QueryInterface(p.ptr(), &unknown, &mut out);
    assert_eq!(r, HResult::no_interface());
    assert_eq!(out, None);
    assert_eq!(env.GetStrongCount(), 1);
    env.release_ptr(p);
}

#[test]
fn upcast_keeps_pointer_and_counts() {
    let (mut env, p) = WeakObject::new(Foo {}, iweak_chain(), 0x6000);
    let addr = p.ptr();
    let up = p.upcast();
    assert_eq!(up.ptr(), addr, "an upcast reinterprets, it never copies");
    assert_eq!(up.chain.len(), 1);
    assert_eq!(up.chain[0], iunknown_guid());
    assert_eq!(env.GetStrongCount(), 1, "an upcast transfers the ticket, no count moves");

    // Query back through the upcast view for the original concrete
    // identifier: the pointer that comes out is bit-equal to the original.
    let mut out: Option<usize> = None;
    let r = env.QueryInterface(up.ptr(), &iweak_guid(), &mut out);
    assert_eq!(r, HResult::ok());
    assert_eq!(out, Some(addr));
    env.Release();
    env.release_ptr(up);
}

#[test]
fn weak_capable_scenario() {
    // A weak-capable object holding {i: 42}: strong=1, weak=1.
    let (mut env, p) = WeakObject::new(Payload { i: 42 }, iweak_chain(), 0x7000);
    assert_eq!(env.GetStrongCount(), 1);
    assert_eq!(env.GetWeakCount(), 1);

    // Clone the owning handle: strong=2.
    let p2 = env.clone_ptr(&p);
    assert_eq!(env.GetStrongCount(), 2);

    // Downgrade: weak=2.
    let w = env.downgrade(&p);
    assert_eq!(env.GetWeakCount(), 2);

    // Release once: strong=1, the payload still reads 42.
    assert_eq!(env.release_ptr(p2), 2);
    assert_eq!(env.GetStrongCount(), 1);
    assert_eq!(env.GetObject().i, 42);

    // Release again: strong=0, payload destroyed; the strong-side
    // teardown consumed one weak ticket, so weak=1.
    assert_eq!(env.release_ptr(p), 1);
    assert_eq!(env.GetStrongCount(), 0);
    assert_eq!(env.GetWeakCount(), 1);

    // An upgrade can no longer succeed, and failing leaves the weak
    // ticket in place.
    assert_eq!(env.TryUpgrade(), false);
    let upgraded = env.upgrade(&w);
    assert!(upgraded.is_none());
    assert_eq!(env.GetWeakCount(), 1);
    assert_eq!(env.TryUpgrade(), false, "an upgrade failure for this reason is permanent");

    // Releasing the one remaining weak ticket deallocates the block.
    assert_eq!(env.release_weak_ptr(w), 1);
    assert_eq!(env.GetWeakCount(), 0);
    assert_eq!(env.GetStrongCount(), 0);
}

#[test]
fn weak_traffic_never_touches_live_payload() {
    let (mut env, p) = WeakObject::new(Payload { i: 42 }, iweak_chain(), 0x8000);
    let w1 = env.downgrade(&p);
    let w2 = env.clone_weak(&w1);
    let w3 = env.clone_weak(&w2);
    assert_eq!(env.GetWeakCount(), 4);
    env.release_weak_ptr(w3);
    env.release_weak_ptr(w2);
    assert_eq!(env.GetWeakCount(), 2);
    assert_eq!(env.GetStrongCount(), 1);
    assert_eq!(env.GetObject().i, 42, "weak traffic must not corrupt the payload");
    env.release_weak_ptr(w1);
    env.release_ptr(p);
}

#[test]
fn upgrade_succeeds_while_strong_lives() {
    let (mut env, p) = WeakObject::new(Payload { i: 7 }, iweak_chain(), 0x9000);
    let w = env.downgrade(&p);
    let up = env.upgrade(&w).expect("the payload lives, so the upgrade must succeed");
    assert_eq!(env.GetStrongCount(), 2);
    assert_eq!(up.ptr(), p.ptr());
    assert_eq!(env.GetObject().i, 7);
    env.release_ptr(up);
    env.release_ptr(p);
    env.release_weak_ptr(w);
}

#[test]
fn downgrade_always_succeeds_with_strong_held() {
    let (mut env, p) = WeakObject::new(Payload { i: 1 }, iweak_chain(), 0xA000);
    assert!(env.TryDowngrade());
    assert!(env.TryDowngrade());
    assert_eq!(env.GetWeakCount(), 3);
    assert_eq!(env.ReleaseWeak(), 3);
    assert_eq!(env.ReleaseWeak(), 2);
    env.release_ptr(p);
}

#[test]
fn addref_release_return_previous_count() {
    let (mut env, p) = WeakObject::new(Foo {}, iweak_chain(), 0xB000);
    assert_eq!(env.AddRef(), 1);
    assert_eq!(env.AddRef(), 2);
    assert_eq!(env.GetStrongCount(), 3);
    assert_eq!(env.Release(), 3);
    assert_eq!(env.Release(), 2);
    assert_eq!(env.Release(), 1);
    assert_eq!(env.GetStrongCount(), 0);
    let _ = p.leak();
}

#[test]
fn envelope_offset_arithmetic_roundtrips() {
    let (env, p) = Object::new(Foo {}, iunknown_chain(), 0xC000);
    let value = env.value_ptr();
    assert_eq!(value, 0xC000 + OBJECT_VALUE_OFFSET);
    assert_eq!(Object::<Foo, ()>::FromValue(value), 0xC000);
    let _ = p.leak();

    let (wenv, wp) = WeakObject::new(Foo {}, iweak_chain(), 0xD000);
    let wvalue = wenv.value_ptr();
    assert_eq!(wvalue, 0xD000 + WEAK_OBJECT_VALUE_OFFSET);
    assert_eq!(WeakObject::<Foo, ()>::FromValue(wvalue), 0xD000);
    let _ = wp.leak();
}

#[test]
fn handle_accessors_agree() {
    let (env, p) = Object::new(Foo {}, iunknown_chain(), 0xE000);
    assert_eq!(p.ptr(), 0xE000);
    assert_eq!(p.mut_ptr(), 0xE000);
    assert_eq!(p.const_ptr(), 0xE000);
    assert_eq!(p.leak(), 0xE000);
    let _ = env;
}

#[test]
fn stored_allocator_handle_rides_along() {
    let (env, p) = WeakObject::new_with(Foo {}, 99u64, iweak_chain(), 0xF000);
    assert_eq!(env.allocator, 99u64, "teardown must use the allocator that allocated");
    let _ = p.leak();
}

use lua_bridge::coroutine::{Outcome, ResumeError, Scheduler, Step};
use lua_bridge::engine::Engine;
use lua_bridge::error::ErrorKind;
use lua_bridge::registry::{AccessError, ClassBuilder, Member, Registry, RegistryError};
use lua_bridge::value::Value;

fn plain(b: ClassBuilder) -> ClassBuilder {
    b
}

#[test]
fn registering_a_class_twice_fails() {
    let mut r = Registry::new();
    assert_eq!(r.register("Process", plain), Ok(0));
    assert_eq!(r.register("Process", plain), Err(RegistryError::AlreadyRegistered));
    assert_eq!(r.register("Stream", plain), Ok(1));
    assert_eq!(r.register("Process", plain), Err(RegistryError::AlreadyRegistered));
    assert_eq!(r.class_id("Process"), Some(0));
    assert_eq!(r.class_id("Stream"), Some(1));
    assert_eq!(r.class_id("process"), None);
}

#[test]
fn setup_builds_the_dispatch_table() {
    let mut r = Registry::new();
    let id = r
        .register("Url", |b: ClassBuilder| {
            b.method(b"host", 4).property(b"path", false).property(b"query", true).finalizer()
        })
        .unwrap();
    assert_eq!(r.member(id, b"host"), Member::Method(4));
    assert_eq!(r.member(id, b"path"), Member::Property { writable: false });
    assert_eq!(r.member(id, b"query"), Member::Property { writable: true });
    assert_eq!(r.member(id, b"port"), Member::Missing);
}

#[test]
fn later_declaration_replaces_earlier() {
    let mut r = Registry::new();
    let id = r.register("C", |b: ClassBuilder| b.method(b"m", 1).method(b"m", 2)).unwrap();
    assert_eq!(r.member(id, b"m"), Member::Method(2));
}

#[test]
fn refused_registration_does_not_run_setup() {
    let mut r = Registry::new();
    let id = r.register("C", |b: ClassBuilder| b.method(b"a", 1)).unwrap();
    assert!(r.register("C", |b: ClassBuilder| b.method(b"b", 2)).is_err());
    assert_eq!(r.member(id, b"a"), Member::Method(1));
    assert_eq!(r.member(id, b"b"), Member::Missing);
}

#[test]
fn push_userdata_leaves_a_reference() {
    let mut r = Registry::new();
    let mut en = Engine::new();
    let c = r.register("C", plain).unwrap();
    r.push_userdata(&mut en, c, 77);
    assert_eq!(en.top(), 1);
    assert!(en.value(1).same(&Value::UserData(0)));
    r.push_userdata(&mut en, c, 78);
    assert!(en.value(2).same(&Value::UserData(1)));
    assert_eq!(r.borrow(1, c), Ok(78));
}

#[test]
fn reentry_on_the_same_instance_is_refused() {
    let mut r = Registry::new();
    let mut en = Engine::new();
    let c = r.register("Stream", plain).unwrap();
    r.push_userdata(&mut en, c, 5);
    assert_eq!(r.borrow(0, c), Ok(5));
    assert_eq!(r.borrow(0, c), Err(AccessError::ConcurrentAccess));
    assert_eq!(r.borrow(0, c), Err(AccessError::ConcurrentAccess));
    r.release(0);
    assert_eq!(r.borrow(0, c), Ok(5));
}

#[test]
fn other_instances_stay_free() {
    let mut r = Registry::new();
    let mut en = Engine::new();
    let c = r.register("Stream", plain).unwrap();
    r.push_userdata(&mut en, c, 5);
    r.push_userdata(&mut en, c, 6);
    assert_eq!(r.borrow(0, c), Ok(5));
    assert_eq!(r.borrow(1, c), Ok(6));
}

#[test]
fn wrong_class_is_a_mismatch() {
    let mut r = Registry::new();
    let mut en = Engine::new();
    let a = r.register("A", plain).unwrap();
    let b = r.register("B", plain).unwrap();
    r.push_userdata(&mut en, a, 1);
    assert_eq!(r.borrow(0, b), Err(AccessError::ClassMismatch { expected: b, actual: a }));
    assert_eq!(r.borrow(0, a), Ok(1));
    assert_eq!(r.borrow(9, a), Err(AccessError::NotAnInstance));
}

#[test]
fn access_errors_have_their_kind() {
    assert_eq!(AccessError::NotAnInstance.kind(), ErrorKind::Argument);
    assert_eq!(
        AccessError::ClassMismatch { expected: 0, actual: 1 }.kind(),
        ErrorKind::ClassMismatch
    );
    assert_eq!(AccessError::ConcurrentAccess.kind(), ErrorKind::Runtime);
    assert_eq!(AccessError::Finalized.kind(), ErrorKind::Runtime);
}

#[test]
fn an_instance_is_finalized_once() {
    let mut r = Registry::new();
    let mut en = Engine::new();
    let c = r.register("C", plain).unwrap();
    r.push_userdata(&mut en, c, 10);
    r.push_userdata(&mut en, c, 11);
    r.push_userdata(&mut en, c, 12);
    assert_eq!(r.finalize(1), Some(11));
    assert_eq!(r.finalize(1), None);
    assert_eq!(r.finalize(7), None);
    assert_eq!(r.borrow(1, c), Err(AccessError::Finalized));
    assert_eq!(r.close(), vec![12, 10]);
}

#[test]
fn an_instance_in_use_is_not_finalized() {
    let mut r = Registry::new();
    let mut en = Engine::new();
    let c = r.register("C", plain).unwrap();
    r.push_userdata(&mut en, c, 10);
    assert_eq!(r.borrow(0, c), Ok(10));
    assert_eq!(r.finalize(0), None);
    r.release(0);
    assert_eq!(r.finalize(0), Some(10));
    assert!(r.close().is_empty());
}

#[test]
fn created_coroutine_starts() {
    let mut s = Scheduler::new();
    let id = s.spawn();
    assert_eq!(id, 0);
    assert_eq!(s.resume(id), Ok(Step::Start));
    assert!(!s.is_dead(id));
}

#[test]
fn suspended_coroutine_continues_with_its_token() {
    let mut s = Scheduler::new();
    let id = s.spawn();
    s.resume(id).unwrap();
    let y = s.yieldable().unwrap();
    assert!(s.suspend(y, 31).is_ok());
    assert!(s.yieldable().is_none());
    assert_eq!(s.resume(id), Ok(Step::Continue(31)));
}

#[test]
fn dead_coroutine_resumed_twice_is_an_error_each_time() {
    let mut s = Scheduler::new();
    let id = s.spawn();
    s.resume(id).unwrap();
    assert_eq!(s.finish(Outcome::Returned(vec![Value::Integer(1)])), Ok(id));
    assert!(s.is_dead(id));
    assert_eq!(s.resume(id), Err(ResumeError::Dead));
    assert_eq!(s.resume(id), Err(ResumeError::Dead));
    assert!(s.is_dead(id));
}

#[test]
fn failed_coroutine_is_dead_too() {
    let mut s = Scheduler::new();
    let id = s.spawn();
    s.resume(id).unwrap();
    assert_eq!(s.finish(Outcome::Raised("boom".to_string())), Ok(id));
    assert_eq!(s.resume(id), Err(ResumeError::Dead));
}

#[test]
fn one_coroutine_runs_at_a_time() {
    let mut s = Scheduler::new();
    let a = s.spawn();
    let b = s.spawn();
    assert_eq!(s.resume(a), Ok(Step::Start));
    assert_eq!(s.resume(b), Err(ResumeError::Busy));
    assert_eq!(s.resume(a), Err(ResumeError::Busy));
    let y = s.yieldable().unwrap();
    s.suspend(y, 1).unwrap();
    assert_eq!(s.resume(b), Ok(Step::Start));
    assert_eq!(s.resume(a), Err(ResumeError::Busy));
}

#[test]
fn unknown_coroutine_is_refused() {
    let mut s = Scheduler::new();
    assert_eq!(s.resume(0), Err(ResumeError::NoSuchThread));
    assert_eq!(s.finish(Outcome::Returned(Vec::new())), Err(ResumeError::NotRunning));
}

#[test]
fn stale_permission_cannot_suspend() {
    let mut s = Scheduler::new();
    let a = s.spawn();
    let b = s.spawn();
    s.resume(a).unwrap();
    let stale = s.yieldable().unwrap();
    let fresh = s.yieldable().unwrap();
    s.suspend(fresh, 1).unwrap();
    assert_eq!(s.suspend(stale, 2), Err(ResumeError::NotRunning));
    s.resume(b).unwrap();
    let other = s.yieldable().unwrap();
    s.finish(Outcome::Returned(Vec::new())).unwrap();
    assert_eq!(s.suspend(other, 3), Err(ResumeError::NotRunning));
    assert_eq!(s.resume(a), Ok(Step::Continue(1)));
}

#[test]
fn a_suspended_coroutine_can_be_abandoned() {
    let mut s = Scheduler::new();
    let a = s.spawn();
    let b = s.spawn();
    s.resume(a).unwrap();
    assert_eq!(s.abandon(a), Err(ResumeError::Busy));
    let y = s.yieldable().unwrap();
    s.suspend(y, 77).unwrap();
    assert_eq!(s.abandon(a), Ok(Some(77)));
    assert_eq!(s.abandon(a), Err(ResumeError::Dead));
    assert_eq!(s.resume(a), Err(ResumeError::Dead));
    assert!(s.is_dead(a));
    assert_eq!(s.abandon(b), Ok(None));
    assert_eq!(s.abandon(b), Err(ResumeError::Dead));
    assert_eq!(s.abandon(9), Err(ResumeError::NoSuchThread));
}

#[test]
fn releasing_an_unknown_handle_changes_nothing() {
    let mut r = Registry::new();
    let mut en = Engine::new();
    let c = r.register("C", plain).unwrap();
    r.push_userdata(&mut en, c, 5);
    assert_eq!(r.borrow(0, c), Ok(5));
    r.release(9);
    assert_eq!(r.borrow(0, c), Err(AccessError::ConcurrentAccess));
    r.release(0);
    assert_eq!(r.borrow(0, c), Ok(5));
}

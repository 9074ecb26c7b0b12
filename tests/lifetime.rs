use winsafe::com::{ole_IUnknown, ComInterface};
use winsafe::hresult::{HRESULT, E_NOINTERFACE};
use winsafe::ole::{IPersistFile, IUnknown, IID_IUnknown};
use winsafe::system::{ForeignObject, ForeignSystem};
use winsafe::taskschd::{IEmailAction, ITrigger, IID_ITrigger};

fn trigger_object(sys: &mut ForeignSystem) -> usize {
    sys.create_object(ForeignObject {
        iids: vec![IID_IUnknown, IID_ITrigger],
        slots: Vec::new(),
    })
}

#[test]
fn clone_adds_one_reference_and_release_takes_it_back() {
    let mut sys = ForeignSystem::new();
    let p = trigger_object(&mut sys);
    let t = ITrigger::adopt(p).unwrap();
    assert_eq!(sys.ref_count(p), 1);
    let c = t.clone_ref(&mut sys);
    assert_eq!(c.ptr(), p);
    assert_eq!(sys.ref_count(p), 2);
    c.Release(&mut sys);
    assert_eq!(sys.ref_count(p), 1);
    t.Release(&mut sys);
    assert_eq!(sys.ref_count(p), 0);
    assert_eq!(sys.over_releases(), 0);
}

#[test]
fn query_for_declared_capability_gives_own_reference() {
    let mut sys = ForeignSystem::new();
    let p = trigger_object(&mut sys);
    let u = IUnknown::adopt(p).unwrap();
    let t: ITrigger = match u.QueryInterface::<ITrigger>(&mut sys) {
        Ok(t) => t,
        Err(_) => panic!("the object declares the trigger interface"),
    };
    assert_eq!(t.ptr(), p);
    assert_eq!(sys.ref_count(p), 2);
    u.Release(&mut sys);
    assert_eq!(sys.ref_count(p), 1);
    t.Release(&mut sys);
    assert_eq!(sys.ref_count(p), 0);
}

#[test]
fn query_for_undeclared_capability_fails_and_changes_nothing() {
    let mut sys = ForeignSystem::new();
    let p = trigger_object(&mut sys);
    let t = ITrigger::adopt(p).unwrap();
    match t.QueryInterface::<IEmailAction>(&mut sys) {
        Ok(_) => panic!("the object does not declare the e-mail action interface"),
        Err(e) => assert_eq!(e, HRESULT::from_raw(E_NOINTERFACE)),
    }
    assert_eq!(sys.ref_count(p), 1);
    t.Release(&mut sys);
    assert_eq!(sys.ref_count(p), 0);
}

#[test]
fn adopting_null_is_refused() {
    assert!(ITrigger::adopt(0).is_none());
    assert!(IPersistFile::adopt(0).is_none());
    assert!(ITrigger::adopt(3).is_some());
}

#[test]
fn releasing_a_null_wrapper_does_nothing() {
    let mut sys = ForeignSystem::new();
    let p = trigger_object(&mut sys);
    let n = ITrigger::null();
    assert!(n.is_null());
    n.Release(&mut sys);
    assert_eq!(sys.ref_count(p), 1);
    assert_eq!(sys.over_releases(), 0);
}

#[test]
fn round_trip_adopt_clone_release_release() {
    let mut sys = ForeignSystem::new();
    let p = trigger_object(&mut sys);
    let adopted = ITrigger::adopt(p).unwrap();
    let clone = adopted.clone_ref(&mut sys);
    clone.Release(&mut sys);
    adopted.Release(&mut sys);
    assert_eq!(sys.ref_count(p), 0);
    assert_eq!(sys.over_releases(), 0);
    ITrigger::null().Release(&mut sys);
    assert_eq!(sys.over_releases(), 0);
}

#[test]
fn scenario_clone_release_failed_query_release() {
    let mut sys = ForeignSystem::new();
    let p = trigger_object(&mut sys);
    let adopted = ITrigger::adopt(p).unwrap();
    assert_eq!(sys.ref_count(p), 1);
    let clone = adopted.clone_ref(&mut sys);
    assert_eq!(sys.ref_count(p), 2);
    clone.Release(&mut sys);
    assert_eq!(sys.ref_count(p), 1);
    let q = adopted.QueryInterface::<IPersistFile>(&mut sys);
    assert!(q.is_err());
    assert_eq!(sys.ref_count(p), 1);
    adopted.Release(&mut sys);
    assert_eq!(sys.ref_count(p), 0);
    assert_eq!(sys.over_releases(), 0);
}

#[test]
fn many_acquisitions_matched_by_releases_balance() {
    let mut sys = ForeignSystem::new();
    let p = trigger_object(&mut sys);
    let other = trigger_object(&mut sys);
    let t = ITrigger::adopt(p).unwrap();
    let a = t.clone_ref(&mut sys);
    let b = a.clone_ref(&mut sys);
    let c = match b.QueryInterface::<IUnknown>(&mut sys) {
        Ok(c) => c,
        Err(_) => panic!("every object declares the base interface"),
    };
    assert_eq!(sys.ref_count(p), 4);
    assert_eq!(sys.ref_count(other), 1);
    b.Release(&mut sys);
    c.Release(&mut sys);
    a.Release(&mut sys);
    assert_eq!(sys.ref_count(p), 1);
    assert_eq!(sys.ref_count(other), 1);
    t.Release(&mut sys);
    assert_eq!(sys.ref_count(p), 0);
    assert_eq!(sys.over_releases(), 0);
}

#[test]
fn system_signals_release_of_dead_object() {
    let mut sys = ForeignSystem::new();
    let p = trigger_object(&mut sys);
    assert_eq!(sys.release(p), 0);
    assert_eq!(sys.release(p), 0);
    assert_eq!(sys.over_releases(), 1);
    assert_eq!(sys.release(99), 0);
    assert_eq!(sys.over_releases(), 2);
}

#[test]
fn interface_identities() {
    assert_eq!(ITrigger::IID(), 0x09941815_ea89_4b5b_89e0_2a773801fac3);
    assert_eq!(IEmailAction::IID(), 0x10f62c64_7e16_4314_a0c2_0c3683f99d40);
    assert_eq!(IPersistFile::IID(), 0x0000010B_0000_0000_C000_000000000046);
}

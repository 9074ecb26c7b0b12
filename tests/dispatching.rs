use winsafe::com::{ole_IUnknown, ComInterface};
use winsafe::dispatch::{dispatch_status, dispatch_text, dispatch_text_units};
use winsafe::dshow::{IBaseFilter, IFilterGraph, IID_IBaseFilter, IID_IFilterGraph};
use winsafe::hresult::{HRESULT, E_FAIL, E_INVALIDARG, E_POINTER, S_FALSE, S_OK};
use winsafe::ole::{ole_IPersist, ole_IPersistFile, IPersistFile, IID_IPersistFile, IID_IUnknown};
use winsafe::system::{ForeignObject, ForeignSystem, Slot};
use winsafe::taskschd::{
    taskschd_IAction, taskschd_IEmailAction, taskschd_ITrigger, IEmailAction, ITrigger,
    IID_IEmailAction, IID_ITrigger,
};
use winsafe::vt::{
    IActionVT, IDispatchVT, IEmailActionVT, IFilterGraphVT, IPersistFileVT, IPersistVT,
    ITriggerVT, IUnknownVT, TRIGGER_GET_ENABLED, TRIGGER_LEN,
};

fn ok() -> HRESULT {
    HRESULT::from_raw(S_OK)
}

fn units(s: &str) -> Vec<u16> {
    s.encode_utf16().collect()
}

fn dispatch_vt() -> IDispatchVT {
    IDispatchVT {
        IUnknownVT: IUnknownVT::intrinsic(),
        GetTypeInfoCount: Slot::Status(ok()),
        GetTypeInfo: Slot::Status(ok()),
        GetIDsOfNames: Slot::Status(ok()),
        Invoke: Slot::Status(ok()),
    }
}

fn trigger_vt(enabled: Slot, put_code: u32) -> ITriggerVT {
    ITriggerVT {
        IDispatchVT: dispatch_vt(),
        get_Type: Slot::Value(ok(), 2),
        get_Id: Slot::Text(ok(), units("daily")),
        put_Id: Slot::Status(ok()),
        get_Repetition: Slot::Object(ok(), 0),
        put_Repetition: Slot::Status(ok()),
        get_ExecutionTimeLimit: Slot::Text(ok(), units("PT1H")),
        put_ExecutionTimeLimit: Slot::Status(ok()),
        get_StartBoundary: Slot::Text(ok(), units("2024-01-01T08:00:00")),
        put_StartBoundary: Slot::Status(ok()),
        get_EndBoundary: Slot::Text(HRESULT::from_raw(E_FAIL), units("ignored")),
        put_EndBoundary: Slot::Status(ok()),
        get_Enabled: enabled,
        put_Enabled: Slot::Status(HRESULT::from_raw(put_code)),
    }
}

fn trigger(sys: &mut ForeignSystem, enabled: Slot, put_code: u32) -> ITrigger {
    let p = sys.create_object(ForeignObject {
        iids: vec![IID_IUnknown, IID_ITrigger],
        slots: trigger_vt(enabled, put_code).into_slots(),
    });
    ITrigger::adopt(p).unwrap()
}

#[test]
fn trigger_table_layout() {
    let slots = trigger_vt(Slot::Value(ok(), 7), S_OK).into_slots();
    assert_eq!(slots.len(), TRIGGER_LEN);
    assert!(matches!(slots[0], Slot::Intrinsic));
    assert!(matches!(slots[2], Slot::Intrinsic));
    assert!(matches!(slots[TRIGGER_GET_ENABLED], Slot::Value(_, 7)));
}

#[test]
fn value_slot_through_adapter() {
    let mut sys = ForeignSystem::new();
    let t = trigger(&mut sys, Slot::Value(ok(), 1), S_OK);
    assert_eq!(t.get_Enabled(&mut sys), Ok(true));
    assert_eq!(t.get_Type(&mut sys), Ok(2));
    let f = trigger(&mut sys, Slot::Value(ok(), 0), S_OK);
    assert_eq!(f.get_Enabled(&mut sys), Ok(false));
    let e = trigger(&mut sys, Slot::Value(HRESULT::from_raw(E_FAIL), 1), S_OK);
    assert_eq!(e.get_Enabled(&mut sys), Err(HRESULT::from_raw(E_FAIL)));
}

#[test]
fn status_slot_success_and_failure() {
    let mut sys = ForeignSystem::new();
    let t = trigger(&mut sys, Slot::Value(ok(), 1), S_OK);
    assert_eq!(t.put_Enabled(&mut sys, false), Ok(()));
    assert_eq!(sys.log_len(), 1);
    let rec = sys.logged_call(0);
    assert_eq!((rec.ptr, rec.slot, rec.object, rec.number), (t.ptr(), 19, 0, 0));
    assert!(rec.text.is_empty());
    let u = trigger(&mut sys, Slot::Value(ok(), 1), E_INVALIDARG);
    assert_eq!(u.put_Enabled(&mut sys, true), Err(HRESULT::from_raw(E_INVALIDARG)));
    assert_eq!(sys.logged_call(1).number, 1);
    assert_eq!(sys.log_len(), 2);
    assert_eq!(dispatch_status(&mut sys, u.ptr(), 19), Err(HRESULT::from_raw(E_INVALIDARG)));
}

#[test]
fn two_call_text_retrieval() {
    let mut sys = ForeignSystem::new();
    let t = trigger(&mut sys, Slot::Value(ok(), 1), S_OK);
    let (hr, n) = sys.probe_text(t.ptr(), 14);
    assert_eq!(hr, ok());
    assert_eq!(n, 20);
    let got = dispatch_text_units(&mut sys, t.ptr(), 14).unwrap();
    assert_eq!(got.len(), n - 1);
    assert_eq!(got, units("2024-01-01T08:00:00"));
    assert_eq!(t.get_StartBoundary(&mut sys), Ok("2024-01-01T08:00:00".to_string()));
    assert_eq!(t.get_Id(&mut sys), Ok("daily".to_string()));
    assert_eq!(t.get_ExecutionTimeLimit(&mut sys), Ok("PT1H".to_string()));
    assert_eq!(t.get_EndBoundary(&mut sys), Err(HRESULT::from_raw(E_FAIL)));
}

#[test]
fn text_fill_refuses_short_buffer() {
    let mut sys = ForeignSystem::new();
    let t = trigger(&mut sys, Slot::Value(ok(), 1), S_OK);
    let mut buf = vec![7u16; 3];
    assert_eq!(sys.fill_text(t.ptr(), 8, &mut buf), HRESULT::from_raw(E_INVALIDARG));
    assert_eq!(buf, vec![7u16; 3]);
    let mut buf = vec![7u16; 8];
    assert_eq!(sys.fill_text(t.ptr(), 8, &mut buf), ok());
    let mut want = units("daily");
    want.extend_from_slice(&[0, 7, 7]);
    assert_eq!(buf, want);
}

#[test]
fn empty_text_and_non_ascii_text() {
    let mut sys = ForeignSystem::new();
    let mut vt = trigger_vt(Slot::Value(ok(), 1), S_OK);
    vt.get_Id = Slot::Text(ok(), Vec::new());
    vt.get_ExecutionTimeLimit = Slot::Text(ok(), units("Zeitüberschreitung €"));
    let p = sys.create_object(ForeignObject { iids: vec![IID_ITrigger], slots: vt.into_slots() });
    let t = ITrigger::adopt(p).unwrap();
    assert_eq!(t.get_Id(&mut sys), Ok(String::new()));
    assert_eq!(dispatch_text(&mut sys, p, 12), Ok("Zeitüberschreitung €".to_string()));
}

fn email_vt() -> IEmailActionVT {
    let t = |s: &str| Slot::Text(ok(), units(s));
    let st = || Slot::Status(ok());
    IEmailActionVT {
        IAction: IActionVT { IDispatchVT: dispatch_vt(), get_Id: t("mail"), put_Id: st(), get_Type: Slot::Value(ok(), 6) },
        get_Server: t("smtp.example.com"),
        put_Server: st(),
        get_Subject: t("Report"),
        put_Subject: st(),
        get_To: t("a@example.com"),
        put_To: st(),
        get_Cc: t("b@example.com"),
        put_Cc: st(),
        get_Bcc: t(""),
        put_Bcc: st(),
        get_ReplyTo: t("c@example.com"),
        put_ReplyTo: st(),
        get_From: t("d@example.com"),
        put_From: st(),
        get_HeaderFields: Slot::Object(ok(), 0),
        put_HeaderFields: st(),
        get_Body: t("Done."),
        put_Body: st(),
        get_Attachments: st(),
        put_Attachments: st(),
    }
}

#[test]
fn email_action_getters() {
    let mut sys = ForeignSystem::new();
    let p = sys.create_object(ForeignObject {
        iids: vec![IID_IUnknown, IID_IEmailAction],
        slots: email_vt().into_slots(),
    });
    let m = IEmailAction::adopt(p).unwrap();
    assert_eq!(m.get_Id(&mut sys), Ok("mail".to_string()));
    assert_eq!(m.get_Type(&mut sys), Ok(6));
    assert_eq!(m.get_Server(&mut sys), Ok("smtp.example.com".to_string()));
    assert_eq!(m.get_Subject(&mut sys), Ok("Report".to_string()));
    assert_eq!(m.get_To(&mut sys), Ok("a@example.com".to_string()));
    assert_eq!(m.get_Cc(&mut sys), Ok("b@example.com".to_string()));
    assert_eq!(m.get_Bcc(&mut sys), Ok(String::new()));
    assert_eq!(m.get_ReplyTo(&mut sys), Ok("c@example.com".to_string()));
    assert_eq!(m.get_From(&mut sys), Ok("d@example.com".to_string()));
    assert_eq!(m.get_Body(&mut sys), Ok("Done.".to_string()));
}

fn persist_file(sys: &mut ForeignSystem, dirty: u32) -> IPersistFile {
    let vt = IPersistFileVT {
        IPersistVT: IPersistVT { IUnknownVT: IUnknownVT::intrinsic(), GetClassID: Slot::Guid(ok(), 0xABCD) },
        IsDirty: Slot::Status(HRESULT::from_raw(dirty)),
        Load: Slot::Status(ok()),
        Save: Slot::Status(HRESULT::from_raw(E_FAIL)),
        SaveCompleted: Slot::Status(ok()),
        GetCurFile: Slot::Text(ok(), units("a.txt")),
    };
    let p = sys.create_object(ForeignObject { iids: vec![IID_IUnknown, IID_IPersistFile], slots: vt.into_slots() });
    IPersistFile::adopt(p).unwrap()
}

#[test]
fn dual_success_slot() {
    let mut sys = ForeignSystem::new();
    assert_eq!(persist_file(&mut sys, S_OK).IsDirty(&mut sys), Ok(true));
    assert_eq!(persist_file(&mut sys, S_FALSE).IsDirty(&mut sys), Ok(false));
    assert_eq!(persist_file(&mut sys, E_FAIL).IsDirty(&mut sys), Err(HRESULT::from_raw(E_FAIL)));
}

#[test]
fn persist_file_methods() {
    let mut sys = ForeignSystem::new();
    let f = persist_file(&mut sys, S_OK);
    assert_eq!(f.GetClassID(&mut sys), Ok(0xABCD));
    assert_eq!(f.Load(&mut sys, "a.txt", 0x12), Ok(()));
    let mut wide = units("a.txt");
    wide.push(0);
    assert_eq!(sys.logged_call(1).text, wide);
    assert_eq!(sys.logged_call(1).number, 0x12);
    assert_eq!(sys.logged_call(1).slot, 5);
    assert_eq!(f.Save(&mut sys, None, true), Err(HRESULT::from_raw(E_FAIL)));
    assert!(sys.logged_call(2).text.is_empty());
    assert_eq!(sys.logged_call(2).number, 1);
    assert_eq!(f.Save(&mut sys, Some(""), false), Err(HRESULT::from_raw(E_FAIL)));
    assert_eq!(sys.logged_call(3).text, vec![0u16]);
    assert_eq!(sys.logged_call(3).number, 0);
    assert_eq!(f.SaveCompleted(&mut sys, "ü€"), Ok(()));
    assert_eq!(sys.logged_call(4).text, vec![0xFC, 0x20AC, 0]);
    assert_eq!(sys.log_len(), 5);
    assert_eq!(sys.logged_call(0).slot, 3);
}

fn graph_vt(found: Slot) -> IFilterGraphVT {
    IFilterGraphVT {
        IUnknownVT: IUnknownVT::intrinsic(),
        AddFilter: Slot::Status(ok()),
        RemoveFilter: Slot::Status(HRESULT::from_raw(E_FAIL)),
        EnumFilters: Slot::Object(ok(), 0),
        FindFilterByName: found,
        ConnectDirect: Slot::Status(ok()),
        Reconnect: Slot::Status(ok()),
        Disconnect: Slot::Status(ok()),
        SetDefaultSyncSource: Slot::Status(ok()),
    }
}

#[test]
fn object_slot_hands_back_owned_reference() {
    let mut sys = ForeignSystem::new();
    let f = sys.create_object(ForeignObject { iids: vec![IID_IUnknown, IID_IBaseFilter], slots: Vec::new() });
    let filter = IBaseFilter::adopt(f).unwrap();
    let g = sys.create_object(ForeignObject {
        iids: vec![IID_IUnknown, IID_IFilterGraph],
        slots: graph_vt(Slot::Object(ok(), f)).into_slots(),
    });
    let graph = IFilterGraph::adopt(g).unwrap();
    assert_eq!(graph.AddFilter(&mut sys, &filter, "source"), Ok(()));
    assert_eq!(sys.logged_call(0).object, f);
    let mut wide = units("source");
    wide.push(0);
    assert_eq!(sys.logged_call(0).text, wide);
    assert_eq!(graph.RemoveFilter(&mut sys, &filter), Err(HRESULT::from_raw(E_FAIL)));
    assert_eq!(sys.logged_call(1).object, f);
    assert_eq!(graph.SetDefaultSyncSource(&mut sys), Ok(()));
    let found = match graph.FindFilterByName(&mut sys, "source") {
        Ok(x) => x,
        Err(_) => panic!("the slot names a live filter"),
    };
    assert_eq!(found.ptr(), f);
    assert_eq!(sys.ref_count(f), 2);
    assert_eq!(sys.logged_call(2).slot, 10);
    assert_eq!(sys.logged_call(3).text, wide);
    assert_eq!(sys.logged_call(3).slot, 6);
    match graph.EnumFilters(&mut sys) {
        Ok(_) => panic!("the slot names no object"),
        Err(e) => assert_eq!(e, HRESULT::from_raw(E_POINTER)),
    }
    found.Release(&mut sys);
    filter.Release(&mut sys);
    graph.Release(&mut sys);
    assert_eq!(sys.ref_count(f), 0);
    assert_eq!(sys.ref_count(g), 0);
    assert_eq!(sys.over_releases(), 0);
}

#[test]
fn object_slot_failure_carries_code() {
    let mut sys = ForeignSystem::new();
    let g = sys.create_object(ForeignObject {
        iids: vec![IID_IFilterGraph],
        slots: graph_vt(Slot::Object(HRESULT::from_raw(E_FAIL), 1)).into_slots(),
    });
    let graph = IFilterGraph::adopt(g).unwrap();
    match graph.FindFilterByName(&mut sys, "none") {
        Ok(_) => panic!("the slot fails"),
        Err(e) => assert_eq!(e, HRESULT::from_raw(E_FAIL)),
    }
    assert_eq!(sys.ref_count(g), 1);
    assert_eq!(sys.ref_count(1), 1);
    assert_eq!(sys.log_len(), 1);
}

#[test]
fn text_setters_hand_over_terminated_units() {
    let mut sys = ForeignSystem::new();
    let t = trigger(&mut sys, Slot::Value(ok(), 1), S_OK);
    assert_eq!(t.put_Id(&mut sys, "weekly"), Ok(()));
    assert_eq!(t.put_StartBoundary(&mut sys, ""), Ok(()));
    assert_eq!(t.put_EndBoundary(&mut sys, "x"), Ok(()));
    assert_eq!(t.put_ExecutionTimeLimit(&mut sys, "PT2H"), Ok(()));
    let mut want = units("weekly");
    want.push(0);
    assert_eq!(sys.logged_call(0).text, want);
    assert_eq!(sys.logged_call(0).slot, 9);
    assert_eq!(sys.logged_call(1).text, vec![0u16]);
    assert_eq!(sys.logged_call(2).text, vec![0x78, 0]);
    assert_eq!(sys.logged_call(3).slot, 13);

    let p = sys.create_object(ForeignObject { iids: vec![IID_IEmailAction], slots: email_vt().into_slots() });
    let m = IEmailAction::adopt(p).unwrap();
    assert_eq!(m.put_Subject(&mut sys, "Hi"), Ok(()));
    assert_eq!(m.put_To(&mut sys, "a@b"), Ok(()));
    assert_eq!(m.put_Cc(&mut sys, "c"), Ok(()));
    assert_eq!(m.put_Bcc(&mut sys, "d"), Ok(()));
    assert_eq!(m.put_From(&mut sys, "e"), Ok(()));
    assert_eq!(m.put_ReplyTo(&mut sys, "f"), Ok(()));
    assert_eq!(m.put_Server(&mut sys, "g"), Ok(()));
    assert_eq!(m.put_Body(&mut sys, "h"), Ok(()));
    assert_eq!(sys.log_len(), 12);
    assert_eq!(sys.logged_call(4).ptr, p);
    assert_eq!(sys.logged_call(4).slot, 13);
    assert_eq!(sys.logged_call(4).text, vec![0x48, 0x69, 0]);
    assert_eq!(sys.logged_call(11).slot, 27);
}

#[test]
fn object_slot_hands_back_fresh_object() {
    let mut sys = ForeignSystem::new();
    let e = sys.register_object(ForeignObject { iids: vec![IID_IUnknown], slots: Vec::new() });
    assert_eq!(sys.ref_count(e), 0);
    let mut vt = graph_vt(Slot::Object(ok(), 0));
    vt.EnumFilters = Slot::Object(ok(), e);
    let g = sys.create_object(ForeignObject { iids: vec![IID_IFilterGraph], slots: vt.into_slots() });
    let graph = IFilterGraph::adopt(g).unwrap();
    let en = match graph.EnumFilters(&mut sys) {
        Ok(x) => x,
        Err(_) => panic!("the slot hands back a fresh enumerator"),
    };
    assert_eq!(en.ptr(), e);
    assert_eq!(sys.ref_count(e), 1);
    assert_eq!(sys.ref_count(g), 1);
    assert_eq!(sys.log_len(), 1);
    en.Release(&mut sys);
    assert_eq!(sys.ref_count(e), 0);
    assert_eq!(sys.over_releases(), 0);
    match graph.FindFilterByName(&mut sys, "none") {
        Ok(_) => panic!("the slot names no object"),
        Err(err) => assert_eq!(err, HRESULT::from_raw(E_POINTER)),
    }
}

#[test]
fn text_retrieval_makes_two_calls_and_a_failed_probe_one() {
    let mut sys = ForeignSystem::new();
    let t = trigger(&mut sys, Slot::Value(ok(), 1), S_OK);
    assert_eq!(t.get_Id(&mut sys), Ok("daily".to_string()));
    assert_eq!(sys.log_len(), 2);
    assert_eq!(sys.logged_call(0).slot, 8);
    assert_eq!(sys.logged_call(1).slot, 8);
    assert_eq!(t.get_EndBoundary(&mut sys), Err(HRESULT::from_raw(E_FAIL)));
    assert_eq!(sys.log_len(), 3);
    assert_eq!(t.get_Enabled(&mut sys), Ok(true));
    assert_eq!(sys.log_len(), 4);
}

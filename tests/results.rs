use winsafe::hresult::{
    ok_to_hrresult, okfalse_to_hrresult, HRESULT, E_FAIL, E_INVALIDARG, E_NOINTERFACE, S_FALSE,
    S_OK,
};

#[test]
fn success_and_failure_classification() {
    assert!(HRESULT::from_raw(S_OK).succeeded());
    assert!(HRESULT::from_raw(S_FALSE).succeeded());
    assert!(HRESULT::from_raw(0x7FFF_FFFF).succeeded());
    assert!(HRESULT::from_raw(E_FAIL).failed());
    assert!(HRESULT::from_raw(0x8000_0000).failed());
}

#[test]
fn facility_and_code_fields() {
    let hr = HRESULT::from_raw(E_INVALIDARG);
    assert_eq!(hr.facility(), 7);
    assert_eq!(hr.code(), 0x57);
    let hr = HRESULT::from_raw(E_NOINTERFACE);
    assert_eq!(hr.facility(), 0);
    assert_eq!(hr.code(), 0x4002);
    assert_eq!(hr.raw(), 0x8000_4002);
}

#[test]
fn descriptions() {
    assert_eq!(HRESULT::from_raw(E_NOINTERFACE).description(), "No such interface supported.");
    assert_eq!(HRESULT::from_raw(E_INVALIDARG).description(), "The parameter is incorrect.");
    assert_eq!(HRESULT::from_raw(0x8123_4567).description(), "Unknown failure code.");
    assert_eq!(HRESULT::from_raw(2).description(), "Success code.");
}

#[test]
fn plain_adapter_maps_codes() {
    assert_eq!(ok_to_hrresult(HRESULT::from_raw(S_OK)), Ok(()));
    assert_eq!(ok_to_hrresult(HRESULT::from_raw(S_FALSE)), Ok(()));
    assert_eq!(ok_to_hrresult(HRESULT::from_raw(E_FAIL)), Err(HRESULT::from_raw(E_FAIL)));
}

#[test]
fn dual_success_adapter_maps_codes() {
    assert_eq!(okfalse_to_hrresult(HRESULT::from_raw(S_OK)), Ok(true));
    assert_eq!(okfalse_to_hrresult(HRESULT::from_raw(S_FALSE)), Ok(false));
    assert_eq!(okfalse_to_hrresult(HRESULT::from_raw(2)), Err(HRESULT::from_raw(2)));
    assert_eq!(okfalse_to_hrresult(HRESULT::from_raw(E_FAIL)), Err(HRESULT::from_raw(E_FAIL)));
}

use winsafe::com::{CoInitializeEx, ComInterface};
use winsafe::dshow::{IBaseFilter, IEnumFilters, IFilterGraph};
use winsafe::guid::parse_guid;
use winsafe::hresult::{HRESULT, S_FALSE, S_OK};
use winsafe::ole::{IDispatch, IPersist, IPersistFile, IUnknown};
use winsafe::system::ForeignSystem;
use winsafe::taskschd::{IAction, IEmailAction, ITrigger};

#[test]
fn identities_match_their_text_form() {
    assert_eq!(parse_guid("00000000-0000-0000-C000-000000000046"), Some(IUnknown::IID()));
    assert_eq!(parse_guid("00020400-0000-0000-C000-000000000046"), Some(IDispatch::IID()));
    assert_eq!(parse_guid("0000010c-0000-0000-c000-000000000046"), Some(IPersist::IID()));
    assert_eq!(parse_guid("0000010B-0000-0000-C000-000000000046"), Some(IPersistFile::IID()));
    assert_eq!(parse_guid("BAE54997-48B1-4CBE-9965-D6BE263EBEA4"), Some(IAction::IID()));
    assert_eq!(parse_guid("10f62c64-7e16-4314-a0c2-0c3683f99d40"), Some(IEmailAction::IID()));
    assert_eq!(parse_guid("09941815-ea89-4b5b-89e0-2a773801fac3"), Some(ITrigger::IID()));
    assert_eq!(parse_guid("56a8689f-0ad4-11ce-b03a-0020af0ba770"), Some(IFilterGraph::IID()));
    assert_eq!(parse_guid("56a86895-0ad4-11ce-b03a-0020af0ba770"), Some(IBaseFilter::IID()));
    assert_eq!(parse_guid("56a86893-0ad4-11ce-b03a-0020af0ba770"), Some(IEnumFilters::IID()));
}

#[test]
fn identity_text_compares_by_value() {
    assert_eq!(
        parse_guid("09941815-EA89-4B5B-89E0-2A773801FAC3"),
        parse_guid("09941815-ea89-4b5b-89e0-2a773801fac3"),
    );
    assert_eq!(parse_guid("ffffffff-ffff-ffff-ffff-ffffffffffff"), Some(u128::MAX));
    assert_eq!(parse_guid("00000000-0000-0000-0000-000000000001"), Some(1));
}

#[test]
fn malformed_identity_text_is_refused() {
    assert_eq!(parse_guid(""), None);
    assert_eq!(parse_guid("09941815-ea89-4b5b-89e0-2a773801fac"), None);
    assert_eq!(parse_guid("09941815-ea89-4b5b-89e0-2a773801fac30"), None);
    assert_eq!(parse_guid("09941815xea89-4b5b-89e0-2a773801fac3"), None);
    assert_eq!(parse_guid("0994181g-ea89-4b5b-89e0-2a773801fac3"), None);
    assert_eq!(parse_guid("{9941815-ea89-4b5b-89e0-2a773801fac3"), None);
}

#[test]
fn apartment_initialization_pairs() {
    let mut sys = ForeignSystem::new();
    let first = CoInitializeEx(&mut sys);
    assert_eq!(first.hr(), HRESULT::from_raw(S_OK));
    let nested = CoInitializeEx(&mut sys);
    assert_eq!(nested.hr(), HRESULT::from_raw(S_FALSE));
    assert_eq!(sys.apartment_inits(), 2);
    nested.CoUninitialize(&mut sys);
    first.CoUninitialize(&mut sys);
    assert_eq!(sys.apartment_inits(), 0);
}

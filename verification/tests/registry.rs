use xplane_udp_bridge::dataref::MockDataRefReader;
use xplane_udp_bridge::dispatcher::RequestDispatcher;
use xplane_udp_bridge::error::UdpRequestHandlerError;
use xplane_udp_bridge::handler::{UdpRequestHandler, UdpRequestHandlerType};
use xplane_udp_bridge::request::UdpRequest;
use xplane_udp_bridge::table::LookupTable;

fn reader_with(entries: Vec<(&str, &str)>) -> MockDataRefReader {
    MockDataRefReader::from_entries(
        entries.into_iter().map(|(k, v)| (String::from(k), String::from(v))).collect(),
    )
}

fn default_dispatcher() -> RequestDispatcher<MockDataRefReader> {
    RequestDispatcher::with_default_handlers(
        MockDataRefReader::new(),
        MockDataRefReader::new(),
        MockDataRefReader::new(),
        MockDataRefReader::new(),
    )
}

#[test]
fn lookup_table_finds_exact_keys_only() {
    let mut table: LookupTable<i32> = LookupTable::new();
    table.insert(String::from("alpha"), 1);
    table.insert(String::from("beta"), 2);
    assert_eq!(table.get("alpha"), Some(&1));
    assert_eq!(table.get("beta"), Some(&2));
    assert_eq!(table.get("alph"), None);
    assert_eq!(table.get("alphaa"), None);
    assert_eq!(table.get(""), None);
}

#[test]
fn lookup_table_later_binding_shadows_earlier() {
    let mut table: LookupTable<i32> = LookupTable::new();
    table.insert(String::from("key"), 1);
    table.insert(String::from("key"), 2);
    assert_eq!(table.get("key"), Some(&2));
}

#[test]
fn default_registration_resolves_every_supported_selector() {
    let d = default_dispatcher();
    for selector in ["dataref|read|int", "dataref|read|float", "dataref|read|[int]",
        "dataref|read|[float]"] {
        assert!(d.resolve(selector).is_some(), "selector {} must be pre-registered", selector);
    }
}

#[test]
fn unregistered_selectors_do_not_resolve() {
    let d = default_dispatcher();
    assert!(d.resolve("dataref|write|int").is_none());
    assert!(d.resolve("dataref|read|double").is_none());
    assert!(d.resolve("dataref|read").is_none());
    assert!(d.resolve("").is_none());
}

#[test]
fn dispatch_without_handler_reports_no_handler_impl() {
    let d: RequestDispatcher<MockDataRefReader> = RequestDispatcher::new();
    let req = UdpRequest::new(String::from("dataref|read|int|sim/x")).unwrap();
    let r = d.dispatch(req);
    assert!(matches!(r, Err(UdpRequestHandlerError::NoHandlerImplFound { .. })));
}

#[test]
fn dispatch_routes_to_the_registered_handler() {
    let mut d: RequestDispatcher<MockDataRefReader> = RequestDispatcher::new();
    d.register(String::from("dataref|read|int"), reader_with(vec![("sim/x", "7")]));
    let req = UdpRequest::new(String::from("dataref|read|int|sim/x")).unwrap();
    assert_eq!(d.dispatch(req).unwrap(), "7");
}

#[test]
fn register_replaces_the_binding_for_a_selector() {
    let mut d: RequestDispatcher<MockDataRefReader> = RequestDispatcher::new();
    d.register(String::from("dataref|read|int"), reader_with(vec![("sim/x", "old")]));
    d.register(String::from("dataref|read|int"), reader_with(vec![("sim/x", "new")]));
    let req = UdpRequest::new(String::from("dataref|read|int|sim/x")).unwrap();
    assert_eq!(d.dispatch(req).unwrap(), "new");
}

#[test]
fn register_leaves_other_selectors_untouched() {
    let mut d: RequestDispatcher<MockDataRefReader> = RequestDispatcher::new();
    d.register(String::from("dataref|read|int"), reader_with(vec![("sim/x", "1")]));
    d.register(String::from("dataref|read|float"), reader_with(vec![("sim/x", "2.0")]));
    let req = UdpRequest::new(String::from("dataref|read|int|sim/x")).unwrap();
    assert_eq!(d.dispatch(req).unwrap(), "1");
    let req = UdpRequest::new(String::from("dataref|read|float|sim/x")).unwrap();
    assert_eq!(d.dispatch(req).unwrap(), "2.0");
}

#[test]
fn mock_reader_answers_its_preset_variables() {
    let m = MockDataRefReader::new();
    assert_eq!(m.get_handler_type(), UdpRequestHandlerType::DataRefReader);
    let req = UdpRequest::new(String::from(
        "dataref|read|float|sim/cockpit2/engine/actuators/throttle_ratio",
    ))
    .unwrap();
    assert_eq!(m.handle(req).unwrap(), "0.5");
}

#[test]
fn mock_reader_reports_missing_variables() {
    let m = MockDataRefReader::new();
    let req = UdpRequest::new(String::from("dataref|read|float|sim/no/such/var")).unwrap();
    match m.handle(req) {
        Err(UdpRequestHandlerError::DataRefReadError { data_ref }) => {
            assert_eq!(data_ref, "sim/no/such/var");
        }
        _ => panic!("a missing variable must be a read error"),
    }
}

#[test]
fn mock_reader_preserves_array_order() {
    let m = MockDataRefReader::new();
    let req = UdpRequest::new(String::from(
        "dataref|read|[int]|sim/cockpit2/engine/actuators/eng_master",
    ))
    .unwrap();
    assert_eq!(m.handle(req).unwrap(), "[0,1]");
}

//! End-to-end runs of the datagram pipeline against a mock value provider.

use xplane_udp_bridge::dataref::MockDataRefReader;
use xplane_udp_bridge::dispatcher::RequestDispatcher;
use xplane_udp_bridge::server::{start, stop_udp_server, ServerState, StartAction, UdpServer};

fn server_with_default_mock() -> UdpServer<MockDataRefReader> {
    UdpServer::new(RequestDispatcher::with_default_handlers(
        MockDataRefReader::new(),
        MockDataRefReader::new(),
        MockDataRefReader::new(),
        MockDataRefReader::new(),
    ))
}

fn server_with_empty_provider() -> UdpServer<MockDataRefReader> {
    UdpServer::new(RequestDispatcher::with_default_handlers(
        MockDataRefReader::from_entries(Vec::new()),
        MockDataRefReader::from_entries(Vec::new()),
        MockDataRefReader::from_entries(Vec::new()),
        MockDataRefReader::from_entries(Vec::new()),
    ))
}

#[test]
fn read_float_with_value_one_replies_ok() {
    let server = server_with_default_mock();
    let reply = server.handle_message("dataref|read|float|sim/cockpit2/controls/parking_brake_ratio");
    assert_eq!(reply, "200|OK|1.0");
}

#[test]
fn unknown_operation_write_replies_bad_request() {
    let server = server_with_default_mock();
    let reply = server.handle_message("dataref|write|float|x");
    assert!(reply.starts_with("400|Bad Request|"), "unexpected reply: {}", reply);
}

#[test]
fn provider_not_found_replies_internal_server_error() {
    let server = server_with_empty_provider();
    let reply = server.handle_message("dataref|read|int|sim/cockpit2/electrical/battery_on");
    assert!(reply.starts_with("500|Internal Server Error|"), "unexpected reply: {}", reply);
}

#[test]
fn three_field_message_replies_bad_request() {
    let server = server_with_default_mock();
    let reply = server.handle_message("dataref|read|float");
    assert!(reply.starts_with("400|Bad Request|"), "unexpected reply: {}", reply);
}

#[test]
fn bind_failure_leaves_the_server_stopped() {
    let mut server = server_with_default_mock();
    assert_eq!(start(&mut server, 49000), StartAction::Bind { port: 49000 });
    server.on_bind_failed();
    assert_eq!(server.state(), ServerState::Stopped);
}

#[test]
fn stop_right_after_start_allows_a_clean_restart() {
    let mut server = server_with_default_mock();
    assert_eq!(start(&mut server, 49000), StartAction::Bind { port: 49000 });
    server.on_bound();
    stop_udp_server(&mut server);
    server.on_loop_exit();
    assert_eq!(server.state(), ServerState::Stopped);
    assert_eq!(start(&mut server, 49000), StartAction::Bind { port: 49000 });
    server.on_bound();
    assert_eq!(server.state(), ServerState::Running);
}

#[test]
fn unsupported_combination_replies_bad_request() {
    let server = UdpServer::new(RequestDispatcher::<MockDataRefReader>::new());
    let reply = server.handle_message("dataref|read|int|sim/x");
    assert!(reply.starts_with("400|Bad Request|"), "unexpected reply: {}", reply);
}

#[test]
fn no_handler_diagnostic_names_the_selector() {
    let server = UdpServer::new(RequestDispatcher::<MockDataRefReader>::new());
    let reply = server.handle_message("dataref|read|[float]|sim/x");
    assert_eq!(reply, "400|Bad Request|no request handler impl found for request: dataref|read|[float]");
}

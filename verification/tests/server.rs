use xplane_udp_bridge::dataref::MockDataRefReader;
use xplane_udp_bridge::dispatcher::RequestDispatcher;
use xplane_udp_bridge::server::{
    register_request_handler, start, stop_udp_server, ServerState, StartAction, StopAction,
    UdpServer,
};

fn new_server() -> UdpServer<MockDataRefReader> {
    UdpServer::new(RequestDispatcher::with_default_handlers(
        MockDataRefReader::new(),
        MockDataRefReader::new(),
        MockDataRefReader::new(),
        MockDataRefReader::new(),
    ))
}

#[test]
fn test_start_udp_server() {
    let mut server = new_server();
    let port = 49000;
    let action = start(&mut server, port);
    assert_eq!(action, StartAction::Bind { port: 49000 });
    assert_eq!(server.state(), ServerState::Starting);
    server.on_bound();
    assert_eq!(server.state(), ServerState::Running);
    assert!(server.should_continue());
}

#[test]
fn test_stop_udp_server() {
    let mut server = new_server();
    let action = stop_udp_server(&mut server);
    assert_eq!(action, StopAction::AlreadyStopped);
    assert_eq!(server.state(), ServerState::Stopped);
}

#[test]
fn start_twice_leaves_one_loop() {
    let mut server = new_server();
    assert_eq!(start(&mut server, 49000), StartAction::Bind { port: 49000 });
    server.on_bound();
    assert_eq!(start(&mut server, 49000), StartAction::AlreadyRunning);
    assert_eq!(server.state(), ServerState::Running);
    assert_eq!(start(&mut server, 50000), StartAction::AlreadyRunning);
    assert_eq!(server.state(), ServerState::Running);
}

#[test]
fn stop_is_observed_within_one_receive_cycle() {
    let mut server = new_server();
    start(&mut server, 49000);
    server.on_bound();
    assert!(server.should_continue());
    assert_eq!(stop_udp_server(&mut server), StopAction::AwaitLoopExit);
    assert!(!server.should_continue());
    assert_eq!(server.state(), ServerState::Stopping);
    server.on_loop_exit();
    assert_eq!(server.state(), ServerState::Stopped);
}

#[test]
fn handle_message_answers_while_registry_is_read_only() {
    let server = new_server();
    let first = server.handle_message("dataref|read|float|sim/cockpit2/controls/parking_brake_ratio");
    let second = server.handle_message("dataref|read|float|sim/cockpit2/controls/parking_brake_ratio");
    assert_eq!(first, second);
    assert_eq!(first, "200|OK|1.0");
}

#[test]
fn registering_a_handler_changes_only_its_selector() {
    let mut server = new_server();
    let custom = MockDataRefReader::from_entries(vec![(
        String::from("sim/custom/var"),
        String::from("42"),
    )]);
    register_request_handler(&mut server, String::from("dataref|read|int"), custom);
    assert_eq!(server.handle_message("dataref|read|int|sim/custom/var"), "200|OK|42");
    assert_eq!(
        server.handle_message("dataref|read|float|sim/cockpit2/controls/parking_brake_ratio"),
        "200|OK|1.0"
    );
}

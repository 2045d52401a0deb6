use cdp_telemetry::cdp::client::{
    CdpClient, CdpError, CdpEvent, ConnectAction, ConnectEvent, PageCommand, CONNECT_TIMEOUT_SECS,
};
use cdp_telemetry::cdp::types::{CdpTarget, ConnectionState, Metric, PerformanceMetrics};

type Client = CdpClient<&'static str, u32>;

fn failed(action: ConnectAction<&'static str>) -> CdpError {
    match action {
        ConnectAction::Failed(error) => error,
        _ => panic!("the step did not fail"),
    }
}

#[test]
fn a_new_client_is_disconnected() {
    let client = Client::new();
    assert_eq!(client.get_state(), ConnectionState::Disconnected);
    assert_eq!(client.page().err(), Some(CdpError::NotConnected));
}

#[test]
fn metrics_before_connect_fail_with_not_connected() {
    let client = Client::new();
    assert_eq!(client.get_performance_metrics(), Err(CdpError::NotConnected));
    assert_eq!(client.enable_performance(), Err(CdpError::NotConnected));
    assert_eq!(client.enable_network(), Err(CdpError::NotConnected));
}

#[test]
fn an_unreachable_target_leaves_the_client_disconnected() {
    let mut client = Client::new();
    match client.connect(ConnectEvent::Requested) {
        ConnectAction::OpenTransport { timeout_secs } => {
            assert_eq!(timeout_secs, 10);
            assert_eq!(timeout_secs, CONNECT_TIMEOUT_SECS);
        }
        _ => panic!("expected the transport to be opened"),
    }
    assert_eq!(client.get_state(), ConnectionState::Connecting);
    let error = failed(client.connect(ConnectEvent::TransportFailed("refused".to_string())));
    assert_eq!(error, CdpError::ConnectionFailed("refused".to_string()));
    assert_eq!(client.get_state(), ConnectionState::Disconnected);
}

#[test]
fn a_timeout_leaves_the_client_disconnected() {
    let mut client = Client::new();
    client.connect(ConnectEvent::Requested);
    let error = failed(client.connect(ConnectEvent::TimedOut));
    assert_eq!(error, CdpError::ConnectionFailed("Connection timeout".to_string()));
    assert_eq!(error.message(), "Failed to connect: Connection timeout");
    assert_eq!(client.get_state(), ConnectionState::Disconnected);
}

#[test]
fn the_first_listed_page_is_connected() {
    let mut client = Client::new();
    client.connect(ConnectEvent::Requested);
    match client.connect(ConnectEvent::TransportOpened("ws")) {
        ConnectAction::ListPages(handle) => assert_eq!(handle, "ws"),
        _ => panic!("expected the pages to be listed"),
    }
    assert_eq!(client.get_state(), ConnectionState::Connecting);
    match client.connect(ConnectEvent::PagesListed("ws", vec![7, 8, 9])) {
        ConnectAction::Established(event) => assert_eq!(event, CdpEvent::Connected),
        _ => panic!("expected the session to be up"),
    }
    assert_eq!(client.get_state(), ConnectionState::Connected);
    assert_eq!(client.page(), Ok(&7));
}

#[test]
fn without_pages_a_blank_page_is_tried() {
    let mut client = Client::new();
    client.connect(ConnectEvent::Requested);
    match client.connect(ConnectEvent::PagesListed("ws", vec![])) {
        ConnectAction::OpenBlankPage(handle) => assert_eq!(handle, "ws"),
        _ => panic!("expected a blank page to be opened"),
    }
    assert_eq!(client.get_state(), ConnectionState::Connecting);
    match client.connect(ConnectEvent::BlankPageOpened("ws", 42)) {
        ConnectAction::Established(event) => assert_eq!(event, CdpEvent::Connected),
        _ => panic!("expected the session to be up"),
    }
    assert_eq!(client.get_state(), ConnectionState::Connected);
    assert_eq!(client.page(), Ok(&42));
}

#[test]
fn without_any_page_the_connection_fails() {
    let mut client = Client::new();
    client.connect(ConnectEvent::Requested);
    client.connect(ConnectEvent::PagesListed("ws", vec![]));
    let error = failed(client.connect(ConnectEvent::BlankPageFailed("ws")));
    assert_eq!(error, CdpError::ConnectionFailed("No page available to connect".to_string()));
    assert_eq!(client.get_state(), ConnectionState::Disconnected);
    assert_eq!(client.page().err(), Some(CdpError::NotConnected));
}

#[test]
fn a_failed_page_listing_is_a_failed_connection() {
    let mut client = Client::new();
    client.connect(ConnectEvent::Requested);
    client.connect(ConnectEvent::TransportOpened("ws"));
    let error = failed(client.connect(ConnectEvent::PagesFailed("closed".to_string())));
    assert_eq!(error, CdpError::ConnectionFailed("closed".to_string()));
    assert_eq!(client.get_state(), ConnectionState::Disconnected);
}

#[test]
fn a_report_without_an_attempt_changes_nothing() {
    let stray = CdpError::ConnectionFailed("No connection attempt in progress".to_string());

    let mut idle = Client::new();
    assert_eq!(failed(idle.connect(ConnectEvent::PagesListed("ws", vec![1]))), stray);
    assert_eq!(idle.get_state(), ConnectionState::Disconnected);
    assert_eq!(failed(idle.connect(ConnectEvent::BlankPageOpened("ws", 1))), stray);
    assert_eq!(idle.get_state(), ConnectionState::Disconnected);
    assert_eq!(failed(idle.connect(ConnectEvent::TransportOpened("ws"))), stray);
    assert_eq!(failed(idle.connect(ConnectEvent::TimedOut)), stray);
    assert_eq!(idle.get_state(), ConnectionState::Disconnected);
    assert_eq!(idle.page().err(), Some(CdpError::NotConnected));

    let mut connected = Client::new();
    connected.connect(ConnectEvent::Requested);
    connected.connect(ConnectEvent::PagesListed("ws", vec![5]));
    assert_eq!(
        failed(connected.connect(ConnectEvent::TransportFailed("late".to_string()))),
        stray
    );
    assert_eq!(failed(connected.connect(ConnectEvent::BlankPageFailed("ws"))), stray);
    assert_eq!(failed(connected.connect(ConnectEvent::PagesListed("other", vec![6]))), stray);
    assert_eq!(connected.get_state(), ConnectionState::Connected);
    assert_eq!(connected.page(), Ok(&5));
}

#[test]
fn a_disconnect_ends_the_attempt_under_way() {
    let mut client = Client::new();
    client.connect(ConnectEvent::Requested);
    assert_eq!(client.disconnect(), Ok(Some(CdpEvent::Disconnected)));
    assert_eq!(client.get_state(), ConnectionState::Disconnected);
    let error = failed(client.connect(ConnectEvent::PagesListed("ws", vec![1])));
    assert_eq!(
        error,
        CdpError::ConnectionFailed("No connection attempt in progress".to_string())
    );
    assert_eq!(client.get_state(), ConnectionState::Disconnected);
}

#[test]
fn reconnecting_releases_the_old_page() {
    let mut client = Client::new();
    client.connect(ConnectEvent::Requested);
    client.connect(ConnectEvent::PagesListed("ws", vec![1]));
    assert_eq!(client.page(), Ok(&1));
    client.connect(ConnectEvent::Requested);
    assert_eq!(client.get_state(), ConnectionState::Connecting);
    assert_eq!(client.get_performance_metrics(), Err(CdpError::NotConnected));
}

#[test]
fn disconnect_is_idempotent() {
    let mut client = Client::new();
    assert_eq!(client.disconnect(), Ok(None));
    assert_eq!(client.get_state(), ConnectionState::Disconnected);
    client.connect(ConnectEvent::Requested);
    client.connect(ConnectEvent::PagesListed("ws", vec![1]));
    assert_eq!(client.disconnect(), Ok(Some(CdpEvent::Disconnected)));
    assert_eq!(client.get_state(), ConnectionState::Disconnected);
    assert_eq!(client.page().err(), Some(CdpError::NotConnected));
    assert_eq!(client.disconnect(), Ok(None));
    assert_eq!(client.get_state(), ConnectionState::Disconnected);
    assert_eq!(client.enable_network(), Err(CdpError::NotConnected));
}

#[test]
fn a_connected_client_hands_out_the_commands() {
    let mut client = Client::new();
    client.connect(ConnectEvent::Requested);
    client.connect(ConnectEvent::PagesListed("ws", vec![1]));
    assert_eq!(client.enable_performance(), Ok(vec![PageCommand::EnablePerformance]));
    assert_eq!(
        client.enable_network(),
        Ok(vec![
            PageCommand::EnableNetwork,
            PageCommand::ListenRequestWillBeSent,
            PageCommand::ListenResponseReceived,
            PageCommand::ListenLoadingFinished,
        ])
    );
    assert_eq!(client.get_performance_metrics(), Ok(PageCommand::GetMetrics));
}

#[test]
fn the_directory_address_holds_the_port() {
    assert_eq!(Client::targets_url(9222), "http://localhost:9222/json/list");
    assert_eq!(Client::targets_url(0), "http://localhost:0/json/list");
    assert_eq!(Client::targets_url(65535), "http://localhost:65535/json/list");
}

#[test]
fn a_failed_directory_query_is_a_fetch_error() {
    let error = Client::get_targets(Err("connection refused".to_string())).unwrap_err();
    assert_eq!(error, CdpError::FetchTargetsFailed("connection refused".to_string()));
    assert_eq!(error.message(), "Failed to fetch targets: connection refused");
    let target = CdpTarget {
        id: "1".to_string(),
        title: "t".to_string(),
        url: "u".to_string(),
        target_type: "page".to_string(),
        web_socket_debugger_url: Some("ws://x".to_string()),
        devtools_frontend_url: None,
        favicon_url: None,
    };
    assert_eq!(Client::get_targets(Ok(vec![target.clone()])), Ok(vec![target]));
}

#[test]
fn every_error_has_its_message() {
    assert_eq!(CdpError::NotConnected.message(), "Not connected");
    assert_eq!(CdpError::BrowserError("x".to_string()).message(), "Browser error: x");
    assert_eq!(CdpError::ConnectionFailed("y".to_string()).message(), "Failed to connect: y");
    assert_eq!(
        CdpError::FetchTargetsFailed("z".to_string()).message(),
        "Failed to fetch targets: z"
    );
}

#[test]
fn a_status_is_cut_to_32_bits() {
    assert_eq!(
        CdpEvent::response_received("r".to_string(), 200, 5),
        CdpEvent::NetworkResponse { request_id: "r".to_string(), status: 200, timestamp: 5 }
    );
    assert_eq!(
        CdpEvent::response_received("r".to_string(), (1i64 << 32) + 404, 5),
        CdpEvent::NetworkResponse { request_id: "r".to_string(), status: 404, timestamp: 5 }
    );
    assert_eq!(
        CdpEvent::request_sent("r".to_string(), "u".to_string(), "GET".to_string(), 1),
        CdpEvent::NetworkRequest {
            request_id: "r".to_string(),
            url: "u".to_string(),
            method: "GET".to_string(),
            timestamp: 1
        }
    );
    assert_eq!(
        CdpEvent::loading_finished("r".to_string(), 3, 2),
        CdpEvent::NetworkFinished { request_id: "r".to_string(), encoded_data_length: 3, timestamp: 2 }
    );
}

fn metric(name: &str, value: i64) -> Metric {
    Metric { name: name.to_string(), value }
}

#[test]
fn counters_are_matched_by_exact_name() {
    let reply = vec![
        metric("Timestamp", 1),
        metric("JSHeapUsedSize", 10),
        metric("JSHeapTotalSize", 20),
        metric("Nodes", 30),
        metric("nodes", 31),
        metric("LayoutCount", 40),
        metric("ScriptDuration", 50),
        metric("TaskDuration", 60),
        metric("Nodes", 33),
    ];
    assert_eq!(
        PerformanceMetrics::from_reply(99, &reply),
        PerformanceMetrics {
            timestamp: 99,
            js_heap_used_size: Some(10),
            js_heap_total_size: Some(20),
            dom_nodes: Some(33),
            layout_count: Some(40),
            script_duration: Some(50),
            task_duration: Some(60),
        }
    );
    assert_eq!(PerformanceMetrics::from_reply(5, &vec![]), PerformanceMetrics::empty(5));
    assert_eq!(
        PerformanceMetrics::from_reply(5, &vec![metric("Documents", 3)]),
        PerformanceMetrics::empty(5)
    );
}

#[test]
fn a_collected_snapshot_is_stamped_with_the_clock() {
    let snapshot = PerformanceMetrics::collected(Ok(vec![metric("Nodes", 12)])).unwrap();
    assert_eq!(snapshot.dom_nodes, Some(12));
    assert_eq!(snapshot.layout_count, None);
    assert!(snapshot.timestamp > 1_600_000_000_000);
    assert_eq!(
        PerformanceMetrics::collected(Err("gone".to_string())),
        Err(CdpError::BrowserError("gone".to_string()))
    );
}

use cdp_telemetry::cdp::client::{CdpClient, CdpError, CdpEvent, ConnectEvent, PageCommand};
use cdp_telemetry::cdp::metrics::{
    elapsed_between, to_whole_millis, LoopTurn, MetricsCollector, MetricsEvent, Processed,
    Received, StartAction, StartEvent, TrackedRequest,
};
use cdp_telemetry::cdp::types::PerformanceMetrics;
use cdp_telemetry::storage::metrics::{MetricType, StoredMetric, StoredNetworkRequest};

fn sent(id: &str, url: &str, method: &str, timestamp: i64) -> CdpEvent {
    CdpEvent::NetworkRequest {
        request_id: id.to_string(),
        url: url.to_string(),
        method: method.to_string(),
        timestamp,
    }
}

fn responded(id: &str, status: i32, timestamp: i64) -> CdpEvent {
    CdpEvent::NetworkResponse { request_id: id.to_string(), status, timestamp }
}

fn finished(id: &str, encoded_data_length: i64, timestamp: i64) -> CdpEvent {
    CdpEvent::NetworkFinished { request_id: id.to_string(), encoded_data_length, timestamp }
}

fn connected_client() -> CdpClient<u8, u8> {
    let mut client: CdpClient<u8, u8> = CdpClient::new();
    client.connect(ConnectEvent::Requested);
    client.connect(ConnectEvent::PagesListed(1, vec![2]));
    client
}

#[test]
fn request_response_finished_scenario() {
    let mut engine = collecting_engine("s1");

    let first = process(&mut engine, sent("r1", "https://a/x", "GET", 0));
    assert_eq!(
        first.event,
        Some(MetricsEvent::NetworkRequest {
            request_id: "r1".to_string(),
            url: "https://a/x".to_string(),
            method: "GET".to_string(),
            timestamp: 0,
        })
    );
    assert_eq!(
        first.record,
        Some(StoredNetworkRequest {
            id: "r1".to_string(),
            session_id: "s1".to_string(),
            url: "https://a/x".to_string(),
            method: Some("GET".to_string()),
            status_code: None,
            request_time: 0,
            response_time: None,
            duration_ms: None,
            size_bytes: None,
            headers: None,
        })
    );

    let second = process(&mut engine, responded("r1", 200, 50_000));
    assert_eq!(second.record, None);
    assert_eq!(
        second.event,
        Some(MetricsEvent::NetworkResponse {
            request_id: "r1".to_string(),
            status: 200,
            timestamp: 50_000,
            duration_ms: Some(50_000_000),
        })
    );

    let third = process(&mut engine, finished("r1", 1_024_000_000, 200_000));
    assert_eq!(
        third.event,
        Some(MetricsEvent::NetworkComplete {
            request_id: "r1".to_string(),
            url: "https://a/x".to_string(),
            method: "GET".to_string(),
            status: Some(200),
            duration_ms: 200_000_000,
            size_bytes: 1_024_000_000,
        })
    );
    assert_eq!(
        third.record,
        Some(StoredNetworkRequest {
            id: "r1".to_string(),
            session_id: "s1".to_string(),
            url: "https://a/x".to_string(),
            method: Some("GET".to_string()),
            status_code: Some(200),
            request_time: 0,
            response_time: Some(200),
            duration_ms: Some(200_000_000),
            size_bytes: Some(1_024_000_000),
            headers: None,
        })
    );
    assert!(engine.get_pending_requests().is_empty());
}

#[test]
fn sent_then_finished_leaves_no_entry_and_one_completion() {
    let mut engine = collecting_engine("s");
    let mut completions = 0;
    let events = vec![
        sent("a", "https://h/1", "POST", 1_500_000),
        sent("b", "https://h/2", "GET", 1_600_000),
        responded("b", 404, 1_700_000),
        finished("a", 10_000_000, 4_000_000),
    ];
    let mut last = None;
    for event in events {
        let out = process(&mut engine, event);
        if let Some(MetricsEvent::NetworkComplete { ref request_id, .. }) = out.event {
            if request_id == "a" {
                completions += 1;
            }
        }
        last = out.event;
    }
    assert_eq!(completions, 1);
    assert_eq!(
        last,
        Some(MetricsEvent::NetworkComplete {
            request_id: "a".to_string(),
            url: "https://h/1".to_string(),
            method: "POST".to_string(),
            status: None,
            duration_ms: 2_500_000_000,
            size_bytes: 10_000_000,
        })
    );
    let pending = engine.get_pending_requests();
    assert_eq!(pending.len(), 1);
    assert_eq!(
        pending[0],
        TrackedRequest {
            request_id: "b".to_string(),
            url: "https://h/2".to_string(),
            method: "GET".to_string(),
            request_timestamp: 1_600_000,
            response_timestamp: Some(1_700_000),
            status: Some(404),
            encoded_data_length: None,
            finished_timestamp: None,
        }
    );
}

#[test]
fn response_for_unknown_request_has_no_duration() {
    let mut engine = collecting_engine("s");
    let out = process(&mut engine, responded("ghost", 204, 7_000_000));
    assert_eq!(out.record, None);
    assert_eq!(
        out.event,
        Some(MetricsEvent::NetworkResponse {
            request_id: "ghost".to_string(),
            status: 204,
            timestamp: 7_000_000,
            duration_ms: None,
        })
    );
    assert!(engine.get_pending_requests().is_empty());
}

#[test]
fn finished_for_unknown_request_does_nothing() {
    let mut engine = collecting_engine("s");
    process(&mut engine, sent("kept", "u", "GET", 5));
    let before = engine.get_pending_requests();
    let out = process(&mut engine, finished("ghost", 1, 9));
    assert_eq!(out, Processed { record: None, event: None });
    assert_eq!(engine.get_pending_requests(), before);
}

#[test]
fn connection_events_are_ignored_by_the_table() {
    let mut engine = collecting_engine("s");
    assert_eq!(
        process(&mut engine, CdpEvent::Connected),
        Processed { record: None, event: None }
    );
    assert_eq!(
        process(&mut engine, CdpEvent::Disconnected),
        Processed { record: None, event: None }
    );
}

#[test]
fn a_second_request_with_the_same_id_replaces_the_first() {
    let mut engine = collecting_engine("s");
    process(&mut engine, sent("r", "first", "GET", 1_000_000));
    process(&mut engine, responded("r", 301, 1_100_000));
    process(&mut engine, sent("r", "second", "GET", 2_000_000));
    let pending = engine.get_pending_requests();
    assert_eq!(pending.len(), 1);
    assert_eq!(pending[0].url, "second");
    assert_eq!(pending[0].status, None);
    let out = process(&mut engine, finished("r", 0, 2_000_001));
    match out.event {
        Some(MetricsEvent::NetworkComplete { duration_ms, url, .. }) => {
            assert_eq!(duration_ms, 1_000);
            assert_eq!(url, "second");
        }
        other => panic!("unexpected {:?}", other),
    }
}

#[test]
fn finished_before_sent_gives_a_negative_duration() {
    let mut engine = collecting_engine("s");
    process(&mut engine, sent("r", "u", "GET", 3_000_000));
    let out = process(&mut engine, finished("r", 0, 1_000_000));
    match out.event {
        Some(MetricsEvent::NetworkComplete { duration_ms, .. }) => {
            assert_eq!(duration_ms, -2_000_000_000)
        }
        other => panic!("unexpected {:?}", other),
    }
}

#[test]
fn a_request_that_never_finishes_stays_pending() {
    let mut engine = collecting_engine("s");
    process(&mut engine, sent("stuck", "u", "GET", 1));
    process(&mut engine, responded("stuck", 200, 2));
    for n in 0..50 {
        let id = format!("r{}", n);
        process(&mut engine, sent(&id, "u", "GET", 10 + n));
        process(&mut engine, finished(&id, 0, 20 + n));
    }
    let pending = engine.get_pending_requests();
    assert_eq!(pending.len(), 1);
    assert_eq!(pending[0].request_id, "stuck");
    engine.stop();
    assert_eq!(engine.get_pending_requests().len(), 1);
}

#[test]
fn a_response_after_the_finish_finds_no_entry() {
    let mut engine = collecting_engine("s");
    process(&mut engine, sent("r", "u", "GET", 1_000_000));
    let done = process(&mut engine, finished("r", 5_000_000, 1_250_000));
    match done.event {
        Some(MetricsEvent::NetworkComplete { status, duration_ms, .. }) => {
            assert_eq!(status, None);
            assert_eq!(duration_ms, 250_000_000);
        }
        other => panic!("unexpected {:?}", other),
    }
    let late = process(&mut engine, responded("r", 200, 1_100_000));
    assert_eq!(
        late.event,
        Some(MetricsEvent::NetworkResponse {
            request_id: "r".to_string(),
            status: 200,
            timestamp: 1_100_000,
            duration_ms: None,
        })
    );
    assert!(engine.get_pending_requests().is_empty());
}

#[test]
fn durations_never_overflow() {
    assert_eq!(
        elapsed_between(i64::MIN, i64::MAX),
        (i64::MAX as i128 - i64::MIN as i128) * 1000
    );
    assert_eq!(elapsed_between(0, 200_000), 200_000_000);
    assert_eq!(elapsed_between(200_000, 0), -200_000_000);
}

#[test]
fn whole_millis_round_toward_zero() {
    assert_eq!(to_whole_millis(1_999), 1);
    assert_eq!(to_whole_millis(-1_999), -1);
    assert_eq!(to_whole_millis(999), 0);
    assert_eq!(to_whole_millis(-999), 0);
    assert_eq!(to_whole_millis(123_456_789), 123_456);
}

fn process(engine: &mut MetricsCollector, event: CdpEvent) -> Processed {
    assert!(engine.begin_receive());
    let turn = engine.on_received(Received::Event(event));
    assert!(turn.keep_running);
    turn.output
}

fn collecting_engine(session: &str) -> MetricsCollector {
    let client = connected_client();
    let mut engine = MetricsCollector::new(session.to_string());
    assert_eq!(
        engine.start(&client, StartEvent::DomainsEnabled, 250),
        StartAction::Run { poll_interval_ms: 250 }
    );
    engine
}

#[test]
fn stop_switches_collection_off_for_good() {
    let mut engine = MetricsCollector::new("s".to_string());
    assert!(!engine.is_collecting());
    assert!(!engine.begin_receive());
    assert!(!engine.begin_poll());

    let mut engine = collecting_engine("s");
    assert!(engine.is_collecting());
    assert!(engine.begin_receive());
    let turn = engine.on_received(Received::Event(sent("r", "u", "GET", 1)));
    assert!(turn.keep_running);
    assert!(turn.output.event.is_some());

    engine.stop();
    assert!(!engine.is_collecting());
    assert_eq!(engine.get_pending_requests().len(), 1);

    let nothing = LoopTurn { keep_running: false, output: Processed { record: None, event: None } };
    assert!(!engine.begin_receive());
    assert_eq!(engine.on_received(Received::Event(sent("q", "u", "GET", 2))), nothing);
    assert_eq!(engine.on_received(Received::Event(finished("r", 1, 3))), nothing);
    assert_eq!(engine.on_received(Received::Lagged(3)), nothing);
    assert!(!engine.begin_poll());
    assert_eq!(engine.on_poll(Ok(PerformanceMetrics::empty(9))), None);
    assert!(!engine.is_collecting());
    assert_eq!(engine.get_pending_requests().len(), 1);
}

#[test]
fn the_turn_under_way_at_a_stop_is_the_last() {
    let mut engine = collecting_engine("s");
    assert!(engine.begin_receive());
    assert!(engine.begin_poll());
    engine.stop();

    let turn = engine.on_received(Received::Event(sent("r", "u", "GET", 1)));
    assert!(turn.keep_running);
    assert!(turn.output.event.is_some());
    assert!(turn.output.record.is_some());
    assert_eq!(
        engine.on_poll(Ok(PerformanceMetrics::empty(5))),
        Some(MetricsEvent::Performance(PerformanceMetrics::empty(5)))
    );

    assert!(!engine.begin_receive());
    assert!(!engine.begin_poll());
    let nothing = LoopTurn { keep_running: false, output: Processed { record: None, event: None } };
    assert_eq!(engine.on_received(Received::Event(sent("q", "u", "GET", 2))), nothing);
    assert_eq!(engine.on_poll(Ok(PerformanceMetrics::empty(6))), None);
    assert_eq!(engine.get_pending_requests().len(), 1);
}

#[test]
fn a_turn_is_handed_in_once() {
    let mut engine = collecting_engine("s");
    assert!(engine.begin_receive());
    assert!(engine.on_received(Received::Lagged(1)).keep_running);
    let nothing = LoopTurn { keep_running: false, output: Processed { record: None, event: None } };
    assert_eq!(engine.on_received(Received::Event(sent("q", "u", "GET", 2))), nothing);
    assert!(engine.get_pending_requests().is_empty());
}

#[test]
fn collection_starts_only_on_a_connected_client() {
    let client: CdpClient<u8, u8> = CdpClient::new();
    let mut engine = MetricsCollector::new("s".to_string());
    assert_eq!(
        engine.start(&client, StartEvent::DomainsEnabled, 250),
        StartAction::Failed(CdpError::NotConnected)
    );
    assert!(!engine.is_collecting());
    assert!(!engine.begin_poll());
}

#[test]
fn start_asks_for_both_domains_in_order() {
    let client = connected_client();
    let mut engine = MetricsCollector::new("s".to_string());
    assert_eq!(
        engine.start(&client, StartEvent::Requested, 1000),
        StartAction::EnableDomains(vec![
            PageCommand::EnablePerformance,
            PageCommand::EnableNetwork,
            PageCommand::ListenRequestWillBeSent,
            PageCommand::ListenResponseReceived,
            PageCommand::ListenLoadingFinished,
        ])
    );
    assert!(!engine.is_collecting());
}

#[test]
fn start_fails_without_a_connection() {
    let client: CdpClient<u8, u8> = CdpClient::new();
    let mut engine = MetricsCollector::new("s".to_string());
    assert_eq!(
        engine.start(&client, StartEvent::Requested, 1000),
        StartAction::Failed(CdpError::NotConnected)
    );
    assert!(!engine.is_collecting());
}

#[test]
fn start_passes_a_failed_command_on() {
    let client = connected_client();
    let mut engine = MetricsCollector::new("s".to_string());
    let error = CdpError::BrowserError("boom".to_string());
    assert_eq!(
        engine.start(&client, StartEvent::EnableFailed(error.clone()), 1000),
        StartAction::Failed(error)
    );
    assert!(!engine.is_collecting());
}

#[test]
fn poll_publishes_each_snapshot_and_swallows_failures() {
    let mut engine = collecting_engine("s");
    let mut published = Vec::new();
    let fetches = vec![
        Ok(PerformanceMetrics::empty(1_000)),
        Err(CdpError::BrowserError("flaky".to_string())),
        Ok(PerformanceMetrics::empty(2_000)),
        Ok(PerformanceMetrics::empty(3_000)),
    ];
    for fetched in fetches {
        assert!(engine.begin_poll());
        if let Some(event) = engine.on_poll(fetched) {
            published.push(event);
        }
    }
    assert_eq!(published.len(), 3);
    let mut previous = i64::MIN;
    for event in &published {
        match event {
            MetricsEvent::Performance(metrics) => {
                assert!(metrics.timestamp >= previous);
                previous = metrics.timestamp;
            }
            other => panic!("unexpected {:?}", other),
        }
        assert_eq!(event.notification_name(), "metrics:performance");
    }
}

#[test]
fn a_snapshot_is_stored_under_the_session() {
    let engine = MetricsCollector::new("s9".to_string());
    let metrics = PerformanceMetrics::empty(77);
    assert_eq!(
        engine.sample_record(&metrics, Ok("{}".to_string())),
        Some(StoredMetric {
            id: None,
            session_id: "s9".to_string(),
            timestamp: 77,
            metric_type: MetricType::Performance,
            data: "{}".to_string(),
        })
    );
    let broken: Result<String, serde_json::Error> = serde_json::from_str::<String>("oops");
    assert_eq!(engine.sample_record(&metrics, broken), None);
}

#[test]
fn network_events_go_to_the_network_channel() {
    let event = MetricsEvent::NetworkRequest {
        request_id: "r".to_string(),
        url: "u".to_string(),
        method: "GET".to_string(),
        timestamp: 0,
    };
    assert_eq!(event.notification_name(), "metrics:network");
}

#[test]
fn the_loop_turn_follows_what_was_received() {
    let mut engine = collecting_engine("s");
    assert!(engine.begin_receive());
    let turn = engine.on_received(Received::Event(sent("r", "u", "GET", 1)));
    assert!(turn.keep_running);
    assert!(turn.output.event.is_some());
    assert!(engine.begin_receive());
    assert_eq!(
        engine.on_received(Received::Lagged(12)),
        LoopTurn { keep_running: true, output: Processed { record: None, event: None } }
    );
    assert!(engine.begin_receive());
    assert_eq!(
        engine.on_received(Received::Closed),
        LoopTurn { keep_running: false, output: Processed { record: None, event: None } }
    );
    assert_eq!(engine.get_pending_requests().len(), 1);
}

#[test]
fn the_engine_keeps_its_session() {
    let engine = MetricsCollector::new("session-7".to_string());
    assert_eq!(engine.session_id(), "session-7");
}

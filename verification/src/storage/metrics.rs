//! Stored metric samples and network request records.

use crate::cdp::types::PerformanceMetrics;
use crate::host::now_millis;
use crate::text::opt_view;
use std::collections::HashMap;
use vstd::prelude::*;

verus! {

/// The kind of a stored metric sample.
#[derive(Debug, Clone, Copy, PartialEq, Eq, Structural)]
pub enum MetricType {
    Performance,
    Memory,
    Network,
    WebVitals,
}

impl MetricType {
    /// The lower-case name under which the kind is stored.
    pub open spec fn name(self) -> Seq<char> {
        match self {
            MetricType::Performance => "performance"@,
            MetricType::Memory => "memory"@,
            MetricType::Network => "network"@,
            MetricType::WebVitals => "webvitals"@,
        }
    }

    /// The kind that a stored name stands for; an unknown name reads as
    /// `Performance`.
    pub open spec fn of_name(s: Seq<char>) -> MetricType {
        if s == "memory"@ {
            MetricType::Memory
        } else if s == "network"@ {
            MetricType::Network
        } else if s == "webvitals"@ {
            MetricType::WebVitals
        } else {
            MetricType::Performance
        }
    }

    pub fn as_str(&self) -> (r: &'static str)
        ensures
            r@ == self.name(),
    {
        match self {
            MetricType::Performance => "performance",
            MetricType::Memory => "memory",
            MetricType::Network => "network",
            MetricType::WebVitals => "webvitals",
        }
    }

    pub fn from_str(s: &str) -> (r: MetricType)
        ensures
            r == MetricType::of_name(s@),
    {
        if s.eq("memory") {
            MetricType::Memory
        } else if s.eq("network") {
            MetricType::Network
        } else if s.eq("webvitals") {
            MetricType::WebVitals
        } else {
            MetricType::Performance
        }
    }

    /// Every kind is read back from its own name.
    pub proof fn lemma_name_round_trip(kind: MetricType)
        ensures
            MetricType::of_name(kind.name()) == kind,
    {
        reveal_strlit("performance");
        reveal_strlit("memory");
        reveal_strlit("network");
        reveal_strlit("webvitals");
        assert("performance"@.len() == 11);
        assert("memory"@.len() == 6);
        assert("network"@.len() == 7);
        assert("webvitals"@.len() == 9);
        assert("network"@[0] == 'n');
        assert("memory"@[0] == 'm');
    }
}

/// One stored metric sample: its session, its time in milliseconds since the
/// epoch, its kind and its payload as JSON text.
#[derive(Debug, Clone, PartialEq, Eq)]
pub struct StoredMetric {
    pub id: Option<i64>,
    pub session_id: String,
    pub timestamp: i64,
    pub metric_type: MetricType,
    pub data: String,
}

/// What a [`StoredMetric`] holds, with texts as character sequences.
pub struct StoredMetricView {
    pub id: Option<i64>,
    pub session_id: Seq<char>,
    pub timestamp: i64,
    pub metric_type: MetricType,
    pub data: Seq<char>,
}

impl View for StoredMetric {
    type V = StoredMetricView;

    open spec fn view(&self) -> StoredMetricView {
        StoredMetricView {
            id: self.id,
            session_id: self.session_id@,
            timestamp: self.timestamp,
            metric_type: self.metric_type,
            data: self.data@,
        }
    }
}

impl StoredMetric {
    /// The sample of the given kind and payload taken at `timestamp`, not yet
    /// numbered by the store.
    pub open spec fn sample(
        session_id: Seq<char>,
        timestamp: i64,
        metric_type: MetricType,
        data: Seq<char>,
    ) -> StoredMetricView {
        StoredMetricView { id: None, session_id, timestamp, metric_type, data }
    }

    /// A sample taken now. Whatever time the machine gives, the rest is as
    /// [`StoredMetric::sample`] says.
    pub fn new(session_id: String, metric_type: MetricType, data: String) -> (r: StoredMetric)
        ensures
            r@ == StoredMetric::sample(session_id@, r.timestamp, metric_type, data@),
    {
        StoredMetric { id: None, session_id, timestamp: now_millis(), metric_type, data }
    }

    /// The sample for a performance snapshot, given the snapshot's JSON text
    /// or the error of encoding it. The sample carries the snapshot's own
    /// time.
    pub fn from_performance(
        session_id: &str,
        metrics: &PerformanceMetrics,
        encoded: Result<String, serde_json::Error>,
    ) -> (r: Result<StoredMetric, serde_json::Error>)
        ensures
            match encoded {
                Ok(data) => r matches Ok(stored) && stored@ == StoredMetric::sample(
                    session_id@,
                    metrics.timestamp,
                    MetricType::Performance,
                    data@,
                ),
                Err(error) => r == Err::<StoredMetric, serde_json::Error>(error),
            },
    {
        match encoded {
            Ok(data) => Ok(
                StoredMetric {
                    id: None,
                    session_id: session_id.to_owned(),
                    timestamp: metrics.timestamp,
                    metric_type: MetricType::Performance,
                    data,
                },
            ),
            Err(error) => Err(error),
        }
    }
}

/// One stored network request. Times are whole milliseconds; the duration is
/// in millionths of a millisecond and the size in millionths of a byte.
#[derive(Debug, Clone, PartialEq, Eq)]
pub struct StoredNetworkRequest {
    pub id: String,
    pub session_id: String,
    pub url: String,
    pub method: Option<String>,
    pub status_code: Option<i32>,
    pub request_time: i64,
    pub response_time: Option<i64>,
    pub duration_ms: Option<i128>,
    pub size_bytes: Option<i64>,
    pub headers: Option<HashMap<String, String>>,
}

/// What a [`StoredNetworkRequest`] holds, with texts as character sequences.
pub struct StoredNetworkRequestView {
    pub id: Seq<char>,
    pub session_id: Seq<char>,
    pub url: Seq<char>,
    pub method: Option<Seq<char>>,
    pub status_code: Option<i32>,
    pub request_time: i64,
    pub response_time: Option<i64>,
    pub duration_ms: Option<i128>,
    pub size_bytes: Option<i64>,
    pub headers: Option<HashMap<String, String>>,
}

impl View for StoredNetworkRequest {
    type V = StoredNetworkRequestView;

    open spec fn view(&self) -> StoredNetworkRequestView {
        StoredNetworkRequestView {
            id: self.id@,
            session_id: self.session_id@,
            url: self.url@,
            method: opt_view(self.method),
            status_code: self.status_code,
            request_time: self.request_time,
            response_time: self.response_time,
            duration_ms: self.duration_ms,
            size_bytes: self.size_bytes,
            headers: self.headers,
        }
    }
}

impl StoredNetworkRequest {
    /// The record of a request of which only the start is known.
    pub open spec fn started(
        session_id: Seq<char>,
        request_id: Seq<char>,
        url: Seq<char>,
        method: Seq<char>,
        request_time: i64,
    ) -> StoredNetworkRequestView {
        StoredNetworkRequestView {
            id: request_id,
            session_id,
            url,
            method: Some(method),
            status_code: None,
            request_time,
            response_time: None,
            duration_ms: None,
            size_bytes: None,
            headers: None,
        }
    }

    pub fn new(
        session_id: &str,
        request_id: &str,
        url: String,
        method: String,
        request_time: i64,
    ) -> (r: StoredNetworkRequest)
        ensures
            r@ == StoredNetworkRequest::started(session_id@, request_id@, url@, method@, request_time),
    {
        StoredNetworkRequest {
            id: request_id.to_owned(),
            session_id: session_id.to_owned(),
            url,
            method: Some(method),
            status_code: None,
            request_time,
            response_time: None,
            duration_ms: None,
            size_bytes: None,
            headers: None,
        }
    }
}

} // verus!

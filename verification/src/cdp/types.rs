//! Plain data exchanged with the debugging target.

use super::client::CdpError;
use crate::host::now_millis;
use vstd::prelude::*;

verus! {

/// One inspectable target, as the target directory lists it.
#[derive(Debug, Clone, PartialEq, Eq)]
pub struct CdpTarget {
    pub id: String,
    pub title: String,
    pub url: String,
    pub target_type: String,
    pub web_socket_debugger_url: Option<String>,
    pub devtools_frontend_url: Option<String>,
    pub favicon_url: Option<String>,
}

/// One name/value pair of a "get metrics" reply; the value in millionths.
#[derive(Debug, Clone, PartialEq, Eq)]
pub struct Metric {
    pub name: String,
    pub value: i64,
}

/// A performance snapshot: when it was taken (milliseconds since the epoch)
/// and the counters that the target reported, each in millionths of its unit.
#[derive(Debug, Clone, Copy, PartialEq, Eq)]
pub struct PerformanceMetrics {
    pub timestamp: i64,
    pub js_heap_used_size: Option<i64>,
    pub js_heap_total_size: Option<i64>,
    pub dom_nodes: Option<i64>,
    pub layout_count: Option<i64>,
    pub script_duration: Option<i64>,
    pub task_duration: Option<i64>,
}

/// The names and values of a reply, in the order in which they were reported.
pub open spec fn metric_pairs(metrics: Seq<Metric>) -> Seq<(Seq<char>, i64)> {
    metrics.map_values(|m: Metric| (m.name@, m.value))
}

/// The value that a reply gives to `name`: that of the last pair so named.
pub open spec fn reported(pairs: Seq<(Seq<char>, i64)>, name: Seq<char>) -> Option<i64>
    decreases pairs.len(),
{
    if pairs.len() == 0 {
        None
    } else if pairs.last().0 == name {
        Some(pairs.last().1)
    } else {
        reported(pairs.drop_last(), name)
    }
}

/// The six counter names are pairwise different.
proof fn lemma_counter_names_differ()
    ensures
        "JSHeapUsedSize"@.len() == 14,
        "JSHeapTotalSize"@.len() == 15,
        "Nodes"@.len() == 5,
        "LayoutCount"@.len() == 11,
        "ScriptDuration"@.len() == 14,
        "TaskDuration"@.len() == 12,
        "JSHeapUsedSize"@[0] == 'J',
        "ScriptDuration"@[0] == 'S',
{
    reveal_strlit("JSHeapUsedSize");
    reveal_strlit("JSHeapTotalSize");
    reveal_strlit("Nodes");
    reveal_strlit("LayoutCount");
    reveal_strlit("ScriptDuration");
    reveal_strlit("TaskDuration");
}

impl PerformanceMetrics {
    /// The snapshot that a reply amounts to: each counter is looked up under
    /// its exact protocol name, and every other name is ignored.
    pub open spec fn of_reply(timestamp: i64, pairs: Seq<(Seq<char>, i64)>) -> PerformanceMetrics {
        PerformanceMetrics {
            timestamp,
            js_heap_used_size: reported(pairs, "JSHeapUsedSize"@),
            js_heap_total_size: reported(pairs, "JSHeapTotalSize"@),
            dom_nodes: reported(pairs, "Nodes"@),
            layout_count: reported(pairs, "LayoutCount"@),
            script_duration: reported(pairs, "ScriptDuration"@),
            task_duration: reported(pairs, "TaskDuration"@),
        }
    }

    /// A snapshot with no counter reported.
    pub fn empty(timestamp: i64) -> (r: PerformanceMetrics)
        ensures
            r == PerformanceMetrics::of_reply(timestamp, Seq::empty()),
    {
        PerformanceMetrics {
            timestamp,
            js_heap_used_size: None,
            js_heap_total_size: None,
            dom_nodes: None,
            layout_count: None,
            script_duration: None,
            task_duration: None,
        }
    }

    /// Maps the pairs of a "get metrics" reply onto the snapshot's fields.
    pub fn from_reply(timestamp: i64, metrics: &Vec<Metric>) -> (r: PerformanceMetrics)
        ensures
            r == PerformanceMetrics::of_reply(timestamp, metric_pairs(metrics@)),
    {
        let mut snapshot = PerformanceMetrics::empty(timestamp);
        let ghost pairs = metric_pairs(metrics@);
        let mut i: usize = 0;
        while i < metrics.len()
            invariant
                i <= metrics.len(),
                pairs == metric_pairs(metrics@),
                snapshot == PerformanceMetrics::of_reply(timestamp, pairs.take(i as int)),
            decreases metrics.len() - i,
        {
            let metric = &metrics[i];
            proof {
                let next = pairs.take(i + 1);
                assert(next.last() == (metric.name@, metric.value));
                assert(next.drop_last() == pairs.take(i as int));
                lemma_counter_names_differ();
            }
            let name = metric.name.as_str();
            if name.eq("JSHeapUsedSize") {
                snapshot.js_heap_used_size = Some(metric.value);
            } else if name.eq("JSHeapTotalSize") {
                snapshot.js_heap_total_size = Some(metric.value);
            } else if name.eq("Nodes") {
                snapshot.dom_nodes = Some(metric.value);
            } else if name.eq("LayoutCount") {
                snapshot.layout_count = Some(metric.value);
            } else if name.eq("ScriptDuration") {
                snapshot.script_duration = Some(metric.value);
            } else if name.eq("TaskDuration") {
                snapshot.task_duration = Some(metric.value);
            }
            i += 1;
        }
        assert(pairs.take(metrics.len() as int) == pairs);
        snapshot
    }

    /// Reads the outcome of a "get metrics" command: a snapshot stamped with
    /// the current time, or the error of the command. Whatever time the
    /// machine gives, the counters are as [`PerformanceMetrics::of_reply`]
    /// says.
    pub fn collected(reply: Result<Vec<Metric>, String>) -> (r: Result<PerformanceMetrics, CdpError>)
        ensures
            match reply {
                Ok(metrics) => r matches Ok(snapshot) && snapshot == PerformanceMetrics::of_reply(
                    snapshot.timestamp,
                    metric_pairs(metrics@),
                ),
                Err(reason) => r == Err::<PerformanceMetrics, CdpError>(
                    CdpError::BrowserError(reason),
                ),
            },
    {
        match reply {
            Ok(metrics) => Ok(PerformanceMetrics::from_reply(now_millis(), &metrics)),
            Err(reason) => Err(CdpError::BrowserError(reason)),
        }
    }
}

/// A request as the target announced it; the timestamp in millionths of a
/// second.
#[derive(Debug, Clone, PartialEq, Eq)]
pub struct NetworkRequestInfo {
    pub request_id: String,
    pub url: String,
    pub method: String,
    pub timestamp: i64,
    pub resource_type: Option<String>,
}

/// A response as the target announced it; timestamp and length in millionths.
#[derive(Debug, Clone, PartialEq, Eq)]
pub struct NetworkResponseInfo {
    pub request_id: String,
    pub status: i32,
    pub status_text: String,
    pub timestamp: i64,
    pub encoded_data_length: Option<i64>,
}

/// Where the debugging connection stands.
#[derive(Debug, Clone, PartialEq, Eq)]
pub enum ConnectionState {
    Disconnected,
    Connecting,
    Connected,
    Error(String),
}

/// Everything collected at one instant.
#[derive(Debug, Clone, PartialEq, Eq)]
pub struct MetricsSnapshot {
    pub timestamp: i64,
    pub performance: Option<PerformanceMetrics>,
    pub network_requests: Vec<NetworkRequestInfo>,
    pub network_responses: Vec<NetworkResponseInfo>,
}

} // verus!

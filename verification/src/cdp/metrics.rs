//! The metrics engine: the correlation table that joins the three events of
//! a request's life, and the switch that gates collection.

use super::client::{
    network_plan, performance_plan, CdpClient, CdpError, CdpEvent, PageCommand,
};
use super::correlation::{
    correlate, elapsed_ms, keyed, whole_millis, EngineView, ReceivedView, Table,
};
use super::types::PerformanceMetrics;
use crate::storage::metrics::{
    MetricType, StoredMetric, StoredNetworkRequest, StoredNetworkRequestView,
};
use crate::text::trunc_div;
use vstd::prelude::*;

verus! {

/// One request that has been sent and has not finished yet. Timestamps are
/// in millionths of a second.
#[derive(Debug, PartialEq, Eq)]
pub struct TrackedRequest {
    pub request_id: String,
    pub url: String,
    pub method: String,
    pub request_timestamp: i64,
    pub response_timestamp: Option<i64>,
    pub status: Option<i32>,
    pub encoded_data_length: Option<i64>,
    pub finished_timestamp: Option<i64>,
}

/// What a [`TrackedRequest`] holds, with texts as character sequences.
pub struct TrackedRequestView {
    pub request_id: Seq<char>,
    pub url: Seq<char>,
    pub method: Seq<char>,
    pub request_timestamp: i64,
    pub response_timestamp: Option<i64>,
    pub status: Option<i32>,
    pub encoded_data_length: Option<i64>,
    pub finished_timestamp: Option<i64>,
}

impl View for TrackedRequest {
    type V = TrackedRequestView;

    open spec fn view(&self) -> TrackedRequestView {
        TrackedRequestView {
            request_id: self.request_id@,
            url: self.url@,
            method: self.method@,
            request_timestamp: self.request_timestamp,
            response_timestamp: self.response_timestamp,
            status: self.status,
            encoded_data_length: self.encoded_data_length,
            finished_timestamp: self.finished_timestamp,
        }
    }
}

impl Clone for TrackedRequest {
    fn clone(&self) -> (r: Self)
        ensures
            r == *self,
    {
        TrackedRequest {
            request_id: self.request_id.clone(),
            url: self.url.clone(),
            method: self.method.clone(),
            request_timestamp: self.request_timestamp,
            response_timestamp: self.response_timestamp,
            status: self.status,
            encoded_data_length: self.encoded_data_length,
            finished_timestamp: self.finished_timestamp,
        }
    }
}

/// A telemetry event. Timestamps are in millionths of a second, durations in
/// millionths of a millisecond, sizes in millionths of a byte.
#[allow(inconsistent_fields)]
#[derive(Debug, Clone, PartialEq, Eq)]
pub enum MetricsEvent {
    Performance(PerformanceMetrics),
    NetworkRequest { request_id: String, url: String, method: String, timestamp: i64 },
    NetworkResponse { request_id: String, status: i32, timestamp: i64, duration_ms: Option<i128> },
    NetworkComplete {
        request_id: String,
        url: String,
        method: String,
        status: Option<i32>,
        duration_ms: i128,
        size_bytes: i64,
    },
}

/// What a [`MetricsEvent`] holds, with texts as character sequences.
#[allow(inconsistent_fields)]
pub enum MetricsEventView {
    Performance(PerformanceMetrics),
    NetworkRequest { request_id: Seq<char>, url: Seq<char>, method: Seq<char>, timestamp: i64 },
    NetworkResponse {
        request_id: Seq<char>,
        status: i32,
        timestamp: i64,
        duration_ms: Option<i128>,
    },
    NetworkComplete {
        request_id: Seq<char>,
        url: Seq<char>,
        method: Seq<char>,
        status: Option<i32>,
        duration_ms: i128,
        size_bytes: i64,
    },
}

impl View for MetricsEvent {
    type V = MetricsEventView;

    open spec fn view(&self) -> MetricsEventView {
        match *self {
            MetricsEvent::Performance(metrics) => MetricsEventView::Performance(metrics),
            MetricsEvent::NetworkRequest { request_id, url, method, timestamp } => {
                MetricsEventView::NetworkRequest {
                    request_id: request_id@,
                    url: url@,
                    method: method@,
                    timestamp,
                }
            },
            MetricsEvent::NetworkResponse { request_id, status, timestamp, duration_ms } => {
                MetricsEventView::NetworkResponse {
                    request_id: request_id@,
                    status,
                    timestamp,
                    duration_ms,
                }
            },
            MetricsEvent::NetworkComplete {
                request_id,
                url,
                method,
                status,
                duration_ms,
                size_bytes,
            } => MetricsEventView::NetworkComplete {
                request_id: request_id@,
                url: url@,
                method: method@,
                status,
                duration_ms,
                size_bytes,
            },
        }
    }
}

impl MetricsEvent {
    /// The name under which the event is forwarded to a notification sink.
    pub open spec fn channel(self) -> Seq<char> {
        match self {
            MetricsEvent::Performance(_) => "metrics:performance"@,
            _ => "metrics:network"@,
        }
    }

    pub fn notification_name(&self) -> (r: &'static str)
        ensures
            r@ == self.channel(),
    {
        match self {
            MetricsEvent::Performance(_) => "metrics:performance",
            _ => "metrics:network",
        }
    }
}

/// Computes [`elapsed_ms`].
pub fn elapsed_between(from: i64, to: i64) -> (r: i128)
    ensures
        r == elapsed_ms(from, to),
        r == (to - from) * 1000,
{
    let span: i128 = to as i128 - from as i128;
    span * 1000
}

/// Computes [`whole_millis`].
pub fn to_whole_millis(timestamp: i64) -> (r: i64)
    ensures
        r == whole_millis(timestamp),
        r == trunc_div(timestamp as int, 1000),
{
    timestamp / 1000
}

/// What the driver has to do after one protocol event: store the record and
/// publish the event, where there is one.
#[derive(Debug, Clone, PartialEq, Eq)]
pub struct Processed {
    pub record: Option<StoredNetworkRequest>,
    pub event: Option<MetricsEvent>,
}

impl Processed {
    /// The record to store, with texts as character sequences.
    pub open spec fn record_view(self) -> Option<StoredNetworkRequestView> {
        match self.record {
            Some(record) => Some(record@),
            None => None,
        }
    }

    /// The event to publish, with texts as character sequences.
    pub open spec fn event_view(self) -> Option<MetricsEventView> {
        match self.event {
            Some(event) => Some(event@),
            None => None,
        }
    }
}

/// No two entries have the same request id.
pub open spec fn ids_distinct(entries: Seq<TrackedRequest>) -> bool {
    forall|i: int, j: int|
        0 <= i < j < entries.len() ==> entries[i].request_id@ != entries[j].request_id@
}

/// Some entry has this request id.
pub open spec fn has_id(entries: Seq<TrackedRequest>, id: Seq<char>) -> bool {
    exists|i: int| 0 <= i < entries.len() && #[trigger] entries[i].request_id@ == id
}

/// The mapping that a list of entries stands for.
pub open spec fn table_of(entries: Seq<TrackedRequest>) -> Table {
    Map::new(
        |id: Seq<char>| has_id(entries, id),
        |id: Seq<char>|
            entries[choose|i: int| 0 <= i < entries.len() && #[trigger] entries[i].request_id@ == id]@,
    )
}

/// In a list without repeated ids, each entry is what the mapping gives for
/// its id.
pub proof fn lemma_table_entry(entries: Seq<TrackedRequest>, i: int)
    requires
        ids_distinct(entries),
        0 <= i < entries.len(),
    ensures
        table_of(entries).contains_key(entries[i].request_id@),
        table_of(entries)[entries[i].request_id@] == entries[i]@,
{
    let id = entries[i].request_id@;
    let j = choose|j: int| 0 <= j < entries.len() && #[trigger] entries[j].request_id@ == id;
    assert(i == j);
}

/// Appending an entry with a new id adds it to the mapping.
proof fn lemma_table_push(entries: Seq<TrackedRequest>, entry: TrackedRequest)
    requires
        ids_distinct(entries),
        !has_id(entries, entry.request_id@),
    ensures
        ids_distinct(entries.push(entry)),
        table_of(entries.push(entry)) == table_of(entries).insert(entry.request_id@, entry@),
{
    let after = entries.push(entry);
    assert(ids_distinct(after)) by {
        assert forall|i: int, j: int| 0 <= i < j < after.len() implies after[i].request_id@
            != after[j].request_id@ by {
            if j == entries.len() {
                assert(entries[i].request_id@ != entry.request_id@);
            }
        }
    }
    let expected = table_of(entries).insert(entry.request_id@, entry@);
    assert forall|id: Seq<char>| table_of(after).contains_key(id) == expected.contains_key(id) by {
        if has_id(after, id) {
            let k = choose|k: int| 0 <= k < after.len() && #[trigger] after[k].request_id@ == id;
            if k < entries.len() {
                assert(entries[k].request_id@ == id);
            }
        }
        if has_id(entries, id) {
            let k = choose|k: int| 0 <= k < entries.len() && #[trigger] entries[k].request_id@
                == id;
            assert(after[k].request_id@ == id);
        }
        if id == entry.request_id@ {
            assert(after[entries.len() as int].request_id@ == id);
        }
    }
    assert forall|id: Seq<char>| table_of(after).contains_key(id) implies table_of(after)[id]
        == expected[id] by {
        let k = choose|k: int| 0 <= k < after.len() && #[trigger] after[k].request_id@ == id;
        lemma_table_entry(after, k);
        if k < entries.len() {
            lemma_table_entry(entries, k);
        }
    }
    assert(table_of(after) =~= expected);
}

/// Replacing an entry by one with the same id replaces it in the mapping.
proof fn lemma_table_update(entries: Seq<TrackedRequest>, i: int, entry: TrackedRequest)
    requires
        ids_distinct(entries),
        0 <= i < entries.len(),
        entries[i].request_id@ == entry.request_id@,
    ensures
        ids_distinct(entries.update(i, entry)),
        table_of(entries.update(i, entry)) == table_of(entries).insert(entry.request_id@, entry@),
{
    let after = entries.update(i, entry);
    assert(ids_distinct(after)) by {
        assert forall|a: int, b: int| 0 <= a < b < after.len() implies after[a].request_id@
            != after[b].request_id@ by {
            assert(after[a].request_id@ == entries[a].request_id@);
            assert(after[b].request_id@ == entries[b].request_id@);
        }
    }
    let expected = table_of(entries).insert(entry.request_id@, entry@);
    assert forall|id: Seq<char>| table_of(after).contains_key(id) == expected.contains_key(id) by {
        if has_id(after, id) {
            let k = choose|k: int| 0 <= k < after.len() && #[trigger] after[k].request_id@ == id;
            assert(entries[k].request_id@ == id);
        }
        if has_id(entries, id) {
            let k = choose|k: int| 0 <= k < entries.len() && #[trigger] entries[k].request_id@
                == id;
            assert(after[k].request_id@ == id);
        }
        if id == entry.request_id@ {
            assert(after[i].request_id@ == id);
        }
    }
    assert forall|id: Seq<char>| table_of(after).contains_key(id) implies table_of(after)[id]
        == expected[id] by {
        let k = choose|k: int| 0 <= k < after.len() && #[trigger] after[k].request_id@ == id;
        lemma_table_entry(after, k);
        if k != i {
            assert(entries[k].request_id@ == id);
            lemma_table_entry(entries, k);
        }
    }
    assert(table_of(after) =~= expected);
}

/// Taking an entry out takes its id out of the mapping.
proof fn lemma_table_remove(entries: Seq<TrackedRequest>, i: int)
    requires
        ids_distinct(entries),
        0 <= i < entries.len(),
    ensures
        ids_distinct(entries.remove(i)),
        table_of(entries.remove(i)) == table_of(entries).remove(entries[i].request_id@),
{
    let after = entries.remove(i);
    let gone = entries[i].request_id@;
    assert forall|k: int| 0 <= k < after.len() implies #[trigger] after[k] == entries[if k < i {
        k
    } else {
        k + 1
    }] by {}
    assert(ids_distinct(after)) by {
        assert forall|a: int, b: int| 0 <= a < b < after.len() implies after[a].request_id@
            != after[b].request_id@ by {
            let a0 = if a < i { a } else { a + 1 };
            let b0 = if b < i { b } else { b + 1 };
            assert(after[a] == entries[a0]);
            assert(after[b] == entries[b0]);
        }
    }
    let expected = table_of(entries).remove(gone);
    assert forall|id: Seq<char>| table_of(after).contains_key(id) == expected.contains_key(id) by {
        if has_id(after, id) {
            let k = choose|k: int| 0 <= k < after.len() && #[trigger] after[k].request_id@ == id;
            let k0 = if k < i { k } else { k + 1 };
            assert(after[k] == entries[k0]);
            assert(entries[k0].request_id@ == id);
        }
        if has_id(entries, id) && id != gone {
            let k = choose|k: int| 0 <= k < entries.len() && #[trigger] entries[k].request_id@
                == id;
            let k1 = if k < i { k } else { k - 1 };
            assert(after[k1] == entries[k]);
            assert(after[k1].request_id@ == id);
        }
    }
    assert forall|id: Seq<char>| table_of(after).contains_key(id) implies table_of(after)[id]
        == expected[id] by {
        let k = choose|k: int| 0 <= k < after.len() && #[trigger] after[k].request_id@ == id;
        let k0 = if k < i { k } else { k + 1 };
        assert(after[k] == entries[k0]);
        lemma_table_entry(after, k);
        lemma_table_entry(entries, k0);
    }
    assert(table_of(after) =~= expected);
}

/// The mapping of a list without repeated ids files every entry under its
/// own id.
pub proof fn lemma_table_of_keyed(entries: Seq<TrackedRequest>)
    requires
        ids_distinct(entries),
    ensures
        keyed(table_of(entries)),
{
    assert forall|id: Seq<char>| table_of(entries).contains_key(id) implies (
    #[trigger] table_of(entries)[id]).request_id == id by {
        let k = choose|k: int| 0 <= k < entries.len() && #[trigger] entries[k].request_id@ == id;
        lemma_table_entry(entries, k);
    }
}

/// What the correlation loop took from its upstream channel.
#[derive(Debug, Clone, PartialEq, Eq)]
pub enum Received {
    /// An event arrived.
    Event(CdpEvent),
    /// The loop fell behind and so many events were skipped.
    Lagged(u64),
    /// The channel is closed.
    Closed,
}

impl View for Received {
    type V = ReceivedView;

    open spec fn view(&self) -> ReceivedView {
        match *self {
            Received::Event(event) => ReceivedView::Event(event@),
            Received::Lagged(skipped) => ReceivedView::Lagged(skipped),
            Received::Closed => ReceivedView::Closed,
        }
    }
}

/// The snapshot of a fetch that succeeded.
pub open spec fn fetched_snapshot(fetched: Result<PerformanceMetrics, CdpError>) -> Option<
    PerformanceMetrics,
> {
    match fetched {
        Ok(metrics) => Some(metrics),
        Err(_) => None,
    }
}

/// What the correlation loop does after one receive.
#[derive(Debug, Clone, PartialEq, Eq)]
pub struct LoopTurn {
    /// Whether the loop goes on to its next iteration.
    pub keep_running: bool,
    /// What to store and publish before that.
    pub output: Processed,
}

/// What the driver reports while collection is being started.
#[derive(Debug, Clone, PartialEq, Eq)]
pub enum StartEvent {
    /// A caller asked for collection to start.
    Requested,
    /// Every command of the plan ran.
    DomainsEnabled,
    /// A command of the plan failed; the rest was not run.
    EnableFailed(CdpError),
}

/// What the driver has to do next while collection is being started.
#[derive(Debug, Clone, PartialEq, Eq)]
pub enum StartAction {
    /// Run these commands on the page, in order, until one fails.
    EnableDomains(Vec<PageCommand>),
    /// Start the poll loop with this interval, and the correlation loop.
    Run { poll_interval_ms: u64 },
    /// Report the error.
    Failed(CdpError),
}

/// The plan that starts collection: the performance domain first, then the
/// network domain.
pub open spec fn start_plan() -> Seq<PageCommand> {
    performance_plan() + network_plan()
}

/// The metrics engine of one recording session.
pub struct MetricsCollector {
    session_id: String,
    requests: Vec<TrackedRequest>,
    collecting: bool,
    polling: bool,
    receiving: bool,
}

impl View for MetricsCollector {
    type V = EngineView;

    closed spec fn view(&self) -> EngineView {
        EngineView {
            session_id: self.session_id@,
            table: table_of(self.requests@),
            collecting: self.collecting,
            polling: self.polling,
            receiving: self.receiving,
        }
    }
}

impl MetricsCollector {
    /// At most one entry is pending for a request id.
    pub closed spec fn wf(self) -> bool {
        ids_distinct(self.requests@)
    }

    /// In a valid engine every entry is filed under its own request id.
    pub proof fn lemma_table_keyed(self)
        requires
            self.wf(),
        ensures
            keyed(self@.table),
    {
        lemma_table_of_keyed(self.requests@);
    }

    pub fn new(session_id: String) -> (r: Self)
        ensures
            r.wf(),
            r@ == EngineView::idle(session_id@),
    {
        let r = MetricsCollector {
            session_id,
            requests: Vec::new(),
            collecting: false,
            polling: false,
            receiving: false,
        };
        assert(r@.table =~= Map::<Seq<char>, TrackedRequestView>::empty());
        r
    }

    /// The session id given at construction.
    pub fn session_id(&self) -> (r: &str)
        ensures
            r@ == self@.session_id,
    {
        self.session_id.as_str()
    }

    /// Whether collection is switched on.
    pub fn is_collecting(&self) -> (r: bool)
        ensures
            r == self@.collecting,
    {
        self.collecting
    }

    /// One step of starting collection. Collection is switched on only once
    /// both domains are enabled on a manager that is connected; a manager
    /// that is not connected, or a failed command, leaves everything as it
    /// was.
    pub fn start<B, P>(
        &mut self,
        client: &CdpClient<B, P>,
        event: StartEvent,
        poll_interval_ms: u64,
    ) -> (action: StartAction)
        ensures
            final(self).wf() == old(self).wf(),
            match event {
                StartEvent::Requested => {
                    &&& final(self)@ == old(self)@
                    &&& if client.state() is Connected {
                        &&& action matches StartAction::EnableDomains(plan)
                        &&& plan@ == start_plan()
                    } else {
                        action == StartAction::Failed(CdpError::NotConnected)
                    }
                },
                StartEvent::DomainsEnabled => if client.state() is Connected {
                    &&& final(self)@ == old(self)@.started()
                    &&& action == StartAction::Run { poll_interval_ms }
                } else {
                    &&& final(self)@ == old(self)@
                    &&& action == StartAction::Failed(CdpError::NotConnected)
                },
                StartEvent::EnableFailed(error) => {
                    &&& final(self)@ == old(self)@
                    &&& action == StartAction::Failed(error)
                },
            },
    {
        match event {
            StartEvent::Requested => {
                let mut plan = match client.enable_performance() {
                    Ok(plan) => plan,
                    Err(error) => {
                        return StartAction::Failed(error);
                    },
                };
                let mut network = match client.enable_network() {
                    Ok(plan) => plan,
                    Err(error) => {
                        return StartAction::Failed(error);
                    },
                };
                plan.append(&mut network);
                StartAction::EnableDomains(plan)
            },
            StartEvent::DomainsEnabled => {
                if client.page().is_err() {
                    return StartAction::Failed(CdpError::NotConnected);
                }
                self.collecting = true;
                StartAction::Run { poll_interval_ms }
            },
            StartEvent::EnableFailed(error) => StartAction::Failed(error),
        }
    }

    /// Switches collection off. Nothing else changes: pending requests stay
    /// in the table, and an iteration that is under way stays under way.
    pub fn stop(&mut self)
        ensures
            final(self).wf() == old(self).wf(),
            final(self)@ == old(self)@.stopped(),
    {
        self.collecting = false;
    }

    /// The top of an iteration of the poll loop: whether the iteration is
    /// entered. It is entered exactly if collection is switched on; if not,
    /// the loop ends.
    pub fn begin_poll(&mut self) -> (go: bool)
        ensures
            final(self).wf() == old(self).wf(),
            final(self)@ == old(self)@.poll_begun(),
            go == old(self)@.collecting,
    {
        self.polling = self.collecting;
        self.polling
    }

    /// The rest of an iteration of the poll loop, once the fetch is over:
    /// what to publish. That is the snapshot where the iteration was entered
    /// and the fetch succeeded, and nothing otherwise.
    pub fn on_poll(&mut self, fetched: Result<PerformanceMetrics, CdpError>) -> (r: Option<
        MetricsEvent,
    >)
        ensures
            final(self).wf() == old(self).wf(),
            final(self)@ == old(self)@.polled(),
            r == match fetched {
                Ok(metrics) if old(self)@.polling => Some(MetricsEvent::Performance(metrics)),
                _ => None::<MetricsEvent>,
            },
            match r {
                Some(event) => old(self)@.poll_event(fetched_snapshot(fetched)) == Some(event@),
                None => old(self)@.poll_event(fetched_snapshot(fetched)) is None,
            },
    {
        let entered = self.polling;
        self.polling = false;
        match fetched {
            Ok(metrics) => if entered {
                Some(MetricsEvent::Performance(metrics))
            } else {
                None
            },
            Err(_) => None,
        }
    }

    /// What one tick of the poll loop stores for its snapshot, given the
    /// snapshot's JSON text or the error of encoding it: the sample under the
    /// engine's session, or nothing where the encoding failed.
    pub fn sample_record(
        &self,
        metrics: &PerformanceMetrics,
        encoded: Result<String, serde_json::Error>,
    ) -> (r: Option<StoredMetric>)
        ensures
            match encoded {
                Ok(data) => r matches Some(stored) && stored@ == StoredMetric::sample(
                    self@.session_id,
                    metrics.timestamp,
                    MetricType::Performance,
                    data@,
                ),
                Err(_) => r is None,
            },
    {
        match StoredMetric::from_performance(self.session_id.as_str(), metrics, encoded) {
            Ok(stored) => Some(stored),
            Err(_) => None,
        }
    }

    /// The index of the pending entry for `id`.
    fn position(&self, id: &str) -> (r: Option<usize>)
        ensures
            match r {
                Some(i) => i < self.requests@.len() && self.requests@[i as int].request_id@ == id@,
                None => !has_id(self.requests@, id@),
            },
    {
        let mut i: usize = 0;
        while i < self.requests.len()
            invariant
                i <= self.requests@.len(),
                forall|k: int| 0 <= k < i ==> self.requests@[k].request_id@ != id@,
            decreases self.requests@.len() - i,
        {
            if self.requests[i].request_id.as_str().eq(id) {
                return Some(i);
            }
            i += 1;
        }
        None
    }

    /// Processes one protocol event by the rule [`correlate`].
    fn process_cdp_event(&mut self, event: CdpEvent) -> (out: Processed)
        requires
            old(self).wf(),
        ensures
            final(self).wf(),
            final(self)@ == old(self)@.processed(event@),
            out.record_view() == correlate(old(self)@.table, old(self)@.session_id, event@).record,
            out.event_view() == correlate(old(self)@.table, old(self)@.session_id, event@).event,
    {
        match event {
            CdpEvent::NetworkRequest { request_id, url, method, timestamp } => {
                let entry = TrackedRequest {
                    request_id: request_id.clone(),
                    url: url.clone(),
                    method: method.clone(),
                    request_timestamp: timestamp,
                    response_timestamp: None,
                    status: None,
                    encoded_data_length: None,
                    finished_timestamp: None,
                };
                let found = self.position(request_id.as_str());
                proof {
                    match found {
                        Some(i) => lemma_table_update(self.requests@, i as int, entry),
                        None => lemma_table_push(self.requests@, entry),
                    }
                }
                match found {
                    Some(i) => {
                        self.requests.set(i, entry);
                    },
                    None => {
                        self.requests.push(entry);
                    },
                }
                let record = StoredNetworkRequest::new(
                    self.session_id.as_str(),
                    request_id.as_str(),
                    url.clone(),
                    method.clone(),
                    to_whole_millis(timestamp),
                );
                let published = MetricsEvent::NetworkRequest { request_id, url, method, timestamp };
                Processed { record: Some(record), event: Some(published) }
            },
            CdpEvent::NetworkResponse { request_id, status, timestamp } => {
                let duration_ms = match self.position(request_id.as_str()) {
                    Some(i) => {
                        let pending = &self.requests[i];
                        let stamped = TrackedRequest {
                            request_id: pending.request_id.clone(),
                            url: pending.url.clone(),
                            method: pending.method.clone(),
                            request_timestamp: pending.request_timestamp,
                            response_timestamp: Some(timestamp),
                            status: Some(status),
                            encoded_data_length: pending.encoded_data_length,
                            finished_timestamp: pending.finished_timestamp,
                        };
                        let duration_ms = elapsed_between(pending.request_timestamp, timestamp);
                        proof {
                            lemma_table_entry(self.requests@, i as int);
                            lemma_table_update(self.requests@, i as int, stamped);
                        }
                        self.requests.set(i, stamped);
                        Some(duration_ms)
                    },
                    None => None,
                };
                let published = MetricsEvent::NetworkResponse {
                    request_id,
                    status,
                    timestamp,
                    duration_ms,
                };
                Processed { record: None, event: Some(published) }
            },
            CdpEvent::NetworkFinished { request_id, encoded_data_length, timestamp } => {
                match self.position(request_id.as_str()) {
                    Some(i) => {
                        proof {
                            lemma_table_entry(self.requests@, i as int);
                            lemma_table_remove(self.requests@, i as int);
                        }
                        let pending = self.requests.remove(i);
                        let duration_ms = elapsed_between(pending.request_timestamp, timestamp);
                        let record = StoredNetworkRequest {
                            id: pending.request_id.clone(),
                            session_id: self.session_id.clone(),
                            url: pending.url.clone(),
                            method: Some(pending.method.clone()),
                            status_code: pending.status,
                            request_time: to_whole_millis(pending.request_timestamp),
                            response_time: Some(to_whole_millis(timestamp)),
                            duration_ms: Some(duration_ms),
                            size_bytes: Some(encoded_data_length),
                            headers: None,
                        };
                        let published = MetricsEvent::NetworkComplete {
                            request_id: pending.request_id,
                            url: pending.url,
                            method: pending.method,
                            status: pending.status,
                            duration_ms,
                            size_bytes: encoded_data_length,
                        };
                        Processed { record: Some(record), event: Some(published) }
                    },
                    None => Processed { record: None, event: None },
                }
            },
            _ => Processed { record: None, event: None },
        }
    }

    /// The top of an iteration of the correlation loop: whether the
    /// iteration is entered. It is entered exactly if collection is switched
    /// on; if not, the loop ends.
    pub fn begin_receive(&mut self) -> (go: bool)
        ensures
            final(self).wf() == old(self).wf(),
            final(self)@ == old(self)@.receive_begun(),
            go == old(self)@.collecting,
    {
        self.receiving = self.collecting;
        self.receiving
    }

    /// The rest of an iteration of the correlation loop, once something was
    /// received. Without an iteration that was entered, nothing is handed
    /// out and the loop ends. Otherwise an event is processed, a lag is
    /// passed over, and a closed channel ends the loop.
    pub fn on_received(&mut self, received: Received) -> (turn: LoopTurn)
        requires
            old(self).wf(),
        ensures
            final(self).wf(),
            final(self)@ == old(self)@.received(received@).engine,
            turn.keep_running == old(self)@.received(received@).keep_running,
            turn.output.record_view() == old(self)@.received(received@).record,
            turn.output.event_view() == old(self)@.received(received@).event,
    {
        if !self.receiving {
            return LoopTurn {
                keep_running: false,
                output: Processed { record: None, event: None },
            };
        }
        self.receiving = false;
        match received {
            Received::Event(event) => {
                let output = self.process_cdp_event(event);
                LoopTurn { keep_running: true, output }
            },
            Received::Lagged(_) => LoopTurn {
                keep_running: true,
                output: Processed { record: None, event: None },
            },
            Received::Closed => LoopTurn {
                keep_running: false,
                output: Processed { record: None, event: None },
            },
        }
    }

    /// A copy of the pending requests: one element for each entry of the
    /// table, and no id twice.
    pub fn get_pending_requests(&self) -> (r: Vec<TrackedRequest>)
        requires
            self.wf(),
        ensures
            ids_distinct(r@),
            table_of(r@) == self@.table,
    {
        let mut copy: Vec<TrackedRequest> = Vec::new();
        let mut i: usize = 0;
        while i < self.requests.len()
            invariant
                i <= self.requests@.len(),
                copy@ == self.requests@.take(i as int),
            decreases self.requests@.len() - i,
        {
            copy.push(self.requests[i].clone());
            assert(self.requests@.take(i + 1) == self.requests@.take(i as int).push(
                self.requests@[i as int],
            ));
            i += 1;
        }
        assert(self.requests@.take(i as int) == self.requests@);
        copy
    }
}

} // verus!

//! The rule by which the three events of a request's life are joined, and
//! what follows from it.

use super::client::CdpEventView;
use super::metrics::{MetricsEventView, TrackedRequestView};
use super::types::PerformanceMetrics;
use crate::storage::metrics::{StoredNetworkRequest, StoredNetworkRequestView};
use crate::text::trunc_div;
use vstd::prelude::*;

verus! {

/// The time from `from` to `to`, both in millionths of a second, as
/// millionths of a millisecond: the difference in seconds times 1000.
pub open spec fn elapsed_ms(from: i64, to: i64) -> i128 {
    ((to - from) * 1000) as i128
}

/// A timestamp in millionths of a second as whole milliseconds, rounded
/// toward zero.
pub open spec fn whole_millis(timestamp: i64) -> i64 {
    trunc_div(timestamp as int, 1000) as i64
}

/// The correlation table as a mapping from request id to pending request.
pub type Table = Map<Seq<char>, TrackedRequestView>;

/// What processing one protocol event amounts to: the table afterwards, the
/// record to store and the event to publish, if any.
pub struct Correlated {
    pub table: Table,
    pub record: Option<StoredNetworkRequestView>,
    pub event: Option<MetricsEventView>,
}

/// The pending entry that a "request sent" event creates.
pub open spec fn opened(
    request_id: Seq<char>,
    url: Seq<char>,
    method: Seq<char>,
    timestamp: i64,
) -> TrackedRequestView {
    TrackedRequestView {
        request_id,
        url,
        method,
        request_timestamp: timestamp,
        response_timestamp: None,
        status: None,
        encoded_data_length: None,
        finished_timestamp: None,
    }
}

/// The rule of the correlation loop for one event.
///
/// * request sent: the entry for the id is created (replacing one that was
///   there), the initial record is stored, a `NetworkRequest` is published;
/// * response received: a pending entry is stamped with time and status, and
///   a `NetworkResponse` is published, with the time since the request where
///   an entry was pending and without a duration where none was;
/// * loading finished: a pending entry is removed, its final record is stored
///   and a `NetworkComplete` is published; without an entry nothing happens;
/// * anything else changes nothing.
pub open spec fn correlate(table: Table, session_id: Seq<char>, event: CdpEventView) -> Correlated {
    match event {
        CdpEventView::NetworkRequest { request_id, url, method, timestamp } => Correlated {
            table: table.insert(request_id, opened(request_id, url, method, timestamp)),
            record: Some(
                StoredNetworkRequest::started(
                    session_id,
                    request_id,
                    url,
                    method,
                    whole_millis(timestamp),
                ),
            ),
            event: Some(MetricsEventView::NetworkRequest { request_id, url, method, timestamp }),
        },
        CdpEventView::NetworkResponse { request_id, status, timestamp } => {
            if table.contains_key(request_id) {
                let pending = table[request_id];
                Correlated {
                    table: table.insert(
                        request_id,
                        TrackedRequestView {
                            response_timestamp: Some(timestamp),
                            status: Some(status),
                            ..pending
                        },
                    ),
                    record: None,
                    event: Some(
                        MetricsEventView::NetworkResponse {
                            request_id,
                            status,
                            timestamp,
                            duration_ms: Some(elapsed_ms(pending.request_timestamp, timestamp)),
                        },
                    ),
                }
            } else {
                Correlated {
                    table,
                    record: None,
                    event: Some(
                        MetricsEventView::NetworkResponse {
                            request_id,
                            status,
                            timestamp,
                            duration_ms: None,
                        },
                    ),
                }
            }
        },
        CdpEventView::NetworkFinished { request_id, encoded_data_length, timestamp } => {
            if table.contains_key(request_id) {
                let pending = table[request_id];
                let duration_ms = elapsed_ms(pending.request_timestamp, timestamp);
                Correlated {
                    table: table.remove(request_id),
                    record: Some(
                        StoredNetworkRequestView {
                            id: pending.request_id,
                            session_id,
                            url: pending.url,
                            method: Some(pending.method),
                            status_code: pending.status,
                            request_time: whole_millis(pending.request_timestamp),
                            response_time: Some(whole_millis(timestamp)),
                            duration_ms: Some(duration_ms),
                            size_bytes: Some(encoded_data_length),
                            headers: None,
                        },
                    ),
                    event: Some(
                        MetricsEventView::NetworkComplete {
                            request_id: pending.request_id,
                            url: pending.url,
                            method: pending.method,
                            status: pending.status,
                            duration_ms,
                            size_bytes: encoded_data_length,
                        },
                    ),
                }
            } else {
                Correlated { table, record: None, event: None }
            }
        },
        _ => Correlated { table, record: None, event: None },
    }
}

/// Every entry of the table is filed under its own request id.
pub open spec fn keyed(table: Table) -> bool {
    forall|id: Seq<char>| table.contains_key(id) ==> (#[trigger] table[id]).request_id == id
}

/// Processing an event keeps every entry under its own id.
pub proof fn lemma_correlate_keeps_keyed(table: Table, session_id: Seq<char>, event: CdpEventView)
    requires
        keyed(table),
    ensures
        keyed(correlate(table, session_id, event).table),
{
    let after = correlate(table, session_id, event).table;
    assert forall|id: Seq<char>| after.contains_key(id) implies (#[trigger] after[id]).request_id
        == id by {
        if table.contains_key(id) {
            assert(table[id].request_id == id);
        }
    }
}

/// The table and the publications after processing `events` one after the
/// other, starting from `table`.
pub open spec fn run(table: Table, session_id: Seq<char>, events: Seq<CdpEventView>) -> (
    Table,
    Seq<MetricsEventView>,
)
    decreases events.len(),
{
    if events.len() == 0 {
        (table, Seq::empty())
    } else {
        let before = run(table, session_id, events.drop_last());
        let step = correlate(before.0, session_id, events.last());
        (
            step.table,
            match step.event {
                Some(event) => before.1.push(event),
                None => before.1,
            },
        )
    }
}

/// How many of `published` are completions of the request `id`.
pub open spec fn completions(published: Seq<MetricsEventView>, id: Seq<char>) -> nat
    decreases published.len(),
{
    if published.len() == 0 {
        0
    } else {
        let earlier = completions(published.drop_last(), id);
        match published.last() {
            MetricsEventView::NetworkComplete { request_id, .. } if request_id == id => earlier + 1,
            _ => earlier,
        }
    }
}

/// Whether the event opens or closes the life of the request `id`.
pub open spec fn opens_or_closes(event: CdpEventView, id: Seq<char>) -> bool {
    match event {
        CdpEventView::NetworkRequest { request_id, .. } => request_id == id,
        CdpEventView::NetworkFinished { request_id, .. } => request_id == id,
        _ => false,
    }
}

/// The status that the last response for `id` among `events` carried.
pub open spec fn last_status(events: Seq<CdpEventView>, id: Seq<char>) -> Option<i32>
    decreases events.len(),
{
    if events.len() == 0 {
        None
    } else {
        match events.last() {
            CdpEventView::NetworkResponse { request_id, status, .. } if request_id == id => Some(
                status,
            ),
            _ => last_status(events.drop_last(), id),
        }
    }
}

/// A request that is sent and then finishes leaves no entry behind. The
/// first event publishes no completion; the second publishes exactly the
/// completion of this request, whose duration is the time between the two
/// events: the difference of their timestamps, times 1000.
pub proof fn lemma_sent_then_finished(
    table: Table,
    session_id: Seq<char>,
    request_id: Seq<char>,
    url: Seq<char>,
    method: Seq<char>,
    sent_at: i64,
    encoded_data_length: i64,
    finished_at: i64,
)
    ensures
        ({
            let sent = correlate(
                table,
                session_id,
                CdpEventView::NetworkRequest { request_id, url, method, timestamp: sent_at },
            );
            let finished = correlate(
                sent.table,
                session_id,
                CdpEventView::NetworkFinished {
                    request_id,
                    encoded_data_length,
                    timestamp: finished_at,
                },
            );
            &&& sent.table.contains_key(request_id)
            &&& !(sent.event matches Some(MetricsEventView::NetworkComplete { .. }))
            &&& !finished.table.contains_key(request_id)
            &&& finished.event == Some(
                MetricsEventView::NetworkComplete {
                    request_id,
                    url,
                    method,
                    status: None,
                    duration_ms: elapsed_ms(sent_at, finished_at),
                    size_bytes: encoded_data_length,
                },
            )
            &&& elapsed_ms(sent_at, finished_at) == (finished_at - sent_at) * 1000
        }),
{
}

/// The general form of [`lemma_sent_then_finished`]: between the two events
/// anything may happen that neither opens nor closes the same request.
/// Afterwards the table has no entry for the request, exactly one completion
/// of it has been published, and that completion, which is the last
/// publication, carries the request's url and method, the status of the last
/// response, and the time between the two events.
pub proof fn lemma_request_life(
    table: Table,
    session_id: Seq<char>,
    request_id: Seq<char>,
    url: Seq<char>,
    method: Seq<char>,
    sent_at: i64,
    between: Seq<CdpEventView>,
    encoded_data_length: i64,
    finished_at: i64,
)
    requires
        keyed(table),
        forall|k: int| 0 <= k < between.len() ==> !opens_or_closes(#[trigger] between[k], request_id),
    ensures
        ({
            let sent = CdpEventView::NetworkRequest { request_id, url, method, timestamp: sent_at };
            let finished = CdpEventView::NetworkFinished {
                request_id,
                encoded_data_length,
                timestamp: finished_at,
            };
            let after = run(table, session_id, (seq![sent] + between).push(finished));
            &&& !after.0.contains_key(request_id)
            &&& completions(after.1, request_id) == 1
            &&& after.1.len() > 0
            &&& after.1.last() == MetricsEventView::NetworkComplete {
                request_id,
                url,
                method,
                status: last_status(between, request_id),
                duration_ms: elapsed_ms(sent_at, finished_at),
                size_bytes: encoded_data_length,
            }
            &&& elapsed_ms(sent_at, finished_at) == (finished_at - sent_at) * 1000
        }),
{
    let sent = CdpEventView::NetworkRequest { request_id, url, method, timestamp: sent_at };
    let finished = CdpEventView::NetworkFinished {
        request_id,
        encoded_data_length,
        timestamp: finished_at,
    };
    let prefix = seq![sent] + between;
    lemma_pending_while_open(table, session_id, request_id, url, method, sent_at, between);
    let all = prefix.push(finished);
    assert(all.drop_last() == prefix);
    assert(all.last() == finished);
    let before = run(table, session_id, prefix);
    let after = run(table, session_id, all);
    let step = correlate(before.0, session_id, finished);
    assert(after.0 == step.table);
    assert(after.1 == before.1.push(step.event->0));
    assert(after.1.drop_last() == before.1);
}

/// While a request is open, its entry stays in the table with the data of
/// the "request sent" event and the status of the last response, and no
/// completion of it is published.
proof fn lemma_pending_while_open(
    table: Table,
    session_id: Seq<char>,
    request_id: Seq<char>,
    url: Seq<char>,
    method: Seq<char>,
    sent_at: i64,
    between: Seq<CdpEventView>,
)
    requires
        keyed(table),
        forall|k: int| 0 <= k < between.len() ==> !opens_or_closes(#[trigger] between[k], request_id),
    ensures
        ({
            let sent = CdpEventView::NetworkRequest { request_id, url, method, timestamp: sent_at };
            let now = run(table, session_id, seq![sent] + between);
            &&& keyed(now.0)
            &&& now.0.contains_key(request_id)
            &&& now.0[request_id].request_id == request_id
            &&& now.0[request_id].url == url
            &&& now.0[request_id].method == method
            &&& now.0[request_id].request_timestamp == sent_at
            &&& now.0[request_id].status == last_status(between, request_id)
            &&& completions(now.1, request_id) == 0
        }),
    decreases between.len(),
{
    let sent = CdpEventView::NetworkRequest { request_id, url, method, timestamp: sent_at };
    let events = seq![sent] + between;
    if between.len() == 0 {
        assert(events == seq![sent]);
        assert(events.drop_last() == Seq::<CdpEventView>::empty());
        assert(events.last() == sent);
        let start = run(table, session_id, events.drop_last());
        assert(start == (table, Seq::<MetricsEventView>::empty()));
        lemma_correlate_keeps_keyed(table, session_id, sent);
        let now = run(table, session_id, events);
        let step = correlate(table, session_id, sent);
        assert(now.1 == Seq::<MetricsEventView>::empty().push(step.event->0));
        assert(now.1.drop_last() == Seq::<MetricsEventView>::empty());
        assert(completions(now.1.drop_last(), request_id) == 0);
    } else {
        let earlier = between.drop_last();
        let event = between.last();
        assert(between[between.len() - 1] == event);
        assert forall|k: int| 0 <= k < earlier.len() implies !opens_or_closes(
            #[trigger] earlier[k],
            request_id,
        ) by {
            assert(earlier[k] == between[k]);
        }
        lemma_pending_while_open(table, session_id, request_id, url, method, sent_at, earlier);
        assert(events.drop_last() == seq![sent] + earlier);
        assert(events.last() == event);
        let before = run(table, session_id, seq![sent] + earlier);
        let step = correlate(before.0, session_id, event);
        lemma_correlate_keeps_keyed(before.0, session_id, event);
        let now = run(table, session_id, events);
        assert(now.0 == step.table);
        match step.event {
            Some(published) => {
                assert(now.1 == before.1.push(published));
                assert(now.1.drop_last() == before.1);
                assert(now.1.last() == published);
                match event {
                    CdpEventView::NetworkFinished { request_id: other, .. } => {
                        assert(other != request_id);
                        assert(before.0[other].request_id == other);
                    },
                    _ => {},
                }
            },
            None => {
                assert(now.1 == before.1);
            },
        }
    }
}

/// A response for a request that is not pending publishes a response event
/// without a duration, stores nothing and creates no entry.
pub proof fn lemma_response_without_entry(
    table: Table,
    session_id: Seq<char>,
    request_id: Seq<char>,
    status: i32,
    timestamp: i64,
)
    requires
        !table.contains_key(request_id),
    ensures
        ({
            let after = correlate(
                table,
                session_id,
                CdpEventView::NetworkResponse { request_id, status, timestamp },
            );
            &&& after.table == table
            &&& after.record is None
            &&& after.event == Some(
                MetricsEventView::NetworkResponse {
                    request_id,
                    status,
                    timestamp,
                    duration_ms: None,
                },
            )
        }),
{
}

/// A "loading finished" for a request that is not pending publishes nothing,
/// stores nothing and leaves the table as it was.
pub proof fn lemma_finished_without_entry(
    table: Table,
    session_id: Seq<char>,
    request_id: Seq<char>,
    encoded_data_length: i64,
    timestamp: i64,
)
    requires
        !table.contains_key(request_id),
    ensures
        ({
            let after = correlate(
                table,
                session_id,
                CdpEventView::NetworkFinished { request_id, encoded_data_length, timestamp },
            );
            &&& after.table == table
            &&& after.record is None
            &&& after.event is None
        }),
{
}

/// What the correlation loop took from its upstream channel, with texts as
/// character sequences.
pub enum ReceivedView {
    Event(CdpEventView),
    Lagged(u64),
    Closed,
}

/// The metrics engine as the rules see it: its session, its correlation
/// table, its switch, and which of its two loops is inside an iteration.
pub struct EngineView {
    pub session_id: Seq<char>,
    pub table: Table,
    pub collecting: bool,
    /// An iteration of the poll loop has passed the switch and has not
    /// handed in its fetch yet.
    pub polling: bool,
    /// An iteration of the correlation loop has passed the switch and has
    /// not handed in its receive yet.
    pub receiving: bool,
}

/// What one turn of the correlation loop comes to.
pub struct Turned {
    pub engine: EngineView,
    pub keep_running: bool,
    pub record: Option<StoredNetworkRequestView>,
    pub event: Option<MetricsEventView>,
}

impl EngineView {
    /// A new engine: nothing pending, switched off, no loop running.
    pub open spec fn idle(session_id: Seq<char>) -> EngineView {
        EngineView {
            session_id,
            table: Map::empty(),
            collecting: false,
            polling: false,
            receiving: false,
        }
    }

    /// The engine with collection switched on.
    pub open spec fn started(self) -> EngineView {
        EngineView { collecting: true, ..self }
    }

    /// The engine with collection switched off. An iteration that is under
    /// way stays under way.
    pub open spec fn stopped(self) -> EngineView {
        EngineView { collecting: false, ..self }
    }

    /// The engine after one protocol event.
    pub open spec fn processed(self, event: CdpEventView) -> EngineView {
        EngineView { table: correlate(self.table, self.session_id, event).table, ..self }
    }

    /// The top of an iteration of the poll loop: the iteration is entered
    /// exactly if the switch is on.
    pub open spec fn poll_begun(self) -> EngineView {
        EngineView { polling: self.collecting, ..self }
    }

    /// What an iteration of the poll loop publishes for its fetch: the
    /// snapshot, if the iteration was entered and the fetch succeeded.
    pub open spec fn poll_event(self, fetched: Option<PerformanceMetrics>) -> Option<
        MetricsEventView,
    > {
        match fetched {
            Some(metrics) if self.polling => Some(MetricsEventView::Performance(metrics)),
            _ => None,
        }
    }

    /// The end of an iteration of the poll loop.
    pub open spec fn polled(self) -> EngineView {
        EngineView { polling: false, ..self }
    }

    /// The top of an iteration of the correlation loop: the iteration is
    /// entered exactly if the switch is on.
    pub open spec fn receive_begun(self) -> EngineView {
        EngineView { receiving: self.collecting, ..self }
    }

    /// The rest of an iteration of the correlation loop, once something was
    /// received. Without an iteration under way nothing is handed out and
    /// the loop ends. Otherwise the iteration is over; an event is processed
    /// by the rule [`correlate`], a lag is passed over, and a closed channel
    /// ends the loop.
    pub open spec fn received(self, received: ReceivedView) -> Turned {
        if !self.receiving {
            Turned { engine: self, keep_running: false, record: None, event: None }
        } else {
            let done = EngineView { receiving: false, ..self };
            match received {
                ReceivedView::Event(event) => {
                    let joined = correlate(self.table, self.session_id, event);
                    Turned {
                        engine: done.processed(event),
                        keep_running: true,
                        record: joined.record,
                        event: joined.event,
                    }
                },
                ReceivedView::Lagged(_) => Turned {
                    engine: done,
                    keep_running: true,
                    record: None,
                    event: None,
                },
                ReceivedView::Closed => Turned {
                    engine: done,
                    keep_running: false,
                    record: None,
                    event: None,
                },
            }
        }
    }
}

/// Nothing, or the one element.
pub open spec fn one_or_none<T>(item: Option<T>) -> Seq<T> {
    match item {
        Some(item) => seq![item],
        None => Seq::empty(),
    }
}

/// What a loop has handed out when it ends or waits.
pub struct LoopRun {
    pub engine: EngineView,
    pub published: Seq<MetricsEventView>,
    pub stored: Seq<StoredNetworkRequestView>,
}

/// The correlation loop, from the top of an iteration, with `inbox` being
/// what its channel delivers from then on. Each iteration asks the switch,
/// receives, and hands in what it received; the loop ends where the switch
/// is off or a turn says so, and waits where the inbox is used up.
pub open spec fn correlation_loop(engine: EngineView, inbox: Seq<ReceivedView>) -> LoopRun
    decreases inbox.len(),
{
    let begun = engine.receive_begun();
    if !begun.receiving || inbox.len() == 0 {
        LoopRun { engine: begun, published: Seq::empty(), stored: Seq::empty() }
    } else {
        let turn = begun.received(inbox[0]);
        if turn.keep_running {
            let rest = correlation_loop(turn.engine, inbox.skip(1));
            LoopRun {
                engine: rest.engine,
                published: one_or_none(turn.event) + rest.published,
                stored: one_or_none(turn.record) + rest.stored,
            }
        } else {
            LoopRun {
                engine: turn.engine,
                published: one_or_none(turn.event),
                stored: one_or_none(turn.record),
            }
        }
    }
}

/// What the poll loop publishes, from the top of an iteration, with
/// `fetches` being the outcomes of its fetches from then on: a snapshot
/// where one succeeded, nothing where it failed. Each iteration asks the
/// switch first, and the loop ends where the switch is off.
pub open spec fn poll_loop(engine: EngineView, fetches: Seq<Option<PerformanceMetrics>>) -> Seq<
    MetricsEventView,
>
    decreases fetches.len(),
{
    let begun = engine.poll_begun();
    if !begun.polling || fetches.len() == 0 {
        Seq::empty()
    } else {
        one_or_none(begun.poll_event(fetches[0])) + poll_loop(begun.polled(), fetches.skip(1))
    }
}

/// Stopping is final. It removes no entry from the table. After it neither
/// loop enters another iteration, whatever is still delivered: nothing is
/// published, nothing is stored, and the table stays as it is. An iteration
/// that was under way when collection stopped still hands in what it waits
/// for, once; after that the loops hand out nothing more.
pub proof fn lemma_stop_is_final(
    engine: EngineView,
    in_flight: ReceivedView,
    inbox: Seq<ReceivedView>,
    fetches: Seq<Option<PerformanceMetrics>>,
)
    ensures
        ({
            let stopped = engine.stopped();
            let last = stopped.received(in_flight);
            &&& stopped.table == engine.table
            &&& !stopped.receive_begun().receiving
            &&& !stopped.poll_begun().polling
            &&& correlation_loop(stopped, inbox).published.len() == 0
            &&& correlation_loop(stopped, inbox).stored.len() == 0
            &&& correlation_loop(stopped, inbox).engine.table == engine.table
            &&& poll_loop(stopped, fetches).len() == 0
            &&& !last.engine.collecting
            &&& correlation_loop(last.engine, inbox).published.len() == 0
            &&& correlation_loop(last.engine, inbox).stored.len() == 0
            &&& correlation_loop(last.engine, inbox).engine.table == last.engine.table
            &&& stopped.received(in_flight).engine.received(in_flight).event is None
            &&& poll_loop(stopped.polled(), fetches).len() == 0
        }),
{
}

/// While collection is on, the correlation loop hands out, turn by turn,
/// what the rule [`correlate`] gives for each event that it receives.
pub proof fn lemma_loop_turn(engine: EngineView, event: CdpEventView, rest: Seq<ReceivedView>)
    requires
        engine.collecting,
    ensures
        ({
            let joined = correlate(engine.table, engine.session_id, event);
            let run = correlation_loop(engine, seq![ReceivedView::Event(event)] + rest);
            let next = correlation_loop(engine.receive_begun().received(
                ReceivedView::Event(event),
            ).engine, rest);
            &&& run.published == one_or_none(joined.event) + next.published
            &&& run.stored == one_or_none(joined.record) + next.stored
            &&& run.engine == next.engine
        }),
{
    let inbox = seq![ReceivedView::Event(event)] + rest;
    assert(inbox[0] == ReceivedView::Event(event));
    assert(inbox.skip(1) == rest);
}

} // verus!

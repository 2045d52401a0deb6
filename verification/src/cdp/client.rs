//! The connection manager: one debugging session, its state machine and the
//! gates in front of every command that needs a live page.
//!
//! The manager performs no I/O. A driver owns the transport and reports what
//! happened; the manager answers with the next thing to do.

use super::types::{CdpTarget, ConnectionState};
use crate::text::{decimal, push_decimal};
use vstd::prelude::*;
use vstd::string::*;

verus! {

/// Why an operation of the connection manager failed.
#[derive(Debug, Clone, PartialEq, Eq)]
pub enum CdpError {
    FetchTargetsFailed(String),
    ConnectionFailed(String),
    NotConnected,
    BrowserError(String),
}

impl CdpError {
    /// The text of the error as it is shown to a user.
    pub open spec fn text(self) -> Seq<char> {
        match self {
            CdpError::FetchTargetsFailed(m) => "Failed to fetch targets: "@ + m@,
            CdpError::ConnectionFailed(m) => "Failed to connect: "@ + m@,
            CdpError::NotConnected => "Not connected"@,
            CdpError::BrowserError(m) => "Browser error: "@ + m@,
        }
    }

    pub fn message(&self) -> (r: String)
        ensures
            r@ == self.text(),
    {
        match self {
            CdpError::FetchTargetsFailed(m) => "Failed to fetch targets: ".to_owned().concat(
                m.as_str(),
            ),
            CdpError::ConnectionFailed(m) => "Failed to connect: ".to_owned().concat(m.as_str()),
            CdpError::NotConnected => "Not connected".to_owned(),
            CdpError::BrowserError(m) => "Browser error: ".to_owned().concat(m.as_str()),
        }
    }
}

/// A normalized protocol event. Timestamps are in millionths of a second, the
/// encoded length in millionths of a byte.
#[derive(Debug, Clone, PartialEq, Eq)]
pub enum CdpEvent {
    Connected,
    Disconnected,
    NetworkRequest { request_id: String, url: String, method: String, timestamp: i64 },
    NetworkResponse { request_id: String, status: i32, timestamp: i64 },
    NetworkFinished { request_id: String, encoded_data_length: i64, timestamp: i64 },
}

/// What a [`CdpEvent`] holds, with texts as character sequences.
pub enum CdpEventView {
    Connected,
    Disconnected,
    NetworkRequest { request_id: Seq<char>, url: Seq<char>, method: Seq<char>, timestamp: i64 },
    NetworkResponse { request_id: Seq<char>, status: i32, timestamp: i64 },
    NetworkFinished { request_id: Seq<char>, encoded_data_length: i64, timestamp: i64 },
}

impl View for CdpEvent {
    type V = CdpEventView;

    open spec fn view(&self) -> CdpEventView {
        match *self {
            CdpEvent::Connected => CdpEventView::Connected,
            CdpEvent::Disconnected => CdpEventView::Disconnected,
            CdpEvent::NetworkRequest { request_id, url, method, timestamp } => {
                CdpEventView::NetworkRequest {
                    request_id: request_id@,
                    url: url@,
                    method: method@,
                    timestamp,
                }
            },
            CdpEvent::NetworkResponse { request_id, status, timestamp } => {
                CdpEventView::NetworkResponse { request_id: request_id@, status, timestamp }
            },
            CdpEvent::NetworkFinished { request_id, encoded_data_length, timestamp } => {
                CdpEventView::NetworkFinished {
                    request_id: request_id@,
                    encoded_data_length,
                    timestamp,
                }
            },
        }
    }
}

impl CdpEvent {
    /// The event for a "request will be sent" notification.
    pub fn request_sent(request_id: String, url: String, method: String, timestamp: i64) -> (r:
        CdpEvent)
        ensures
            r == (CdpEvent::NetworkRequest { request_id, url, method, timestamp }),
    {
        CdpEvent::NetworkRequest { request_id, url, method, timestamp }
    }

    /// The event for a "response received" notification. The protocol's
    /// status is cut to 32 bits.
    pub fn response_received(request_id: String, status: i64, timestamp: i64) -> (r: CdpEvent)
        ensures
            r == (CdpEvent::NetworkResponse { request_id, status: status as i32, timestamp }),
    {
        CdpEvent::NetworkResponse { request_id, status: #[verifier::truncate] (status as i32), timestamp }
    }

    /// The event for a "loading finished" notification.
    pub fn loading_finished(request_id: String, encoded_data_length: i64, timestamp: i64) -> (r:
        CdpEvent)
        ensures
            r == (CdpEvent::NetworkFinished { request_id, encoded_data_length, timestamp }),
    {
        CdpEvent::NetworkFinished { request_id, encoded_data_length, timestamp }
    }
}

/// Something to run against the connected page.
#[derive(Debug, Clone, Copy, PartialEq, Eq)]
pub enum PageCommand {
    /// Switch the performance domain on.
    EnablePerformance,
    /// Switch the network domain on.
    EnableNetwork,
    /// Forward every "request will be sent" notification as a [`CdpEvent`].
    ListenRequestWillBeSent,
    /// Forward every "response received" notification as a [`CdpEvent`].
    ListenResponseReceived,
    /// Forward every "loading finished" notification as a [`CdpEvent`].
    ListenLoadingFinished,
    /// Ask for the current performance counters.
    GetMetrics,
}

/// What the driver reports while a connection is being set up. `B` is the
/// driver's transport handle, `P` its page handle.
pub enum ConnectEvent<B, P> {
    /// A caller asked for a connection.
    Requested,
    /// The transport is open.
    TransportOpened(B),
    /// Opening the transport failed.
    TransportFailed(String),
    /// Opening the transport took longer than allowed.
    TimedOut,
    /// The target listed its pages.
    PagesListed(B, Vec<P>),
    /// The target could not list its pages.
    PagesFailed(String),
    /// A blank page was opened.
    BlankPageOpened(B, P),
    /// No blank page could be opened.
    BlankPageFailed(B),
}

/// What the driver has to do next while a connection is being set up.
pub enum ConnectAction<B> {
    /// Open the transport, giving up after so many seconds.
    OpenTransport { timeout_secs: u64 },
    /// Start draining the transport's frames, for as long as it lives, and
    /// list the target's pages.
    ListPages(B),
    /// Open a blank page.
    OpenBlankPage(B),
    /// The session is up: broadcast the event and report success.
    Established(CdpEvent),
    /// Report the error.
    Failed(CdpError),
}

/// Seconds allowed for opening the transport.
pub const CONNECT_TIMEOUT_SECS: u64 = 10;

/// What enabling the performance domain runs on the page.
pub open spec fn performance_plan() -> Seq<PageCommand> {
    seq![PageCommand::EnablePerformance]
}

/// What enabling the network domain runs on the page, in this order: the
/// domain itself, then one listener for each kind of event.
pub open spec fn network_plan() -> Seq<PageCommand> {
    seq![
        PageCommand::EnableNetwork,
        PageCommand::ListenRequestWillBeSent,
        PageCommand::ListenResponseReceived,
        PageCommand::ListenLoadingFinished,
    ]
}

/// The address of the target directory behind a local port.
pub open spec fn directory_url(port: u16) -> Seq<char> {
    "http://localhost:"@ + decimal(port as nat) + "/json/list"@
}

/// Where the session stands, with both handles inside the one state that
/// has them.
enum Link<B, P> {
    Disconnected,
    Connecting,
    Connected(B, P),
}

/// The connection manager. It keeps the state of one debugging session and,
/// while connected, its two handles: the transport (`B`) and the page (`P`).
pub struct CdpClient<B, P> {
    link: Link<B, P>,
}

/// The message for a report that belongs to no connection attempt.
pub open spec fn no_attempt() -> Seq<char> {
    "No connection attempt in progress"@
}

impl<B, P> CdpClient<B, P> {
    /// The current state. The manager never enters `Error`: every failure
    /// ends in `Disconnected`.
    pub closed spec fn state(self) -> ConnectionState {
        match self.link {
            Link::Disconnected => ConnectionState::Disconnected,
            Link::Connecting => ConnectionState::Connecting,
            Link::Connected(_, _) => ConnectionState::Connected,
        }
    }

    /// The page handle: one is held exactly while the state is `Connected`.
    pub closed spec fn page_handle(self) -> Option<P> {
        match self.link {
            Link::Connected(_, p) => Some(p),
            _ => None,
        }
    }

    /// The transport handle: one is held exactly while the state is
    /// `Connected`.
    pub closed spec fn transport_handle(self) -> Option<B> {
        match self.link {
            Link::Connected(b, _) => Some(b),
            _ => None,
        }
    }

    /// How a report is answered that belongs to no connection attempt: with a
    /// failure, and without any change.
    pub open spec fn turned_away(before: Self, after: Self, action: ConnectAction<B>) -> bool {
        &&& after == before
        &&& action matches ConnectAction::Failed(CdpError::ConnectionFailed(reason))
        &&& reason@ == no_attempt()
    }

    /// Both handles are held exactly while the state is `Connected`, and the
    /// state is never `Error`.
    pub proof fn lemma_handles_iff_connected(self)
        ensures
            self.page_handle() is Some <==> self.state() is Connected,
            self.transport_handle() is Some <==> self.state() is Connected,
            !(self.state() is Error),
    {
    }

    /// Builds [`directory_url`].
    pub fn targets_url(port: u16) -> (r: String)
        ensures
            r@ == directory_url(port),
    {
        let mut url = "http://localhost:".to_owned();
        push_decimal(&mut url, port as u128);
        url.append("/json/list");
        url
    }

    /// Reads the outcome of one query of the target directory: the targets
    /// as they were listed, or the reason why none could be had. Nothing is
    /// tried again.
    pub fn get_targets(reply: Result<Vec<CdpTarget>, String>) -> (r: Result<
        Vec<CdpTarget>,
        CdpError,
    >)
        ensures
            r == match reply {
                Ok(targets) => Ok::<Vec<CdpTarget>, CdpError>(targets),
                Err(reason) => Err::<Vec<CdpTarget>, CdpError>(
                    CdpError::FetchTargetsFailed(reason),
                ),
            },
    {
        match reply {
            Ok(targets) => Ok(targets),
            Err(reason) => Err(CdpError::FetchTargetsFailed(reason)),
        }
    }

    pub fn new() -> (r: Self)
        ensures
            r.state() == ConnectionState::Disconnected,
            r.page_handle() is None,
            r.transport_handle() is None,
    {
        CdpClient { link: Link::Disconnected }
    }

    /// One step of setting up a connection.
    ///
    /// `Requested` begins an attempt: the state becomes `Connecting` and the
    /// handles of an earlier session are released. Every other event reports
    /// on the attempt and counts only while the state is `Connecting`;
    /// outside of it the report is answered with a failure and changes
    /// nothing. Within an attempt every failure ends in `Disconnected`; a
    /// listing with at least one page connects to the first; an empty listing
    /// asks for a blank page.
    pub fn connect(&mut self, event: ConnectEvent<B, P>) -> (action: ConnectAction<B>)
        ensures
            action is Established ==> old(self).state() is Connecting && final(self).state()
                is Connected,
            action is Failed && old(self).state() is Connecting ==> final(self).state()
                is Disconnected,
            !(final(self).state() is Connected) ==> final(self).page_handle() is None,
            !(final(self).state() is Connected) ==> final(self).transport_handle() is None,
            match event {
                ConnectEvent::Requested => {
                    &&& final(self).state() == ConnectionState::Connecting
                    &&& action == ConnectAction::<B>::OpenTransport {
                        timeout_secs: CONNECT_TIMEOUT_SECS,
                    }
                },
                ConnectEvent::TransportOpened(b) => if old(self).state() is Connecting {
                    &&& *final(self) == *old(self)
                    &&& action == ConnectAction::ListPages(b)
                } else {
                    Self::turned_away(*old(self), *final(self), action)
                },
                ConnectEvent::TransportFailed(reason) => if old(self).state() is Connecting {
                    &&& final(self).state() == ConnectionState::Disconnected
                    &&& action == ConnectAction::<B>::Failed(CdpError::ConnectionFailed(reason))
                } else {
                    Self::turned_away(*old(self), *final(self), action)
                },
                ConnectEvent::TimedOut => if old(self).state() is Connecting {
                    &&& final(self).state() == ConnectionState::Disconnected
                    &&& action matches ConnectAction::Failed(CdpError::ConnectionFailed(reason))
                    &&& reason@ == "Connection timeout"@
                } else {
                    Self::turned_away(*old(self), *final(self), action)
                },
                ConnectEvent::PagesListed(b, pages) => if !(old(self).state() is Connecting) {
                    Self::turned_away(*old(self), *final(self), action)
                } else if pages.len() > 0 {
                    &&& final(self).state() == ConnectionState::Connected
                    &&& final(self).page_handle() == Some(pages[0])
                    &&& final(self).transport_handle() == Some(b)
                    &&& action == ConnectAction::<B>::Established(CdpEvent::Connected)
                } else {
                    &&& *final(self) == *old(self)
                    &&& action == ConnectAction::OpenBlankPage(b)
                },
                ConnectEvent::PagesFailed(reason) => if old(self).state() is Connecting {
                    &&& final(self).state() == ConnectionState::Disconnected
                    &&& action == ConnectAction::<B>::Failed(CdpError::ConnectionFailed(reason))
                } else {
                    Self::turned_away(*old(self), *final(self), action)
                },
                ConnectEvent::BlankPageOpened(b, p) => if old(self).state() is Connecting {
                    &&& final(self).state() == ConnectionState::Connected
                    &&& final(self).page_handle() == Some(p)
                    &&& final(self).transport_handle() == Some(b)
                    &&& action == ConnectAction::<B>::Established(CdpEvent::Connected)
                } else {
                    Self::turned_away(*old(self), *final(self), action)
                },
                ConnectEvent::BlankPageFailed(_) => if old(self).state() is Connecting {
                    &&& final(self).state() == ConnectionState::Disconnected
                    &&& action matches ConnectAction::Failed(CdpError::ConnectionFailed(reason))
                    &&& reason@ == "No page available to connect"@
                } else {
                    Self::turned_away(*old(self), *final(self), action)
                },
            },
    {
        if let ConnectEvent::Requested = event {
            self.link = Link::Connecting;
            return ConnectAction::OpenTransport { timeout_secs: CONNECT_TIMEOUT_SECS };
        }
        let attempting = match &self.link {
            Link::Connecting => true,
            _ => false,
        };
        if !attempting {
            return ConnectAction::Failed(
                CdpError::ConnectionFailed("No connection attempt in progress".to_owned()),
            );
        }
        match event {
            ConnectEvent::Requested => ConnectAction::OpenTransport {
                timeout_secs: CONNECT_TIMEOUT_SECS,
            },
            ConnectEvent::TransportOpened(b) => ConnectAction::ListPages(b),
            ConnectEvent::TransportFailed(reason) => {
                self.link = Link::Disconnected;
                ConnectAction::Failed(CdpError::ConnectionFailed(reason))
            },
            ConnectEvent::TimedOut => {
                self.link = Link::Disconnected;
                ConnectAction::Failed(CdpError::ConnectionFailed("Connection timeout".to_owned()))
            },
            ConnectEvent::PagesListed(b, pages) => {
                let mut pages = pages;
                if pages.len() > 0 {
                    let first = pages.remove(0);
                    self.link = Link::Connected(b, first);
                    ConnectAction::Established(CdpEvent::Connected)
                } else {
                    ConnectAction::OpenBlankPage(b)
                }
            },
            ConnectEvent::PagesFailed(reason) => {
                self.link = Link::Disconnected;
                ConnectAction::Failed(CdpError::ConnectionFailed(reason))
            },
            ConnectEvent::BlankPageOpened(b, p) => {
                self.link = Link::Connected(b, p);
                ConnectAction::Established(CdpEvent::Connected)
            },
            ConnectEvent::BlankPageFailed(_) => {
                self.link = Link::Disconnected;
                ConnectAction::Failed(
                    CdpError::ConnectionFailed("No page available to connect".to_owned()),
                )
            },
        }
    }

    /// Ends the session: both handles are released, the state becomes
    /// `Disconnected`, and the event returned is to be broadcast. On a
    /// manager that is disconnected already nothing happens and there is no
    /// event.
    pub fn disconnect(&mut self) -> (r: Result<Option<CdpEvent>, CdpError>)
        ensures
            final(self).state() == ConnectionState::Disconnected,
            final(self).page_handle() is None,
            final(self).transport_handle() is None,
            old(self).state() is Disconnected ==> *final(self) == *old(self),
            r == Ok::<Option<CdpEvent>, CdpError>(
                if old(self).state() is Disconnected {
                    None
                } else {
                    Some(CdpEvent::Disconnected)
                },
            ),
    {
        let idle = match &self.link {
            Link::Disconnected => true,
            _ => false,
        };
        if idle {
            return Ok(None);
        }
        self.link = Link::Disconnected;
        Ok(Some(CdpEvent::Disconnected))
    }

    pub fn get_state(&self) -> (r: ConnectionState)
        ensures
            r == self.state(),
    {
        match &self.link {
            Link::Disconnected => ConnectionState::Disconnected,
            Link::Connecting => ConnectionState::Connecting,
            Link::Connected(_, _) => ConnectionState::Connected,
        }
    }

    /// The page to run commands against: present exactly while connected.
    pub fn page(&self) -> (r: Result<&P, CdpError>)
        ensures
            match r {
                Ok(p) => self.state() is Connected && self.page_handle() == Some(*p),
                Err(e) => !(self.state() is Connected) && e == CdpError::NotConnected,
            },
    {
        match &self.link {
            Link::Connected(_, p) => Ok(p),
            _ => Err(CdpError::NotConnected),
        }
    }

    /// The commands that enable the performance domain, for the driver to
    /// run in order until one fails.
    pub fn enable_performance(&self) -> (r: Result<Vec<PageCommand>, CdpError>)
        ensures
            match r {
                Ok(plan) => self.state() is Connected && plan@ == performance_plan(),
                Err(e) => !(self.state() is Connected) && e == CdpError::NotConnected,
            },
    {
        if self.page().is_err() {
            return Err(CdpError::NotConnected);
        }
        let mut plan: Vec<PageCommand> = Vec::new();
        plan.push(PageCommand::EnablePerformance);
        Ok(plan)
    }

    /// The commands that enable the network domain, for the driver to run in
    /// order until one fails.
    pub fn enable_network(&self) -> (r: Result<Vec<PageCommand>, CdpError>)
        ensures
            match r {
                Ok(plan) => self.state() is Connected && plan@ == network_plan(),
                Err(e) => !(self.state() is Connected) && e == CdpError::NotConnected,
            },
    {
        if self.page().is_err() {
            return Err(CdpError::NotConnected);
        }
        let mut plan: Vec<PageCommand> = Vec::new();
        plan.push(PageCommand::EnableNetwork);
        plan.push(PageCommand::ListenRequestWillBeSent);
        plan.push(PageCommand::ListenResponseReceived);
        plan.push(PageCommand::ListenLoadingFinished);
        Ok(plan)
    }

    /// The command that fetches the performance counters.
    pub fn get_performance_metrics(&self) -> (r: Result<PageCommand, CdpError>)
        ensures
            match r {
                Ok(command) => self.state() is Connected && command == PageCommand::GetMetrics,
                Err(e) => !(self.state() is Connected) && e == CdpError::NotConnected,
            },
    {
        if self.page().is_err() {
            return Err(CdpError::NotConnected);
        }
        Ok(PageCommand::GetMetrics)
    }
}

} // verus!

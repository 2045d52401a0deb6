//! The decisions of the command layer: which session a command means, and
//! with which settings collection starts.

use crate::host::now_millis;
use crate::storage::database::{end_session as end_statement, session_end, Statement};
use crate::storage::metrics::MetricType;
use crate::storage::session::Session;
use vstd::prelude::*;

verus! {

/// A port forward that was set up.
#[derive(Debug, Clone, PartialEq, Eq)]
pub struct PortForwardResult {
    pub local_port: u16,
    pub socket_name: String,
}

/// What a caller gives to create a session.
#[derive(Debug, Clone, PartialEq, Eq)]
pub struct CreateSessionParams {
    pub device_id: String,
    pub device_name: Option<String>,
    pub package_name: Option<String>,
    pub target_title: Option<String>,
    pub webview_url: Option<String>,
}

impl CreateSessionParams {
    /// A new session for these parameters, starting now under a fresh id.
    pub fn into_session(self) -> (r: Session)
        ensures
            r == Session::opened(
                r.id,
                r.started_at,
                self.device_id,
                self.device_name,
                self.package_name,
                self.target_title,
                self.webview_url,
            ),
    {
        Session::new(
            self.device_id,
            self.device_name,
            self.package_name,
            self.target_title,
            self.webview_url,
        )
    }
}

/// The resolver of the command layer. It has no state of its own.
#[derive(Debug, Clone, Copy, PartialEq, Eq)]
pub struct ApiImpl;

/// Milliseconds between two polls where the caller names no interval.
pub const DEFAULT_POLL_INTERVAL_MS: u64 = 1000;

/// The poll interval to use: the one asked for, or the default.
pub fn poll_interval(requested: Option<u64>) -> (r: u64)
    ensures
        r == match requested {
            Some(ms) => ms,
            None => DEFAULT_POLL_INTERVAL_MS,
        },
{
    match requested {
        Some(ms) => ms,
        None => DEFAULT_POLL_INTERVAL_MS,
    }
}

/// The session that collection records into: the current one. Without a
/// current session collection cannot start.
pub fn session_for_collection(current: &Option<String>) -> (r: Result<String, String>)
    ensures
        match r {
            Ok(id) => *current == Some(id),
            Err(reason) => *current is None && reason@
                == "No active session. Create a session first."@,
        },
{
    match current {
        Some(id) => Ok(id.clone()),
        None => Err("No active session. Create a session first.".to_owned()),
    }
}

/// The session that an "end session" command means: the one named, or else
/// the current one.
pub fn session_to_end(requested: Option<String>, current: &Option<String>) -> (r: Result<
    String,
    String,
>)
    ensures
        match r {
            Ok(id) => match requested {
                Some(named) => id == named,
                None => *current == Some(id),
            },
            Err(reason) => requested is None && *current is None && reason@
                == "No active session"@,
        },
{
    match requested {
        Some(named) => Ok(named),
        None => match current {
            Some(id) => Ok(id.clone()),
            None => Err("No active session".to_owned()),
        },
    }
}

/// What an "end session" command comes to: the session that it means, and
/// the statement that marks that session as completed now. Whatever time the
/// machine gives, the statement is as [`session_end`] says.
pub fn end_session(requested: Option<String>, current: &Option<String>) -> (r: Result<
    (String, Statement),
    String,
>)
    ensures
        match r {
            Ok((id, statement)) => {
                &&& match requested {
                    Some(named) => id == named,
                    None => *current == Some(id),
                }
                &&& exists|ended_at: i64| statement@ == #[trigger] session_end(id@, ended_at)
            },
            Err(reason) => requested is None && *current is None && reason@
                == "No active session"@,
        },
{
    match session_to_end(requested, current) {
        Ok(id) => {
            let ended_at = now_millis();
            let statement = end_statement(id.as_str(), ended_at);
            let r: Result<(String, Statement), String> = Ok((id, statement));
            assert(r->Ok_0.1@ == session_end(r->Ok_0.0@, ended_at));
            r
        },
        Err(reason) => Err(reason),
    }
}

/// Forgets the current session if it is the one named: after a session has
/// ended or been deleted it is current no more.
pub fn clear_if_current(current: &mut Option<String>, session_id: &str)
    ensures
        *final(current) == match *old(current) {
            Some(id) => if id@ == session_id@ {
                None
            } else {
                Some(id)
            },
            None => None,
        },
{
    let matches = match current {
        Some(id) => id.as_str().eq(session_id),
        None => false,
    };
    if matches {
        *current = None;
    }
}

/// The kind of metric that an optional name asks for.
pub fn metric_kind(name: Option<String>) -> (r: Option<MetricType>)
    ensures
        r == match name {
            Some(name) => Some(MetricType::of_name(name@)),
            None => None,
        },
{
    match name {
        Some(name) => Some(MetricType::from_str(name.as_str())),
        None => None,
    }
}

} // verus!

//! Recording sessions.

use crate::host::{fresh_id, now_millis};
use crate::text::views;
use std::collections::HashMap;
use vstd::prelude::*;

verus! {

/// How far a session has come.
#[derive(Debug, Clone, Copy, PartialEq, Eq)]
pub enum SessionStatus {
    Active,
    Completed,
    Aborted,
}

impl SessionStatus {
    /// The lower-case name under which the status is stored.
    pub open spec fn name(self) -> Seq<char> {
        match self {
            SessionStatus::Active => "active"@,
            SessionStatus::Completed => "completed"@,
            SessionStatus::Aborted => "aborted"@,
        }
    }

    /// The status that a stored name stands for; an unknown name reads as
    /// `Active`.
    pub open spec fn of_name(s: Seq<char>) -> SessionStatus {
        if s == "completed"@ {
            SessionStatus::Completed
        } else if s == "aborted"@ {
            SessionStatus::Aborted
        } else {
            SessionStatus::Active
        }
    }

    pub fn as_str(&self) -> (r: &'static str)
        ensures
            r@ == self.name(),
    {
        match self {
            SessionStatus::Active => "active",
            SessionStatus::Completed => "completed",
            SessionStatus::Aborted => "aborted",
        }
    }

    pub fn from_str(s: &str) -> (r: SessionStatus)
        ensures
            r == SessionStatus::of_name(s@),
    {
        if s.eq("completed") {
            SessionStatus::Completed
        } else if s.eq("aborted") {
            SessionStatus::Aborted
        } else {
            SessionStatus::Active
        }
    }

    /// Every status is read back from its own name.
    pub proof fn lemma_name_round_trip(status: SessionStatus)
        ensures
            SessionStatus::of_name(status.name()) == status,
    {
        reveal_strlit("active");
        reveal_strlit("completed");
        reveal_strlit("aborted");
        assert("active"@.len() == 6);
        assert("completed"@.len() == 9);
        assert("aborted"@.len() == 7);
    }
}

/// One recording session. Times are milliseconds since the epoch.
#[derive(Debug, Clone, PartialEq)]
pub struct Session {
    pub id: String,
    pub device_id: String,
    pub device_name: Option<String>,
    pub webview_url: Option<String>,
    pub package_name: Option<String>,
    pub target_title: Option<String>,
    pub started_at: i64,
    pub ended_at: Option<i64>,
    pub status: SessionStatus,
    /// A name that the user gave to the session.
    pub display_name: Option<String>,
    /// Tags that the user gave to the session.
    pub tags: Option<Vec<String>>,
    /// Free-form metadata; never shown to a user.
    pub metadata: Option<HashMap<String, serde_json::Value>>,
}

/// The character sequences of an optional list of texts.
pub open spec fn opt_views(texts: Option<Vec<String>>) -> Option<Seq<Seq<char>>> {
    match texts {
        Some(list) => Some(views(list@)),
        None => None,
    }
}

impl Session {
    /// The session that starts at `started_at` under the id `id`: active, not
    /// ended, without name, tags or metadata.
    pub open spec fn opened(
        id: String,
        started_at: i64,
        device_id: String,
        device_name: Option<String>,
        package_name: Option<String>,
        target_title: Option<String>,
        webview_url: Option<String>,
    ) -> Session {
        Session {
            id,
            device_id,
            device_name,
            webview_url,
            package_name,
            target_title,
            started_at,
            ended_at: None,
            status: SessionStatus::Active,
            display_name: None,
            tags: None,
            metadata: None,
        }
    }

    /// Builds [`Session::opened`].
    pub fn open(
        id: String,
        started_at: i64,
        device_id: String,
        device_name: Option<String>,
        package_name: Option<String>,
        target_title: Option<String>,
        webview_url: Option<String>,
    ) -> (r: Session)
        ensures
            r == Session::opened(
                id,
                started_at,
                device_id,
                device_name,
                package_name,
                target_title,
                webview_url,
            ),
    {
        Session {
            id,
            device_id,
            device_name,
            webview_url,
            package_name,
            target_title,
            started_at,
            ended_at: None,
            status: SessionStatus::Active,
            display_name: None,
            tags: None,
            metadata: None,
        }
    }

    /// A new session that starts now, under a fresh random id. Whatever id
    /// and time the machine gives, the rest is as [`Session::opened`] says.
    pub fn new(
        device_id: String,
        device_name: Option<String>,
        package_name: Option<String>,
        target_title: Option<String>,
        webview_url: Option<String>,
    ) -> (r: Session)
        ensures
            r == Session::opened(
                r.id,
                r.started_at,
                device_id,
                device_name,
                package_name,
                target_title,
                webview_url,
            ),
    {
        let id = fresh_id();
        let started_at = now_millis();
        Session::open(id, started_at, device_id, device_name, package_name, target_title, webview_url)
    }

    /// How long the session lasted, once it has ended.
    pub open spec fn lasted(self) -> Option<int> {
        match self.ended_at {
            Some(end) => Some(end - self.started_at),
            None => None,
        }
    }

    /// How long the session lasted in milliseconds, once it has ended. The
    /// difference has to fit the result.
    pub fn duration_ms(&self) -> (r: Option<i64>)
        requires
            self.lasted() matches Some(d) ==> i64::MIN <= d <= i64::MAX,
        ensures
            match r {
                Some(d) => self.lasted() == Some(d as int),
                None => self.lasted() is None,
            },
    {
        match self.ended_at {
            Some(end) => Some(end - self.started_at),
            None => None,
        }
    }
}

} // verus!

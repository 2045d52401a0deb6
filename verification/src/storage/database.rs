//! The statements of the store and the reading of its rows.
//!
//! Nothing here touches a database. A driver runs each statement with the
//! parameters given here and hands back the rows or the number of rows
//! changed.

use super::metrics::{MetricType, StoredMetric, StoredNetworkRequest};
use super::session::{opt_views, Session, SessionStatus};
use crate::json::{
    error_text, headers_from_json, headers_to_json, json_of_texts, metadata_from_json,
    metadata_to_json, texts_from_json, texts_of_json, texts_to_json,
};
use crate::text::{decimal, join, join_texts, opt_view, push_decimal, views};
use std::collections::HashMap;
use vstd::prelude::*;
use vstd::string::*;

verus! {

/// Why an operation of the store failed.
#[derive(Debug, Clone, PartialEq, Eq)]
pub enum StorageError {
    /// The database reported an error.
    Database(String),
    /// No session has this id.
    SessionNotFound(String),
    /// The file system reported an error.
    Io(String),
    /// A value could not be written as JSON or read from it.
    Serialization(String),
}

impl StorageError {
    /// The text of the error as it is shown to a user.
    pub open spec fn text(self) -> Seq<char> {
        match self {
            StorageError::Database(m) => "Database error: "@ + m@,
            StorageError::SessionNotFound(m) => "Session not found: "@ + m@,
            StorageError::Io(m) => "IO error: "@ + m@,
            StorageError::Serialization(m) => "Serialization error: "@ + m@,
        }
    }

    pub fn message(&self) -> (r: String)
        ensures
            r@ == self.text(),
    {
        match self {
            StorageError::Database(m) => "Database error: ".to_owned().concat(m.as_str()),
            StorageError::SessionNotFound(m) => "Session not found: ".to_owned().concat(
                m.as_str(),
            ),
            StorageError::Io(m) => "IO error: ".to_owned().concat(m.as_str()),
            StorageError::Serialization(m) => "Serialization error: ".to_owned().concat(
                m.as_str(),
            ),
        }
    }
}

/// The name of the database file inside the application's data directory.
pub const DB_FILE_NAME: &'static str = "awpa.db";

/// A value bound to a statement or read from a row.
#[derive(Debug, Clone, PartialEq, Eq)]
pub enum SqlValue {
    Null,
    Integer(i64),
    /// A decimal number in millionths, kept in a REAL column.
    Real(i128),
    Text(String),
}

/// What a [`SqlValue`] holds, with texts as character sequences.
pub enum SqlValueView {
    Null,
    Integer(i64),
    Real(i128),
    Text(Seq<char>),
}

impl View for SqlValue {
    type V = SqlValueView;

    open spec fn view(&self) -> SqlValueView {
        match *self {
            SqlValue::Null => SqlValueView::Null,
            SqlValue::Integer(n) => SqlValueView::Integer(n),
            SqlValue::Real(x) => SqlValueView::Real(x),
            SqlValue::Text(t) => SqlValueView::Text(t@),
        }
    }
}

/// The views of a list of values.
pub open spec fn value_views(values: Seq<SqlValue>) -> Seq<SqlValueView> {
    values.map_values(|v: SqlValue| v@)
}

/// A statement and the values bound to its numbered parameters, in order.
#[derive(Debug, Clone, PartialEq, Eq)]
pub struct Statement {
    pub sql: String,
    pub params: Vec<SqlValue>,
}

/// What a [`Statement`] holds, with texts as character sequences.
pub struct StatementView {
    pub sql: Seq<char>,
    pub params: Seq<SqlValueView>,
}

impl View for Statement {
    type V = StatementView;

    open spec fn view(&self) -> StatementView {
        StatementView { sql: self.sql@, params: value_views(self.params@) }
    }
}

/// The value for an optional text: the text, or NULL.
pub open spec fn text_or_null(text: Option<Seq<char>>) -> SqlValueView {
    match text {
        Some(t) => SqlValueView::Text(t),
        None => SqlValueView::Null,
    }
}

/// The value for an optional integer: the integer, or NULL.
pub open spec fn integer_or_null(n: Option<i64>) -> SqlValueView {
    match n {
        Some(n) => SqlValueView::Integer(n),
        None => SqlValueView::Null,
    }
}

/// The value for an optional decimal number: the number, or NULL.
pub open spec fn real_or_null(x: Option<int>) -> SqlValueView {
    match x {
        Some(x) => SqlValueView::Real(x as i128),
        None => SqlValueView::Null,
    }
}

fn bind_text(text: &Option<String>) -> (r: SqlValue)
    ensures
        r@ == text_or_null(opt_view(*text)),
{
    match text {
        Some(t) => SqlValue::Text(t.clone()),
        None => SqlValue::Null,
    }
}

fn bind_integer(n: Option<i64>) -> (r: SqlValue)
    ensures
        r@ == integer_or_null(n),
{
    match n {
        Some(n) => SqlValue::Integer(n),
        None => SqlValue::Null,
    }
}

/// The parameter with the number `n`.
pub open spec fn placeholder(n: nat) -> Seq<char> {
    "?"@ + decimal(n)
}

fn placeholder_text(n: u128) -> (r: String)
    ensures
        r@ == placeholder(n as nat),
{
    let mut out = "?".to_owned();
    push_decimal(&mut out, n);
    out
}

/// The clause that limits the number of rows, or nothing.
pub open spec fn limit_clause(limit: Option<u32>) -> Seq<char> {
    match limit {
        Some(n) => " LIMIT "@ + decimal(n as nat),
        None => Seq::empty(),
    }
}

fn limit_text(limit: Option<u32>) -> (r: String)
    ensures
        r@ == limit_clause(limit),
{
    match limit {
        Some(n) => {
            let mut out = " LIMIT ".to_owned();
            push_decimal(&mut out, n as u128);
            out
        },
        None => String::new(),
    }
}

/// One step of setting the schema up.
#[derive(Debug, Clone, PartialEq, Eq)]
pub struct SchemaStep {
    pub sql: &'static str,
    /// Whether a failure of the step fails the set-up. The steps that add a
    /// column to an older database fail where the column is there already,
    /// and that failure is passed over.
    pub required: bool,
}

pub const ENABLE_FOREIGN_KEYS: &'static str = "PRAGMA foreign_keys = ON";

pub const CREATE_SESSIONS: &'static str =
    "CREATE TABLE IF NOT EXISTS sessions (id TEXT PRIMARY KEY, device_id TEXT NOT NULL, device_name TEXT, webview_url TEXT, package_name TEXT, target_title TEXT, started_at INTEGER NOT NULL, ended_at INTEGER, status TEXT NOT NULL DEFAULT 'active', display_name TEXT, tags TEXT, metadata TEXT)";

pub const ADD_DISPLAY_NAME: &'static str = "ALTER TABLE sessions ADD COLUMN display_name TEXT";

pub const ADD_TAGS: &'static str = "ALTER TABLE sessions ADD COLUMN tags TEXT";

pub const CREATE_METRICS: &'static str =
    "CREATE TABLE IF NOT EXISTS metrics (id INTEGER PRIMARY KEY AUTOINCREMENT, session_id TEXT NOT NULL REFERENCES sessions(id) ON DELETE CASCADE, timestamp INTEGER NOT NULL, metric_type TEXT NOT NULL, data TEXT NOT NULL)";

pub const INDEX_METRICS: &'static str =
    "CREATE INDEX IF NOT EXISTS idx_metrics_session_time ON metrics(session_id, timestamp)";

pub const CREATE_NETWORK_REQUESTS: &'static str =
    "CREATE TABLE IF NOT EXISTS network_requests (id TEXT PRIMARY KEY, session_id TEXT NOT NULL REFERENCES sessions(id) ON DELETE CASCADE, url TEXT NOT NULL, method TEXT, status_code INTEGER, request_time INTEGER NOT NULL, response_time INTEGER, duration_ms REAL, size_bytes REAL, headers TEXT)";

pub const INDEX_NETWORK_REQUESTS: &'static str =
    "CREATE INDEX IF NOT EXISTS idx_network_session_time ON network_requests(session_id, request_time)";

pub const INSERT_SESSION: &'static str =
    "INSERT INTO sessions (id, device_id, device_name, webview_url, package_name, target_title, started_at, ended_at, status, display_name, tags, metadata) VALUES (?1, ?2, ?3, ?4, ?5, ?6, ?7, ?8, ?9, ?10, ?11, ?12)";

pub const END_SESSION: &'static str =
    "UPDATE sessions SET ended_at = ?1, status = 'completed' WHERE id = ?2";

pub const SELECT_SESSIONS: &'static str =
    "SELECT id, device_id, device_name, webview_url, package_name, target_title, started_at, ended_at, status, display_name, tags, metadata FROM sessions";

pub const DELETE_SESSION: &'static str = "DELETE FROM sessions WHERE id = ?1";

pub const UPDATE_SESSION_NAME: &'static str = "UPDATE sessions SET display_name = ?1 WHERE id = ?2";

pub const UPDATE_SESSION_TAGS: &'static str = "UPDATE sessions SET tags = ?1 WHERE id = ?2";

pub const INSERT_METRIC: &'static str =
    "INSERT INTO metrics (session_id, timestamp, metric_type, data) VALUES (?1, ?2, ?3, ?4)";

pub const SELECT_METRICS: &'static str =
    "SELECT id, session_id, timestamp, metric_type, data FROM metrics";

pub const UPSERT_NETWORK_REQUEST: &'static str =
    "INSERT OR REPLACE INTO network_requests (id, session_id, url, method, status_code, request_time, response_time, duration_ms, size_bytes, headers) VALUES (?1, ?2, ?3, ?4, ?5, ?6, ?7, ?8, ?9, ?10)";

pub const SELECT_NETWORK_REQUESTS: &'static str =
    "SELECT id, session_id, url, method, status_code, request_time, response_time, duration_ms, size_bytes, headers FROM network_requests WHERE session_id = ?1 ORDER BY request_time ASC";

/// The steps that set the schema up, in order.
pub open spec fn schema() -> Seq<SchemaStep> {
    seq![
        SchemaStep { sql: ENABLE_FOREIGN_KEYS, required: true },
        SchemaStep { sql: CREATE_SESSIONS, required: true },
        SchemaStep { sql: ADD_DISPLAY_NAME, required: false },
        SchemaStep { sql: ADD_TAGS, required: false },
        SchemaStep { sql: CREATE_METRICS, required: true },
        SchemaStep { sql: INDEX_METRICS, required: true },
        SchemaStep { sql: CREATE_NETWORK_REQUESTS, required: true },
        SchemaStep { sql: INDEX_NETWORK_REQUESTS, required: true },
    ]
}

/// Builds [`schema`].
pub fn initialize() -> (r: Vec<SchemaStep>)
    ensures
        r@ == schema(),
{
    let mut steps: Vec<SchemaStep> = Vec::new();
    steps.push(SchemaStep { sql: ENABLE_FOREIGN_KEYS, required: true });
    steps.push(SchemaStep { sql: CREATE_SESSIONS, required: true });
    steps.push(SchemaStep { sql: ADD_DISPLAY_NAME, required: false });
    steps.push(SchemaStep { sql: ADD_TAGS, required: false });
    steps.push(SchemaStep { sql: CREATE_METRICS, required: true });
    steps.push(SchemaStep { sql: INDEX_METRICS, required: true });
    steps.push(SchemaStep { sql: CREATE_NETWORK_REQUESTS, required: true });
    steps.push(SchemaStep { sql: INDEX_NETWORK_REQUESTS, required: true });
    assert(steps@ =~= schema());
    steps
}

/// Reads the number of rows that a statement on one session changed: none
/// means that the session does not exist.
pub fn session_changed(session_id: &str, rows: usize) -> (r: Result<(), StorageError>)
    ensures
        match r {
            Ok(_) => rows != 0,
            Err(e) => {
                &&& rows == 0
                &&& e matches StorageError::SessionNotFound(id)
                &&& id@ == session_id@
            },
        },
{
    if rows == 0 {
        Err(StorageError::SessionNotFound(session_id.to_owned()))
    } else {
        Ok(())
    }
}

/// The first ten values of a session's row: every column before the tags.
pub open spec fn session_columns(session: Session) -> Seq<SqlValueView> {
    seq![
        SqlValueView::Text(session.id@),
        SqlValueView::Text(session.device_id@),
        text_or_null(opt_view(session.device_name)),
        text_or_null(opt_view(session.webview_url)),
        text_or_null(opt_view(session.package_name)),
        text_or_null(opt_view(session.target_title)),
        SqlValueView::Integer(session.started_at),
        integer_or_null(session.ended_at),
        SqlValueView::Text(session.status.name()),
        text_or_null(opt_view(session.display_name)),
    ]
}

/// The statement that inserts a session, given the JSON texts of its tags
/// and of its metadata.
pub open spec fn session_insert(
    session: Session,
    tags_json: Option<Seq<char>>,
    metadata_json: Option<Seq<char>>,
) -> StatementView {
    StatementView {
        sql: INSERT_SESSION@,
        params: session_columns(session).push(text_or_null(tags_json)).push(
            text_or_null(metadata_json),
        ),
    }
}

/// The JSON text of optional tags.
pub open spec fn written_tags(tags: Option<Seq<Seq<char>>>) -> Option<Seq<char>> {
    match tags {
        Some(tags) => Some(json_of_texts(tags)),
        None => None,
    }
}

/// Builds [`session_insert`].
pub fn insert_session(
    session: &Session,
    tags_json: Option<String>,
    metadata_json: Option<String>,
) -> (r: Statement)
    ensures
        r@ == session_insert(*session, opt_view(tags_json), opt_view(metadata_json)),
{
    let mut params: Vec<SqlValue> = Vec::new();
    params.push(SqlValue::Text(session.id.clone()));
    params.push(SqlValue::Text(session.device_id.clone()));
    params.push(bind_text(&session.device_name));
    params.push(bind_text(&session.webview_url));
    params.push(bind_text(&session.package_name));
    params.push(bind_text(&session.target_title));
    params.push(SqlValue::Integer(session.started_at));
    params.push(bind_integer(session.ended_at));
    params.push(SqlValue::Text(session.status.as_str().to_owned()));
    params.push(bind_text(&session.display_name));
    params.push(bind_text(&tags_json));
    params.push(bind_text(&metadata_json));
    let r = Statement { sql: INSERT_SESSION.to_owned(), params };
    assert(r@.params =~= session_insert(
        *session,
        opt_view(tags_json),
        opt_view(metadata_json),
    ).params);
    r
}

/// The JSON error as an error of the store: a `Serialization` error that
/// carries the JSON library's message. The message is that library's own and
/// nothing is claimed of it.
fn serialization_error(error: &serde_json::Error) -> (r: StorageError)
    ensures
        r is Serialization,
{
    StorageError::Serialization(error_text(error))
}

/// The statement that inserts a session. Metadata and tags are written as
/// JSON first, in this order. Writing tags always works; where writing the
/// metadata fails, so does the whole. A session without metadata always
/// gives a statement.
pub fn create_session(session: &Session) -> (r: Result<Statement, StorageError>)
    ensures
        session.metadata is None ==> r is Ok,
        match r {
            Ok(statement) => exists|metadata_json: Option<Seq<char>>|
                {
                    &&& metadata_json is Some <==> session.metadata is Some
                    &&& #[trigger] session_insert(
                        *session,
                        written_tags(opt_views(session.tags)),
                        metadata_json,
                    ) == statement@
                },
            Err(e) => e is Serialization && session.metadata is Some,
        },
{
    let metadata_json = match &session.metadata {
        Some(metadata) => match metadata_to_json(metadata) {
            Ok(json) => Some(json),
            Err(error) => {
                return Err(serialization_error(&error));
            },
        },
        None => None,
    };
    let tags_json = match &session.tags {
        Some(tags) => match texts_to_json(tags) {
            Ok(json) => Some(json),
            Err(error) => {
                return Err(serialization_error(&error));
            },
        },
        None => None,
    };
    let ghost metadata_view = opt_view(metadata_json);
    let statement = insert_session(session, tags_json, metadata_json);
    assert(session_insert(*session, written_tags(opt_views(session.tags)), metadata_view)
        == statement@);
    Ok(statement)
}

/// The statement that marks a session as completed at `ended_at`.
pub open spec fn session_end(session_id: Seq<char>, ended_at: i64) -> StatementView {
    StatementView {
        sql: END_SESSION@,
        params: seq![SqlValueView::Integer(ended_at), SqlValueView::Text(session_id)],
    }
}

/// Builds [`session_end`].
pub fn end_session(session_id: &str, ended_at: i64) -> (r: Statement)
    ensures
        r@ == session_end(session_id@, ended_at),
{
    let mut params: Vec<SqlValue> = Vec::new();
    params.push(SqlValue::Integer(ended_at));
    params.push(SqlValue::Text(session_id.to_owned()));
    let r = Statement { sql: END_SESSION.to_owned(), params };
    assert(r@.params =~= seq![SqlValueView::Integer(ended_at), SqlValueView::Text(session_id@)]);
    r
}

/// The statement that reads one session.
pub fn get_session(session_id: &str) -> (r: Statement)
    ensures
        r@ == (StatementView {
            sql: SELECT_SESSIONS@ + " WHERE id = ?1"@,
            params: seq![SqlValueView::Text(session_id@)],
        }),
{
    let mut params: Vec<SqlValue> = Vec::new();
    params.push(SqlValue::Text(session_id.to_owned()));
    let r = Statement { sql: SELECT_SESSIONS.to_owned().concat(" WHERE id = ?1"), params };
    assert(r@.params =~= seq![SqlValueView::Text(session_id@)]);
    r
}

/// The statement that lists the sessions, newest first.
pub fn list_sessions(limit: Option<u32>) -> (r: Statement)
    ensures
        r@ == (StatementView {
            sql: SELECT_SESSIONS@ + " ORDER BY started_at DESC"@ + limit_clause(limit),
            params: Seq::empty(),
        }),
{
    let mut sql = SELECT_SESSIONS.to_owned();
    sql.append(" ORDER BY started_at DESC");
    sql.append(limit_text(limit).as_str());
    let r = Statement { sql, params: Vec::new() };
    assert(r@.params =~= Seq::<SqlValueView>::empty());
    r
}

/// The statement that deletes a session and, through the schema, all that
/// belongs to it.
pub fn delete_session(session_id: &str) -> (r: Statement)
    ensures
        r@ == (StatementView {
            sql: DELETE_SESSION@,
            params: seq![SqlValueView::Text(session_id@)],
        }),
{
    let mut params: Vec<SqlValue> = Vec::new();
    params.push(SqlValue::Text(session_id.to_owned()));
    let r = Statement { sql: DELETE_SESSION.to_owned(), params };
    assert(r@.params =~= seq![SqlValueView::Text(session_id@)]);
    r
}

/// The statement that sets or clears the name of a session.
pub fn update_session_name(session_id: &str, display_name: Option<&str>) -> (r: Statement)
    ensures
        r@ == (StatementView {
            sql: UPDATE_SESSION_NAME@,
            params: seq![
                match display_name {
                    Some(name) => SqlValueView::Text(name@),
                    None => SqlValueView::Null,
                },
                SqlValueView::Text(session_id@),
            ],
        }),
{
    let mut params: Vec<SqlValue> = Vec::new();
    params.push(
        match display_name {
            Some(name) => SqlValue::Text(name.to_owned()),
            None => SqlValue::Null,
        },
    );
    params.push(SqlValue::Text(session_id.to_owned()));
    let r = Statement { sql: UPDATE_SESSION_NAME.to_owned(), params };
    assert(r@.params =~= seq![
        match display_name {
            Some(name) => SqlValueView::Text(name@),
            None => SqlValueView::Null,
        },
        SqlValueView::Text(session_id@),
    ]);
    r
}

/// The statement that sets or clears the tags of a session, given their JSON
/// text.
pub open spec fn tags_update(session_id: Seq<char>, tags_json: Option<Seq<char>>) -> StatementView {
    StatementView {
        sql: UPDATE_SESSION_TAGS@,
        params: seq![text_or_null(tags_json), SqlValueView::Text(session_id)],
    }
}

/// Builds [`tags_update`].
pub fn set_session_tags(session_id: &str, tags_json: Option<String>) -> (r: Statement)
    ensures
        r@ == tags_update(session_id@, opt_view(tags_json)),
{
    let mut params: Vec<SqlValue> = Vec::new();
    params.push(bind_text(&tags_json));
    params.push(SqlValue::Text(session_id.to_owned()));
    let r = Statement { sql: UPDATE_SESSION_TAGS.to_owned(), params };
    assert(r@.params =~= tags_update(session_id@, opt_view(tags_json)).params);
    r
}

/// The statement that sets or clears the tags of a session, with the tags
/// written as JSON. It always gives a statement.
pub fn update_session_tags(session_id: &str, tags: Option<&Vec<String>>) -> (r: Result<
    Statement,
    StorageError,
>)
    ensures
        r matches Ok(statement) && statement@ == tags_update(
            session_id@,
            match tags {
                Some(tags) => Some(json_of_texts(views(tags@))),
                None => None,
            },
        ),
{
    let tags_json = match tags {
        Some(tags) => match texts_to_json(tags) {
            Ok(json) => Some(json),
            Err(error) => {
                return Err(serialization_error(&error));
            },
        },
        None => None,
    };
    Ok(set_session_tags(session_id, tags_json))
}

/// The condition that matches a text against name, title and package.
pub open spec fn query_condition(n: nat) -> Seq<char> {
    "(display_name LIKE "@ + placeholder(n) + " OR target_title LIKE "@ + placeholder(n)
        + " OR package_name LIKE "@ + placeholder(n) + ")"@
}

/// One condition for each tag, on parameters numbered from `first`.
pub open spec fn tag_conditions(first: nat, count: nat) -> Seq<Seq<char>> {
    Seq::new(count, |k: int| "tags LIKE "@ + placeholder((first + k) as nat))
}

/// The conditions of a search, in order: text, device, status, tags. Each of
/// the first three takes the next parameter number; the tags take one each
/// and are joined into one condition, any of which may hold.
pub open spec fn search_conditions(query: bool, device: bool, status: bool, tags: nat) -> Seq<
    Seq<char>,
> {
    let with_query = if query {
        seq![query_condition(1)]
    } else {
        Seq::empty()
    };
    let with_device = if device {
        with_query.push("device_id = "@ + placeholder(with_query.len() + 1))
    } else {
        with_query
    };
    let with_status = if status {
        with_device.push("status = "@ + placeholder(with_device.len() + 1))
    } else {
        with_device
    };
    if tags > 0 {
        with_status.push(
            "("@ + join(tag_conditions(with_status.len() + 1, tags), " OR "@) + ")"@,
        )
    } else {
        with_status
    }
}

/// The clause that holds all conditions, or nothing where there is none.
pub open spec fn where_clause(conditions: Seq<Seq<char>>) -> Seq<char> {
    if conditions.len() == 0 {
        Seq::empty()
    } else {
        " WHERE "@ + join(conditions, " AND "@)
    }
}

/// The pattern for a tag: anything, and then the tag in double quotes at
/// the very end.
pub open spec fn tag_pattern(tag: Seq<char>) -> Seq<char> {
    "%\""@ + tag + "\""@
}

/// One pattern for each tag.
pub open spec fn tag_patterns(tags: Seq<Seq<char>>) -> Seq<SqlValueView> {
    tags.map_values(|t: Seq<char>| SqlValueView::Text(tag_pattern(t)))
}

/// The value for an optional filter: one text, or none.
pub open spec fn filter_value(filter: Option<Seq<char>>) -> Seq<SqlValueView> {
    match filter {
        Some(t) => seq![SqlValueView::Text(t)],
        None => Seq::empty(),
    }
}

/// The pattern that finds a text anywhere.
pub open spec fn anywhere(query: Option<Seq<char>>) -> Option<Seq<char>> {
    match query {
        Some(q) => Some("%"@ + q + "%"@),
        None => None,
    }
}

/// The search for sessions: the statement and its parameters.
pub open spec fn session_search(
    query: Option<Seq<char>>,
    device_id: Option<Seq<char>>,
    status: Option<Seq<char>>,
    tags: Option<Seq<Seq<char>>>,
    limit: Option<u32>,
) -> StatementView {
    let tag_list = match tags {
        Some(t) => t,
        None => Seq::empty(),
    };
    StatementView {
        sql: SELECT_SESSIONS@ + where_clause(
            search_conditions(query is Some, device_id is Some, status is Some, tag_list.len()),
        ) + " ORDER BY started_at DESC"@ + limit_clause(limit),
        params: filter_value(anywhere(query)) + filter_value(device_id) + filter_value(status)
            + tag_patterns(tag_list),
    }
}

fn where_text(conditions: &Vec<String>) -> (r: String)
    ensures
        r@ == where_clause(views(conditions@)),
{
    if conditions.len() == 0 {
        String::new()
    } else {
        " WHERE ".to_owned().concat(join_texts(conditions, " AND ").as_str())
    }
}

fn tag_condition_texts(first: u128, count: usize) -> (r: Vec<String>)
    requires
        first + count <= u128::MAX,
    ensures
        views(r@) == tag_conditions(first as nat, count as nat),
{
    let mut out: Vec<String> = Vec::new();
    let mut k: usize = 0;
    assert(views(out@) =~= tag_conditions(first as nat, 0));
    while k < count
        invariant
            k <= count,
            first + count <= u128::MAX,
            views(out@) == tag_conditions(first as nat, k as nat),
        decreases count - k,
    {
        let condition = "tags LIKE ".to_owned().concat(placeholder_text(first + k as u128).as_str());
        let ghost earlier = views(out@);
        out.push(condition);
        assert(views(out@) =~= earlier.push(condition@));
        assert(earlier.push(condition@) =~= tag_conditions(first as nat, (k + 1) as nat));
        k += 1;
    }
    out
}

/// The statement that searches the sessions, newest first. A text is looked
/// for anywhere in name, title and package; device and status must match
/// exactly. Each tag gives one pattern, and one pattern that fits is enough;
/// a pattern fits a stored tags text that ends with the tag in double
/// quotes.
pub fn search_sessions(
    query: Option<&str>,
    device_id: Option<&str>,
    status: Option<&str>,
    tags: Option<&Vec<String>>,
    limit: Option<u32>,
) -> (r: Statement)
    ensures
        r@ == session_search(
            match query {
                Some(q) => Some(q@),
                None => None,
            },
            match device_id {
                Some(d) => Some(d@),
                None => None,
            },
            match status {
                Some(s) => Some(s@),
                None => None,
            },
            match tags {
                Some(t) => Some(views(t@)),
                None => None,
            },
            limit,
        ),
{
    let mut conditions: Vec<String> = Vec::new();
    let mut params: Vec<SqlValue> = Vec::new();
    assert(views(conditions@) =~= Seq::<Seq<char>>::empty());
    assert(value_views(params@) =~= Seq::<SqlValueView>::empty());
    if let Some(q) = query {
        let ph = placeholder_text(1);
        let mut condition = "(display_name LIKE ".to_owned();
        condition.append(ph.as_str());
        condition.append(" OR target_title LIKE ");
        condition.append(ph.as_str());
        condition.append(" OR package_name LIKE ");
        condition.append(ph.as_str());
        condition.append(")");
        conditions.push(condition);
        assert(views(conditions@) =~= seq![query_condition(1)]);
        let mut pattern = "%".to_owned();
        pattern.append(q);
        pattern.append("%");
        params.push(SqlValue::Text(pattern));
        assert(value_views(params@) =~= filter_value(anywhere(Some(q@))));
    }
    let ghost with_query = views(conditions@);
    let ghost query_values = value_views(params@);
    if let Some(d) = device_id {
        let condition = "device_id = ".to_owned().concat(
            placeholder_text(conditions.len() as u128 + 1).as_str(),
        );
        conditions.push(condition);
        assert(views(conditions@) =~= with_query.push(condition@));
        params.push(SqlValue::Text(d.to_owned()));
        assert(value_views(params@) =~= query_values + filter_value(Some(d@)));
    } else {
        assert(value_views(params@) =~= query_values + filter_value(None));
    }
    let ghost with_device = views(conditions@);
    let ghost device_values = value_views(params@);
    if let Some(s) = status {
        let condition = "status = ".to_owned().concat(
            placeholder_text(conditions.len() as u128 + 1).as_str(),
        );
        conditions.push(condition);
        assert(views(conditions@) =~= with_device.push(condition@));
        params.push(SqlValue::Text(s.to_owned()));
        assert(value_views(params@) =~= device_values + filter_value(Some(s@)));
    } else {
        assert(value_views(params@) =~= device_values + filter_value(None));
    }
    let ghost with_status = views(conditions@);
    let ghost status_values = value_views(params@);
    let ghost tag_list = match tags {
        Some(t) => views(t@),
        None => Seq::<Seq<char>>::empty(),
    };
    if let Some(list) = tags {
        if list.len() > 0 {
            let tag_texts = tag_condition_texts(conditions.len() as u128 + 1, list.len());
            let mut condition = "(".to_owned();
            condition.append(join_texts(&tag_texts, " OR ").as_str());
            condition.append(")");
            conditions.push(condition);
            assert(views(conditions@) =~= with_status.push(condition@));
        }
        let mut k: usize = 0;
        assert(tag_list.take(0) =~= Seq::<Seq<char>>::empty());
        assert(value_views(params@) =~= status_values + tag_patterns(tag_list.take(0)));
        while k < list.len()
            invariant
                k <= list@.len(),
                tag_list == views(list@),
                value_views(params@) == status_values + tag_patterns(tag_list.take(k as int)),
            decreases list@.len() - k,
        {
            let mut pattern = "%\"".to_owned();
            pattern.append(list[k].as_str());
            pattern.append("\"");
            let ghost earlier = value_views(params@);
            params.push(SqlValue::Text(pattern));
            assert(value_views(params@) =~= earlier.push(SqlValueView::Text(pattern@)));
            assert(tag_list.take(k + 1) =~= tag_list.take(k as int).push(list@[k as int]@));
            assert(tag_patterns(tag_list.take(k + 1)) =~= tag_patterns(
                tag_list.take(k as int),
            ).push(SqlValueView::Text(tag_pattern(list@[k as int]@))));
            assert(value_views(params@) =~= status_values + tag_patterns(tag_list.take(k + 1)));
            k += 1;
        }
        assert(tag_list.take(k as int) =~= tag_list);
    } else {
        assert(tag_patterns(tag_list) =~= Seq::<SqlValueView>::empty());
        assert(value_views(params@) =~= status_values + tag_patterns(tag_list));
    }
    let mut sql = SELECT_SESSIONS.to_owned();
    sql.append(where_text(&conditions).as_str());
    sql.append(" ORDER BY started_at DESC");
    sql.append(limit_text(limit).as_str());
    Statement { sql, params }
}

/// One row of the sessions table, column by column.
#[derive(Debug, Clone, PartialEq, Eq)]
pub struct SessionRow {
    pub id: String,
    pub device_id: String,
    pub device_name: Option<String>,
    pub webview_url: Option<String>,
    pub package_name: Option<String>,
    pub target_title: Option<String>,
    pub started_at: i64,
    pub ended_at: Option<i64>,
    pub status: String,
    pub display_name: Option<String>,
    pub tags: Option<String>,
    pub metadata: Option<String>,
}

/// The session that a row holds, given what its tags and its metadata were
/// read as.
pub open spec fn session_of_row(
    row: SessionRow,
    tags: Option<Vec<String>>,
    metadata: Option<HashMap<String, serde_json::Value>>,
) -> Session {
    Session {
        id: row.id,
        device_id: row.device_id,
        device_name: row.device_name,
        webview_url: row.webview_url,
        package_name: row.package_name,
        target_title: row.target_title,
        started_at: row.started_at,
        ended_at: row.ended_at,
        status: SessionStatus::of_name(row.status@),
        display_name: row.display_name,
        tags,
        metadata,
    }
}

/// Builds [`session_of_row`].
pub fn read_session(
    row: SessionRow,
    tags: Option<Vec<String>>,
    metadata: Option<HashMap<String, serde_json::Value>>,
) -> (r: Session)
    ensures
        r == session_of_row(row, tags, metadata),
{
    let status = SessionStatus::from_str(row.status.as_str());
    Session {
        id: row.id,
        device_id: row.device_id,
        device_name: row.device_name,
        webview_url: row.webview_url,
        package_name: row.package_name,
        target_title: row.target_title,
        started_at: row.started_at,
        ended_at: row.ended_at,
        status,
        display_name: row.display_name,
        tags,
        metadata,
    }
}

/// The tags that a stored JSON text holds.
pub open spec fn read_tags(json: Option<Seq<char>>) -> Option<Seq<Seq<char>>> {
    match json {
        Some(json) => texts_of_json(json),
        None => None,
    }
}

/// Whether the stored tags can be read: there are none, or their text is the
/// JSON of a list of texts.
pub open spec fn tags_readable(json: Option<Seq<char>>) -> bool {
    json matches Some(json) ==> texts_of_json(json) is Some
}

/// Reads one row of the sessions table. Tags and metadata are read from
/// their JSON texts, in this order; where that fails, so does the whole. A
/// row without metadata and with readable tags always gives a session.
pub fn row_to_session(row: SessionRow) -> (r: Result<Session, StorageError>)
    ensures
        tags_readable(opt_view(row.tags)) && row.metadata is None ==> r is Ok,
        match r {
            Ok(session) => {
                &&& tags_readable(opt_view(row.tags))
                &&& opt_views(session.tags) == read_tags(opt_view(row.tags))
                &&& session.metadata is Some <==> row.metadata is Some
                &&& session == session_of_row(row, session.tags, session.metadata)
            },
            Err(e) => {
                &&& e is Serialization
                &&& !tags_readable(opt_view(row.tags)) || row.metadata is Some
            },
        },
{
    let tags = match &row.tags {
        Some(json) => match texts_from_json(json.as_str()) {
            Ok(tags) => Some(tags),
            Err(error) => {
                return Err(serialization_error(&error));
            },
        },
        None => None,
    };
    let metadata = match &row.metadata {
        Some(json) => match metadata_from_json(json.as_str()) {
            Ok(metadata) => Some(metadata),
            Err(error) => {
                return Err(serialization_error(&error));
            },
        },
        None => None,
    };
    Ok(read_session(row, tags, metadata))
}

/// The statement that stores one metric sample.
pub fn store_metric(metric: &StoredMetric) -> (r: Statement)
    ensures
        r@ == (StatementView {
            sql: INSERT_METRIC@,
            params: seq![
                SqlValueView::Text(metric.session_id@),
                SqlValueView::Integer(metric.timestamp),
                SqlValueView::Text(metric.metric_type.name()),
                SqlValueView::Text(metric.data@),
            ],
        }),
{
    let mut params: Vec<SqlValue> = Vec::new();
    params.push(SqlValue::Text(metric.session_id.clone()));
    params.push(SqlValue::Integer(metric.timestamp));
    params.push(SqlValue::Text(metric.metric_type.as_str().to_owned()));
    params.push(SqlValue::Text(metric.data.clone()));
    let r = Statement { sql: INSERT_METRIC.to_owned(), params };
    assert(r@.params =~= seq![
        SqlValueView::Text(metric.session_id@),
        SqlValueView::Integer(metric.timestamp),
        SqlValueView::Text(metric.metric_type.name()),
        SqlValueView::Text(metric.data@),
    ]);
    r
}

/// The conditions on the samples of a session, in order: the session under
/// the first parameter, then kind, earliest and latest time, each under the
/// next parameter number.
pub open spec fn metric_conditions(kind: bool, start: bool, end: bool) -> Seq<Seq<char>> {
    let of_session = seq!["session_id = ?1"@];
    let with_kind = if kind {
        of_session.push("metric_type = "@ + placeholder(of_session.len() + 1))
    } else {
        of_session
    };
    let with_start = if start {
        with_kind.push("timestamp >= "@ + placeholder(with_kind.len() + 1))
    } else {
        with_kind
    };
    if end {
        with_start.push("timestamp <= "@ + placeholder(with_start.len() + 1))
    } else {
        with_start
    }
}

/// The value for an optional time: one integer, or none.
pub open spec fn time_value(time: Option<i64>) -> Seq<SqlValueView> {
    match time {
        Some(t) => seq![SqlValueView::Integer(t)],
        None => Seq::empty(),
    }
}

/// The query for the samples of a session: the statement and its parameters.
pub open spec fn metric_query(
    session_id: Seq<char>,
    metric_type: Option<MetricType>,
    start_time: Option<i64>,
    end_time: Option<i64>,
    limit: Option<u32>,
) -> StatementView {
    StatementView {
        sql: SELECT_METRICS@ + where_clause(
            metric_conditions(metric_type is Some, start_time is Some, end_time is Some),
        ) + " ORDER BY timestamp ASC"@ + limit_clause(limit),
        params: seq![SqlValueView::Text(session_id)] + filter_value(
            match metric_type {
                Some(kind) => Some(kind.name()),
                None => None,
            },
        ) + time_value(start_time) + time_value(end_time),
    }
}

/// The statement that reads the samples of a session, oldest first, of one
/// kind and between two times where these are given.
pub fn get_metrics(
    session_id: &str,
    metric_type: Option<MetricType>,
    start_time: Option<i64>,
    end_time: Option<i64>,
    limit: Option<u32>,
) -> (r: Statement)
    ensures
        r@ == metric_query(session_id@, metric_type, start_time, end_time, limit),
{
    let mut conditions: Vec<String> = Vec::new();
    let mut params: Vec<SqlValue> = Vec::new();
    conditions.push("session_id = ?1".to_owned());
    params.push(SqlValue::Text(session_id.to_owned()));
    assert(views(conditions@) =~= seq!["session_id = ?1"@]);
    assert(value_views(params@) =~= seq![SqlValueView::Text(session_id@)]);
    let ghost of_session = views(conditions@);
    let ghost session_values = value_views(params@);
    if let Some(kind) = metric_type {
        let condition = "metric_type = ".to_owned().concat(
            placeholder_text(conditions.len() as u128 + 1).as_str(),
        );
        conditions.push(condition);
        assert(views(conditions@) =~= of_session.push(condition@));
        params.push(SqlValue::Text(kind.as_str().to_owned()));
        assert(value_views(params@) =~= session_values + filter_value(Some(kind.name())));
    } else {
        assert(value_views(params@) =~= session_values + filter_value(None));
    }
    let ghost with_kind = views(conditions@);
    let ghost kind_values = value_views(params@);
    if let Some(start) = start_time {
        let condition = "timestamp >= ".to_owned().concat(
            placeholder_text(conditions.len() as u128 + 1).as_str(),
        );
        conditions.push(condition);
        assert(views(conditions@) =~= with_kind.push(condition@));
        params.push(SqlValue::Integer(start));
        assert(value_views(params@) =~= kind_values + time_value(Some(start)));
    } else {
        assert(value_views(params@) =~= kind_values + time_value(None));
    }
    let ghost with_start = views(conditions@);
    let ghost start_values = value_views(params@);
    if let Some(end) = end_time {
        let condition = "timestamp <= ".to_owned().concat(
            placeholder_text(conditions.len() as u128 + 1).as_str(),
        );
        conditions.push(condition);
        assert(views(conditions@) =~= with_start.push(condition@));
        params.push(SqlValue::Integer(end));
        assert(value_views(params@) =~= start_values + time_value(Some(end)));
    } else {
        assert(value_views(params@) =~= start_values + time_value(None));
    }
    let mut sql = SELECT_METRICS.to_owned();
    sql.append(where_text(&conditions).as_str());
    sql.append(" ORDER BY timestamp ASC");
    sql.append(limit_text(limit).as_str());
    Statement { sql, params }
}

/// One row of the metrics table, column by column.
#[derive(Debug, Clone, PartialEq, Eq)]
pub struct MetricRow {
    pub id: i64,
    pub session_id: String,
    pub timestamp: i64,
    pub metric_type: String,
    pub data: String,
}

/// Reads one row of the metrics table.
pub fn row_to_metric(row: MetricRow) -> (r: StoredMetric)
    ensures
        r == (StoredMetric {
            id: Some(row.id),
            session_id: row.session_id,
            timestamp: row.timestamp,
            metric_type: MetricType::of_name(row.metric_type@),
            data: row.data,
        }),
{
    let metric_type = MetricType::from_str(row.metric_type.as_str());
    StoredMetric {
        id: Some(row.id),
        session_id: row.session_id,
        timestamp: row.timestamp,
        metric_type,
        data: row.data,
    }
}

/// The statement that stores a network request under its id, replacing what
/// was stored under it, given the JSON text of its headers.
pub open spec fn network_request_upsert(
    request: StoredNetworkRequest,
    headers_json: Option<Seq<char>>,
) -> StatementView {
    StatementView {
        sql: UPSERT_NETWORK_REQUEST@,
        params: seq![
            SqlValueView::Text(request.id@),
            SqlValueView::Text(request.session_id@),
            SqlValueView::Text(request.url@),
            text_or_null(opt_view(request.method)),
            match request.status_code {
                Some(code) => SqlValueView::Integer(code as i64),
                None => SqlValueView::Null,
            },
            SqlValueView::Integer(request.request_time),
            integer_or_null(request.response_time),
            match request.duration_ms {
                Some(d) => SqlValueView::Real(d),
                None => SqlValueView::Null,
            },
            match request.size_bytes {
                Some(n) => SqlValueView::Real(n as i128),
                None => SqlValueView::Null,
            },
            text_or_null(headers_json),
        ],
    }
}

/// Builds [`network_request_upsert`].
pub fn upsert_network_request(request: &StoredNetworkRequest, headers_json: Option<String>) -> (r:
    Statement)
    ensures
        r@ == network_request_upsert(*request, opt_view(headers_json)),
{
    let mut params: Vec<SqlValue> = Vec::new();
    params.push(SqlValue::Text(request.id.clone()));
    params.push(SqlValue::Text(request.session_id.clone()));
    params.push(SqlValue::Text(request.url.clone()));
    params.push(bind_text(&request.method));
    params.push(
        match request.status_code {
            Some(code) => SqlValue::Integer(code as i64),
            None => SqlValue::Null,
        },
    );
    params.push(SqlValue::Integer(request.request_time));
    params.push(bind_integer(request.response_time));
    params.push(
        match request.duration_ms {
            Some(d) => SqlValue::Real(d),
            None => SqlValue::Null,
        },
    );
    params.push(
        match request.size_bytes {
            Some(n) => SqlValue::Real(n as i128),
            None => SqlValue::Null,
        },
    );
    params.push(bind_text(&headers_json));
    let r = Statement { sql: UPSERT_NETWORK_REQUEST.to_owned(), params };
    assert(r@.params =~= network_request_upsert(*request, opt_view(headers_json)).params);
    r
}

/// The statement that stores a network request under its id, with the
/// headers written as JSON. It always gives a statement.
pub fn store_network_request(request: &StoredNetworkRequest) -> (r: Result<
    Statement,
    StorageError,
>)
    ensures
        r matches Ok(statement) && exists|headers_json: Option<Seq<char>>|
            {
                &&& headers_json is Some <==> request.headers is Some
                &&& #[trigger] network_request_upsert(*request, headers_json) == statement@
            },
{
    let headers_json = match &request.headers {
        Some(headers) => match headers_to_json(headers) {
            Ok(json) => Some(json),
            Err(error) => {
                return Err(serialization_error(&error));
            },
        },
        None => None,
    };
    let ghost headers_view = opt_view(headers_json);
    let statement = upsert_network_request(request, headers_json);
    assert(network_request_upsert(*request, headers_view) == statement@);
    Ok(statement)
}

/// The statement that reads the network requests of a session, oldest
/// first.
pub fn get_network_requests(session_id: &str, limit: Option<u32>) -> (r: Statement)
    ensures
        r@ == (StatementView {
            sql: SELECT_NETWORK_REQUESTS@ + limit_clause(limit),
            params: seq![SqlValueView::Text(session_id@)],
        }),
{
    let mut params: Vec<SqlValue> = Vec::new();
    params.push(SqlValue::Text(session_id.to_owned()));
    let mut sql = SELECT_NETWORK_REQUESTS.to_owned();
    sql.append(limit_text(limit).as_str());
    let r = Statement { sql, params };
    assert(r@.params =~= seq![SqlValueView::Text(session_id@)]);
    r
}

/// One row of the network requests table, column by column.
#[derive(Debug, Clone, PartialEq, Eq)]
pub struct NetworkRequestRow {
    pub id: String,
    pub session_id: String,
    pub url: String,
    pub method: Option<String>,
    pub status_code: Option<i32>,
    pub request_time: i64,
    pub response_time: Option<i64>,
    pub duration_ms: Option<i128>,
    pub size_bytes: Option<i64>,
    pub headers: Option<String>,
}

/// The request that a row holds, given what its headers were read as.
pub open spec fn network_request_of_row(
    row: NetworkRequestRow,
    headers: Option<HashMap<String, String>>,
) -> StoredNetworkRequest {
    StoredNetworkRequest {
        id: row.id,
        session_id: row.session_id,
        url: row.url,
        method: row.method,
        status_code: row.status_code,
        request_time: row.request_time,
        response_time: row.response_time,
        duration_ms: row.duration_ms,
        size_bytes: row.size_bytes,
        headers,
    }
}

/// Builds [`network_request_of_row`].
pub fn read_network_request(row: NetworkRequestRow, headers: Option<HashMap<String, String>>) -> (r:
    StoredNetworkRequest)
    ensures
        r == network_request_of_row(row, headers),
{
    StoredNetworkRequest {
        id: row.id,
        session_id: row.session_id,
        url: row.url,
        method: row.method,
        status_code: row.status_code,
        request_time: row.request_time,
        response_time: row.response_time,
        duration_ms: row.duration_ms,
        size_bytes: row.size_bytes,
        headers,
    }
}

/// Reads one row of the network requests table. Headers that cannot be read
/// from their JSON text count as no headers at all, which is not the same as
/// none stored.
pub fn row_to_network_request(row: NetworkRequestRow) -> (r: StoredNetworkRequest)
    ensures
        r.headers is Some <==> row.headers is Some,
        r == network_request_of_row(row, r.headers),
{
    let headers = match &row.headers {
        Some(json) => match headers_from_json(json.as_str()) {
            Ok(headers) => Some(headers),
            Err(_) => Some(HashMap::new()),
        },
        None => None,
    };
    read_network_request(row, headers)
}

} // verus!

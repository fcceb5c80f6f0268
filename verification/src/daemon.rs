//! The background daemon's requests, status and errors, and how it answers a request.

use vstd::prelude::*;
use vstd::string::*;

verus! {

/// A request to the background daemon.
#[derive(Debug, Clone)]
pub enum DaemonRequest {
    Ping,
    GetStatus,
    GetCurrentData,
    GetSamples { from: i64, to: i64 },
    GetHourlyStats { from: i64, to: i64 },
    GetDailyStats { from: String, to: String },
    GetTopProcesses { date: String, limit: usize },
    GetTopProcessesRange { from: String, to: String, limit: usize },
    GetDatabaseStats,
    Shutdown,
}

/// What the daemon reports about itself.
#[derive(Debug, Clone)]
pub struct DaemonStatus {
    pub running: bool,
    pub uptime_secs: u64,
    pub sample_count: i64,
    pub last_sample_time: Option<i64>,
    pub database_size_bytes: u64,
    pub version: String,
}

/// The status of a running daemon, from its uptime, the database's sample count and
/// newest sample (when the database could be read) and its size (when known).
pub fn daemon_status(
    uptime_secs: u64,
    stats: Option<(i64, Option<i64>)>,
    database_size: Option<u64>,
    version: &str,
) -> (s: DaemonStatus)
    ensures
        s.running,
        s.uptime_secs == uptime_secs,
        s.sample_count == (match stats {
            Some(st) => st.0,
            None => 0,
        }),
        s.last_sample_time == (match stats {
            Some(st) => st.1,
            None => None,
        }),
        s.database_size_bytes == (match database_size {
            Some(b) => b,
            None => 0,
        }),
        s.version@ == version@,
{
    DaemonStatus {
        running: true,
        uptime_secs,
        sample_count: match stats {
            Some(st) => st.0,
            None => 0,
        },
        last_sample_time: match stats {
            Some(st) => st.1,
            None => None,
        },
        database_size_bytes: match database_size {
            Some(b) => b,
            None => 0,
        },
        version: version.to_string(),
    }
}

/// What the daemon does to answer a request.
#[derive(Debug, Clone)]
pub enum DaemonAction {
    /// Answer `Pong`.
    ReplyPong,
    /// Answer with the daemon's status.
    ReplyStatus,
    /// Answer with the current readings.
    ReplyCurrentData,
    /// Read the samples of a time range.
    QuerySamples { from: i64, to: i64 },
    /// Read the hourly statistics of a time range.
    QueryHourlyStats { from: i64, to: i64 },
    /// Read the daily statistics of a date range.
    QueryDailyStats { from: String, to: String },
    /// Read the top processes of one day.
    QueryTopProcesses { date: String, limit: usize },
    /// Read the top processes of a date range.
    QueryTopProcessesRange { from: String, to: String, limit: usize },
    /// Read the database statistics.
    QueryDatabaseStats,
    /// Answer `Ok` and stop serving.
    ReplyOkAndShutDown,
}

/// The action that answers a request: each query request reads the matching table with
/// the request's own arguments.
pub open spec fn action_for(req: DaemonRequest) -> DaemonAction {
    match req {
        DaemonRequest::Ping => DaemonAction::ReplyPong,
        DaemonRequest::GetStatus => DaemonAction::ReplyStatus,
        DaemonRequest::GetCurrentData => DaemonAction::ReplyCurrentData,
        DaemonRequest::GetSamples { from, to } => DaemonAction::QuerySamples { from, to },
        DaemonRequest::GetHourlyStats { from, to } => DaemonAction::QueryHourlyStats { from, to },
        DaemonRequest::GetDailyStats { from, to } => DaemonAction::QueryDailyStats { from, to },
        DaemonRequest::GetTopProcesses { date, limit } => DaemonAction::QueryTopProcesses { date, limit },
        DaemonRequest::GetTopProcessesRange { from, to, limit } => DaemonAction::QueryTopProcessesRange {
            from,
            to,
            limit,
        },
        DaemonRequest::GetDatabaseStats => DaemonAction::QueryDatabaseStats,
        DaemonRequest::Shutdown => DaemonAction::ReplyOkAndShutDown,
    }
}

/// The action that answers a request.
pub fn plan_request(req: DaemonRequest) -> (a: DaemonAction)
    ensures
        a == action_for(req),
{
    match req {
        DaemonRequest::Ping => DaemonAction::ReplyPong,
        DaemonRequest::GetStatus => DaemonAction::ReplyStatus,
        DaemonRequest::GetCurrentData => DaemonAction::ReplyCurrentData,
        DaemonRequest::GetSamples { from, to } => DaemonAction::QuerySamples { from, to },
        DaemonRequest::GetHourlyStats { from, to } => DaemonAction::QueryHourlyStats { from, to },
        DaemonRequest::GetDailyStats { from, to } => DaemonAction::QueryDailyStats { from, to },
        DaemonRequest::GetTopProcesses { date, limit } => DaemonAction::QueryTopProcesses { date, limit },
        DaemonRequest::GetTopProcessesRange { from, to, limit } => DaemonAction::QueryTopProcessesRange {
            from,
            to,
            limit,
        },
        DaemonRequest::GetDatabaseStats => DaemonAction::QueryDatabaseStats,
        DaemonRequest::Shutdown => DaemonAction::ReplyOkAndShutDown,
    }
}

/// Whether a request asks the daemon to stop.
pub fn is_shutdown(req: &DaemonRequest) -> (b: bool)
    ensures
        b == (*req is Shutdown),
        b == (action_for(*req) is ReplyOkAndShutDown),
{
    match req {
        DaemonRequest::Shutdown => true,
        _ => false,
    }
}

/// Only a shutdown request makes the daemon stop serving.
pub proof fn lemma_only_shutdown_stops(req: DaemonRequest)
    ensures
        (action_for(req) is ReplyOkAndShutDown) <==> (req is Shutdown),
{
}

/// The error text sent back for a line that is not a request.
pub fn invalid_request_message(detail: &str) -> (s: String)
    ensures
        s@ == "Invalid request: "@ + detail@,
{
    let mut s = "Invalid request: ".to_string();
    s.append(detail);
    s
}

/// Why the daemon could not run.
#[derive(Debug, Clone)]
pub enum DaemonError {
    /// An I/O operation failed; the text describes it.
    Io(String),
    /// The history database failed; the text describes it.
    Database(String),
    /// Another daemon is already serving.
    AlreadyRunning,
    /// Detaching into the background failed; the text describes it.
    Daemonize(String),
}

/// The message of an error.
pub open spec fn daemon_error_message(e: DaemonError) -> Seq<char> {
    match e {
        DaemonError::Io(m) => "IO error: "@ + m@,
        DaemonError::Database(m) => "Database error: "@ + m@,
        DaemonError::AlreadyRunning => "Already running"@,
        DaemonError::Daemonize(m) => "Failed to daemonize: "@ + m@,
    }
}

impl DaemonError {
    /// The error's message.
    pub fn message(&self) -> (s: String)
        ensures
            s@ == daemon_error_message(*self),
    {
        match self {
            DaemonError::Io(m) => {
                let mut s = "IO error: ".to_string();
                s.append(m.as_str());
                s
            },
            DaemonError::Database(m) => {
                let mut s = "Database error: ".to_string();
                s.append(m.as_str());
                s
            },
            DaemonError::AlreadyRunning => "Already running".to_string(),
            DaemonError::Daemonize(m) => {
                let mut s = "Failed to daemonize: ".to_string();
                s.append(m.as_str());
                s
            },
        }
    }
}

} // verus!

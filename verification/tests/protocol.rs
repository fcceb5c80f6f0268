use jolt::daemon::{
    daemon_status, invalid_request_message, is_shutdown, plan_request, DaemonAction, DaemonError,
    DaemonRequest,
};
use jolt::protocol::{
    format_forecast_duration, format_hours_minutes, ChargingState, DaemonStatus, ForecastSource,
    KillSignal, SessionType, SystemSnapshot, MAX_SUBSCRIBERS, MIN_SUPPORTED_VERSION,
    PROTOCOL_VERSION,
};

#[test]
fn kill_signal_arguments() {
    assert_eq!(KillSignal::Graceful.as_arg(), "-15");
    assert_eq!(KillSignal::Force.as_arg(), "-9");
    assert_eq!(KillSignal::default(), KillSignal::Force);
}

#[test]
fn core_counts() {
    let mut s = SystemSnapshot::default();
    s.p_cores = 8;
    s.e_cores = 4;
    assert_eq!(s.cores_display(), "8P+4E");
    s.e_cores = 0;
    assert_eq!(s.cores_display(), "8");
    s.p_cores = 0;
    s.e_cores = 6;
    assert_eq!(s.cores_display(), "6");
    s.e_cores = 0;
    assert_eq!(s.cores_display(), "0");
}

#[test]
fn forecast_text() {
    assert_eq!(format_forecast_duration(59), "< 1m");
    assert_eq!(format_forecast_duration(60), "1m");
    assert_eq!(format_forecast_duration(2 * 3600 + 5 * 60 + 30), "2h 5m");
    assert_eq!(format_hours_minutes(60), "1h 0m");
    assert_eq!(ForecastSource::default(), ForecastSource::Unavailable);
}

#[test]
fn status_defaults_to_current_protocol() {
    let s = DaemonStatus::default();
    assert!(!s.running);
    assert_eq!(s.protocol_version, PROTOCOL_VERSION);
    assert_eq!(s.min_supported_version, MIN_SUPPORTED_VERSION);
    assert_eq!(PROTOCOL_VERSION, 2);
    assert_eq!(MIN_SUPPORTED_VERSION, 1);
    assert_eq!(MAX_SUBSCRIBERS, 10);
}

#[test]
fn stored_codes() {
    assert_eq!(ChargingState::Discharging.code(), 0);
    assert_eq!(ChargingState::Unknown.code(), 3);
    assert_eq!(SessionType::Charge.code(), 0);
    assert_eq!(SessionType::default().code(), 1);
}

#[test]
fn requests_map_to_queries() {
    match plan_request(DaemonRequest::GetSamples { from: 1, to: 2 }) {
        DaemonAction::QuerySamples { from, to } => assert_eq!((from, to), (1, 2)),
        other => panic!("unexpected {:?}", other),
    }
    match plan_request(DaemonRequest::GetTopProcesses { date: "2024-01-01".to_string(), limit: 5 }) {
        DaemonAction::QueryTopProcesses { date, limit } => {
            assert_eq!(date, "2024-01-01");
            assert_eq!(limit, 5);
        },
        other => panic!("unexpected {:?}", other),
    }
    assert!(matches!(plan_request(DaemonRequest::Ping), DaemonAction::ReplyPong));
    assert!(matches!(plan_request(DaemonRequest::Shutdown), DaemonAction::ReplyOkAndShutDown));
    assert!(is_shutdown(&DaemonRequest::Shutdown));
    assert!(!is_shutdown(&DaemonRequest::GetStatus));
}

#[test]
fn running_status() {
    let s = daemon_status(42, Some((10, Some(99))), None, "1.2.3");
    assert!(s.running);
    assert_eq!(s.uptime_secs, 42);
    assert_eq!(s.sample_count, 10);
    assert_eq!(s.last_sample_time, Some(99));
    assert_eq!(s.database_size_bytes, 0);
    assert_eq!(s.version, "1.2.3");
    let empty = daemon_status(0, None, Some(4096), "x");
    assert_eq!(empty.sample_count, 0);
    assert_eq!(empty.last_sample_time, None);
    assert_eq!(empty.database_size_bytes, 4096);
}

#[test]
fn daemon_error_messages() {
    assert_eq!(DaemonError::Io("disk".to_string()).message(), "IO error: disk");
    assert_eq!(DaemonError::Database("locked".to_string()).message(), "Database error: locked");
    assert_eq!(DaemonError::AlreadyRunning.message(), "Already running");
    assert_eq!(DaemonError::Daemonize("fork".to_string()).message(), "Failed to daemonize: fork");
    assert_eq!(invalid_request_message("bad json"), "Invalid request: bad json");
}

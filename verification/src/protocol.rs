//! Values exchanged between the daemon and its clients.

use vstd::prelude::*;
use vstd::string::*;
use crate::text::{decimal, u64_to_decimal};

verus! {

/// Current protocol version; raised on breaking changes.
pub const PROTOCOL_VERSION: u32 = 2;

/// Oldest protocol version this build can talk to (one behind the current one).
pub const MIN_SUPPORTED_VERSION: u32 = 1;

/// Most clients the daemon streams data to at once.
pub const MAX_SUBSCRIBERS: usize = 10;

/// Battery state as the protocol carries it.
#[derive(Debug, Clone, Copy, PartialEq, Eq, Structural)]
pub enum BatteryState {
    Charging,
    Discharging,
    Full,
    NotCharging,
    Unknown,
}

impl Default for BatteryState {
    fn default() -> (s: BatteryState)
        ensures
            s == BatteryState::Unknown,
    {
        BatteryState::Unknown
    }
}

/// System power mode as the protocol carries it.
#[derive(Debug, Clone, Copy, PartialEq, Eq, Structural)]
pub enum PowerMode {
    LowPower,
    Automatic,
    HighPerformance,
    Unknown,
}

impl Default for PowerMode {
    fn default() -> (m: PowerMode)
        ensures
            m == PowerMode::Automatic,
    {
        PowerMode::Automatic
    }
}

/// Scheduling state of a process.
#[derive(Debug, Clone, Copy, PartialEq, Eq, Structural)]
pub enum ProcessState {
    Running,
    Sleeping,
    Idle,
    Stopped,
    Zombie,
    Unknown,
}

impl Default for ProcessState {
    fn default() -> (s: ProcessState)
        ensures
            s == ProcessState::Unknown,
    {
        ProcessState::Unknown
    }
}

/// How a process is asked to end.
#[derive(Debug, Clone, Copy, PartialEq, Eq, Structural)]
pub enum KillSignal {
    /// SIGTERM.
    Graceful,
    /// SIGKILL.
    Force,
}

impl Default for KillSignal {
    fn default() -> (s: KillSignal)
        ensures
            s == KillSignal::Force,
    {
        KillSignal::Force
    }
}

/// The `kill` argument for a signal.
pub open spec fn kill_arg(s: KillSignal) -> Seq<char> {
    match s {
        KillSignal::Graceful => "-15"@,
        KillSignal::Force => "-9"@,
    }
}

impl KillSignal {
    /// The `kill` command-line argument: `-15` or `-9`.
    pub fn as_arg(&self) -> (s: &'static str)
        ensures
            s@ == kill_arg(*self),
    {
        match self {
            KillSignal::Graceful => "-15",
            KillSignal::Force => "-9",
        }
    }
}

/// Charging state of a stored sample; stored as its code.
#[derive(Debug, Clone, Copy, PartialEq, Eq, Structural)]
pub enum ChargingState {
    Discharging,
    Charging,
    Full,
    Unknown,
}

/// The stored code of a charging state.
pub open spec fn charging_state_code_spec(s: ChargingState) -> i32 {
    match s {
        ChargingState::Discharging => 0,
        ChargingState::Charging => 1,
        ChargingState::Full => 2,
        ChargingState::Unknown => 3,
    }
}

impl ChargingState {
    /// The stored code: 0 discharging, 1 charging, 2 full, 3 unknown.
    pub fn code(&self) -> (c: i32)
        ensures
            c == charging_state_code_spec(*self),
    {
        match self {
            ChargingState::Discharging => 0,
            ChargingState::Charging => 1,
            ChargingState::Full => 2,
            ChargingState::Unknown => 3,
        }
    }
}

impl Default for ChargingState {
    fn default() -> (s: ChargingState)
        ensures
            s == ChargingState::Unknown,
    {
        ChargingState::Unknown
    }
}

/// Kind of a battery session; stored as its code.
#[derive(Debug, Clone, Copy, PartialEq, Eq, Structural)]
pub enum SessionType {
    Charge,
    Discharge,
}

impl SessionType {
    /// The stored code: 0 charge, 1 discharge.
    pub fn code(&self) -> (c: i32)
        ensures
            c == (if *self == SessionType::Charge { 0i32 } else { 1i32 }),
    {
        match self {
            SessionType::Charge => 0,
            SessionType::Discharge => 1,
        }
    }
}

impl Default for SessionType {
    fn default() -> (s: SessionType)
        ensures
            s == SessionType::Discharge,
    {
        SessionType::Discharge
    }
}

/// The machine the daemon runs on.
#[derive(Debug, Clone)]
pub struct SystemSnapshot {
    pub chip: String,
    pub os_version: String,
    pub p_cores: u32,
    pub e_cores: u32,
}

/// The core count text: `8P+4E` when both kinds are present, else the total.
pub open spec fn cores_display_spec(p: u32, e: u32) -> Seq<char> {
    if p > 0 && e > 0 {
        decimal(p as nat) + "P+"@ + decimal(e as nat) + "E"@
    } else {
        decimal((p + e) as nat)
    }
}

impl SystemSnapshot {
    /// Core counts for display.
    pub fn cores_display(&self) -> (s: String)
        ensures
            s@ == cores_display_spec(self.p_cores, self.e_cores),
    {
        if self.p_cores > 0 && self.e_cores > 0 {
            let mut s = u64_to_decimal(self.p_cores as u64);
            s.append("P+");
            let e = u64_to_decimal(self.e_cores as u64);
            s.append(e.as_str());
            s.append("E");
            s
        } else {
            let total: u64 = self.p_cores as u64 + self.e_cores as u64;
            u64_to_decimal(total)
        }
    }
}

impl Default for SystemSnapshot {
    fn default() -> (s: SystemSnapshot)
        ensures
            s.chip@ == Seq::<char>::empty(),
            s.os_version@ == Seq::<char>::empty(),
            s.p_cores == 0,
            s.e_cores == 0,
    {
        SystemSnapshot { chip: String::new(), os_version: String::new(), p_cores: 0, e_cores: 0 }
    }
}

/// Where a battery-life forecast came from.
#[derive(Debug, Clone, Copy, PartialEq, Eq, Structural)]
pub enum ForecastSource {
    Daemon,
    Session,
    /// No forecast is available (serialized as `none`).
    Unavailable,
}

impl Default for ForecastSource {
    fn default() -> (s: ForecastSource)
        ensures
            s == ForecastSource::Unavailable,
    {
        ForecastSource::Unavailable
    }
}

/// `"{h}h {m}m"` when there is at least an hour, else `"{m}m"`.
pub open spec fn hours_minutes_text(total_mins: nat) -> Seq<char> {
    let hours = total_mins / 60;
    let mins = total_mins % 60;
    if hours > 0 {
        decimal(hours) + "h "@ + decimal(mins) + "m"@
    } else {
        decimal(mins) + "m"@
    }
}

/// Minutes as hours and minutes (`"2h 5m"`, `"45m"`).
pub fn format_hours_minutes(total_mins: u64) -> (s: String)
    ensures
        s@ == hours_minutes_text(total_mins as nat),
{
    let hours = total_mins / 60;
    let mins = total_mins % 60;
    if hours > 0 {
        let mut s = u64_to_decimal(hours);
        s.append("h ");
        let m = u64_to_decimal(mins);
        s.append(m.as_str());
        s.append("m");
        s
    } else {
        let mut s = u64_to_decimal(mins);
        s.append("m");
        s
    }
}

/// A forecast duration for display: `"< 1m"` under a minute, else hours and minutes.
pub open spec fn forecast_text(secs: nat) -> Seq<char> {
    if secs / 60 == 0 {
        "< 1m"@
    } else {
        hours_minutes_text(secs / 60)
    }
}

/// A forecast duration in seconds for display.
pub fn format_forecast_duration(secs: u64) -> (s: String)
    ensures
        s@ == forecast_text(secs as nat),
{
    let total_mins = secs / 60;
    if total_mins == 0 {
        return "< 1m".to_string();
    }
    format_hours_minutes(total_mins)
}

/// What the daemon reports about itself.
#[derive(Debug, Clone)]
pub struct DaemonStatus {
    pub running: bool,
    pub uptime_secs: u64,
    pub sample_count: i64,
    pub last_sample_time: Option<i64>,
    pub database_size_bytes: u64,
    pub version: String,
    pub subscriber_count: usize,
    pub history_enabled: bool,
    pub protocol_version: u32,
    pub min_supported_version: u32,
}

impl Default for DaemonStatus {
    /// A stopped daemon speaking the current protocol.
    fn default() -> (s: DaemonStatus)
        ensures
            !s.running,
            s.uptime_secs == 0,
            s.sample_count == 0,
            s.last_sample_time is None,
            s.database_size_bytes == 0,
            s.version@ == Seq::<char>::empty(),
            s.subscriber_count == 0,
            !s.history_enabled,
            s.protocol_version == PROTOCOL_VERSION,
            s.min_supported_version == MIN_SUPPORTED_VERSION,
    {
        DaemonStatus {
            running: false,
            uptime_secs: 0,
            sample_count: 0,
            last_sample_time: None,
            database_size_bytes: 0,
            version: String::new(),
            subscriber_count: 0,
            history_enabled: false,
            protocol_version: PROTOCOL_VERSION,
            min_supported_version: MIN_SUPPORTED_VERSION,
        }
    }
}

/// Outcome of a request to end a process.
#[derive(Debug, Clone)]
pub struct KillProcessResult {
    pub pid: u32,
    pub success: bool,
    pub error: Option<String>,
}

/// A request a client sends to the daemon.
#[derive(Debug, Clone)]
pub enum DaemonRequest {
    GetStatus,
    GetHourlyStats { from: i64, to: i64 },
    GetDailyStats { from: String, to: String },
    GetTopProcessesRange { from: String, to: String, limit: usize },
    GetRecentSamples { window_secs: u64 },
    Shutdown,
    Subscribe,
    Unsubscribe,
    GetCurrentData,
    KillProcess { pid: u32, signal: KillSignal },
    SetBroadcastInterval { interval_ms: u64 },
    GetCycleSummary { days: u32 },
    GetChargeSessions { from: i64, to: i64 },
    GetDailyCycles { from: String, to: String },
}

} // verus!

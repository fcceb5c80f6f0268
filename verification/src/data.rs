//! The data the monitor collects: states, history and database bookkeeping.

use vstd::prelude::*;
use vstd::string::*;
use std::collections::VecDeque;
use crate::text::{
    decimal, double_value, fixed_quotient_text, format_double_quotient, format_fixed_quotient,
    u64_to_decimal,
};

verus! {

/// Charging state read from the power manager.
#[derive(Debug, Clone, Copy, PartialEq, Eq, Structural)]
pub enum ChargeState {
    Charging,
    Discharging,
    Full,
    NotCharging,
    Unknown,
}

/// Display label of a charge state.
pub open spec fn state_label_spec(s: ChargeState) -> Seq<char> {
    match s {
        ChargeState::Charging => "Charging"@,
        ChargeState::Discharging => "On Battery"@,
        ChargeState::Full => "Full"@,
        ChargeState::NotCharging => "Not Charging"@,
        ChargeState::Unknown => "Unknown"@,
    }
}

/// External power is connected in this state.
pub open spec fn on_ac_spec(s: ChargeState) -> bool {
    s == ChargeState::Charging || s == ChargeState::Full || s == ChargeState::NotCharging
}

impl ChargeState {
    /// Human-readable label ("On Battery" for discharging).
    pub fn state_label(&self) -> (s: &'static str)
        ensures
            s@ == state_label_spec(*self),
    {
        match self {
            ChargeState::Charging => "Charging",
            ChargeState::Discharging => "On Battery",
            ChargeState::Full => "Full",
            ChargeState::NotCharging => "Not Charging",
            ChargeState::Unknown => "Unknown",
        }
    }

    /// Whether the battery is charging.
    pub fn is_charging(&self) -> (b: bool)
        ensures
            b == (*self == ChargeState::Charging),
    {
        match self {
            ChargeState::Charging => true,
            _ => false,
        }
    }

    /// Whether external power is connected.
    pub fn is_on_ac(&self) -> (b: bool)
        ensures
            b == on_ac_spec(*self),
    {
        match self {
            ChargeState::Charging | ChargeState::Full | ChargeState::NotCharging => true,
            _ => false,
        }
    }
}

/// The remaining time that applies in a state: time to full while charging, time to
/// empty while discharging, none otherwise.
pub open spec fn time_remaining_spec(
    state: ChargeState,
    to_full: Option<u64>,
    to_empty: Option<u64>,
) -> Option<u64> {
    match state {
        ChargeState::Charging => to_full,
        ChargeState::Discharging => to_empty,
        _ => None,
    }
}

/// The remaining time (in seconds) that applies in a state.
pub fn time_remaining(state: ChargeState, to_full: Option<u64>, to_empty: Option<u64>) -> (r: Option<u64>)
    ensures
        r == time_remaining_spec(state, to_full, to_empty),
{
    match state {
        ChargeState::Charging => to_full,
        ChargeState::Discharging => to_empty,
        _ => None,
    }
}

/// System power mode.
#[derive(Debug, Clone, Copy, PartialEq, Eq, Structural)]
pub enum PowerMode {
    LowPower,
    Automatic,
    HighPerformance,
    Unknown,
}

impl PowerMode {
    /// Human-readable label.
    pub fn label(&self) -> (s: &'static str)
        ensures
            s@ == crate::platform::power_mode_label(match *self {
                PowerMode::LowPower => crate::platform::PowerMode::LowPower,
                PowerMode::Automatic => crate::platform::PowerMode::Automatic,
                PowerMode::HighPerformance => crate::platform::PowerMode::HighPerformance,
                PowerMode::Unknown => crate::platform::PowerMode::Unknown,
            }),
    {
        match self {
            PowerMode::LowPower => "Low Power",
            PowerMode::Automatic => "Automatic",
            PowerMode::HighPerformance => "High Performance",
            PowerMode::Unknown => "Unknown",
        }
    }
}

/// Energy impact band of a process.
#[derive(Debug, Clone, Copy, PartialEq, Eq, Structural)]
pub enum EnergyLevel {
    Low,
    Medium,
    High,
}

/// Which series the history graph shows.
#[derive(Debug, Clone, Copy, PartialEq, Eq, Structural)]
pub enum HistoryMetric {
    Battery,
    Power,
}

/// The other series.
pub open spec fn toggle_spec(m: HistoryMetric) -> HistoryMetric {
    match m {
        HistoryMetric::Battery => HistoryMetric::Power,
        HistoryMetric::Power => HistoryMetric::Battery,
    }
}

impl HistoryMetric {
    /// The other series.
    pub fn toggled(&self) -> (m: HistoryMetric)
        ensures
            m == toggle_spec(*self),
    {
        match self {
            HistoryMetric::Battery => HistoryMetric::Power,
            HistoryMetric::Power => HistoryMetric::Battery,
        }
    }

    /// Axis label of the series.
    pub fn label(&self) -> (s: &'static str)
        ensures
            s@ == (if *self == HistoryMetric::Battery { "Battery %"@ } else { "Power (W)"@ }),
    {
        match self {
            HistoryMetric::Battery => "Battery %",
            HistoryMetric::Power => "Power (W)",
        }
    }
}

/// Toggling the graph's series twice shows the first series again.
pub proof fn lemma_toggle_metric_twice(m: HistoryMetric)
    ensures
        toggle_spec(toggle_spec(m)) == m,
        toggle_spec(m) != m,
{
}

/// Most points the in-memory history keeps.
pub const MAX_HISTORY_POINTS: usize = 120;

/// A history of at most `capacity` points, oldest first; recording a point beyond the
/// capacity drops the oldest.
pub struct HistoryBuffer<T> {
    points: VecDeque<T>,
    capacity: usize,
}

impl<T> HistoryBuffer<T> {
    /// The points, oldest first.
    pub closed spec fn points_view(&self) -> Seq<T> {
        self.points@
    }

    /// The most points kept.
    pub closed spec fn capacity_spec(&self) -> nat {
        self.capacity as nat
    }

    /// The buffer never holds more points than its capacity, which is positive.
    pub closed spec fn wf(&self) -> bool {
        self.capacity > 0 && self.points@.len() <= self.capacity
    }

    /// An empty history keeping at most `capacity` points.
    pub fn new(capacity: usize) -> (h: HistoryBuffer<T>)
        requires
            capacity > 0,
        ensures
            h.wf(),
            h.points_view() == Seq::<T>::empty(),
            h.capacity_spec() == capacity,
    {
        HistoryBuffer { points: VecDeque::new(), capacity }
    }

    /// Appends a point, dropping the oldest first when the buffer is full.
    pub fn record(&mut self, point: T)
        requires
            old(self).wf(),
        ensures
            final(self).wf(),
            final(self).capacity_spec() == old(self).capacity_spec(),
            final(self).points_view() == (if old(self).points_view().len() >= old(self).capacity_spec() {
                old(self).points_view().drop_first().push(point)
            } else {
                old(self).points_view().push(point)
            }),
    {
        if self.points.len() >= self.capacity {
            self.points.pop_front();
        }
        self.points.push_back(point);
    }

    /// Number of points held.
    pub fn len(&self) -> (n: usize)
        ensures
            n == self.points_view().len(),
    {
        self.points.len()
    }

    /// The newest point.
    pub fn latest(&self) -> (p: Option<&T>)
        ensures
            match p {
                Some(x) => self.points_view().len() > 0 && *x == self.points_view().last(),
                None => self.points_view().len() == 0,
            },
    {
        let n = self.points.len();
        if n == 0 {
            None
        } else {
            Some(&self.points[n - 1])
        }
    }

    /// The `i`-th point, oldest first.
    pub fn get(&self, i: usize) -> (p: &T)
        requires
            i < self.points_view().len(),
        ensures
            *p == self.points_view()[i as int],
    {
        &self.points[i]
    }
}

/// Recording keeps the history within its capacity, puts the new point last and keeps
/// the order of the points before it.
pub proof fn lemma_record_keeps_order<T>(old_points: Seq<T>, cap: nat, point: T)
    requires
        cap > 0,
        old_points.len() <= cap,
    ensures
        ({
            let new_points = if old_points.len() >= cap {
                old_points.drop_first().push(point)
            } else {
                old_points.push(point)
            };
            &&& new_points.len() <= cap
            &&& new_points.last() == point
            &&& new_points.drop_last() == old_points.subrange(
                old_points.len() - (new_points.len() - 1),
                old_points.len() as int,
            )
        }),
{
    let new_points = if old_points.len() >= cap {
        old_points.drop_first().push(point)
    } else {
        old_points.push(point)
    };
    assert(new_points.drop_last() =~= old_points.subrange(
        old_points.len() - (new_points.len() - 1),
        old_points.len() as int,
    ));
}

/// Charging state of a stored sample.
#[derive(Debug, Clone, Copy, PartialEq, Eq, Structural)]
pub enum ChargingState {
    Discharging,
    Charging,
    Full,
    Unknown,
}

/// The state a stored code denotes; codes other than 0, 1 and 2 are unknown.
pub open spec fn charging_state_from_code(code: i32) -> ChargingState {
    if code == 0 {
        ChargingState::Discharging
    } else if code == 1 {
        ChargingState::Charging
    } else if code == 2 {
        ChargingState::Full
    } else {
        ChargingState::Unknown
    }
}

/// The stored code of a state.
pub open spec fn charging_state_code(s: ChargingState) -> i32 {
    match s {
        ChargingState::Discharging => 0,
        ChargingState::Charging => 1,
        ChargingState::Full => 2,
        ChargingState::Unknown => 3,
    }
}

impl ChargingState {
    /// The stored code: 0 discharging, 1 charging, 2 full, 3 unknown.
    pub fn code(&self) -> (c: i32)
        ensures
            c == charging_state_code(*self),
    {
        match self {
            ChargingState::Discharging => 0,
            ChargingState::Charging => 1,
            ChargingState::Full => 2,
            ChargingState::Unknown => 3,
        }
    }
}

impl From<i32> for ChargingState {
    fn from(value: i32) -> (s: ChargingState) {
        if value == 0 {
            ChargingState::Discharging
        } else if value == 1 {
            ChargingState::Charging
        } else if value == 2 {
            ChargingState::Full
        } else {
            ChargingState::Unknown
        }
    }
}

impl vstd::std_specs::convert::FromSpecImpl<i32> for ChargingState {
    open spec fn obeys_from_spec() -> bool {
        true
    }

    open spec fn from_spec(value: i32) -> ChargingState {
        charging_state_from_code(value)
    }
}

/// Reading back the stored code of a state gives the state.
pub proof fn lemma_charging_state_code_roundtrip(s: ChargingState)
    ensures
        charging_state_from_code(charging_state_code(s)) == s,
{
}

/// Sizes of the history database.
#[derive(Debug, Clone)]
pub struct DatabaseStats {
    pub sample_count: i64,
    pub hourly_count: i64,
    pub daily_count: i64,
    pub oldest_sample: Option<i64>,
    pub newest_sample: Option<i64>,
    pub size_bytes: u64,
}

/// Database size text: bytes below 1 KiB, then KB and MB with one decimal, GB with two
/// (binary multiples, rounded half to even); the GB figure is that of the size as a
/// double, which differs from the size from 2^53 bytes on.
pub open spec fn size_formatted_spec(bytes: nat) -> Seq<char> {
    if bytes < 1024 {
        decimal(bytes) + " B"@
    } else if bytes < 1024 * 1024 {
        fixed_quotient_text(bytes, 1024, 1) + " KB"@
    } else if bytes < 1024 * 1024 * 1024 {
        fixed_quotient_text(bytes, 1024 * 1024, 1) + " MB"@
    } else {
        fixed_quotient_text(double_value(bytes), 1024 * 1024 * 1024, 2) + " GB"@
    }
}

impl DatabaseStats {
    /// The database size for display.
    pub fn size_formatted(&self) -> (s: String)
        ensures
            s@ == size_formatted_spec(self.size_bytes as nat),
    {
        let b = self.size_bytes;
        if b < 1024 {
            let mut s = u64_to_decimal(b);
            s.append(" B");
            s
        } else if b < 1024 * 1024 {
            let mut s = format_fixed_quotient(b, 1024, 1);
            s.append(" KB");
            s
        } else if b < 1024 * 1024 * 1024 {
            let mut s = format_fixed_quotient(b, 1024 * 1024, 1);
            s.append(" MB");
            s
        } else {
            let mut s = format_double_quotient(b, 1024 * 1024 * 1024, 2);
            s.append(" GB");
            s
        }
    }
}

/// How many rows a pruning pass removed from each table.
#[derive(Debug, Clone, Copy, PartialEq, Eq, Structural)]
pub struct PruneResult {
    pub samples_deleted: usize,
    pub hourly_deleted: usize,
    pub daily_deleted: usize,
    pub processes_deleted: usize,
}

impl Default for PruneResult {
    fn default() -> (r: PruneResult)
        ensures
            r == (PruneResult { samples_deleted: 0, hourly_deleted: 0, daily_deleted: 0, processes_deleted: 0 }),
    {
        PruneResult { samples_deleted: 0, hourly_deleted: 0, daily_deleted: 0, processes_deleted: 0 }
    }
}

/// Version of the history database's schema that this build writes.
pub const CURRENT_SCHEMA_VERSION: i32 = 2;

/// What opening the history database does to its schema.
#[derive(Debug, Clone, Copy, PartialEq, Eq, Structural)]
pub enum SchemaAction {
    /// No schema yet: create the current one.
    CreateInitial,
    /// An older schema: migrate it (adding the per-process power columns when it
    /// predates version 2) and record the current version.
    Migrate { add_power_columns: bool },
    /// The schema is current (or newer): leave it.
    UpToDate,
}

/// The schema step for a stored version (0 when the database has none).
pub open spec fn schema_action_spec(version: i32) -> SchemaAction {
    if version == 0 {
        SchemaAction::CreateInitial
    } else if version < CURRENT_SCHEMA_VERSION {
        SchemaAction::Migrate { add_power_columns: version < 2 }
    } else {
        SchemaAction::UpToDate
    }
}

/// What to do with a database whose stored schema version is `version`.
pub fn schema_action(version: i32) -> (a: SchemaAction)
    ensures
        a == schema_action_spec(version),
{
    if version == 0 {
        SchemaAction::CreateInitial
    } else if version < CURRENT_SCHEMA_VERSION {
        SchemaAction::Migrate { add_power_columns: version < 2 }
    } else {
        SchemaAction::UpToDate
    }
}

/// Seconds in a day.
pub const SECONDS_PER_DAY: i64 = 86400;

/// The time before which rows older than `days` days are removed; none when the
/// retention is 0 (keep forever).
pub fn retention_cutoff(now_ts: i64, days: u32) -> (r: Option<i64>)
    requires
        now_ts >= i64::MIN + SECONDS_PER_DAY * 0xffff_ffff,
    ensures
        r == (if days > 0 { Some((now_ts - SECONDS_PER_DAY * days) as i64) } else { None }),
{
    if days > 0 {
        Some(now_ts - SECONDS_PER_DAY * (days as i64))
    } else {
        None
    }
}

/// When the database exceeds its size limit (in MiB; 0 for none), the size to shrink
/// it to: 80 % of the limit.
pub fn size_prune_target(max_database_mb: u32, current_size: u64) -> (r: Option<u64>)
    ensures
        r == (if max_database_mb > 0 && current_size > max_database_mb * 1024 * 1024 {
            Some((max_database_mb * 1024 * 1024 * 80 / 100) as u64)
        } else {
            None
        }),
{
    if max_database_mb == 0 {
        return None;
    }
    let max_bytes: u64 = (max_database_mb as u64) * 1024 * 1024;
    if current_size > max_bytes {
        Some(max_bytes * 80 / 100)
    } else {
        None
    }
}

} // verus!

//! Battery and power states as the platform layer reports them.

use vstd::prelude::*;

verus! {

/// Charging state of the battery.
#[derive(Debug, Clone, Copy, PartialEq, Eq, Structural)]
pub enum ChargeState {
    /// Actively charging.
    Charging,
    /// Running on battery power.
    Discharging,
    /// Full.
    Full,
    /// External power connected but not charging (for instance at a charge limit).
    NotCharging,
    /// The state cannot be determined.
    Unknown,
}

/// Display label of a charge state.
pub open spec fn charge_state_label(s: ChargeState) -> Seq<char> {
    match s {
        ChargeState::Charging => "Charging"@,
        ChargeState::Discharging => "On Battery"@,
        ChargeState::Full => "Full"@,
        ChargeState::NotCharging => "Not Charging"@,
        ChargeState::Unknown => "Unknown"@,
    }
}

/// External power is connected in this state.
pub open spec fn plugged_in_spec(s: ChargeState) -> bool {
    s == ChargeState::Charging || s == ChargeState::Full || s == ChargeState::NotCharging
}

impl ChargeState {
    /// Human-readable label.
    pub fn label(&self) -> (s: &'static str)
        ensures
            s@ == charge_state_label(*self),
    {
        match self {
            ChargeState::Charging => "Charging",
            ChargeState::Discharging => "On Battery",
            ChargeState::Full => "Full",
            ChargeState::NotCharging => "Not Charging",
            ChargeState::Unknown => "Unknown",
        }
    }

    /// Whether the battery is charging.
    pub fn is_charging(&self) -> (b: bool)
        ensures
            b == (*self == ChargeState::Charging),
    {
        match self {
            ChargeState::Charging => true,
            _ => false,
        }
    }

    /// Whether external power is connected.
    pub fn is_plugged_in(&self) -> (b: bool)
        ensures
            b == plugged_in_spec(*self),
    {
        match self {
            ChargeState::Charging | ChargeState::Full | ChargeState::NotCharging => true,
            _ => false,
        }
    }
}

impl Default for ChargeState {
    fn default() -> (s: ChargeState)
        ensures
            s == ChargeState::Unknown,
    {
        ChargeState::Unknown
    }
}

/// A charging state is a plugged-in state: whatever is charging has external power.
pub proof fn lemma_charging_is_plugged_in(s: ChargeState)
    ensures
        s == ChargeState::Charging ==> plugged_in_spec(s),
{
}

/// The variants of the battery crate's `State`, which this crate tells apart.
#[derive(Debug, Clone, Copy, PartialEq, Eq, Structural)]
pub enum BatteryStateKind {
    Unknown,
    Charging,
    Discharging,
    Empty,
    Full,
}

#[verifier::external_type_specification]
#[verifier::external_body]
pub struct ExBatteryState(starship_battery::State);

/// Which variant a battery crate `State` value is.
pub uninterp spec fn battery_state_kind_of(state: starship_battery::State) -> BatteryStateKind;

/// Tells the variants of `starship_battery::State` apart, one arm each; the result is named
/// by [`battery_state_kind_of`].
#[verifier::external_body]
fn battery_state_kind(state: starship_battery::State) -> (k: BatteryStateKind)
    ensures
        k == battery_state_kind_of(state),
{
    match state {
        starship_battery::State::Unknown => BatteryStateKind::Unknown,
        starship_battery::State::Charging => BatteryStateKind::Charging,
        starship_battery::State::Discharging => BatteryStateKind::Discharging,
        starship_battery::State::Empty => BatteryStateKind::Empty,
        starship_battery::State::Full => BatteryStateKind::Full,
    }
}

/// The charge state for a battery crate state: an empty battery is discharging.
pub open spec fn charge_state_for_kind(k: BatteryStateKind) -> ChargeState {
    match k {
        BatteryStateKind::Charging => ChargeState::Charging,
        BatteryStateKind::Discharging => ChargeState::Discharging,
        BatteryStateKind::Empty => ChargeState::Discharging,
        BatteryStateKind::Full => ChargeState::Full,
        BatteryStateKind::Unknown => ChargeState::Unknown,
    }
}

/// The charge state for a battery crate state kind.
pub fn charge_state_from_kind(k: BatteryStateKind) -> (s: ChargeState)
    ensures
        s == charge_state_for_kind(k),
{
    match k {
        BatteryStateKind::Charging => ChargeState::Charging,
        BatteryStateKind::Discharging => ChargeState::Discharging,
        BatteryStateKind::Empty => ChargeState::Discharging,
        BatteryStateKind::Full => ChargeState::Full,
        BatteryStateKind::Unknown => ChargeState::Unknown,
    }
}

impl From<starship_battery::State> for ChargeState {
    fn from(state: starship_battery::State) -> (s: ChargeState) {
        charge_state_from_kind(battery_state_kind(state))
    }
}

impl vstd::std_specs::convert::FromSpecImpl<starship_battery::State> for ChargeState {
    open spec fn obeys_from_spec() -> bool {
        true
    }

    open spec fn from_spec(state: starship_battery::State) -> ChargeState {
        charge_state_for_kind(battery_state_kind_of(state))
    }
}

/// System power mode.
#[derive(Debug, Clone, Copy, PartialEq, Eq, Structural)]
pub enum PowerMode {
    /// Low power / battery saver.
    LowPower,
    /// Automatic / balanced.
    Automatic,
    /// High performance.
    HighPerformance,
    /// The mode cannot be determined.
    Unknown,
}

/// Display label of a power mode.
pub open spec fn power_mode_label(m: PowerMode) -> Seq<char> {
    match m {
        PowerMode::LowPower => "Low Power"@,
        PowerMode::Automatic => "Automatic"@,
        PowerMode::HighPerformance => "High Performance"@,
        PowerMode::Unknown => "Unknown"@,
    }
}

impl PowerMode {
    /// Human-readable label.
    pub fn label(&self) -> (s: &'static str)
        ensures
            s@ == power_mode_label(*self),
    {
        match self {
            PowerMode::LowPower => "Low Power",
            PowerMode::Automatic => "Automatic",
            PowerMode::HighPerformance => "High Performance",
            PowerMode::Unknown => "Unknown",
        }
    }
}

impl Default for PowerMode {
    fn default() -> (m: PowerMode)
        ensures
            m == PowerMode::Automatic,
    {
        PowerMode::Automatic
    }
}

} // verus!

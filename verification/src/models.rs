//! Data model shared by all platform backends.
use vstd::prelude::*;

verus! {

/// The source the system is currently drawing power from.
///
/// Its textual form is `"ac"`, `"battery"` or `"unknown"`.
#[derive(Debug, Clone, Copy, PartialEq, Eq, Hash, Structural)]
pub enum PowerSource {
    /// External power (AC adapter / USB-C power).
    Ac,
    /// Internal battery.
    Battery,
    /// The system could not determine the power source.
    Unknown,
}

/// The textual form of a power source.
pub open spec fn power_source_text(source: PowerSource) -> Seq<char> {
    match source {
        PowerSource::Ac => "ac"@,
        PowerSource::Battery => "battery"@,
        PowerSource::Unknown => "unknown"@,
    }
}

impl PowerSource {
    /// Stable string representation used in the serialized model.
    pub fn as_str(self) -> (text: &'static str)
        ensures
            text@ == power_source_text(self),
    {
        match self {
            PowerSource::Ac => "ac",
            PowerSource::Battery => "battery",
            PowerSource::Unknown => "unknown",
        }
    }
}

/// Battery information.
///
/// Fields are `Option`s because platforms differ in what they can report.
/// Absence of data is never converted into `false` or `0`.
#[derive(Debug, Clone, Copy, PartialEq, Eq, Structural)]
pub struct BatteryInfo {
    /// Whether a battery is present in the system.
    pub is_present: bool,
    /// Battery charge percentage (`0..=100`), or `None` when unknown.
    pub percentage: Option<u8>,
    /// Whether the battery is currently charging, or `None` when unknown.
    pub is_charging: Option<bool>,
    /// Estimated seconds until the battery is empty, or `None` when unknown.
    pub time_to_empty: Option<u64>,
    /// Estimated seconds until the battery is fully charged, or `None` when unknown.
    pub time_to_full: Option<u64>,
}

impl BatteryInfo {
    /// The fields that make a change worth a notification: presence,
    /// percentage and charging state. Time estimates are left out.
    pub open spec fn notification_relevant_changed(self, other: Self) -> bool {
        ||| self.is_present != other.is_present
        ||| self.percentage != other.percentage
        ||| self.is_charging != other.is_charging
    }

    /// A battery as every backend reports it: present, with a percentage
    /// that is either unknown or within `0..=100`.
    pub open spec fn well_formed(self) -> bool {
        &&& self.is_present
        &&& (self.percentage matches Some(p) ==> p <= 100)
    }

    /// Whether a state transition should trigger a `battery-changed` event.
    ///
    /// Only notification-relevant fields count: presence, percentage and
    /// charging state. Time estimates change frequently while discharging
    /// and would flood the event channel.
    pub fn has_notification_relevant_change(&self, other: &Self) -> (changed: bool)
        ensures
            changed == self.notification_relevant_changed(*other),
    {
        self.is_present != other.is_present || self.percentage != other.percentage
            || self.is_charging != other.is_charging
    }
}

/// A full snapshot of the system's power state.
#[derive(Debug, Clone, Copy, PartialEq, Eq, Structural)]
pub struct PowerState {
    /// The power source the system is currently running on.
    pub power_source: PowerSource,
    /// Battery details, or `None` when no battery is present.
    pub battery: Option<BatteryInfo>,
}

impl PowerState {
    /// Every battery that the state reports is well formed.
    pub open spec fn well_formed(self) -> bool {
        self.battery matches Some(b) ==> b.well_formed()
    }
}

/// The textual forms of distinct power sources are distinct, so the text
/// identifies the source it was produced from.
pub proof fn lemma_power_source_text_injective(a: PowerSource, b: PowerSource)
    ensures
        power_source_text(a) == power_source_text(b) ==> a == b,
{
    reveal_strlit("ac");
    reveal_strlit("battery");
    reveal_strlit("unknown");
    if a != b {
        match (a, b) {
            (PowerSource::Ac, PowerSource::Battery) => assert("ac"@.len() != "battery"@.len()),
            (PowerSource::Ac, PowerSource::Unknown) => assert("ac"@.len() != "unknown"@.len()),
            (PowerSource::Battery, PowerSource::Ac) => assert("ac"@.len() != "battery"@.len()),
            (PowerSource::Unknown, PowerSource::Ac) => assert("ac"@.len() != "unknown"@.len()),
            (PowerSource::Battery, PowerSource::Unknown) => assert("battery"@[0] != "unknown"@[0]),
            (PowerSource::Unknown, PowerSource::Battery) => assert("battery"@[0] != "unknown"@[0]),
            _ => {},
        }
    }
}

/// The textual forms are `"ac"`, `"battery"` and `"unknown"`.
pub proof fn lemma_power_source_texts()
    ensures
        power_source_text(PowerSource::Ac) == "ac"@,
        power_source_text(PowerSource::Battery) == "battery"@,
        power_source_text(PowerSource::Unknown) == "unknown"@,
{
}

/// A notification-relevant change is a difference in presence, percentage
/// or charging state; it is symmetric, and time estimates never count.
pub proof fn lemma_notification_relevance(
    a: BatteryInfo,
    b: BatteryInfo,
    empty: Option<u64>,
    full: Option<u64>,
)
    ensures
        a.notification_relevant_changed(b) <==> (a.is_present != b.is_present || a.percentage
            != b.percentage || a.is_charging != b.is_charging),
        a.notification_relevant_changed(b) == b.notification_relevant_changed(a),
        !a.notification_relevant_changed(a),
        a.notification_relevant_changed(BatteryInfo { time_to_empty: empty, time_to_full: full, ..b })
            == a.notification_relevant_changed(b),
{
}

} // verus!

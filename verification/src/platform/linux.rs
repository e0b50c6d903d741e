//! Linux rules: building the state from UPower properties and reacting to
//! the D-Bus signals the listener subscribes to.
//!
//! The D-Bus calls happen outside this module. UPower reports the battery
//! percentage as a floating-point number; its mapping to `0..=100` is done
//! by the caller, and this module receives the result.
use vstd::prelude::*;

use crate::events::NativeEvent;
use crate::models::{BatteryInfo, PowerSource, PowerState};
use crate::platform::{
    charging_from_upower_state, power_source_from_upower, upower_charging, upower_power_source,
    upower_seconds, upower_time,
};

verus! {

/// `org.freedesktop.UPower.Device.Type` value for batteries.
pub const UPOWER_DEVICE_TYPE_BATTERY: u32 = 2;

/// `org.freedesktop.UPower.Device.State` value for discharging.
pub const UPOWER_STATE_DISCHARGING: u32 = 2;

/// Whether the battery properties of UPower's `DisplayDevice` are read: it
/// must be present and be a battery.
pub open spec fn upower_device_is_battery(device_type: u32, is_present: bool) -> bool {
    is_present && device_type == UPOWER_DEVICE_TYPE_BATTERY
}

/// Decides whether the `DisplayDevice` describes a battery.
pub fn upower_reads_battery(device_type: u32, is_present: bool) -> (reads: bool)
    ensures
        reads == upower_device_is_battery(device_type, is_present),
{
    is_present && device_type == UPOWER_DEVICE_TYPE_BATTERY
}

/// The battery properties of UPower's `DisplayDevice`.
#[derive(Debug, Clone, Copy, PartialEq, Eq, Structural)]
pub struct UpowerBattery {
    /// `Percentage`, already mapped to `0..=100` (`None` when UPower
    /// reports it unknown).
    pub percentage: Option<u8>,
    /// `State`.
    pub state: u32,
    /// `TimeToEmpty`, in seconds.
    pub time_to_empty: i64,
    /// `TimeToFull`, in seconds.
    pub time_to_full: i64,
}

/// The power source of a UPower query. The daemon's `OnBattery` property is
/// the canonical signal; very old UPower versions without it fall back to
/// the battery state (discharging means battery power).
pub open spec fn upower_query_source(battery: Option<UpowerBattery>, on_battery: Option<bool>)
    -> PowerSource {
    match on_battery {
        Some(b) => upower_power_source(b),
        None => if battery matches Some(b) && b.state == UPOWER_STATE_DISCHARGING {
            PowerSource::Battery
        } else {
            PowerSource::Ac
        },
    }
}

/// The battery information of a UPower battery.
pub open spec fn upower_battery_info(battery: UpowerBattery) -> BatteryInfo {
    BatteryInfo {
        is_present: true,
        percentage: battery.percentage,
        is_charging: upower_charging(battery.state),
        time_to_empty: upower_time(battery.time_to_empty),
        time_to_full: upower_time(battery.time_to_full),
    }
}

/// Builds the power state from UPower's aggregated `DisplayDevice` (its
/// battery properties when it is a present battery) and the daemon's
/// `OnBattery` property (`None` when it could not be read).
pub fn state_from_upower(battery: Option<UpowerBattery>, on_battery: Option<bool>) -> (state:
    PowerState)
    ensures
        state.power_source == upower_query_source(battery, on_battery),
        state.battery == (match battery {
            Some(b) => Some(upower_battery_info(b)),
            None => None,
        }),
{
    let info = match battery {
        Some(b) => Some(
            BatteryInfo {
                is_present: true,
                percentage: b.percentage,
                is_charging: charging_from_upower_state(b.state),
                time_to_empty: upower_seconds(b.time_to_empty),
                time_to_full: upower_seconds(b.time_to_full),
            },
        ),
        None => None,
    };
    let power_source = match on_battery {
        Some(on_battery) => power_source_from_upower(on_battery),
        None => match battery {
            Some(b) => if b.state == UPOWER_STATE_DISCHARGING {
                PowerSource::Battery
            } else {
                PowerSource::Ac
            },
            None => PowerSource::Ac,
        },
    };
    PowerState { power_source, battery: info }
}

/// What the Linux listener observed.
#[derive(Debug, Clone, Copy, PartialEq, Eq, Structural)]
pub enum LinuxSignal {
    /// `PropertiesChanged` on UPower's `DisplayDevice`.
    DisplayDeviceChanged,
    /// `PropertiesChanged` on the UPower daemon.
    DaemonChanged,
    /// UPower `DeviceAdded`.
    DeviceAdded,
    /// UPower `DeviceRemoved`.
    DeviceRemoved,
    /// logind `PrepareForSleep(start)`: `true` right before the system
    /// sleeps, `false` right after it wakes.
    PrepareForSleep(bool),
    /// A `PrepareForSleep` signal whose payload is not a boolean.
    InvalidSleepPayload,
    /// A signal stream ended: the bus connection is gone.
    StreamEnded,
    /// The listener was asked to stop.
    StopRequested,
}

/// What the listener does next.
#[derive(Debug, Clone, Copy, PartialEq, Eq, Structural)]
pub enum ListenerStep {
    /// Forward this event to the dispatcher and keep listening.
    Forward(NativeEvent),
    /// Keep listening without forwarding anything.
    Skip,
    /// Leave the listening loop.
    Stop,
}

/// The listener's reaction to a signal.
pub open spec fn linux_step(signal: LinuxSignal) -> ListenerStep {
    match signal {
        LinuxSignal::DisplayDeviceChanged | LinuxSignal::DaemonChanged | LinuxSignal::DeviceAdded
        | LinuxSignal::DeviceRemoved => ListenerStep::Forward(NativeEvent::Requery),
        LinuxSignal::PrepareForSleep(start) => ListenerStep::Forward(
            if start {
                NativeEvent::Suspend
            } else {
                NativeEvent::Resume
            },
        ),
        LinuxSignal::InvalidSleepPayload => ListenerStep::Skip,
        LinuxSignal::StreamEnded | LinuxSignal::StopRequested => ListenerStep::Stop,
    }
}

/// Decides how the Linux listener reacts to a signal.
pub fn linux_listener_step(signal: LinuxSignal) -> (step: ListenerStep)
    ensures
        step == linux_step(signal),
{
    match signal {
        LinuxSignal::DisplayDeviceChanged | LinuxSignal::DaemonChanged | LinuxSignal::DeviceAdded
        | LinuxSignal::DeviceRemoved => ListenerStep::Forward(NativeEvent::Requery),
        LinuxSignal::PrepareForSleep(true) => ListenerStep::Forward(NativeEvent::Suspend),
        LinuxSignal::PrepareForSleep(false) => ListenerStep::Forward(NativeEvent::Resume),
        LinuxSignal::InvalidSleepPayload => ListenerStep::Skip,
        LinuxSignal::StreamEnded | LinuxSignal::StopRequested => ListenerStep::Stop,
    }
}

/// When the daemon's `OnBattery` property was read it alone decides the
/// power source, whatever the battery device reports; without it the
/// system is on battery exactly when the battery discharges.
pub proof fn lemma_upower_source_rules(battery: Option<UpowerBattery>, on_battery: bool)
    ensures
        upower_query_source(battery, Some(on_battery)) == (if on_battery {
            PowerSource::Battery
        } else {
            PowerSource::Ac
        }),
        (upower_query_source(battery, None) == PowerSource::Battery) <==> (
        battery matches Some(b) && b.state == 2),
        upower_query_source(battery, None) != PowerSource::Unknown,
{
}

/// The battery a UPower query reports keeps the percentage it was given,
/// reports charging for state 1, not charging for states 2 to 4 and
/// unknown otherwise, and keeps only positive time estimates.
pub proof fn lemma_upower_battery_fields(battery: UpowerBattery)
    ensures
        upower_battery_info(battery).is_present,
        upower_battery_info(battery).percentage == battery.percentage,
        upower_battery_info(battery).is_charging == (if battery.state == 1 {
            Some(true)
        } else if 2 <= battery.state <= 4 {
            Some(false)
        } else {
            None
        }),
        upower_battery_info(battery).time_to_empty == (if battery.time_to_empty > 0 {
            Some(battery.time_to_empty as u64)
        } else {
            None
        }),
        upower_battery_info(battery).time_to_full == (if battery.time_to_full > 0 {
            Some(battery.time_to_full as u64)
        } else {
            None
        }),
        upower_device_is_battery(2, true),
        forall|t: u32, present: bool|
            upower_device_is_battery(t, present) ==> t == 2 && present,
{
}

/// Every UPower data signal asks for a query, the sleep signal gives
/// suspend before sleeping and resume after, a malformed sleep payload is
/// skipped, and the listener stops exactly when asked to or when a stream
/// ends.
pub proof fn lemma_linux_signal_rules(signal: LinuxSignal)
    ensures
        (linux_step(signal) == ListenerStep::Stop) <==> (signal == LinuxSignal::StreamEnded
            || signal == LinuxSignal::StopRequested),
        linux_step(LinuxSignal::PrepareForSleep(true)) == ListenerStep::Forward(NativeEvent::Suspend),
        linux_step(LinuxSignal::PrepareForSleep(false)) == ListenerStep::Forward(NativeEvent::Resume),
        (signal == LinuxSignal::DisplayDeviceChanged || signal == LinuxSignal::DaemonChanged
            || signal == LinuxSignal::DeviceAdded || signal == LinuxSignal::DeviceRemoved)
            ==> linux_step(signal) == ListenerStep::Forward(NativeEvent::Requery),
        linux_step(LinuxSignal::InvalidSleepPayload) == ListenerStep::Skip,
{
}

} // verus!

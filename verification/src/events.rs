//! Event names, the native event protocol and the state diffing rules.
use vstd::prelude::*;

use crate::models::{BatteryInfo, PowerState};

verus! {

/// Emitted when the system switches between AC and battery power.
///
/// Payload: the full [`PowerState`] snapshot after the change.
pub const POWER_SOURCE_CHANGED_EVENT: &'static str = "power-monitor://power-source-changed";

/// Emitted when the battery percentage, charging state or presence changes.
///
/// Payload: the full [`PowerState`] snapshot after the change.
pub const BATTERY_CHANGED_EVENT: &'static str = "power-monitor://battery-changed";

/// Emitted when the system is about to suspend.
pub const SUSPEND_EVENT: &'static str = "power-monitor://suspend";

/// Emitted when the system resumed from sleep.
pub const RESUME_EVENT: &'static str = "power-monitor://resume";

/// Signals sent by platform listeners to the dispatcher.
///
/// Listeners never query the system themselves: they only signal what kind
/// of native activity happened. The dispatcher re-queries, diffs the result
/// against the last known state and decides which events to emit.
#[derive(Debug, Clone, Copy, PartialEq, Eq, Structural)]
pub enum NativeEvent {
    /// A power-related native signal fired (AC change, battery change,
    /// device hotplug, power settings change, ...).
    Requery,
    /// The system is about to suspend.
    Suspend,
    /// The system resumed.
    Resume,
}

/// Outcome of comparing a fresh [`PowerState`] against the previous one.
#[derive(Debug, Clone, Copy, PartialEq, Eq, Structural)]
pub struct StateDiff {
    pub power_source_changed: bool,
    pub battery_changed: bool,
}

/// Whether the battery part of two consecutive states differs in a way
/// worth a notification: a battery appeared, disappeared, or changed its
/// presence, percentage or charging state.
pub open spec fn battery_change(previous: Option<BatteryInfo>, next: Option<BatteryInfo>) -> bool {
    match (previous, next) {
        (Some(p), Some(n)) => p.notification_relevant_changed(n),
        (None, None) => false,
        _ => true,
    }
}

/// The diff of two consecutive power states.
pub open spec fn state_diff(previous: PowerState, next: PowerState) -> StateDiff {
    StateDiff {
        power_source_changed: previous.power_source != next.power_source,
        battery_changed: battery_change(previous.battery, next.battery),
    }
}

/// Compares two consecutive power states and decides which events to emit.
///
/// Only notification-relevant battery fields count (see
/// [`BatteryInfo::has_notification_relevant_change`]).
pub fn diff_states(previous: &PowerState, next: &PowerState) -> (diff: StateDiff)
    ensures
        diff == state_diff(*previous, *next),
{
    let power_source_changed = previous.power_source != next.power_source;
    let battery_changed = match (&previous.battery, &next.battery) {
        (Some(prev), Some(next)) => prev.has_notification_relevant_change(next),
        (None, None) => false,
        // A battery appeared or disappeared.
        _ => true,
    };
    StateDiff { power_source_changed, battery_changed }
}

/// Comparing a state with itself reports no change of any kind.
pub proof fn lemma_identical_states_produce_no_events(state: PowerState)
    ensures
        !state_diff(state, state).power_source_changed,
        !state_diff(state, state).battery_changed,
{
}

/// The diff does not depend on the direction of the transition: a battery
/// that appears is reported exactly as one that disappears.
pub proof fn lemma_diff_is_symmetric(a: PowerState, b: PowerState)
    ensures
        state_diff(a, b) == state_diff(b, a),
{
}

/// Time estimates never influence the diff: two states whose batteries
/// differ only in `time_to_empty` / `time_to_full` diff like the states
/// with the estimates replaced.
pub proof fn lemma_time_estimates_are_ignored(
    previous: PowerState,
    next: PowerState,
    previous_empty: Option<u64>,
    previous_full: Option<u64>,
    next_empty: Option<u64>,
    next_full: Option<u64>,
)
    ensures
        state_diff(
            PowerState {
                battery: match previous.battery {
                    Some(b) => Some(BatteryInfo { time_to_empty: previous_empty, time_to_full: previous_full, ..b }),
                    None => None,
                },
                ..previous
            },
            PowerState {
                battery: match next.battery {
                    Some(b) => Some(BatteryInfo { time_to_empty: next_empty, time_to_full: next_full, ..b }),
                    None => None,
                },
                ..next
            },
        ) == state_diff(previous, next),
{
}

/// A change is reported for the battery exactly when no battery was and one
/// is, one was and none is, or presence, percentage or charging state moved.
pub proof fn lemma_battery_change_cases(previous: PowerState, next: PowerState)
    ensures
        state_diff(previous, next).battery_changed <==> (
            (previous.battery is Some != next.battery is Some) || (
                previous.battery matches Some(p) && next.battery matches Some(n) && (
                    p.is_present != n.is_present || p.percentage != n.percentage
                        || p.is_charging != n.is_charging))),
{
}

/// The power source is reported changed exactly when the two states name
/// different sources, whatever their batteries hold.
pub proof fn lemma_power_source_change(previous: PowerState, next: PowerState)
    ensures
        state_diff(previous, next).power_source_changed <==> previous.power_source
            != next.power_source,
{
}

} // verus!

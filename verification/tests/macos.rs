use power_monitor::events::NativeEvent;
use power_monitor::models::PowerSource;
use power_monitor::platform::macos::{
    state_from_power_sources, system_power_response, IopsDescription,
    IO_MESSAGE_CAN_SYSTEM_SLEEP, IO_MESSAGE_SYSTEM_HAS_POWERED_ON, IO_MESSAGE_SYSTEM_WILL_SLEEP,
};

fn internal_battery(state: &str, current: i64, charging: bool) -> IopsDescription {
    IopsDescription {
        is_present: Some(true),
        power_source_state: Some(state.to_string()),
        current_capacity: Some(current),
        max_capacity: Some(100),
        is_charging: Some(charging),
        time_to_empty: Some(90),
        time_to_full: Some(-1),
    }
}

#[test]
fn iops_snapshot_with_battery_on_ac() {
    let state = state_from_power_sources(&vec![Some(internal_battery("AC Power", 87, true))]);
    assert_eq!(state.power_source, PowerSource::Ac);
    let battery = state.battery.unwrap();
    assert!(battery.is_present);
    assert_eq!(battery.percentage, Some(87));
    assert_eq!(battery.is_charging, Some(true));
    assert_eq!(battery.time_to_empty, Some(5400));
    assert_eq!(battery.time_to_full, None);
}

#[test]
fn iops_snapshot_without_present_source_is_on_ac() {
    let mut absent = internal_battery("Battery Power", 50, false);
    absent.is_present = Some(false);
    let mut unknown_presence = internal_battery("Battery Power", 50, false);
    unknown_presence.is_present = None;
    let state = state_from_power_sources(&vec![None, Some(absent), Some(unknown_presence)]);
    assert_eq!(state.power_source, PowerSource::Ac);
    assert!(state.battery.is_none());
    let state = state_from_power_sources(&Vec::new());
    assert_eq!(state.power_source, PowerSource::Ac);
    assert!(state.battery.is_none());
}

#[test]
fn iops_snapshot_first_present_source_wins() {
    let state = state_from_power_sources(&vec![
        None,
        Some(internal_battery("Battery Power", 40, false)),
        Some(internal_battery("AC Power", 90, true)),
    ]);
    assert_eq!(state.power_source, PowerSource::Battery);
    assert_eq!(state.battery.unwrap().percentage, Some(40));
}

#[test]
fn iops_snapshot_with_off_line_state_is_unknown_source() {
    let mut description = internal_battery("Off Line", 10, false);
    description.power_source_state = Some("Off Line".to_string());
    description.max_capacity = None;
    description.is_charging = None;
    let state = state_from_power_sources(&vec![Some(description)]);
    assert_eq!(state.power_source, PowerSource::Unknown);
    let battery = state.battery.unwrap();
    assert_eq!(battery.percentage, None);
    assert_eq!(battery.is_charging, None);
}

#[test]
fn system_power_messages_are_answered() {
    let sleep = system_power_response(IO_MESSAGE_SYSTEM_WILL_SLEEP);
    assert_eq!(sleep.event, Some(NativeEvent::Suspend));
    assert!(sleep.allow_power_change);
    let idle = system_power_response(IO_MESSAGE_CAN_SYSTEM_SLEEP);
    assert_eq!(idle.event, None);
    assert!(idle.allow_power_change);
    let woke = system_power_response(IO_MESSAGE_SYSTEM_HAS_POWERED_ON);
    assert_eq!(woke.event, Some(NativeEvent::Resume));
    assert!(!woke.allow_power_change);
    let other = system_power_response(0xE000_0320);
    assert_eq!(other.event, None);
    assert!(!other.allow_power_change);
}

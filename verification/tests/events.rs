use power_monitor::events::diff_states;
use power_monitor::models::BatteryInfo;
use power_monitor::models::PowerSource as PowerSourceForTest;
use power_monitor::models::PowerState;

fn state(source: PowerSourceForTest, battery: Option<BatteryInfo>) -> PowerState {
    PowerState {
        power_source: source,
        battery,
    }
}

fn battery(percentage: Option<u8>, charging: Option<bool>) -> BatteryInfo {
    BatteryInfo {
        is_present: true,
        percentage,
        is_charging: charging,
        time_to_empty: None,
        time_to_full: None,
    }
}

#[test]
fn identical_states_produce_no_events() {
    let prev = state(
        PowerSourceForTest::Battery,
        Some(battery(Some(50), Some(false))),
    );
    let next = prev.clone();
    let diff = diff_states(&prev, &next);
    assert!(!diff.power_source_changed);
    assert!(!diff.battery_changed);
}

#[test]
fn power_source_change_is_detected() {
    let prev = state(PowerSourceForTest::Ac, Some(battery(Some(50), Some(false))));
    let next = state(
        PowerSourceForTest::Battery,
        Some(battery(Some(50), Some(false))),
    );
    let diff = diff_states(&prev, &next);
    assert!(diff.power_source_changed);
    assert!(!diff.battery_changed);
}

#[test]
fn percentage_change_only_emits_battery_event() {
    let prev = state(
        PowerSourceForTest::Battery,
        Some(battery(Some(50), Some(false))),
    );
    let next = state(
        PowerSourceForTest::Battery,
        Some(battery(Some(49), Some(false))),
    );
    let diff = diff_states(&prev, &next);
    assert!(!diff.power_source_changed);
    assert!(diff.battery_changed);
}

#[test]
fn charging_state_change_only_emits_battery_event() {
    let prev = state(PowerSourceForTest::Ac, Some(battery(Some(50), Some(false))));
    let next = state(PowerSourceForTest::Ac, Some(battery(Some(50), Some(true))));
    let diff = diff_states(&prev, &next);
    assert!(!diff.power_source_changed);
    assert!(diff.battery_changed);
}

#[test]
fn time_estimate_changes_are_ignored() {
    let mut prev_bat = battery(Some(50), Some(false));
    prev_bat.time_to_empty = Some(3600);
    let mut next_bat = battery(Some(50), Some(false));
    next_bat.time_to_empty = Some(3540);
    let prev = state(PowerSourceForTest::Battery, Some(prev_bat));
    let next = state(PowerSourceForTest::Battery, Some(next_bat));
    let diff = diff_states(&prev, &next);
    assert!(!diff.power_source_changed);
    assert!(!diff.battery_changed);
}

#[test]
fn battery_appearing_and_disappearing_is_detected() {
    let prev = state(PowerSourceForTest::Ac, None);
    let next = state(PowerSourceForTest::Ac, Some(battery(Some(60), None)));
    assert!(diff_states(&prev, &next).battery_changed);
    assert!(diff_states(&next, &prev).battery_changed);
}

#[test]
fn battery_without_info_changes_is_silent_across_source_changes() {
    let prev = state(PowerSourceForTest::Ac, None);
    let next = state(PowerSourceForTest::Battery, None);
    let diff = diff_states(&prev, &next);
    assert!(diff.power_source_changed);
    assert!(!diff.battery_changed);
}

#[test]
fn diff_is_symmetric_for_concrete_states() {
    let a = state(PowerSourceForTest::Ac, Some(battery(Some(80), Some(true))));
    let b = state(PowerSourceForTest::Unknown, Some(battery(None, Some(true))));
    assert_eq!(diff_states(&a, &b), diff_states(&b, &a));
    let d = diff_states(&a, &b);
    assert!(d.power_source_changed);
    assert!(d.battery_changed);
}

#[test]
fn presence_flag_change_is_a_battery_change() {
    let prev = state(PowerSourceForTest::Ac, Some(battery(Some(10), None)));
    let mut absent = battery(Some(10), None);
    absent.is_present = false;
    let next = state(PowerSourceForTest::Ac, Some(absent));
    assert!(diff_states(&prev, &next).battery_changed);
}

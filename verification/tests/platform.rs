use power_monitor::models::PowerSource;
use power_monitor::platform::{
    backend, charging_from_sysfs_status, charging_from_upower_state,
    percentage_from_iops_capacities, percentage_from_sysfs_capacity, power_source_from_iops_state,
    power_source_from_upower, seconds_from_iops_minutes, seconds_from_windows_dword,
    state_from_system_power_status, sysfs_adapter_is_online, upower_seconds, BackendKind,
};

// -- Windows -----------------------------------------------------------

#[test]
fn windows_maps_ac_online_with_battery() {
    let state = state_from_system_power_status(1, 0x01, 87, 0xFFFF_FFFF, 0xFFFF_FFFF);
    assert_eq!(state.power_source, PowerSource::Ac);
    let battery = state.battery.unwrap();
    assert!(battery.is_present);
    assert_eq!(battery.percentage, Some(87));
    assert_eq!(battery.is_charging, Some(false));
    assert_eq!(battery.time_to_empty, None);
    assert_eq!(battery.time_to_full, None);
}

#[test]
fn windows_maps_battery_with_charging_flag() {
    let state = state_from_system_power_status(0, 0x08, 42, 5400, 0xFFFF_FFFF);
    assert_eq!(state.power_source, PowerSource::Battery);
    let battery = state.battery.unwrap();
    assert_eq!(battery.is_charging, Some(true));
    assert_eq!(battery.percentage, Some(42));
    assert_eq!(battery.time_to_empty, Some(5400));
    assert_eq!(battery.time_to_full, None);
}

#[test]
fn windows_desktop_has_no_battery() {
    let state = state_from_system_power_status(1, 0x80, 0xFF, 0xFFFF_FFFF, 0xFFFF_FFFF);
    assert_eq!(state.power_source, PowerSource::Ac);
    assert!(state.battery.is_none());
}

#[test]
fn windows_unknown_ac_line_status_maps_to_unknown() {
    let state = state_from_system_power_status(0xFF, 0x80, 0xFF, 0xFFFF_FFFF, 0xFFFF_FFFF);
    assert_eq!(state.power_source, PowerSource::Unknown);
}

#[test]
fn windows_unknown_battery_flags_map_to_none_charging() {
    let state = state_from_system_power_status(0, 0xFF, 0xFF, 0xFFFF_FFFF, 0xFFFF_FFFF);
    // 255 = unknown flags: treated as no battery (documented limitation).
    assert!(state.battery.is_none());
}

#[test]
fn windows_clamps_bogus_percentage() {
    let state = state_from_system_power_status(1, 0x01, 200, 0xFFFF_FFFF, 0xFFFF_FFFF);
    assert_eq!(state.battery.unwrap().percentage, Some(100));
}

#[test]
fn windows_unknown_percentage_is_none_and_durations_pass_through() {
    let state = state_from_system_power_status(1, 0x09, 0xFF, 0, 7200);
    let battery = state.battery.unwrap();
    assert_eq!(battery.percentage, None);
    assert_eq!(battery.is_charging, Some(true));
    assert_eq!(battery.time_to_empty, Some(0));
    assert_eq!(battery.time_to_full, Some(7200));
    assert_eq!(seconds_from_windows_dword(0xFFFF_FFFE), Some(0xFFFF_FFFE));
    assert_eq!(seconds_from_windows_dword(0xFFFF_FFFF), None);
}

#[test]
fn windows_low_and_critical_flags_keep_the_battery() {
    let state = state_from_system_power_status(0, 0x06, 3, 60, 0xFFFF_FFFF);
    assert_eq!(state.power_source, PowerSource::Battery);
    let battery = state.battery.unwrap();
    assert_eq!(battery.is_charging, Some(false));
    assert_eq!(battery.percentage, Some(3));
}

// -- macOS --------------------------------------------------------------

#[test]
fn iops_state_strings_map_to_power_source() {
    assert_eq!(
        power_source_from_iops_state("AC Power"),
        Some(PowerSource::Ac)
    );
    assert_eq!(
        power_source_from_iops_state("Battery Power"),
        Some(PowerSource::Battery)
    );
    assert_eq!(power_source_from_iops_state("Off Line"), None);
    assert_eq!(power_source_from_iops_state(""), None);
}

#[test]
fn iops_state_strings_are_matched_exactly() {
    assert_eq!(power_source_from_iops_state("AC Power "), None);
    assert_eq!(power_source_from_iops_state("ac power"), None);
}

#[test]
fn iops_minutes_handle_calculating_sentinel() {
    assert_eq!(seconds_from_iops_minutes(-1), None);
    assert_eq!(seconds_from_iops_minutes(0), None);
    assert_eq!(seconds_from_iops_minutes(59), Some(59 * 60));
}

#[test]
fn iops_percentage_is_computed_from_capacities() {
    assert_eq!(
        percentage_from_iops_capacities(Some(87), Some(100)),
        Some(87)
    );
    assert_eq!(
        percentage_from_iops_capacities(Some(45), Some(90)),
        Some(50)
    );
    assert_eq!(percentage_from_iops_capacities(None, Some(100)), None);
    assert_eq!(percentage_from_iops_capacities(Some(50), None), None);
    assert_eq!(percentage_from_iops_capacities(Some(-1), Some(100)), None);
    assert_eq!(percentage_from_iops_capacities(Some(100), Some(0)), None);
    assert_eq!(
        percentage_from_iops_capacities(Some(120), Some(100)),
        Some(100)
    );
}

#[test]
fn iops_percentage_is_unknown_for_non_positive_capacities() {
    assert_eq!(percentage_from_iops_capacities(Some(0), Some(5000)), None);
    assert_eq!(percentage_from_iops_capacities(Some(0), Some(100)), None);
    assert_eq!(percentage_from_iops_capacities(Some(50), Some(-100)), None);
}

#[test]
fn iops_percentage_rounds_to_nearest_with_halves_up() {
    assert_eq!(percentage_from_iops_capacities(Some(1), Some(8)), Some(13));
    assert_eq!(percentage_from_iops_capacities(Some(1), Some(3)), Some(33));
    assert_eq!(percentage_from_iops_capacities(Some(2), Some(3)), Some(67));
    assert_eq!(percentage_from_iops_capacities(Some(1), Some(5000)), Some(0));
    assert_eq!(
        percentage_from_iops_capacities(Some(i64::MAX - 1), Some(i64::MAX)),
        Some(100)
    );
}

// -- Linux UPower -------------------------------------------------------

#[test]
fn upower_state_maps_charging() {
    assert_eq!(charging_from_upower_state(1), Some(true));
    assert_eq!(charging_from_upower_state(2), Some(false));
    assert_eq!(charging_from_upower_state(3), Some(false));
    assert_eq!(charging_from_upower_state(4), Some(false));
    assert_eq!(charging_from_upower_state(0), None);
    assert_eq!(charging_from_upower_state(5), None);
    assert_eq!(charging_from_upower_state(6), None);
    assert_eq!(charging_from_upower_state(99), None);
}

#[test]
fn upower_on_battery_maps_power_source() {
    assert_eq!(power_source_from_upower(true), PowerSource::Battery);
    assert_eq!(power_source_from_upower(false), PowerSource::Ac);
}

#[test]
fn upower_seconds_maps_unknown_and_invalid() {
    assert_eq!(upower_seconds(0), None);
    assert_eq!(upower_seconds(-1), None);
    assert_eq!(upower_seconds(3600), Some(3600));
}

// -- Linux sysfs --------------------------------------------------------

#[test]
fn sysfs_status_maps_charging() {
    assert_eq!(charging_from_sysfs_status("Charging"), Some(true));
    assert_eq!(charging_from_sysfs_status("Discharging\n"), Some(false));
    assert_eq!(charging_from_sysfs_status("Not charging"), Some(false));
    assert_eq!(charging_from_sysfs_status("Full"), Some(false));
    assert_eq!(charging_from_sysfs_status("Unknown"), None);
    assert_eq!(charging_from_sysfs_status(""), None);
}

#[test]
fn sysfs_status_ignores_unicode_whitespace_but_not_case() {
    assert_eq!(charging_from_sysfs_status("\u{3000} Full\t"), Some(false));
    assert_eq!(charging_from_sysfs_status("charging"), None);
    assert_eq!(charging_from_sysfs_status("Not  charging"), None);
}

#[test]
fn sysfs_online_maps_adapter_state() {
    assert!(sysfs_adapter_is_online("1"));
    assert!(sysfs_adapter_is_online("2\n")); // PD quirk still powers the system
    assert!(!sysfs_adapter_is_online("0"));
    assert!(!sysfs_adapter_is_online(""));
}

#[test]
fn sysfs_online_treats_padded_zero_and_blank_as_offline() {
    assert!(!sysfs_adapter_is_online(" 0\n"));
    assert!(!sysfs_adapter_is_online(" \n\t"));
    assert!(sysfs_adapter_is_online("00"));
}

#[test]
fn sysfs_capacity_is_parsed_and_clamped() {
    assert_eq!(percentage_from_sysfs_capacity("64\n"), Some(64));
    assert_eq!(percentage_from_sysfs_capacity("+7"), Some(7));
    assert_eq!(percentage_from_sysfs_capacity("007"), Some(7));
    assert_eq!(percentage_from_sysfs_capacity("120"), Some(100));
    assert_eq!(percentage_from_sysfs_capacity("255"), Some(100));
    assert_eq!(percentage_from_sysfs_capacity("256"), None);
    assert_eq!(percentage_from_sysfs_capacity("-1"), None);
    assert_eq!(percentage_from_sysfs_capacity("+"), None);
    assert_eq!(percentage_from_sysfs_capacity(""), None);
    assert_eq!(percentage_from_sysfs_capacity("4 2"), None);
    assert_eq!(percentage_from_sysfs_capacity("99999999999999999999"), None);
}

// -- Backend selection --------------------------------------------------

#[test]
fn backend_follows_the_operating_system() {
    assert_eq!(backend("windows"), BackendKind::Windows);
    assert_eq!(backend("macos"), BackendKind::Macos);
    assert_eq!(backend("linux"), BackendKind::Linux);
    assert_eq!(backend("freebsd"), BackendKind::Unsupported);
    assert_eq!(backend("android"), BackendKind::Unsupported);
    assert_eq!(backend(""), BackendKind::Unsupported);
}

use power_monitor::models::PowerSource;
use power_monitor::platform::sysfs::{read_state_from_sysfs, SysfsSupply};

fn supply(name: &str, files: &[(&str, &str)]) -> SysfsSupply {
    let read = |file: &str| {
        files
            .iter()
            .find(|(f, _)| *f == file)
            .map(|(_, contents)| contents.to_string())
    };
    SysfsSupply {
        name: name.as_bytes().to_vec(),
        kind: read("type"),
        online: read("online"),
        present: read("present"),
        capacity: read("capacity"),
        status: read("status"),
    }
}

#[test]
fn sysfs_reader_parses_laptop_on_ac() {
    let supplies = vec![
        supply("ADP1", &[("type", "Mains"), ("online", "1")]),
        supply(
            "BAT0",
            &[
                ("type", "Battery"),
                ("present", "1"),
                ("capacity", "64"),
                ("status", "Charging"),
            ],
        ),
    ];
    let state = read_state_from_sysfs(&supplies);
    assert_eq!(state.power_source, PowerSource::Ac);
    let battery = state.battery.expect("battery expected");
    assert_eq!(battery.percentage, Some(64));
    assert_eq!(battery.is_charging, Some(true));
    assert_eq!(battery.time_to_empty, None);
    assert_eq!(battery.time_to_full, None);
}

#[test]
fn sysfs_reader_parses_laptop_on_battery() {
    let supplies = vec![
        supply("ADP1", &[("type", "Mains"), ("online", "0")]),
        supply(
            "BAT0",
            &[
                ("type", "Battery"),
                ("present", "1"),
                ("capacity", "23"),
                ("status", "Discharging"),
            ],
        ),
    ];
    let state = read_state_from_sysfs(&supplies);
    assert_eq!(state.power_source, PowerSource::Battery);
    assert_eq!(state.battery.unwrap().is_charging, Some(false));
}

#[test]
fn sysfs_reader_parses_desktop_without_battery() {
    let supplies = vec![supply("AC0", &[("type", "Mains"), ("online", "1")])];
    let state = read_state_from_sysfs(&supplies);
    assert_eq!(state.power_source, PowerSource::Ac);
    assert!(state.battery.is_none());
}

#[test]
fn sysfs_reader_reports_unknown_without_supplies() {
    let state = read_state_from_sysfs(&Vec::new());
    assert_eq!(state.power_source, PowerSource::Unknown);
    assert!(state.battery.is_none());
}

#[test]
fn sysfs_reader_handles_missing_present_file_and_offline_adapter() {
    let supplies = vec![
        supply("ADP1", &[("type", "Mains"), ("online", "0")]),
        supply("BAT0", &[("type", "Battery"), ("status", "Full")]),
    ];
    let state = read_state_from_sysfs(&supplies);
    assert_eq!(state.power_source, PowerSource::Battery);
    let battery = state.battery.expect("battery expected");
    assert!(battery.is_present);
    assert_eq!(battery.percentage, None);
    assert_eq!(battery.is_charging, Some(false));
}

#[test]
fn sysfs_reader_picks_the_first_present_battery_deterministically() {
    let adapter = supply("ADP1", &[("type", "Mains"), ("online", "1")]);
    let bat0 = || supply("BAT0", &[("type", "Battery"), ("capacity", "50")]);
    let bat1 = || {
        supply(
            "BAT1",
            &[
                ("type", "Battery"),
                ("capacity", "90"),
                ("status", "Charging"),
            ],
        )
    };
    let state = read_state_from_sysfs(&vec![adapter, bat0(), bat1()]);
    assert_eq!(state.power_source, PowerSource::Ac);
    assert_eq!(state.battery.unwrap().percentage, Some(50));
    // The listing order of the directory does not matter.
    let state = read_state_from_sysfs(&vec![bat1(), bat0()]);
    assert_eq!(state.power_source, PowerSource::Battery);
    assert_eq!(state.battery.unwrap().percentage, Some(50));
}

#[test]
fn sysfs_reader_ignores_absent_battery() {
    let supplies = vec![
        supply("ADP1", &[("type", "Mains"), ("online", "1")]),
        supply(
            "BAT0",
            &[("type", "Battery"), ("present", "0"), ("capacity", "10")],
        ),
    ];
    let state = read_state_from_sysfs(&supplies);
    assert_eq!(state.power_source, PowerSource::Ac);
    assert!(state.battery.is_none());
}

#[test]
fn sysfs_reader_ignores_out_of_scope_supply_kinds() {
    let supplies = vec![supply(
        "UPS0",
        &[("type", "UPS"), ("online", "1"), ("capacity", "99")],
    )];
    let state = read_state_from_sysfs(&supplies);
    assert_eq!(state.power_source, PowerSource::Unknown);
    assert!(state.battery.is_none());
}

#[test]
fn sysfs_reader_trims_file_contents() {
    let supplies = vec![
        supply("ADP1", &[("type", "Mains\n"), ("online", "0\n")]),
        supply(
            "BAT0",
            &[
                ("type", "Battery\n"),
                ("present", "1\n"),
                ("capacity", "120\n"),
                ("status", "Not charging\n"),
            ],
        ),
    ];
    let state = read_state_from_sysfs(&supplies);
    assert_eq!(state.power_source, PowerSource::Battery);
    let battery = state.battery.unwrap();
    assert_eq!(battery.percentage, Some(100));
    assert_eq!(battery.is_charging, Some(false));
}

#[test]
fn sysfs_reader_skips_absent_first_battery_for_the_next() {
    let supplies = vec![
        supply("BAT0", &[("type", "Battery"), ("present", "0"), ("capacity", "10")]),
        supply("BAT1", &[("type", "Battery"), ("capacity", "77"), ("status", "Unknown")]),
    ];
    let state = read_state_from_sysfs(&supplies);
    assert_eq!(state.power_source, PowerSource::Battery);
    let battery = state.battery.unwrap();
    assert_eq!(battery.percentage, Some(77));
    assert_eq!(battery.is_charging, None);
}

#[test]
fn sysfs_reader_treats_missing_type_as_out_of_scope() {
    let supplies = vec![supply("hidpp_battery_0", &[("capacity", "40")])];
    let state = read_state_from_sysfs(&supplies);
    assert_eq!(state.power_source, PowerSource::Unknown);
    assert!(state.battery.is_none());
}

#[test]
fn sysfs_reader_orders_names_by_bytes() {
    let supplies = vec![
        supply("BAT\u{e9}", &[("type", "Battery"), ("capacity", "11")]),
        supply("BATz", &[("type", "Battery"), ("capacity", "22")]),
    ];
    let state = read_state_from_sysfs(&supplies);
    assert_eq!(state.battery.unwrap().percentage, Some(22));
}

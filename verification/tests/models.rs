use power_monitor::models::{BatteryInfo, PowerSource, PowerState};

#[test]
fn notification_relevant_change_ignores_time_estimates() {
    let a = BatteryInfo {
        is_present: true,
        percentage: Some(80),
        is_charging: Some(false),
        time_to_empty: Some(3600),
        time_to_full: None,
    };
    let mut b = a.clone();
    b.time_to_empty = Some(3540);
    assert!(!a.has_notification_relevant_change(&b));

    b.percentage = Some(79);
    assert!(a.has_notification_relevant_change(&b));

    let mut c = a.clone();
    c.is_charging = Some(true);
    assert!(a.has_notification_relevant_change(&c));

    let mut d = a.clone();
    d.is_present = false;
    assert!(a.has_notification_relevant_change(&d));
}

#[test]
fn power_source_as_str_gives_lowercase_names() {
    assert_eq!(PowerSource::Ac.as_str(), "ac");
    assert_eq!(PowerSource::Battery.as_str(), "battery");
    assert_eq!(PowerSource::Unknown.as_str(), "unknown");
}

#[test]
fn power_source_as_str_is_injective() {
    let all = [PowerSource::Ac, PowerSource::Battery, PowerSource::Unknown];
    for a in all {
        for b in all {
            assert_eq!(a.as_str() == b.as_str(), a == b);
        }
    }
}

#[test]
fn time_to_full_change_alone_is_not_relevant() {
    let a = BatteryInfo {
        is_present: true,
        percentage: Some(42),
        is_charging: Some(true),
        time_to_empty: None,
        time_to_full: Some(2340),
    };
    let mut b = a;
    b.time_to_full = None;
    assert!(!a.has_notification_relevant_change(&b));
    assert!(!b.has_notification_relevant_change(&a));
}

#[test]
fn power_state_equality_is_field_wise() {
    let a = PowerState { power_source: PowerSource::Ac, battery: None };
    let b = PowerState { power_source: PowerSource::Ac, battery: None };
    let c = PowerState { power_source: PowerSource::Battery, battery: None };
    assert_eq!(a, b);
    assert_ne!(a, c);
}

//! Platform mapping rules.
//!
//! The helpers here translate raw platform values into the unified model.
//! They are free of any system access, so every platform's rules can be
//! checked and tested everywhere.
use vstd::prelude::*;

use crate::models::{BatteryInfo, PowerSource, PowerState};
use crate::text::{
    lemma_trim_idempotent, parse_u8_value, range_equals, str_equals, trim, trim_bounds, trimmed_equals,
};

pub mod linux;
pub mod macos;
pub mod sysfs;
pub mod windows;

verus! {

/// The platform backends that exist.
#[derive(Debug, Clone, Copy, PartialEq, Eq, Structural)]
pub enum BackendKind {
    /// `GetSystemPowerStatus` and `WM_POWERBROADCAST`.
    Windows,
    /// IOPowerSources and IOKit system power notifications.
    Macos,
    /// UPower and systemd-logind over D-Bus, with a sysfs fallback.
    Linux,
    /// No backend: every query and listener start fails.
    Unsupported,
}

/// The backend used on the operating system named `target_os` (the
/// spelling of `std::env::consts::OS`).
pub open spec fn backend_for(target_os: Seq<char>) -> BackendKind {
    if target_os == "windows"@ {
        BackendKind::Windows
    } else if target_os == "macos"@ {
        BackendKind::Macos
    } else if target_os == "linux"@ {
        BackendKind::Linux
    } else {
        BackendKind::Unsupported
    }
}

/// Chooses the platform backend for the operating system `target_os`.
pub fn backend(target_os: &str) -> (kind: BackendKind)
    ensures
        kind == backend_for(target_os@),
{
    if str_equals(target_os, "windows") {
        BackendKind::Windows
    } else if str_equals(target_os, "macos") {
        BackendKind::Macos
    } else if str_equals(target_os, "linux") {
        BackendKind::Linux
    } else {
        BackendKind::Unsupported
    }
}

// ---------------------------------------------------------------------------
// Windows mapping (`SYSTEM_POWER_STATUS`):
//   ACLineStatus: 0 offline, 1 online, 255 unknown.
//   BatteryFlag: 1 high, 2 low, 4 critical, 8 charging, 128 no battery,
//                255 unknown; other bits are reserved.
//   BatteryLifePercent: 0-100, 255 unknown.
//   BatteryLifeTime / BatteryFullLifeTime: seconds, 0xFFFFFFFF unknown.
// ---------------------------------------------------------------------------

/// `SYSTEM_POWER_STATUS.BatteryFlag` bit indicating that no battery exists.
pub const WINDOWS_BATTERY_FLAG_NO_BATTERY: u8 = 0x80;

/// `SYSTEM_POWER_STATUS.BatteryFlag` bit indicating that the battery is charging.
pub const WINDOWS_BATTERY_FLAG_CHARGING: u8 = 0x08;

/// `SYSTEM_POWER_STATUS` sentinel meaning "unknown value".
pub const WINDOWS_UNKNOWN_U8: u8 = 0xFF;

/// `SYSTEM_POWER_STATUS` sentinel meaning "unknown duration".
pub const WINDOWS_UNKNOWN_U32: u32 = 0xFFFF_FFFF;

/// The power source that `ACLineStatus` reports.
pub open spec fn windows_power_source(ac_line_status: u8) -> PowerSource {
    if ac_line_status == 0 {
        PowerSource::Battery
    } else if ac_line_status == 1 {
        PowerSource::Ac
    } else {
        PowerSource::Unknown
    }
}

/// Whether `BatteryFlag` reports a battery: the "no battery" bit is clear
/// and the flags are not the "unknown" sentinel (reported by ACPI-only
/// desktops and some virtual machines, where no battery data exists).
pub open spec fn windows_battery_present(battery_flag: u8) -> bool {
    battery_flag & WINDOWS_BATTERY_FLAG_NO_BATTERY == 0 && battery_flag != WINDOWS_UNKNOWN_U8
}

/// A `SYSTEM_POWER_STATUS` duration: the sentinel means unknown.
pub open spec fn windows_seconds(value: u32) -> Option<u64> {
    if value == WINDOWS_UNKNOWN_U32 {
        None
    } else {
        Some(value as u64)
    }
}

/// The state a `SYSTEM_POWER_STATUS` snapshot describes.
pub open spec fn windows_state(
    ac_line_status: u8,
    battery_flag: u8,
    battery_life_percent: u8,
    battery_life_time: u32,
    battery_full_life_time: u32,
) -> PowerState {
    PowerState {
        power_source: windows_power_source(ac_line_status),
        battery: if windows_battery_present(battery_flag) {
            Some(
                BatteryInfo {
                    is_present: true,
                    percentage: if battery_life_percent == WINDOWS_UNKNOWN_U8 {
                        None
                    } else if battery_life_percent > 100 {
                        Some(100u8)
                    } else {
                        Some(battery_life_percent)
                    },
                    is_charging: Some(battery_flag & WINDOWS_BATTERY_FLAG_CHARGING != 0),
                    time_to_empty: windows_seconds(battery_life_time),
                    time_to_full: windows_seconds(battery_full_life_time),
                },
            )
        } else {
            None
        },
    }
}

/// Maps a raw `SYSTEM_POWER_STATUS` snapshot to the unified model.
pub fn state_from_system_power_status(
    ac_line_status: u8,
    battery_flag: u8,
    battery_life_percent: u8,
    battery_life_time: u32,
    battery_full_life_time: u32,
) -> (state: PowerState)
    ensures
        state == windows_state(
            ac_line_status,
            battery_flag,
            battery_life_percent,
            battery_life_time,
            battery_full_life_time,
        ),
        state.well_formed(),
{
    let power_source = match ac_line_status {
        0 => PowerSource::Battery,
        1 => PowerSource::Ac,
        _ => PowerSource::Unknown,
    };
    let is_present = battery_flag & WINDOWS_BATTERY_FLAG_NO_BATTERY == 0 && battery_flag
        != WINDOWS_UNKNOWN_U8;
    let battery = if is_present {
        Some(
            BatteryInfo {
                is_present: true,
                percentage: if battery_life_percent == WINDOWS_UNKNOWN_U8 {
                    None
                } else if battery_life_percent > 100 {
                    Some(100)
                } else {
                    Some(battery_life_percent)
                },
                // The "unknown" flags never reach here: they mean no battery.
                is_charging: Some(battery_flag & WINDOWS_BATTERY_FLAG_CHARGING != 0),
                time_to_empty: seconds_from_windows_dword(battery_life_time),
                time_to_full: seconds_from_windows_dword(battery_full_life_time),
            },
        )
    } else {
        None
    };
    PowerState { power_source, battery }
}

/// Unknown Windows values are reported as unknown, never fabricated: an
/// unknown line status gives an unknown source, unknown flags give no
/// battery, and an unknown percentage or duration gives `None`.
pub proof fn lemma_windows_unknown_values_are_not_fabricated(
    battery_flag: u8,
    battery_life_percent: u8,
    battery_life_time: u32,
    battery_full_life_time: u32,
)
    ensures
        windows_state(
            WINDOWS_UNKNOWN_U8,
            battery_flag,
            battery_life_percent,
            battery_life_time,
            battery_full_life_time,
        ).power_source == PowerSource::Unknown,
        windows_state(
            0,
            WINDOWS_UNKNOWN_U8,
            battery_life_percent,
            battery_life_time,
            battery_full_life_time,
        ).battery is None,
        windows_battery_present(battery_flag) ==> windows_state(
            0,
            battery_flag,
            WINDOWS_UNKNOWN_U8,
            WINDOWS_UNKNOWN_U32,
            WINDOWS_UNKNOWN_U32,
        ).battery == Some(
            BatteryInfo {
                is_present: true,
                percentage: None,
                is_charging: Some(battery_flag & WINDOWS_BATTERY_FLAG_CHARGING != 0),
                time_to_empty: None,
                time_to_full: None,
            },
        ),
{
}

/// Maps a `SYSTEM_POWER_STATUS` duration, where the sentinel means unknown.
pub fn seconds_from_windows_dword(value: u32) -> (seconds: Option<u64>)
    ensures
        seconds == windows_seconds(value),
{
    if value == WINDOWS_UNKNOWN_U32 {
        None
    } else {
        Some(value as u64)
    }
}

// ---------------------------------------------------------------------------
// macOS IOPowerSources mapping (IOPSKeys.h):
//   "Power Source State": "AC Power" / "Battery Power" / "Off Line"
//   "Is Present": boolean
//   "Current Capacity" / "Max Capacity": numbers (percent-based)
//   "Time to Empty" / "Time to Full Charge": signed minutes, -1 = calculating
// ---------------------------------------------------------------------------

/// The power source an IOPowerSources `"Power Source State"` names.
pub open spec fn iops_power_source(state: Seq<char>) -> Option<PowerSource> {
    if state == "AC Power"@ {
        Some(PowerSource::Ac)
    } else if state == "Battery Power"@ {
        Some(PowerSource::Battery)
    } else {
        None
    }
}

/// Maps an IOPowerSources `"Power Source State"` string to the unified
/// model. `"Off Line"` and unrecognized values give `None`.
pub fn power_source_from_iops_state(state: &str) -> (source: Option<PowerSource>)
    ensures
        source == iops_power_source(state@),
{
    if str_equals(state, "AC Power") {
        Some(PowerSource::Ac)
    } else if str_equals(state, "Battery Power") {
        Some(PowerSource::Battery)
    } else {
        None
    }
}

/// An IOPowerSources estimate in minutes, as seconds. `-1` ("still
/// calculating") and `0` (degenerate filler some models report while
/// plugged in) are unknown.
pub open spec fn iops_seconds(minutes: i64) -> Option<u64> {
    if minutes <= 0 {
        None
    } else {
        Some((minutes * 60) as u64)
    }
}

/// Whether an estimate in minutes can be given in seconds as a `u64`.
pub open spec fn iops_minutes_in_range(minutes: i64) -> bool {
    minutes * 60 <= u64::MAX
}

/// Converts IOPowerSources minutes (with `-1` meaning "still calculating")
/// into seconds; `0` is treated as unknown as well.
pub fn seconds_from_iops_minutes(minutes: i64) -> (seconds: Option<u64>)
    requires
        iops_minutes_in_range(minutes),
    ensures
        seconds == iops_seconds(minutes),
{
    if minutes <= 0 {
        None
    } else {
        Some(minutes as u64 * 60)
    }
}

/// The percentage that IOPowerSources capacities describe: `None` when a
/// value is missing or either value is not positive; otherwise `current / max` in percent, clamped to `0..=100` and
/// rounded to the nearest integer, halves rounded up.
pub open spec fn iops_percentage(current: Option<i64>, max: Option<i64>) -> Option<u8> {
    match (current, max) {
        (Some(c), Some(m)) => if c <= 0 || m <= 0 {
            None
        } else if c >= m {
            Some(100u8)
        } else {
            Some(((200 * c + m) / (2 * m)) as u8)
        },
        _ => None,
    }
}

proof fn lemma_rounded_percentage_bounds(c: int, m: int)
    requires
        0 < c < m,
    ensures
        0 <= (200 * c + m) / (2 * m) <= 100,
{
    assert(0 <= (200 * c + m) / (2 * m) <= 100) by (nonlinear_arith)
        requires
            0 < c < m,
    ;
}

/// Computes a percentage from IOPowerSources capacity numbers.
///
/// Returns `None` when either value is missing or non-positive.
pub fn percentage_from_iops_capacities(current: Option<i64>, max: Option<i64>) -> (percentage:
    Option<u8>)
    ensures
        percentage == iops_percentage(current, max),
        percentage matches Some(p) ==> p <= 100,
{
    let (current, max) = match (current, max) {
        (Some(c), Some(m)) => (c, m),
        _ => {
            return None;
        },
    };
    if current <= 0 || max <= 0 {
        return None;
    }
    if current >= max {
        return Some(100);
    }
    proof {
        lemma_rounded_percentage_bounds(current as int, max as int);
    }
    let c = current as i128;
    let m = max as i128;
    let rounded = (200 * c + m) / (2 * m);
    Some(rounded as u8)
}

// ---------------------------------------------------------------------------
// Linux UPower mapping:
//   Device.State: 0 unknown, 1 charging, 2 discharging, 3 empty,
//                 4 fully charged, 5 pending charge, 6 pending discharge
// ---------------------------------------------------------------------------

/// The charging flag a UPower `Device.State` value implies. Pending states
/// and unknown values have no defined meaning here, so they give `None`.
pub open spec fn upower_charging(state: u32) -> Option<bool> {
    if state == 1 {
        Some(true)
    } else if 2 <= state <= 4 {
        Some(false)
    } else {
        None
    }
}

/// Maps a UPower `Device.State` value to a charging flag.
pub fn charging_from_upower_state(state: u32) -> (charging: Option<bool>)
    ensures
        charging == upower_charging(state),
{
    match state {
        1 => Some(true),
        2..=4 => Some(false),
        _ => None,
    }
}

/// The power source the UPower daemon's `OnBattery` property names.
pub open spec fn upower_power_source(on_battery: bool) -> PowerSource {
    if on_battery {
        PowerSource::Battery
    } else {
        PowerSource::Ac
    }
}

/// Maps the UPower daemon `OnBattery` property.
pub fn power_source_from_upower(on_battery: bool) -> (source: PowerSource)
    ensures
        source == upower_power_source(on_battery),
{
    if on_battery {
        PowerSource::Battery
    } else {
        PowerSource::Ac
    }
}

/// A UPower time estimate: `0` means unknown, negative values are invalid.
pub open spec fn upower_time(seconds: i64) -> Option<u64> {
    if seconds > 0 {
        Some(seconds as u64)
    } else {
        None
    }
}

/// UPower reports `0` when a time estimate is unknown.
pub fn upower_seconds(seconds: i64) -> (estimate: Option<u64>)
    ensures
        estimate == upower_time(seconds),
{
    if seconds > 0 {
        Some(seconds as u64)
    } else {
        None
    }
}

// ---------------------------------------------------------------------------
// Linux sysfs mapping (Documentation/ABI/testing/sysfs-class-power):
//   type: "Mains" / "Battery" / "UPS" / "USB"
//   online: 0 offline, 1 online (2 is a PD-related quirk on some kernels,
//          documented as "still powering the system")
//   capacity: 0-100 (may be missing)
//   status: "Charging" / "Discharging" / "Not charging" / "Full" / "Unknown"
//   present: 0/1, file may be absent (kernel default: present)
// ---------------------------------------------------------------------------

/// The charging flag a sysfs `status` value implies, surrounding whitespace
/// ignored.
pub open spec fn sysfs_charging(status: Seq<char>) -> Option<bool> {
    let t = trim(status);
    if t == "Charging"@ {
        Some(true)
    } else if t == "Discharging"@ || t == "Not charging"@ || t == "Full"@ {
        Some(false)
    } else {
        None
    }
}

/// Maps a sysfs `status` value to a charging flag.
pub fn charging_from_sysfs_status(status: &str) -> (charging: Option<bool>)
    ensures
        charging == sysfs_charging(status@),
{
    let (start, end) = trim_bounds(status);
    if range_equals(status, start, end, "Charging") {
        Some(true)
    } else if range_equals(status, start, end, "Discharging") || range_equals(
        status,
        start,
        end,
        "Not charging",
    ) || range_equals(status, start, end, "Full") {
        Some(false)
    } else {
        None
    }
}

/// Whether a sysfs `online` value reports an online adapter: anything but
/// an empty value or `"0"` (surrounding whitespace ignored), so the
/// documented `2` quirk counts as online.
pub open spec fn sysfs_online(online: Seq<char>) -> bool {
    trim(online).len() > 0 && trim(online) != "0"@
}

/// Maps a sysfs `online` value (any non-`"0"` counts as online, including
/// the documented `2` quirk).
pub fn sysfs_adapter_is_online(online: &str) -> (is_online: bool)
    ensures
        is_online == sysfs_online(online@),
{
    let (start, end) = trim_bounds(online);
    start < end && !range_equals(online, start, end, "0")
}

/// The percentage a sysfs `capacity` value gives: the trimmed value parsed
/// as a `u8`, clamped to 100.
pub open spec fn sysfs_percentage(capacity: Seq<char>) -> Option<u8> {
    match parse_u8_value(trim(capacity)) {
        Some(p) => Some(if p > 100 { 100u8 } else { p }),
        None => None,
    }
}

/// Maps a sysfs `capacity` value to a percentage.
pub fn percentage_from_sysfs_capacity(capacity: &str) -> (percentage: Option<u8>)
    ensures
        percentage == sysfs_percentage(capacity@),
        percentage matches Some(p) ==> p <= 100,
{
    let (start, end) = trim_bounds(capacity);
    match crate::text::parse_u8_range(capacity, start, end) {
        Some(p) => Some(if p > 100 { 100 } else { p }),
        None => None,
    }
}

/// The Windows snapshot rules over every input: line status 0 is battery
/// power, 1 is AC, anything else unknown; a battery is reported exactly
/// when the no-battery bit (0x80) is clear and the flags are not 255, and
/// it then charges exactly when bit 0x08 is set; a percentage of 255 is
/// unknown and larger values are capped at 100; durations of 0xFFFFFFFF
/// are unknown and all others are kept.
pub proof fn lemma_windows_snapshot_rules(
    ac_line_status: u8,
    battery_flag: u8,
    battery_life_percent: u8,
    battery_life_time: u32,
    battery_full_life_time: u32,
)
    ensures
        ({
            let state = windows_state(
                ac_line_status,
                battery_flag,
                battery_life_percent,
                battery_life_time,
                battery_full_life_time,
            );
            &&& state.power_source == (if ac_line_status == 0 {
                PowerSource::Battery
            } else if ac_line_status == 1 {
                PowerSource::Ac
            } else {
                PowerSource::Unknown
            })
            &&& (state.battery is Some <==> (battery_flag & 0x80u8 == 0 && battery_flag != 0xFFu8))
            &&& (state.battery matches Some(b) ==> {
                &&& b.is_present
                &&& b.is_charging == Some(battery_flag & 0x08u8 != 0)
                &&& b.percentage == (if battery_life_percent == 0xFFu8 {
                    None
                } else if battery_life_percent > 100 {
                    Some(100u8)
                } else {
                    Some(battery_life_percent)
                })
                &&& b.time_to_empty == (if battery_life_time == 0xFFFF_FFFFu32 {
                    None
                } else {
                    Some(battery_life_time as u64)
                })
                &&& b.time_to_full == (if battery_full_life_time == 0xFFFF_FFFFu32 {
                    None
                } else {
                    Some(battery_full_life_time as u64)
                })
            })
        }),
        windows_seconds(battery_life_time) == (if battery_life_time == 0xFFFF_FFFFu32 {
            None
        } else {
            Some(battery_life_time as u64)
        }),
{
}

/// A battery whose flags report neither "no battery" nor "unknown" is
/// always reported, whatever else the flags hold; with no flag set it is
/// present and not charging.
pub proof fn lemma_windows_plain_flags_keep_the_battery(
    ac_line_status: u8,
    battery_life_percent: u8,
    battery_life_time: u32,
    battery_full_life_time: u32,
)
    ensures
        windows_state(
            ac_line_status,
            0,
            battery_life_percent,
            battery_life_time,
            battery_full_life_time,
        ).battery matches Some(b) && b.is_present && b.is_charging == Some(false),
        forall|flag: u8|
            flag < 0x80 ==> (#[trigger] windows_state(
                ac_line_status,
                flag,
                battery_life_percent,
                battery_life_time,
                battery_full_life_time,
            )).battery is Some,
{
    assert(0u8 & 0x80u8 == 0 && 0u8 & 0x08u8 == 0) by (bit_vector);
    assert forall|flag: u8| flag < 0x80 implies (flag & 0x80u8 == 0 && flag != 0xFFu8) by {
        assert(flag < 0x80 ==> flag & 0x80u8 == 0) by (bit_vector);
    }
}

/// IOPowerSources estimates: positive minutes are kept as seconds, `0` and
/// negative values (still calculating) are unknown.
pub proof fn lemma_iops_seconds_rules(minutes: i64)
    ensures
        minutes > 0 ==> iops_seconds(minutes) == Some((minutes * 60) as u64),
        minutes <= 0 ==> iops_seconds(minutes) is None,
{
}

/// The IOPowerSources percentage is unknown exactly when a capacity is
/// missing or not positive; otherwise it is the integer nearest to
/// `100 * current / max` (halves up), capped at 100.
pub proof fn lemma_iops_percentage_is_nearest(current: Option<i64>, max: Option<i64>)
    ensures
        iops_percentage(current, max) is None <==> (current is None || max is None || current->0
            <= 0 || max->0 <= 0),
        iops_percentage(current, max) matches Some(p) ==> {
            let c = current->0 as int;
            let m = max->0 as int;
            &&& p <= 100
            &&& c >= m ==> p == 100
            &&& c < m ==> 2 * m * p - m <= 200 * c < 2 * m * p + m
        },
{
    if let (Some(c), Some(m)) = (current, max) {
        if 0 < c && 0 < m && c < m {
            let ci = c as int;
            let mi = m as int;
            let q = (200 * ci + mi) / (2 * mi);
            lemma_rounded_percentage_bounds(ci, mi);
            assert(2 * mi * q <= 200 * ci + mi < 2 * mi * q + 2 * mi) by (nonlinear_arith)
                requires
                    mi > 0,
                    q == (200 * ci + mi) / (2 * mi),
            ;
        }
    }
}

/// The IOPowerSources state strings: exactly `"AC Power"` is AC and
/// exactly `"Battery Power"` is battery; everything else is unknown.
pub proof fn lemma_iops_power_source_rules(state: Seq<char>)
    ensures
        iops_power_source("AC Power"@) == Some(PowerSource::Ac),
        iops_power_source("Battery Power"@) == Some(PowerSource::Battery),
        iops_power_source(state) is Some <==> (state == "AC Power"@ || state == "Battery Power"@),
{
    reveal_strlit("AC Power");
    reveal_strlit("Battery Power");
    assert("AC Power"@.len() != "Battery Power"@.len());
}

/// UPower device states: 1 is charging, 2 to 4 are not charging, every
/// other state is unknown; `OnBattery` true is battery power, false is AC;
/// only positive time estimates are kept.
pub proof fn lemma_upower_value_rules(state: u32, seconds: i64)
    ensures
        upower_charging(state) == Some(true) <==> state == 1,
        upower_charging(state) == Some(false) <==> 2 <= state <= 4,
        upower_charging(state) is None <==> (state == 0 || state >= 5),
        upower_power_source(true) == PowerSource::Battery,
        upower_power_source(false) == PowerSource::Ac,
        upower_time(seconds) is Some <==> seconds > 0,
        upower_time(seconds) matches Some(s) ==> s == seconds,
{
}

/// The sysfs values depend only on the trimmed text, so raw file contents
/// and already trimmed contents read the same. A status that trims to
/// `Charging` is charging, one that trims to `Discharging`, `Not charging`
/// or `Full` is not, and nothing else gives a flag. An adapter is online
/// unless its value trims to nothing or to `0`.
pub proof fn lemma_sysfs_values_read_trimmed(text: Seq<char>)
    ensures
        sysfs_charging(text) == sysfs_charging(trim(text)),
        sysfs_online(text) == sysfs_online(trim(text)),
        sysfs_percentage(text) == sysfs_percentage(trim(text)),
        trim(text) == "Charging"@ ==> sysfs_charging(text) == Some(true),
        (trim(text) == "Discharging"@ || trim(text) == "Not charging"@ || trim(text) == "Full"@)
            ==> sysfs_charging(text) == Some(false),
        sysfs_charging(text) is Some ==> (trim(text) == "Charging"@ || trim(text)
            == "Discharging"@ || trim(text) == "Not charging"@ || trim(text) == "Full"@),
        sysfs_online(text) <==> (trim(text).len() > 0 && trim(text) != "0"@),
        sysfs_percentage(text) matches Some(p) ==> p <= 100,
        parse_u8_value(trim(text)) is None ==> sysfs_percentage(text) is None,
        parse_u8_value(trim(text)) matches Some(p) ==> sysfs_percentage(text) == Some(
            if p > 100 {
                100u8
            } else {
                p
            },
        ),
{
    lemma_trim_idempotent(text);
    reveal_strlit("Charging");
    reveal_strlit("Discharging");
    reveal_strlit("Not charging");
    reveal_strlit("Full");
    assert("Charging"@.len() != "Discharging"@.len());
    assert("Charging"@.len() != "Not charging"@.len());
    assert("Charging"@.len() != "Full"@.len());
}

/// The backend follows the operating system's name: Windows, macOS and
/// Linux have their own, every other name has none.
pub proof fn lemma_backend_rules(target_os: Seq<char>)
    ensures
        backend_for("windows"@) == BackendKind::Windows,
        backend_for("macos"@) == BackendKind::Macos,
        backend_for("linux"@) == BackendKind::Linux,
        backend_for(target_os) == BackendKind::Unsupported <==> (target_os != "windows"@
            && target_os != "macos"@ && target_os != "linux"@),
{
    reveal_strlit("windows");
    reveal_strlit("macos");
    reveal_strlit("linux");
    assert("windows"@.len() != "macos"@.len());
    assert("windows"@.len() != "linux"@.len());
    assert("macos"@[0] != "linux"@[0]);
}

} // verus!

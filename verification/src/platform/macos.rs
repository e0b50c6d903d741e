//! macOS rules: reading an IOPowerSources snapshot and answering IOKit
//! system power messages.
//!
//! The IOKit calls and the CoreFoundation dictionary lookups happen outside
//! this module; it receives every power source description as plain values.
use vstd::prelude::*;

use crate::events::NativeEvent;
use crate::models::{BatteryInfo, PowerSource, PowerState};
use crate::platform::{
    iops_minutes_in_range, iops_percentage, iops_power_source, iops_seconds,
    percentage_from_iops_capacities, power_source_from_iops_state, seconds_from_iops_minutes,
};

verus! {

/// The values of one IOPowerSources description, `None` where a key is
/// missing or holds a value of another type.
pub struct IopsDescription {
    /// `"Is Present"`.
    pub is_present: Option<bool>,
    /// `"Power Source State"`.
    pub power_source_state: Option<String>,
    /// `"Current Capacity"`.
    pub current_capacity: Option<i64>,
    /// `"Max Capacity"`.
    pub max_capacity: Option<i64>,
    /// `"Is Charging"`.
    pub is_charging: Option<bool>,
    /// `"Time to Empty"`, in minutes.
    pub time_to_empty: Option<i64>,
    /// `"Time to Full Charge"`, in minutes.
    pub time_to_full: Option<i64>,
}

/// A description that reports a present power source; a missing flag
/// counts as absent.
pub open spec fn iops_is_present(description: IopsDescription) -> bool {
    description.is_present == Some(true)
}

/// An estimate in minutes, as seconds.
pub open spec fn iops_estimate(minutes: Option<i64>) -> Option<u64> {
    match minutes {
        Some(m) => iops_seconds(m),
        None => None,
    }
}

/// The battery information a present description gives.
pub open spec fn iops_battery(description: IopsDescription) -> BatteryInfo {
    BatteryInfo {
        is_present: true,
        percentage: iops_percentage(description.current_capacity, description.max_capacity),
        is_charging: description.is_charging,
        time_to_empty: iops_estimate(description.time_to_empty),
        time_to_full: iops_estimate(description.time_to_full),
    }
}

/// The power source a present description names; unknown when the state is
/// missing, `"Off Line"` or unrecognized.
pub open spec fn iops_description_source(description: IopsDescription) -> PowerSource {
    match description.power_source_state {
        Some(s) => match iops_power_source(s@) {
            Some(source) => source,
            None => PowerSource::Unknown,
        },
        None => PowerSource::Unknown,
    }
}

/// Entry `i` is a present description and no earlier entry is one.
pub open spec fn is_first_present(descriptions: Seq<Option<IopsDescription>>, i: int) -> bool {
    &&& 0 <= i < descriptions.len()
    &&& descriptions[i] matches Some(d) && iops_is_present(d)
    &&& forall|j: int|
        0 <= j < i ==> !(#[trigger] descriptions[j] matches Some(d) && iops_is_present(d))
}

/// The estimates of a description can be given in seconds.
pub open spec fn iops_description_in_range(description: IopsDescription) -> bool {
    &&& (description.time_to_empty matches Some(m) ==> iops_minutes_in_range(m))
    &&& (description.time_to_full matches Some(m) ==> iops_minutes_in_range(m))
}

/// The estimates of every present description can be given in seconds.
pub open spec fn iops_estimates_in_range(descriptions: Seq<Option<IopsDescription>>) -> bool {
    forall|i: int|
        0 <= i < descriptions.len() ==> match #[trigger] descriptions[i] {
            Some(d) => iops_is_present(d) ==> iops_description_in_range(d),
            None => true,
        }
}

/// The power state an IOPowerSources snapshot describes.
pub open spec fn iops_state(descriptions: Seq<Option<IopsDescription>>) -> PowerState {
    if exists|i: int| is_first_present(descriptions, i) {
        let i = choose|i: int| is_first_present(descriptions, i);
        let d = descriptions[i]->0;
        PowerState { power_source: iops_description_source(d), battery: Some(iops_battery(d)) }
    } else {
        // A Mac without any present battery is, by definition, running on
        // external power.
        PowerState { power_source: PowerSource::Ac, battery: None }
    }
}

/// At most one entry is the first present description.
pub proof fn lemma_first_present_unique(descriptions: Seq<Option<IopsDescription>>, i: int, j: int)
    requires
        is_first_present(descriptions, i),
        is_first_present(descriptions, j),
    ensures
        i == j,
{
    if i < j {
        assert(descriptions[i] matches Some(d) && iops_is_present(d));
    } else if j < i {
        assert(descriptions[j] matches Some(d) && iops_is_present(d));
    }
}

fn battery_from_description(description: &IopsDescription) -> (info: BatteryInfo)
    requires
        iops_description_in_range(*description),
    ensures
        info == iops_battery(*description),
        info.well_formed(),
{
    BatteryInfo {
        is_present: true,
        percentage: percentage_from_iops_capacities(
            description.current_capacity,
            description.max_capacity,
        ),
        is_charging: description.is_charging,
        time_to_empty: match description.time_to_empty {
            Some(m) => seconds_from_iops_minutes(m),
            None => None,
        },
        time_to_full: match description.time_to_full {
            Some(m) => seconds_from_iops_minutes(m),
            None => None,
        },
    }
}

/// Reads the power state from the descriptions of an IOPowerSources
/// snapshot, in the order of the snapshot's list; `None` stands for an entry
/// without a description.
///
/// Laptops expose a single aggregate internal battery; should several
/// present power sources be reported, the first one wins. Without any
/// present source the Mac runs on external power.
pub fn state_from_power_sources(descriptions: &Vec<Option<IopsDescription>>) -> (state:
    PowerState)
    requires
        iops_estimates_in_range(descriptions@),
    ensures
        state == iops_state(descriptions@),
        state.well_formed(),
{
    let n = descriptions.len();
    let mut k: usize = 0;
    while k < n
        invariant
            k <= n,
            n == descriptions@.len(),
            iops_estimates_in_range(descriptions@),
            forall|j: int|
                0 <= j < k ==> !(#[trigger] descriptions@[j] matches Some(d) && iops_is_present(
                    d,
                )),
        decreases n - k,
    {
        if let Some(description) = &descriptions[k] {
            if description.is_present == Some(true) {
                assert(is_first_present(descriptions@, k as int));
                proof {
                    assert forall|i: int| is_first_present(descriptions@, i) implies i == k by {
                        lemma_first_present_unique(descriptions@, i, k as int);
                    }
                }
                let power_source = match &description.power_source_state {
                    Some(s) => match power_source_from_iops_state(s.as_str()) {
                        Some(source) => source,
                        None => PowerSource::Unknown,
                    },
                    None => PowerSource::Unknown,
                };
                assert(descriptions@[k as int] matches Some(d) && iops_is_present(d));
                let battery = battery_from_description(description);
                return PowerState { power_source, battery: Some(battery) };
            }
        }
        k = k + 1;
    }
    PowerState { power_source: PowerSource::Ac, battery: None }
}

/// `kIOMessageCanSystemSleep`: an idle sleep request.
pub const IO_MESSAGE_CAN_SYSTEM_SLEEP: u32 = 0xE000_0270;

/// `kIOMessageSystemWillSleep`: the system is about to sleep.
pub const IO_MESSAGE_SYSTEM_WILL_SLEEP: u32 = 0xE000_0280;

/// `kIOMessageSystemHasPoweredOn`: the system and its devices have woken up.
pub const IO_MESSAGE_SYSTEM_HAS_POWERED_ON: u32 = 0xE000_0300;

/// What to do with an IOKit system power message: the event to forward,
/// then whether to acknowledge it with `IOAllowPowerChange`.
#[derive(Debug, Clone, Copy, PartialEq, Eq, Structural)]
pub struct PowerMessageResponse {
    pub event: Option<NativeEvent>,
    pub allow_power_change: bool,
}

/// The response to an IOKit system power message.
pub open spec fn power_message_response(message_type: u32) -> PowerMessageResponse {
    if message_type == IO_MESSAGE_SYSTEM_WILL_SLEEP {
        PowerMessageResponse { event: Some(NativeEvent::Suspend), allow_power_change: true }
    } else if message_type == IO_MESSAGE_CAN_SYSTEM_SLEEP {
        PowerMessageResponse { event: None, allow_power_change: true }
    } else if message_type == IO_MESSAGE_SYSTEM_HAS_POWERED_ON {
        PowerMessageResponse { event: Some(NativeEvent::Resume), allow_power_change: false }
    } else {
        PowerMessageResponse { event: None, allow_power_change: false }
    }
}

/// Decides how to answer an IOKit system power message (Apple QA1340).
///
/// Sleep must be acknowledged, otherwise the system delays it by about 30
/// seconds; an idle sleep request cannot be vetoed by a monitor, so it is
/// acknowledged at once. Waking is reported once the system and its
/// devices have powered on.
pub fn system_power_response(message_type: u32) -> (response: PowerMessageResponse)
    ensures
        response == power_message_response(message_type),
{
    match message_type {
        IO_MESSAGE_SYSTEM_WILL_SLEEP => PowerMessageResponse {
            event: Some(NativeEvent::Suspend),
            allow_power_change: true,
        },
        IO_MESSAGE_CAN_SYSTEM_SLEEP => PowerMessageResponse {
            event: None,
            allow_power_change: true,
        },
        IO_MESSAGE_SYSTEM_HAS_POWERED_ON => PowerMessageResponse {
            event: Some(NativeEvent::Resume),
            allow_power_change: false,
        },
        _ => PowerMessageResponse { event: None, allow_power_change: false },
    }
}

/// The first description that reports `"Is Present"` true decides the
/// state: its battery is present, charges exactly as its `"Is Charging"`
/// value says, keeps its positive estimates as seconds (others unknown),
/// takes its percentage from its capacities, and its `"Power Source
/// State"` names the power source (`"AC Power"`, `"Battery Power"`,
/// anything else unknown).
pub proof fn lemma_first_present_source_decides(descriptions: Seq<Option<IopsDescription>>, i: int)
    requires
        0 <= i < descriptions.len(),
        descriptions[i] matches Some(d) && d.is_present == Some(true),
        forall|j: int|
            0 <= j < i ==> !(#[trigger] descriptions[j] matches Some(e) && e.is_present == Some(
                true,
            )),
    ensures
        ({
            let d = descriptions[i]->0;
            let state = iops_state(descriptions);
            &&& state.battery matches Some(b) && {
                &&& b.is_present
                &&& b.is_charging == d.is_charging
                &&& b.percentage == iops_percentage(d.current_capacity, d.max_capacity)
                &&& b.time_to_empty == (match d.time_to_empty {
                    Some(m) => if m > 0 {
                        Some((m * 60) as u64)
                    } else {
                        None
                    },
                    None => None,
                })
                &&& b.time_to_full == (match d.time_to_full {
                    Some(m) => if m > 0 {
                        Some((m * 60) as u64)
                    } else {
                        None
                    },
                    None => None,
                })
            }
            &&& state.power_source == (match d.power_source_state {
                Some(s) => if s@ == "AC Power"@ {
                    PowerSource::Ac
                } else if s@ == "Battery Power"@ {
                    PowerSource::Battery
                } else {
                    PowerSource::Unknown
                },
                None => PowerSource::Unknown,
            })
        }),
{
    assert(is_first_present(descriptions, i));
    let k = choose|k: int| is_first_present(descriptions, k);
    lemma_first_present_unique(descriptions, i, k);
}

/// Without any description that reports itself present, the Mac runs on
/// AC power and reports no battery.
pub proof fn lemma_no_present_source_is_ac(descriptions: Seq<Option<IopsDescription>>)
    requires
        forall|j: int|
            0 <= j < descriptions.len() ==> !(#[trigger] descriptions[j] matches Some(e)
                && e.is_present == Some(true)),
    ensures
        iops_state(descriptions) == (PowerState { power_source: PowerSource::Ac, battery: None }),
{
    if exists|i: int| is_first_present(descriptions, i) {
        let i = choose|i: int| is_first_present(descriptions, i);
        assert(descriptions[i] matches Some(e) && e.is_present == Some(true));
    }
}

/// Sleep is announced as suspend and acknowledged, an idle sleep request is
/// acknowledged without an event, power-on is announced as resume, and no
/// other message is answered.
pub proof fn lemma_power_message_rules(message_type: u32)
    ensures
        power_message_response(0xE000_0280) == (PowerMessageResponse {
            event: Some(NativeEvent::Suspend),
            allow_power_change: true,
        }),
        power_message_response(0xE000_0270) == (PowerMessageResponse {
            event: None,
            allow_power_change: true,
        }),
        power_message_response(0xE000_0300) == (PowerMessageResponse {
            event: Some(NativeEvent::Resume),
            allow_power_change: false,
        }),
        (message_type != 0xE000_0280 && message_type != 0xE000_0270 && message_type
            != 0xE000_0300) ==> power_message_response(message_type) == (PowerMessageResponse {
            event: None,
            allow_power_change: false,
        }),
{
}

} // verus!

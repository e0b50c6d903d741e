//! The sysfs power supply reader (`/sys/class/power_supply`).
//!
//! This is a fallback used when D-Bus or UPower are unavailable; it powers
//! queries only, never events, and cannot provide time estimates. The
//! directory walk and file reads happen outside this module: it receives,
//! per supply directory, the entry name and the raw contents of the
//! attribute files that could be read.
use vstd::prelude::*;

use crate::models::{BatteryInfo, PowerSource, PowerState};
use crate::platform::{
    charging_from_sysfs_status, percentage_from_sysfs_capacity, sysfs_adapter_is_online,
    sysfs_charging, sysfs_online, sysfs_percentage,
};
use crate::text::{
    bytes_less, lemma_bytes_less_asymmetric, lemma_bytes_less_total,
    lemma_bytes_less_transitive, slice_bytes_less, trim, trimmed_equals,
};

verus! {

/// One directory of a sysfs power supply tree: its name and the raw
/// contents of its attribute files, `None` where a file is missing or
/// unreadable.
pub struct SysfsSupply {
    /// The bytes of the directory entry name, such as `BAT0` or `ADP1`.
    pub name: Vec<u8>,
    /// Contents of `type`: `Mains`, `Battery`, `UPS`, `USB`, ...
    pub kind: Option<String>,
    /// Contents of `online` (adapters).
    pub online: Option<String>,
    /// Contents of `present` (batteries; the kernel default is present).
    pub present: Option<String>,
    /// Contents of `capacity` (batteries, `0..=100`).
    pub capacity: Option<String>,
    /// Contents of `status` (batteries).
    pub status: Option<String>,
}

/// The trimmed supply type; a missing file reads as empty.
pub open spec fn supply_kind(supply: SysfsSupply) -> Seq<char> {
    match supply.kind {
        Some(k) => trim(k@),
        None => Seq::empty(),
    }
}

/// An adapter (`Mains`) that reports itself online.
pub open spec fn is_online_adapter(supply: SysfsSupply) -> bool {
    &&& supply_kind(supply) == "Mains"@
    &&& supply.online matches Some(o) && sysfs_online(o@)
}

/// A battery whose `present` file is missing or is not `0`.
pub open spec fn is_present_battery(supply: SysfsSupply) -> bool {
    &&& supply_kind(supply) == "Battery"@
    &&& match supply.present {
        Some(p) => trim(p@) != "0"@,
        None => true,
    }
}

/// The battery information a battery directory gives; sysfs has no time
/// estimates.
pub open spec fn sysfs_battery(supply: SysfsSupply) -> BatteryInfo {
    BatteryInfo {
        is_present: true,
        percentage: match supply.capacity {
            Some(c) => sysfs_percentage(c@),
            None => None,
        },
        is_charging: match supply.status {
            Some(s) => sysfs_charging(s@),
            None => None,
        },
        time_to_empty: None,
        time_to_full: None,
    }
}

/// The key directories are ordered by: the bytes of their names.
pub open spec fn name_key(supply: SysfsSupply) -> Seq<u8> {
    supply.name@
}

/// Supply `i` comes before supply `j` in the order of the directory
/// listing: by name, then by position.
pub open spec fn listed_before(supplies: Seq<SysfsSupply>, i: int, j: int) -> bool {
    ||| bytes_less(name_key(supplies[i]), name_key(supplies[j]))
    ||| (name_key(supplies[i]) == name_key(supplies[j]) && i < j)
}

/// Supply `i` is the first present battery in listing order.
pub open spec fn is_first_battery(supplies: Seq<SysfsSupply>, i: int) -> bool {
    &&& 0 <= i < supplies.len()
    &&& is_present_battery(supplies[i])
    &&& forall|j: int|
        0 <= j < supplies.len() && j != i && is_present_battery(#[trigger] supplies[j])
            ==> listed_before(supplies, i, j)
}

/// The power source a supply tree reports: AC when an adapter is online,
/// battery when no adapter is online but a battery is present, unknown
/// otherwise (no supplies at all, or only out-of-scope kinds such as UPS).
pub open spec fn sysfs_power_source(supplies: Seq<SysfsSupply>) -> PowerSource {
    if exists|i: int| 0 <= i < supplies.len() && is_online_adapter(#[trigger] supplies[i]) {
        PowerSource::Ac
    } else if exists|i: int| 0 <= i < supplies.len() && is_present_battery(#[trigger] supplies[i]) {
        PowerSource::Battery
    } else {
        PowerSource::Unknown
    }
}

/// At most one supply is the first present battery, so the battery that
/// a tree reports does not depend on the order of the listing.
pub proof fn lemma_first_battery_unique(supplies: Seq<SysfsSupply>, i: int, j: int)
    requires
        is_first_battery(supplies, i),
        is_first_battery(supplies, j),
    ensures
        i == j,
{
    if i != j {
        assert(listed_before(supplies, i, j));
        assert(listed_before(supplies, j, i));
        lemma_bytes_less_asymmetric(name_key(supplies[i]), name_key(supplies[j]));
        lemma_bytes_less_asymmetric(name_key(supplies[j]), name_key(supplies[j]));
    }
}

fn supply_has_kind(supply: &SysfsSupply, word: &str) -> (b: bool)
    ensures
        b == (supply_kind(*supply) == word@),
{
    match &supply.kind {
        Some(k) => trimmed_equals(k.as_str(), word),
        None => {
            let len = word.unicode_len();
            proof {
                if len == 0 {
                    assert(word@ =~= Seq::<char>::empty());
                }
            }
            len == 0
        },
    }
}

fn supply_is_online_adapter(supply: &SysfsSupply) -> (b: bool)
    ensures
        b == is_online_adapter(*supply),
{
    if !supply_has_kind(supply, "Mains") {
        return false;
    }
    match &supply.online {
        Some(o) => sysfs_adapter_is_online(o.as_str()),
        None => false,
    }
}

fn supply_is_present_battery(supply: &SysfsSupply) -> (b: bool)
    ensures
        b == is_present_battery(*supply),
{
    if !supply_has_kind(supply, "Battery") {
        return false;
    }
    match &supply.present {
        Some(p) => !trimmed_equals(p.as_str(), "0"),
        None => true,
    }
}

fn battery_from_supply(supply: &SysfsSupply) -> (info: BatteryInfo)
    ensures
        info == sysfs_battery(*supply),
        info.well_formed(),
{
    BatteryInfo {
        is_present: true,
        percentage: match &supply.capacity {
            Some(c) => percentage_from_sysfs_capacity(c.as_str()),
            None => None,
        },
        is_charging: match &supply.status {
            Some(s) => charging_from_sysfs_status(s.as_str()),
            None => None,
        },
        time_to_empty: None,
        time_to_full: None,
    }
}

/// Reads the power state from the supplies of a sysfs power supply tree.
///
/// The first present battery in the order of the names (e.g. `BAT0` before
/// `BAT1`) provides the battery details. Systems with several batteries are
/// rare; the choice is documented rather than silently aggregated.
pub fn read_state_from_sysfs(supplies: &Vec<SysfsSupply>) -> (state: PowerState)
    ensures
        state.power_source == sysfs_power_source(supplies@),
        state.battery is None <==> (forall|i: int|
            0 <= i < supplies@.len() ==> !is_present_battery(#[trigger] supplies@[i])),
        state.battery matches Some(info) ==> exists|i: int|
            is_first_battery(supplies@, i) && info == sysfs_battery(#[trigger] supplies@[i]),
        state.well_formed(),
{
    let n = supplies.len();
    let mut adapter_online = false;
    let mut first_battery: Option<usize> = None;
    let mut k: usize = 0;
    while k < n
        invariant
            k <= n,
            n == supplies@.len(),
            adapter_online <==> exists|i: int|
                0 <= i < k && is_online_adapter(#[trigger] supplies@[i]),
            first_battery is None <==> forall|i: int|
                0 <= i < k ==> !is_present_battery(#[trigger] supplies@[i]),
            first_battery matches Some(b) ==> {
                &&& b < k
                &&& is_present_battery(supplies@[b as int])
                &&& forall|j: int|
                    0 <= j < k && j != b && is_present_battery(#[trigger] supplies@[j])
                        ==> listed_before(supplies@, b as int, j)
            },
        decreases n - k,
    {
        let supply = &supplies[k];
        if supply_is_online_adapter(supply) {
            adapter_online = true;
        }
        if supply_is_present_battery(supply) {
            match first_battery {
                None => {
                    first_battery = Some(k);
                },
                Some(b) => {
                    let ghost old_b = b as int;
                    let earlier = slice_bytes_less(supply.name.as_slice(), supplies[b].name.as_slice());
                    if earlier {
                        proof {
                            assert forall|j: int|
                                0 <= j < k + 1 && j != k && is_present_battery(
                                    #[trigger] supplies@[j],
                                ) implies listed_before(supplies@, k as int, j) by {
                                let kk = name_key(supplies@[k as int]);
                                let bk = name_key(supplies@[old_b]);
                                let jk = name_key(supplies@[j]);
                                if j != old_b {
                                    if bytes_less(bk, jk) {
                                        lemma_bytes_less_transitive(kk, bk, jk);
                                    }
                                }
                            }
                        }
                        first_battery = Some(k);
                    } else {
                        proof {
                            let kk = name_key(supplies@[k as int]);
                            let bk = name_key(supplies@[old_b]);
                            lemma_bytes_less_total(kk, bk);
                            assert(listed_before(supplies@, old_b, k as int));
                        }
                    }
                },
            }
        }
        k = k + 1;
    }
    let any_battery = first_battery.is_some();
    let power_source = if adapter_online {
        PowerSource::Ac
    } else if any_battery {
        PowerSource::Battery
    } else {
        // No battery and an absent or offline adapter (or no supplies at
        // all, e.g. virtual machines and most servers).
        PowerSource::Unknown
    };
    let battery = match first_battery {
        Some(b) => Some(battery_from_supply(&supplies[b])),
        None => None,
    };
    proof {
        if let Some(b) = first_battery {
            assert(is_first_battery(supplies@, b as int));
        }
        if !any_battery && !adapter_online {
            assert(!exists|i: int|
                0 <= i < supplies@.len() && is_present_battery(#[trigger] supplies@[i]));
        }
    }
    PowerState { power_source, battery }
}

/// What a supply directory counts as, from its raw files: an online adapter
/// is a `Mains` supply whose `online` file exists and trims to neither
/// nothing nor `0`; a present battery is a `Battery` supply whose `present`
/// file is missing or does not trim to `0`; a missing `type` file counts as
/// neither. A battery reports no time estimates, its charging state from
/// `status` and its percentage from `capacity`, and directories are listed
/// in the byte order of their names, ties in their given order.
pub proof fn lemma_sysfs_supply_rules(supplies: Seq<SysfsSupply>, i: int, j: int)
    requires
        0 <= i < supplies.len(),
        0 <= j < supplies.len(),
    ensures
        ({
            let s = supplies[i];
            &&& is_online_adapter(s) <==> (match (s.kind, s.online) {
                (Some(k), Some(o)) => trim(k@) == "Mains"@ && trim(o@).len() > 0 && trim(o@)
                    != "0"@,
                _ => false,
            })
            &&& is_present_battery(s) <==> (match (s.kind, s.present) {
                (Some(k), Some(p)) => trim(k@) == "Battery"@ && trim(p@) != "0"@,
                (Some(k), None) => trim(k@) == "Battery"@,
                _ => false,
            })
            &&& s.kind is None ==> !is_online_adapter(s) && !is_present_battery(s)
            &&& sysfs_battery(s).is_present
            &&& sysfs_battery(s).time_to_empty is None
            &&& sysfs_battery(s).time_to_full is None
            &&& sysfs_battery(s).is_charging == (match s.status {
                Some(st) => sysfs_charging(st@),
                None => None,
            })
            &&& sysfs_battery(s).percentage == (match s.capacity {
                Some(c) => sysfs_percentage(c@),
                None => None,
            })
        }),
        name_key(supplies[i]) == supplies[i].name@,
        listed_before(supplies, i, j) <==> (bytes_less(supplies[i].name@, supplies[j].name@) || (
        supplies[i].name@ == supplies[j].name@ && i < j)),
{
    reveal_strlit("Mains");
    reveal_strlit("Battery");
    let s = supplies[i];
    if s.kind is None {
        assert(supply_kind(s).len() == 0);
    }
}

/// The power source of a supply tree: AC as soon as one adapter is online;
/// otherwise battery as soon as one battery is present; otherwise unknown.
pub proof fn lemma_sysfs_source_rules(supplies: Seq<SysfsSupply>, i: int)
    requires
        0 <= i < supplies.len(),
    ensures
        is_online_adapter(supplies[i]) ==> sysfs_power_source(supplies) == PowerSource::Ac,
        (forall|j: int| 0 <= j < supplies.len() ==> !is_online_adapter(#[trigger] supplies[j]))
            && is_present_battery(supplies[i]) ==> sysfs_power_source(supplies)
            == PowerSource::Battery,
        (forall|j: int|
            0 <= j < supplies.len() ==> !is_online_adapter(#[trigger] supplies[j])
                && !is_present_battery(supplies[j])) ==> sysfs_power_source(supplies)
            == PowerSource::Unknown,
        sysfs_power_source(Seq::<SysfsSupply>::empty()) == PowerSource::Unknown,
{
}

/// The battery reported is the present battery whose name comes first: no
/// other present battery has a name that comes before it.
pub proof fn lemma_first_battery_has_the_smallest_name(supplies: Seq<SysfsSupply>, i: int, j: int)
    requires
        is_first_battery(supplies, i),
        0 <= j < supplies.len(),
        is_present_battery(supplies[j]),
    ensures
        !bytes_less(supplies[j].name@, supplies[i].name@),
{
    if j != i {
        assert(listed_before(supplies, i, j));
        lemma_bytes_less_asymmetric(supplies[i].name@, supplies[j].name@);
        lemma_bytes_less_asymmetric(supplies[j].name@, supplies[j].name@);
    } else {
        lemma_bytes_less_asymmetric(supplies[i].name@, supplies[i].name@);
    }
}

} // verus!

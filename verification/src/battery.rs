//! Battery level and charging state from what the platform reports.
//!
//! Two shapes of report are understood: the entries of a power-supply class
//! directory, each with the contents of its `capacity` and `online` files,
//! and a system power status record. Where neither shows a battery the
//! result falls back to a full battery that is not charging. A level is
//! always between 0 % and 100 %.
use crate::percent::{from_whole_percent, whole_percent, FULL_SCALE};
use crate::text::{same_text, starts_with, trim, trimmed};
use vstd::prelude::*;

verus! {

/// One entry of the power-supply class directory.
#[derive(Debug, PartialEq, Eq)]
pub struct PowerSupply {
    /// The entry's file name.
    pub name: String,
    /// The charge read from the entry's `capacity` file, in hundredths of a
    /// percent; `None` where the file is missing or holds no number.
    pub capacity: Option<u32>,
    /// The text of the entry's `online` file; `None` where it cannot be read.
    pub online: Option<String>,
}

/// A power-supply entry as plain mathematical data.
pub struct PowerSupplyView {
    pub name: Seq<char>,
    pub capacity: Option<u32>,
    pub online: Option<Seq<char>>,
}

impl DeepView for PowerSupply {
    type V = PowerSupplyView;

    open spec fn deep_view(&self) -> PowerSupplyView {
        PowerSupplyView {
            name: self.name@,
            capacity: self.capacity,
            online: match self.online {
                Some(text) => Some(text@),
                None => None,
            },
        }
    }
}

impl View for PowerSupply {
    type V = PowerSupplyView;

    open spec fn view(&self) -> PowerSupplyView {
        self.deep_view()
    }
}

/// The system power status record.
#[derive(Clone, Copy, Debug, PartialEq, Eq, Structural)]
pub struct PowerStatus {
    /// 1 while the machine runs on mains power.
    pub ac_line_status: u8,
    /// Bit flags; the bit of value 8 is set while the battery charges.
    pub battery_flag: u8,
    /// Charge in whole percent, or a value above 100 where it is unknown.
    pub battery_life_percent: u8,
}

/// What the platform reported about its power supply.
#[derive(Debug, PartialEq, Eq)]
pub enum PowerReport {
    /// Nothing could be read.
    Unavailable,
    /// The entries of the power-supply class directory, in directory order.
    Supplies(Vec<PowerSupply>),
    /// The system power status record.
    Status(PowerStatus),
}

/// A power report as plain mathematical data.
pub enum PowerReportView {
    Unavailable,
    Supplies(Seq<PowerSupplyView>),
    Status(PowerStatus),
}

impl DeepView for PowerReport {
    type V = PowerReportView;

    open spec fn deep_view(&self) -> PowerReportView {
        match self {
            PowerReport::Unavailable => PowerReportView::Unavailable,
            PowerReport::Supplies(supplies) => PowerReportView::Supplies(supplies.deep_view()),
            PowerReport::Status(status) => PowerReportView::Status(*status),
        }
    }
}

impl View for PowerReport {
    type V = PowerReportView;

    open spec fn view(&self) -> PowerReportView {
        self.deep_view()
    }
}

/// Battery level, in hundredths of a percent, and charging state.
#[derive(Clone, Copy, Debug, PartialEq, Eq, Structural)]
pub struct BatteryReading {
    pub level: u32,
    pub charging: bool,
}

/// The reading used where no battery can be found: full, not charging.
pub open spec fn fallback_reading() -> BatteryReading {
    BatteryReading { level: FULL_SCALE, charging: false }
}

/// An entry that names a battery and has a readable charge.
pub open spec fn is_battery(supply: PowerSupplyView) -> bool {
    "BAT"@.is_prefix_of(supply.name) && supply.capacity is Some
}

/// An entry that names a mains adapter and has a readable `online` file.
pub open spec fn is_mains(supply: PowerSupplyView) -> bool {
    "AC"@.is_prefix_of(supply.name) && supply.online is Some
}

/// Whether the text of an `online` file says that the adapter is plugged
/// in: after trimming it is the single digit 1.
pub open spec fn says_online(text: Seq<char>) -> bool {
    trimmed(text) == "1"@
}

/// A charge held to the range of a percentage: what exceeds 100 % counts
/// as 100 %.
pub open spec fn capped(charge: u32) -> u32 {
    if charge <= FULL_SCALE {
        charge
    } else {
        FULL_SCALE
    }
}

/// Whether any of the entries is a battery.
pub open spec fn has_battery(supplies: Seq<PowerSupplyView>) -> bool {
    exists|i: int| 0 <= i < supplies.len() && is_battery(#[trigger] supplies[i])
}

/// The charge of the first battery among the entries, held to at most
/// 100 %, and 100 % where there is none.
pub open spec fn level_of_supplies(supplies: Seq<PowerSupplyView>) -> u32
    decreases supplies.len(),
{
    if supplies.len() == 0 {
        FULL_SCALE
    } else if is_battery(supplies[0]) {
        capped(supplies[0].capacity->0)
    } else {
        level_of_supplies(supplies.drop_first())
    }
}

/// What the first mains adapter among the entries says, and `false` where
/// there is none.
pub open spec fn mains_says_online(supplies: Seq<PowerSupplyView>) -> bool
    decreases supplies.len(),
{
    if supplies.len() == 0 {
        false
    } else if is_mains(supplies[0]) {
        says_online(supplies[0].online->0)
    } else {
        mains_says_online(supplies.drop_first())
    }
}

/// Whether the battery charges: there is a battery, and the first mains
/// adapter is plugged in. Without a battery nothing charges, whatever the
/// adapter says.
pub open spec fn charging_of_supplies(supplies: Seq<PowerSupplyView>) -> bool {
    has_battery(supplies) && mains_says_online(supplies)
}

/// The charge that a power status record gives: its percentage where that
/// is at most 100, and 100 % where it is not.
pub open spec fn level_of_status(status: PowerStatus) -> u32 {
    if status.battery_life_percent <= 100 {
        whole_percent(status.battery_life_percent as int) as u32
    } else {
        FULL_SCALE
    }
}

/// A power status record says "charging" when the machine is on mains
/// power and the charging flag is set.
pub open spec fn charging_of_status(status: PowerStatus) -> bool {
    status.ac_line_status == 1 && (status.battery_flag & 8) != 0
}

/// The battery reading that a report amounts to.
pub open spec fn reading_of(report: PowerReportView) -> BatteryReading {
    match report {
        PowerReportView::Unavailable => fallback_reading(),
        PowerReportView::Supplies(supplies) => BatteryReading {
            level: level_of_supplies(supplies),
            charging: charging_of_supplies(supplies),
        },
        PowerReportView::Status(status) => BatteryReading {
            level: level_of_status(status),
            charging: charging_of_status(status),
        },
    }
}

/// A report that holds nothing amounts to the fallback reading: the level
/// is exactly 100 % and nothing charges.
pub proof fn lemma_empty_report_falls_back()
    ensures
        reading_of(PowerReportView::Unavailable) == fallback_reading(),
        reading_of(PowerReportView::Supplies(Seq::empty())) == fallback_reading(),
{
}

/// Without any battery entry the level is exactly 100 %, and without any
/// mains entry nothing charges.
pub proof fn lemma_supplies_fallback(supplies: Seq<PowerSupplyView>)
    ensures
        (forall|i: int| 0 <= i < supplies.len() ==> !is_battery(#[trigger] supplies[i]))
            ==> level_of_supplies(supplies) == FULL_SCALE,
        (forall|i: int| 0 <= i < supplies.len() ==> !is_mains(#[trigger] supplies[i]))
            ==> !mains_says_online(supplies) && !charging_of_supplies(supplies),
    decreases supplies.len(),
{
    if supplies.len() > 0 {
        let rest = supplies.drop_first();
        lemma_supplies_fallback(rest);
        assert(forall|i: int| 0 <= i < rest.len() ==> rest[i] == supplies[i + 1]);
    }
}

/// Where the entries hold no battery, the reading is the fallback: exactly
/// 100 % and not charging, adapter or none.
pub proof fn lemma_no_battery_falls_back(supplies: Seq<PowerSupplyView>)
    requires
        !has_battery(supplies),
    ensures
        reading_of(PowerReportView::Supplies(supplies)) == fallback_reading(),
{
    lemma_supplies_fallback(supplies);
}

/// The level is a percentage, whatever is reported.
pub proof fn lemma_level_is_percentage(report: PowerReportView)
    ensures
        reading_of(report).level <= FULL_SCALE,
{
    if let PowerReportView::Supplies(supplies) = report {
        lemma_supplies_level_is_percentage(supplies);
    }
}

/// The level that power-supply entries give is a percentage.
pub proof fn lemma_supplies_level_is_percentage(supplies: Seq<PowerSupplyView>)
    ensures
        level_of_supplies(supplies) <= FULL_SCALE,
    decreases supplies.len(),
{
    if supplies.len() > 0 && !is_battery(supplies[0]) {
        lemma_supplies_level_is_percentage(supplies.drop_first());
    }
}

/// The first battery entry decides the level: entries after it, and
/// entries before it that are no battery, do not matter.
pub proof fn lemma_first_battery_decides(supplies: Seq<PowerSupplyView>, first: int)
    requires
        0 <= first < supplies.len(),
        is_battery(supplies[first]),
        forall|i: int| 0 <= i < first ==> !is_battery(#[trigger] supplies[i]),
    ensures
        level_of_supplies(supplies) == capped(supplies[first].capacity->0),
    decreases first,
{
    if first > 0 {
        let rest = supplies.drop_first();
        assert(forall|i: int| 0 <= i < rest.len() ==> rest[i] == supplies[i + 1]);
        lemma_first_battery_decides(rest, first - 1);
    }
}

/// Where there is a battery, the first mains entry decides whether it
/// charges.
pub proof fn lemma_first_mains_decides(supplies: Seq<PowerSupplyView>, first: int)
    requires
        0 <= first < supplies.len(),
        is_mains(supplies[first]),
        forall|i: int| 0 <= i < first ==> !is_mains(#[trigger] supplies[i]),
    ensures
        mains_says_online(supplies) == says_online(supplies[first].online->0),
        charging_of_supplies(supplies) == (has_battery(supplies) && says_online(
            supplies[first].online->0,
        )),
    decreases first,
{
    if first > 0 {
        let rest = supplies.drop_first();
        assert(forall|i: int| 0 <= i < rest.len() ==> rest[i] == supplies[i + 1]);
        lemma_first_mains_decides(rest, first - 1);
    }
}

/// Battery level from the entries of the power-supply class directory.
pub fn supplies_level(supplies: &Vec<PowerSupply>) -> (level: u32)
    ensures
        level == level_of_supplies(supplies.deep_view()),
        level <= FULL_SCALE,
{
    let count: usize = supplies.len();
    let mut i: usize = 0;
    assert(supplies.deep_view().skip(0) =~= supplies.deep_view());
    while i < count
        invariant
            count == supplies.len(),
            i <= count,
            level_of_supplies(supplies.deep_view()) == level_of_supplies(
                supplies.deep_view().skip(i as int),
            ),
        decreases count - i,
    {
        let supply = &supplies[i];
        proof {
            let rest = supplies.deep_view().skip(i as int);
            assert(rest[0] == supply.deep_view());
            assert(rest.drop_first() =~= supplies.deep_view().skip(i + 1));
        }
        if starts_with(supply.name.as_str(), "BAT") {
            if let Some(charge) = supply.capacity {
                if charge <= FULL_SCALE {
                    return charge;
                }
                return FULL_SCALE;
            }
        }
        i = i + 1;
    }
    FULL_SCALE
}

/// Whether any of the entries of the power-supply class directory is a
/// battery.
pub fn battery_present(supplies: &Vec<PowerSupply>) -> (present: bool)
    ensures
        present == has_battery(supplies.deep_view()),
{
    let count: usize = supplies.len();
    let mut i: usize = 0;
    while i < count
        invariant
            count == supplies.len(),
            i <= count,
            forall|k: int| 0 <= k < i ==> !is_battery(#[trigger] supplies.deep_view()[k]),
        decreases count - i,
    {
        let supply = &supplies[i];
        assert(supplies.deep_view()[i as int] == supply.deep_view());
        if starts_with(supply.name.as_str(), "BAT") && supply.capacity.is_some() {
            return true;
        }
        i = i + 1;
    }
    false
}

/// What the first mains adapter among the entries of the power-supply
/// class directory says.
pub fn mains_online(supplies: &Vec<PowerSupply>) -> (online: bool)
    ensures
        online == mains_says_online(supplies.deep_view()),
{
    let count: usize = supplies.len();
    let mut i: usize = 0;
    assert(supplies.deep_view().skip(0) =~= supplies.deep_view());
    while i < count
        invariant
            count == supplies.len(),
            i <= count,
            mains_says_online(supplies.deep_view()) == mains_says_online(
                supplies.deep_view().skip(i as int),
            ),
        decreases count - i,
    {
        let supply = &supplies[i];
        proof {
            let rest = supplies.deep_view().skip(i as int);
            assert(rest[0] == supply.deep_view());
            assert(rest.drop_first() =~= supplies.deep_view().skip(i + 1));
        }
        if starts_with(supply.name.as_str(), "AC") {
            if let Some(text) = &supply.online {
                return same_text(trim(text.as_str()), "1");
            }
        }
        i = i + 1;
    }
    false
}

/// Whether the battery charges, from the entries of the power-supply class
/// directory. Without a battery among them the answer is no.
pub fn supplies_charging(supplies: &Vec<PowerSupply>) -> (charging: bool)
    ensures
        charging == charging_of_supplies(supplies.deep_view()),
        !has_battery(supplies.deep_view()) ==> !charging,
{
    battery_present(supplies) && mains_online(supplies)
}

/// Battery level from a system power status record.
pub fn status_level(status: &PowerStatus) -> (level: u32)
    ensures
        level == level_of_status(*status),
        level <= FULL_SCALE,
{
    if status.battery_life_percent <= 100 {
        from_whole_percent(status.battery_life_percent)
    } else {
        FULL_SCALE
    }
}

/// Whether the battery charges, from a system power status record.
pub fn status_charging(status: &PowerStatus) -> (charging: bool)
    ensures
        charging == charging_of_status(*status),
{
    status.ac_line_status == 1 && (status.battery_flag & 8) != 0
}

/// Level and charging state from whatever the platform reported.
pub fn read_battery(report: &PowerReport) -> (reading: BatteryReading)
    ensures
        reading == reading_of(report.deep_view()),
        reading.level <= FULL_SCALE,
{
    match report {
        PowerReport::Unavailable => BatteryReading { level: FULL_SCALE, charging: false },
        PowerReport::Supplies(supplies) => BatteryReading {
            level: supplies_level(supplies),
            charging: supplies_charging(supplies),
        },
        PowerReport::Status(status) => BatteryReading {
            level: status_level(status),
            charging: status_charging(status),
        },
    }
}

} // verus!

//! The unit of every percentage in this crate: hundredths of a percent.
use vstd::prelude::*;

verus! {

/// One percent.
pub const ONE_PERCENT: u32 = 100;

/// One hundred percent.
pub const FULL_SCALE: u32 = 10_000;

/// Whether `value` lies between 0 % and 100 %.
pub open spec fn is_percentage(value: int) -> bool {
    0 <= value <= FULL_SCALE
}

/// A whole number of percent in this crate's unit.
pub open spec fn whole_percent(percent: int) -> int {
    percent * ONE_PERCENT
}

/// Converts a whole number of percent to hundredths.
pub fn from_whole_percent(percent: u8) -> (value: u32)
    ensures
        value == whole_percent(percent as int),
        is_percentage(value as int) <==> percent <= 100,
{
    let wide: u32 = percent as u32;
    wide * ONE_PERCENT
}

} // verus!

//! The compass mapper: wind direction in degrees to one of the sixteen
//! compass labels.
//!
//! Degrees are carried as hundredths of a degree, so boundary values such as
//! 11.25° and 348.75° are exact.

use vstd::prelude::*;
use vstd::arithmetic::div_mod::lemma_fundamental_div_mod;
use vstd::arithmetic::div_mod::lemma_fundamental_div_mod_converse;
use vstd::arithmetic::div_mod::lemma_mod_bound;
use vstd::arithmetic::div_mod::lemma_mod_multiples_vanish;
use vstd::string::StringExecFns;

verus! {

/// Hundredths of a degree in one compass sector (22.5°).
pub const SECTOR_CENTI: i64 = 2250;

/// Hundredths of a degree in half a compass sector (11.25°).
pub const HALF_SECTOR_CENTI: i64 = 1125;

/// The sector index a direction falls in: degrees are shifted by half a
/// sector, cut off into sixteenths of the circle, and wrapped.  A direction
/// below -11.25° saturates to sector zero, as the reference cast to an
/// unsigned index does.
pub open spec fn compass_index(centidegrees: int) -> int {
    if centidegrees + 1125 < 0 {
        0
    } else {
        ((centidegrees + 1125) / 2250) % 16
    }
}

/// The sixteen compass labels, counted clockwise from north.
pub open spec fn compass_label(index: int) -> Seq<char> {
    if index == 0 {
        "N"@
    } else if index == 1 {
        "NNE"@
    } else if index == 2 {
        "NE"@
    } else if index == 3 {
        "ENE"@
    } else if index == 4 {
        "E"@
    } else if index == 5 {
        "ESE"@
    } else if index == 6 {
        "SE"@
    } else if index == 7 {
        "SSE"@
    } else if index == 8 {
        "S"@
    } else if index == 9 {
        "SSW"@
    } else if index == 10 {
        "SW"@
    } else if index == 11 {
        "WSW"@
    } else if index == 12 {
        "W"@
    } else if index == 13 {
        "WNW"@
    } else if index == 14 {
        "NW"@
    } else {
        "NNW"@
    }
}

/// The compass label for a wind direction given in hundredths of a degree.
pub fn get_direction(centidegrees: i64) -> (r: String)
    requires
        centidegrees <= i64::MAX - 1125,
    ensures
        r@ == compass_label(compass_index(centidegrees as int)),
{
    let index: i64 = if centidegrees + HALF_SECTOR_CENTI < 0 {
        0
    } else {
        ((centidegrees + HALF_SECTOR_CENTI) / SECTOR_CENTI) % 16
    };
    let label: &'static str = if index == 0 {
        "N"
    } else if index == 1 {
        "NNE"
    } else if index == 2 {
        "NE"
    } else if index == 3 {
        "ENE"
    } else if index == 4 {
        "E"
    } else if index == 5 {
        "ESE"
    } else if index == 6 {
        "SE"
    } else if index == 7 {
        "SSE"
    } else if index == 8 {
        "S"
    } else if index == 9 {
        "SSW"
    } else if index == 10 {
        "SW"
    } else if index == 11 {
        "WSW"
    } else if index == 12 {
        "W"
    } else if index == 13 {
        "WNW"
    } else if index == 14 {
        "NW"
    } else {
        "NNW"
    };
    String::from_str(label)
}

/// The mapping is periodic with period 360°: adding a full turn to any
/// direction at or above the saturation floor leaves its label unchanged.
pub proof fn lemma_compass_periodic(centidegrees: int)
    requires
        centidegrees + 1125 >= 0,
    ensures
        compass_index(centidegrees + 36000) == compass_index(centidegrees),
{
    let shifted = centidegrees + 1125;
    lemma_fundamental_div_mod(shifted, 2250);
    lemma_mod_bound(shifted, 2250);
    lemma_fundamental_div_mod_converse(
        shifted + 36000,
        2250,
        shifted / 2250 + 16,
        shifted % 2250,
    );
    assert((shifted + 36000) / 2250 == shifted / 2250 + 16);
    lemma_mod_multiples_vanish(1, shifted / 2250, 16);
    assert((16 * 1 + shifted / 2250) % 16 == (shifted / 2250) % 16);
}

/// The mapping cuts the circle into sixteen equal 22.5° sectors: sector `k`
/// is centred on `k * 22.5°` and reaches 11.25° to each side.  Taking `k` up
/// to 16 covers the wrap back to north below 360°.
pub proof fn lemma_compass_sector(centidegrees: int, k: int)
    requires
        0 <= k <= 16,
        k * 2250 - 1125 <= centidegrees < k * 2250 + 1125,
        centidegrees + 1125 >= 0,
    ensures
        compass_index(centidegrees) == k % 16,
{
    let shifted = centidegrees + 1125;
    lemma_fundamental_div_mod_converse(shifted, 2250, k, shifted - k * 2250);
    assert(shifted / 2250 == k);
}

} // verus!

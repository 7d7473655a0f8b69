//! The fixed compensation curve from the panel's reported brightness to the
//! output backlight level.
//!
//! The output panel's backlight responds non-linearly relative to the source
//! panel's reported value, so the controller maps each valid source reading
//! through this table rather than copying it. The table is monotonic: a
//! brighter source reading never yields a darker output.

use vstd::prelude::*;

verus! {

/// Number of entries in the lookup table. Valid source readings are
/// `0 .. LOOKUP_TABLE_LEN`; anything else is a fatal out-of-range error.
pub const LOOKUP_TABLE_LEN: u32 = 16;

/// The table itself, as a function from a valid source reading to the
/// output brightness to apply.
pub open spec fn lookup_spec(r: u32) -> u32
    recommends
        r < LOOKUP_TABLE_LEN,
{
    if r == 0 {
        0
    } else if r == 1 {
        1
    } else if r == 2 {
        2
    } else if r == 3 {
        4
    } else if r == 4 {
        7
    } else if r == 5 {
        11
    } else if r == 6 {
        16
    } else if r == 7 {
        22
    } else if r == 8 {
        30
    } else if r == 9 {
        40
    } else if r == 10 {
        52
    } else if r == 11 {
        66
    } else if r == 12 {
        82
    } else if r == 13 {
        100
    } else if r == 14 {
        120
    } else {
        142
    }
}

/// Looks a valid source reading up in the table.
pub fn brightness_lookup(r: u32) -> (b: u32)
    requires
        r < LOOKUP_TABLE_LEN,
    ensures
        b == lookup_spec(r),
{
    match r {
        0 => 0,
        1 => 1,
        2 => 2,
        3 => 4,
        4 => 7,
        5 => 11,
        6 => 16,
        7 => 22,
        8 => 30,
        9 => 40,
        10 => 52,
        11 => 66,
        12 => 82,
        13 => 100,
        14 => 120,
        _ => 142,
    }
}

/// The table is monotonic: a brighter source reading never maps to a darker
/// output level.
pub proof fn lemma_lookup_monotonic(i: u32, j: u32)
    requires
        i <= j < LOOKUP_TABLE_LEN,
    ensures
        lookup_spec(i) <= lookup_spec(j),
{
}

} // verus!

use vstd::prelude::*;

verus! {

/// `a + b` held below the top of `u64`.
pub open spec fn spec_sat_add_u64(a: u64, b: u64) -> u64 {
    if a + b > u64::MAX {
        u64::MAX
    } else {
        (a + b) as u64
    }
}

/// `a - b`, never below zero.
pub open spec fn spec_sub_floor_u64(a: u64, b: u64) -> u64 {
    if a <= b {
        0
    } else {
        (a - b) as u64
    }
}

/// `a + b` held within the range of `i64`.
pub open spec fn spec_sat_add_i64(a: i64, b: i64) -> i64 {
    if a + b > i64::MAX {
        i64::MAX
    } else if a + b < i64::MIN {
        i64::MIN
    } else {
        (a + b) as i64
    }
}

pub fn sat_add_u64(a: u64, b: u64) -> (r: u64)
    ensures
        r == spec_sat_add_u64(a, b),
{
    if a <= u64::MAX - b {
        a + b
    } else {
        u64::MAX
    }
}

pub fn sub_floor_u64(a: u64, b: u64) -> (r: u64)
    ensures
        r == spec_sub_floor_u64(a, b),
{
    if a <= b {
        0
    } else {
        a - b
    }
}

pub fn sat_add_i64(a: i64, b: i64) -> (r: i64)
    ensures
        r == spec_sat_add_i64(a, b),
{
    if b >= 0 {
        if a <= i64::MAX - b {
            a + b
        } else {
            i64::MAX
        }
    } else {
        if a >= i64::MIN - b {
            a + b
        } else {
            i64::MIN
        }
    }
}

} // verus!

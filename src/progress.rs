use vstd::prelude::*;

verus! {

/// `current` out of `total` as a whole percentage, rounded to the nearest,
/// halves up; saturated at `u64::MAX`. Of nothing out of nothing it is 0, of
/// something out of nothing `u64::MAX`.
pub open spec fn percentage(current: nat, total: nat) -> nat {
    if total == 0 {
        if current == 0 {
            0
        } else {
            u64::MAX as nat
        }
    } else {
        let p = (200 * current + total) / (2 * total);
        if p > u64::MAX {
            u64::MAX as nat
        } else {
            p
        }
    }
}

/// The progress of a layer download in percent.
pub fn calculate_percentage(current: u64, total: u64) -> (r: u64)
    ensures
        r == percentage(current as nat, total as nat),
{
    if total == 0 {
        if current == 0 {
            0
        } else {
            u64::MAX
        }
    } else {
        let num: u128 = 200 * (current as u128) + (total as u128);
        let den: u128 = 2 * (total as u128);
        let p: u128 = num / den;
        if p > u64::MAX as u128 {
            u64::MAX
        } else {
            p as u64
        }
    }
}

/// A byte count as the image pull reports it: absent or negative counts as 0.
pub open spec fn reported_count(v: Option<i64>) -> nat {
    match v {
        Some(n) => if n >= 0 {
            n as nat
        } else {
            0
        },
        None => 0,
    }
}

/// The percentage shown for a layer, from the counts the image pull reports.
pub fn layer_percentage(current: Option<i64>, total: Option<i64>) -> (r: u64)
    ensures
        r == percentage(reported_count(current), reported_count(total)),
{
    let c: u64 = match current {
        Some(n) => if n >= 0 {
            n as u64
        } else {
            0
        },
        None => 0,
    };
    let t: u64 = match total {
        Some(n) => if n >= 0 {
            n as u64
        } else {
            0
        },
        None => 0,
    };
    calculate_percentage(c, t)
}

} // verus!

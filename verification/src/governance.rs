//! Arithmetic shared by every vote: the approval ratio, saturating time
//! arithmetic, and the laws that the passing rules obey.
use vstd::prelude::*;

verus! {

/// Yes support reaches the threshold: `yes / (yes + no) >= threshold_bps / 10_000`,
/// written without division. Abstentions take no part.
pub open spec fn approval_met(yes: int, no: int, threshold_bps: int) -> bool {
    yes * 10_000 >= (yes + no) * threshold_bps
}

/// Whether `yes` approval over `yes + no` reaches `threshold_bps`.
pub fn meets_approval(yes: u64, no: u64, threshold_bps: u16) -> (r: bool)
    ensures
        r == approval_met(yes as int, no as int, threshold_bps as int),
{
    let y: u128 = yes as u128;
    let base: u128 = (yes as u128) + (no as u128);
    let t: u128 = threshold_bps as u128;
    assert(y * 10_000 <= 0x1_0000_0000_0000_0000 * 10_000) by (nonlinear_arith)
        requires
            y <= 0xffff_ffff_ffff_ffff,
    ;
    assert(base * t <= 0x2_0000_0000_0000_0000 * 0x1_0000) by (nonlinear_arith)
        requires
            base <= 0x2_0000_0000_0000_0000,
            t <= 0xffff,
    ;
    y * 10_000 >= base * t
}

/// `a + b`, clamped to the range of `i64`.
pub open spec fn sat_add_i64_spec(a: i64, b: i64) -> i64 {
    if a + b > i64::MAX {
        i64::MAX
    } else if a + b < i64::MIN {
        i64::MIN
    } else {
        (a + b) as i64
    }
}

/// `a + b`, clamped to the range of `i64`.
pub fn sat_add_i64(a: i64, b: i64) -> (r: i64)
    ensures
        r == sat_add_i64_spec(a, b),
{
    match a.checked_add(b) {
        Some(v) => v,
        None => if b > 0 {
            i64::MAX
        } else {
            i64::MIN
        },
    }
}

/// `a - b`, clamped to the range of `i64`.
pub open spec fn sat_sub_i64_spec(a: i64, b: i64) -> i64 {
    if a - b > i64::MAX {
        i64::MAX
    } else if a - b < i64::MIN {
        i64::MIN
    } else {
        (a - b) as i64
    }
}

/// `a - b`, clamped to the range of `i64`.
pub fn sat_sub_i64(a: i64, b: i64) -> (r: i64)
    ensures
        r == sat_sub_i64_spec(a, b),
{
    match a.checked_sub(b) {
        Some(v) => v,
        None => if b < 0 {
            i64::MAX
        } else {
            i64::MIN
        },
    }
}

/// `a - b` for unsigned values, stopping at zero.
pub open spec fn sat_sub_u64_spec(a: u64, b: u64) -> u64 {
    if a >= b {
        (a - b) as u64
    } else {
        0
    }
}

/// Adding Yes support never turns an approval into a rejection.
pub proof fn lemma_more_yes_keeps_approval(yes: nat, no: nat, extra: nat, threshold_bps: nat)
    requires
        threshold_bps <= 10_000,
        approval_met(yes as int, no as int, threshold_bps as int),
    ensures
        approval_met((yes + extra) as int, no as int, threshold_bps as int),
{
    assert((yes + extra) * 10_000 >= (yes + extra + no) * threshold_bps) by (nonlinear_arith)
        requires
            threshold_bps <= 10_000,
            yes * 10_000 >= (yes + no) * threshold_bps,
    ;
}

/// Adding No votes never turns a rejection into an approval.
pub proof fn lemma_more_no_keeps_rejection(yes: nat, no: nat, extra: nat, threshold_bps: nat)
    requires
        !approval_met(yes as int, no as int, threshold_bps as int),
    ensures
        !approval_met(yes as int, (no + extra) as int, threshold_bps as int),
{
    assert(yes * 10_000 < (yes + no + extra) * threshold_bps) by (nonlinear_arith)
        requires
            yes * 10_000 < (yes + no) * threshold_bps,
    ;
}

} // verus!

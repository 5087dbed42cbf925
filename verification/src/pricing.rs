//! Module pricing math: a base price in whole currency units is scaled to a
//! payment asset's smallest unit, and per-party fees are charged in basis points,
//! rounding up so the protocol never under-charges.
use vstd::prelude::*;

use crate::errors::EducationError;

verus! {

/// `10^n`.
pub open spec fn pow10(n: nat) -> nat
    decreases n,
{
    if n == 0 {
        1
    } else {
        10 * pow10((n - 1) as nat)
    }
}

/// `10^n` never decreases as `n` grows.
pub proof fn lemma_pow10_monotone(a: nat, b: nat)
    requires
        a <= b,
    ensures
        1 <= pow10(a) <= pow10(b),
    decreases b,
{
    if b == 0 {
    } else if a == b {
        lemma_pow10_monotone(0, (b - 1) as nat);
    } else {
        lemma_pow10_monotone(a, (b - 1) as nat);
    }
}

/// `price_units * 10^decimals`, or an overflow when it does not fit in 128 bits
/// (or when `10^decimals` alone does not).
pub open spec fn scale_to_asset_spec(price_units: u64, decimals: u8) -> Result<u128, EducationError> {
    if pow10(decimals as nat) > u128::MAX {
        Err(EducationError::Overflow)
    } else if price_units * pow10(decimals as nat) > u128::MAX {
        Err(EducationError::Overflow)
    } else {
        Ok((price_units * pow10(decimals as nat)) as u128)
    }
}

/// The base price in the asset's smallest unit: `price_units * 10^decimals`.
pub fn scale_to_asset(price_units: u64, decimals: u8) -> (r: Result<u128, EducationError>)
    ensures
        r == scale_to_asset_spec(price_units, decimals),
{
    let mut multiplier: u128 = 1;
    let mut i: u8 = 0;
    while i < decimals
        invariant
            i <= decimals,
            multiplier == pow10(i as nat),
        decreases decimals - i,
    {
        match multiplier.checked_mul(10) {
            Some(m) => {
                multiplier = m;
                i = i + 1;
            },
            None => {
                proof {
                    lemma_pow10_monotone((i + 1) as nat, decimals as nat);
                }
                return Err(EducationError::Overflow);
            },
        }
    }
    match (price_units as u128).checked_mul(multiplier) {
        Some(v) => Ok(v),
        None => Err(EducationError::Overflow),
    }
}

/// `ceil(amount * bps / 10_000)` as an integer.
pub open spec fn fee_ceil_value(amount: int, bps: int) -> int {
    if bps == 0 {
        0
    } else {
        (amount * bps + 9_999) / 10_000
    }
}

/// The rounded-up fee, or an overflow when `amount * bps + 9_999` exceeds 128 bits.
pub open spec fn fee_ceil_spec(amount: u128, bps: u16) -> Result<u128, EducationError> {
    if bps != 0 && amount * bps + 9_999 > u128::MAX {
        Err(EducationError::Overflow)
    } else {
        Ok(fee_ceil_value(amount as int, bps as int) as u128)
    }
}

/// `ceil(amount * bps / 10_000)`.
pub fn fee_ceil(amount: u128, bps: u16) -> (r: Result<u128, EducationError>)
    ensures
        r == fee_ceil_spec(amount, bps),
{
    if bps == 0 {
        return Ok(0);
    }
    let product = match amount.checked_mul(bps as u128) {
        Some(p) => p,
        None => return Err(EducationError::Overflow),
    };
    let numerator = match product.checked_add(9_999) {
        Some(n) => n,
        None => return Err(EducationError::Overflow),
    };
    Ok(numerator / 10_000)
}

/// A rounded-up fee is the least amount whose `10_000`-fold covers
/// `amount * bps`: it never under-charges, and never over-charges by a whole unit.
pub proof fn lemma_fee_ceil_is_ceiling(amount: nat, bps: nat)
    ensures
        fee_ceil_value(amount as int, bps as int) * 10_000 >= amount * bps,
        fee_ceil_value(amount as int, bps as int) == 0 || (fee_ceil_value(amount as int, bps as int) - 1)
            * 10_000 < amount * bps,
{
    let x: int = (amount * bps) as int;
    assert(x >= 0) by (nonlinear_arith)
        requires
            x == amount * bps,
    ;
    if bps != 0 {
        let c: int = (x + 9_999) / 10_000;
        assert(c * 10_000 >= x && (c == 0 || (c - 1) * 10_000 < x)) by (nonlinear_arith)
            requires
                c == (x + 9_999) / 10_000,
                x >= 0,
        ;
    }
}

/// `floor(amount * bps / 10_000)`, or an overflow when `amount * bps` exceeds 128 bits.
pub open spec fn bps_floor_spec(amount: u128, bps: u16) -> Result<u128, EducationError> {
    if amount * bps > u128::MAX {
        Err(EducationError::Overflow)
    } else {
        Ok(((amount * bps) / 10_000) as u128)
    }
}

/// `floor(amount * bps / 10_000)`. Used to scale a payout by a student score so
/// the sponsor is never over-charged.
pub fn bps_floor(amount: u128, bps: u16) -> (r: Result<u128, EducationError>)
    ensures
        r == bps_floor_spec(amount, bps),
{
    match amount.checked_mul(bps as u128) {
        Some(p) => Ok(p / 10_000),
        None => Err(EducationError::Overflow),
    }
}

/// A score-scaled amount never exceeds the amount itself when the score is at
/// most 100%.
pub proof fn law_score_scaling_never_exceeds_amount(amount: nat, bps: nat)
    requires
        bps <= 10_000,
    ensures
        (amount * bps) / 10_000 <= amount,
        ((amount * bps) / 10_000) * 10_000 <= amount * bps,
{
    assert((amount * bps) / 10_000 <= amount && ((amount * bps) / 10_000) * 10_000 <= amount * bps)
        by (nonlinear_arith)
        requires
            bps <= 10_000,
    ;
}

/// The four fee parts of a base price, in the asset's smallest unit.
#[derive(Clone, Copy, Debug, PartialEq, Eq, Structural)]
pub struct FeeParts {
    pub content_creator: u128,
    pub regional_operator: u128,
    pub protocol: u128,
    pub dbs: u128,
}

impl FeeParts {
    /// The sum of the four parts, as an integer.
    pub open spec fn sum(&self) -> int {
        self.content_creator + self.regional_operator + self.protocol + self.dbs
    }

    /// The sum of the four parts, or an overflow when it exceeds 128 bits.
    pub fn total(&self) -> (r: Result<u128, EducationError>)
        ensures
            self.sum() > u128::MAX ==> r == Err::<u128, EducationError>(EducationError::Overflow),
            self.sum() <= u128::MAX ==> r == Ok::<u128, EducationError>(self.sum() as u128),
    {
        let a = match self.content_creator.checked_add(self.regional_operator) {
            Some(v) => v,
            None => return Err(EducationError::Overflow),
        };
        let b = match a.checked_add(self.protocol) {
            Some(v) => v,
            None => return Err(EducationError::Overflow),
        };
        match b.checked_add(self.dbs) {
            Some(v) => Ok(v),
            None => Err(EducationError::Overflow),
        }
    }
}

/// The fee parts of `base_scaled`, or an overflow when any of them overflows.
pub open spec fn fee_parts_spec(
    base_scaled: u128,
    content_creator_bps: u16,
    regional_operator_bps: u16,
    protocol_bps: u16,
    dbs_bps: u16,
) -> Result<FeeParts, EducationError> {
    match (
        fee_ceil_spec(base_scaled, content_creator_bps),
        fee_ceil_spec(base_scaled, regional_operator_bps),
        fee_ceil_spec(base_scaled, protocol_bps),
        fee_ceil_spec(base_scaled, dbs_bps),
    ) {
        (Ok(cc), Ok(ro), Ok(pr), Ok(db)) => Ok(
            FeeParts { content_creator: cc, regional_operator: ro, protocol: pr, dbs: db },
        ),
        _ => Err(EducationError::Overflow),
    }
}

/// Compute the fee parts for a base price already scaled to the asset.
pub fn fee_parts(
    base_scaled: u128,
    content_creator_bps: u16,
    regional_operator_bps: u16,
    protocol_bps: u16,
    dbs_bps: u16,
) -> (r: Result<FeeParts, EducationError>)
    ensures
        r == fee_parts_spec(
            base_scaled,
            content_creator_bps,
            regional_operator_bps,
            protocol_bps,
            dbs_bps,
        ),
{
    let content_creator = match fee_ceil(base_scaled, content_creator_bps) {
        Ok(v) => v,
        Err(e) => return Err(e),
    };
    let regional_operator = match fee_ceil(base_scaled, regional_operator_bps) {
        Ok(v) => v,
        Err(e) => return Err(e),
    };
    let protocol = match fee_ceil(base_scaled, protocol_bps) {
        Ok(v) => v,
        Err(e) => return Err(e),
    };
    let dbs = match fee_ceil(base_scaled, dbs_bps) {
        Ok(v) => v,
        Err(e) => return Err(e),
    };
    Ok(FeeParts { content_creator, regional_operator, protocol, dbs })
}

/// The full price of one module token (base plus all fees, in asset units), or an
/// overflow when a step overflows or the total exceeds 64 bits.
pub open spec fn price_per_token_spec(
    price_units: u64,
    decimals: u8,
    content_creator_bps: u16,
    regional_operator_bps: u16,
    protocol_bps: u16,
    dbs_bps: u16,
) -> Result<u64, EducationError> {
    match scale_to_asset_spec(price_units, decimals) {
        Err(e) => Err(e),
        Ok(base) => match fee_parts_spec(
            base,
            content_creator_bps,
            regional_operator_bps,
            protocol_bps,
            dbs_bps,
        ) {
            Err(e) => Err(e),
            Ok(parts) => if parts.sum() > u128::MAX || base + parts.sum() > u64::MAX {
                Err(EducationError::Overflow)
            } else {
                Ok((base + parts.sum()) as u64)
            },
        },
    }
}

/// Total price for one module token: base price plus all fees, in asset units.
pub fn price_per_token(
    price_units: u64,
    decimals: u8,
    content_creator_bps: u16,
    regional_operator_bps: u16,
    protocol_bps: u16,
    dbs_bps: u16,
) -> (r: Result<u64, EducationError>)
    ensures
        r == price_per_token_spec(
            price_units,
            decimals,
            content_creator_bps,
            regional_operator_bps,
            protocol_bps,
            dbs_bps,
        ),
{
    let base = match scale_to_asset(price_units, decimals) {
        Ok(v) => v,
        Err(e) => return Err(e),
    };
    let parts = match fee_parts(
        base,
        content_creator_bps,
        regional_operator_bps,
        protocol_bps,
        dbs_bps,
    ) {
        Ok(p) => p,
        Err(e) => return Err(e),
    };
    let fees = match parts.total() {
        Ok(t) => t,
        Err(e) => return Err(e),
    };
    let total = match base.checked_add(fees) {
        Some(t) => t,
        None => return Err(EducationError::Overflow),
    };
    if total > u64::MAX as u128 {
        Err(EducationError::Overflow)
    } else {
        Ok(total as u64)
    }
}

/// A token's full price covers its base price and every fee part, each of which
/// is at least its exact basis-point share: the protocol never under-charges.
pub proof fn law_price_covers_base_and_fees(
    price_units: u64,
    decimals: u8,
    content_creator_bps: u16,
    regional_operator_bps: u16,
    protocol_bps: u16,
    dbs_bps: u16,
)
    requires
        price_per_token_spec(
            price_units,
            decimals,
            content_creator_bps,
            regional_operator_bps,
            protocol_bps,
            dbs_bps,
        ) is Ok,
    ensures
        ({
            let total = price_per_token_spec(
                price_units,
                decimals,
                content_creator_bps,
                regional_operator_bps,
                protocol_bps,
                dbs_bps,
            )->Ok_0;
            let base = price_units * pow10(decimals as nat);
            &&& total * 10_000 >= base * 10_000 + base * content_creator_bps + base
                * regional_operator_bps + base * protocol_bps + base * dbs_bps
            &&& total >= base
        }),
{
    let base: int = price_units * pow10(decimals as nat);
    lemma_fee_ceil_is_ceiling(base as nat, content_creator_bps as nat);
    lemma_fee_ceil_is_ceiling(base as nat, regional_operator_bps as nat);
    lemma_fee_ceil_is_ceiling(base as nat, protocol_bps as nat);
    lemma_fee_ceil_is_ceiling(base as nat, dbs_bps as nat);
    assert(base >= 0) by (nonlinear_arith)
        requires
            base == price_units * pow10(decimals as nat),
    ;
    assert(fee_ceil_value(base, content_creator_bps as int) >= 0);
    assert(fee_ceil_value(base, regional_operator_bps as int) >= 0);
    assert(fee_ceil_value(base, protocol_bps as int) >= 0);
    assert(fee_ceil_value(base, dbs_bps as int) >= 0);
}

} // verus!

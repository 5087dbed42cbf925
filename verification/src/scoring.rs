//! Scoring a delivered booking and settling its payment: the AI agent submits
//! a score, either party may dispute it within the window, and once settled the
//! escrowed per-token payment is split between the creator, the region's
//! operator, the protocol and the lecturer, scaled by the score, with the rest
//! refunded to the sponsor.
use vstd::prelude::*;

use crate::education::{Booking, Config, Deliverer, Module};
use crate::effects::{mv, make_move, lemma_net_into_concat, lemma_net_into_one, net_into, Effect, Pot};
use crate::errors::EducationError;
use crate::governance::{sat_add_i64, sat_add_i64_spec};
use crate::key::Key;
use crate::pricing::{bps_floor, bps_floor_spec, fee_parts, fee_parts_spec, scale_to_asset, scale_to_asset_spec};

verus! {

/// What a settled booking pays each party, in the payment asset's smallest unit.
#[derive(Clone, Copy, Debug, PartialEq, Eq, Structural)]
pub struct Payouts {
    pub creator: u128,
    pub regional_operator: u128,
    pub protocol: u128,
    pub lecturer: u128,
}

impl Payouts {
    /// Everything paid out.
    pub open spec fn sum(&self) -> int {
        self.creator + self.regional_operator + self.protocol + self.lecturer
    }
}

/// The split of one booked token's payment for a score. Below the minimum score
/// nothing is paid. Otherwise each fee part and the base price are scaled by the
/// score (rounding down); the lecturer earns the scaled base plus the scaled DBS
/// fee, capped so the total never exceeds what was escrowed.
pub open spec fn settlement_spec(
    min_score: u16,
    module: Module,
    price_per_token: u64,
    score: u16,
    decimals: u8,
) -> Result<Payouts, EducationError> {
    match scale_to_asset_spec(module.price, decimals) {
        Err(e) => Err(e),
        Ok(base) => match fee_parts_spec(
            base,
            module.content_creator_bps,
            module.regional_operator_bps,
            module.protocol_bps,
            module.dbs_bps,
        ) {
            Err(e) => Err(e),
            Ok(parts) => if score < min_score {
                Ok(Payouts { creator: 0, regional_operator: 0, protocol: 0, lecturer: 0 })
            } else {
                match (
                    bps_floor_spec(parts.content_creator, score),
                    bps_floor_spec(parts.regional_operator, score),
                    bps_floor_spec(parts.protocol, score),
                    bps_floor_spec(parts.dbs, score),
                    bps_floor_spec(base, score),
                ) {
                    (Ok(cc), Ok(ro), Ok(pr), Ok(db), Ok(lb)) => if lb + db > u128::MAX || cc + ro + pr
                        > u128::MAX || lb + db + cc + ro + pr > u128::MAX {
                        Err(EducationError::Overflow)
                    } else if lb + db + cc + ro + pr <= price_per_token {
                        Ok(
                            Payouts {
                                creator: cc,
                                regional_operator: ro,
                                protocol: pr,
                                lecturer: (lb + db) as u128,
                            },
                        )
                    } else if cc + ro + pr > price_per_token {
                        Err(EducationError::Underflow)
                    } else {
                        Ok(
                            Payouts {
                                creator: cc,
                                regional_operator: ro,
                                protocol: pr,
                                lecturer: (price_per_token - (cc + ro + pr)) as u128,
                            },
                        )
                    },
                    _ => Err(EducationError::Overflow),
                }
            },
        },
    }
}

/// Compute the payouts of one booked token's payment for a score.
pub fn compute_payouts(
    min_score: u16,
    module: &Module,
    price_per_token: u64,
    score: u16,
    decimals: u8,
) -> (r: Result<Payouts, EducationError>)
    ensures
        r == settlement_spec(min_score, *module, price_per_token, score, decimals),
        r matches Ok(p) ==> p.sum() <= price_per_token,
{
    let base = match scale_to_asset(module.price, decimals) {
        Ok(b) => b,
        Err(e) => return Err(e),
    };
    let parts = match fee_parts(
        base,
        module.content_creator_bps,
        module.regional_operator_bps,
        module.protocol_bps,
        module.dbs_bps,
    ) {
        Ok(p) => p,
        Err(e) => return Err(e),
    };
    if score < min_score {
        return Ok(Payouts { creator: 0, regional_operator: 0, protocol: 0, lecturer: 0 });
    }
    let cc = match bps_floor(parts.content_creator, score) {
        Ok(v) => v,
        Err(e) => return Err(e),
    };
    let ro = match bps_floor(parts.regional_operator, score) {
        Ok(v) => v,
        Err(e) => return Err(e),
    };
    let pr = match bps_floor(parts.protocol, score) {
        Ok(v) => v,
        Err(e) => return Err(e),
    };
    let db = match bps_floor(parts.dbs, score) {
        Ok(v) => v,
        Err(e) => return Err(e),
    };
    let lb = match bps_floor(base, score) {
        Ok(v) => v,
        Err(e) => return Err(e),
    };
    let lecturer_full = match lb.checked_add(db) {
        Some(v) => v,
        None => return Err(EducationError::Overflow),
    };
    let cc_ro = match cc.checked_add(ro) {
        Some(v) => v,
        None => return Err(EducationError::Overflow),
    };
    let others = match cc_ro.checked_add(pr) {
        Some(v) => v,
        None => return Err(EducationError::Overflow),
    };
    let total = match lecturer_full.checked_add(others) {
        Some(v) => v,
        None => return Err(EducationError::Overflow),
    };
    let escrowed: u128 = price_per_token as u128;
    let lecturer = if total <= escrowed {
        lecturer_full
    } else {
        match escrowed.checked_sub(others) {
            Some(v) => v,
            None => return Err(EducationError::Underflow),
        }
    };
    Ok(Payouts { creator: cc, regional_operator: ro, protocol: pr, lecturer })
}

/// A payout of `amount` from the booking escrow to `to`, or nothing when it is
/// zero.
pub open spec fn opt_pay(to: Pot, amount: int) -> Seq<Effect> {
    if amount > 0 {
        seq![mv(Pot::BookingEscrow, to, amount as u64)]
    } else {
        seq![]
    }
}

/// A payout moves exactly its amount out of the booking escrow.
pub proof fn lemma_opt_pay_net(to: Pot, amount: int)
    requires
        to != Pot::BookingEscrow,
        0 <= amount <= u64::MAX,
    ensures
        net_into(opt_pay(to, amount), Pot::BookingEscrow) == -amount,
{
    if amount > 0 {
        lemma_net_into_one(mv(Pot::BookingEscrow, to, amount as u64), Pot::BookingEscrow);
    } else {
        assert(net_into(Seq::<Effect>::empty(), Pot::BookingEscrow) == 0);
    }
}

/// Pay `amount` out of the booking escrow to `to`: nothing when it is zero, an
/// overflow when it does not fit in 64 bits.
pub fn pay_out(effects: &mut Vec<Effect>, to: Pot, amount: u128) -> (r: Result<(), EducationError>)
    ensures
        amount > u64::MAX ==> r == Err::<(), EducationError>(EducationError::Overflow) && final(effects)@
            == old(effects)@,
        amount <= u64::MAX ==> r is Ok && final(effects)@ == old(effects)@ + opt_pay(to, amount as int),
{
    if amount == 0 {
        proof {
            assert(old(effects)@ + opt_pay(to, amount as int) =~= old(effects)@);
        }
        return Ok(());
    }
    if amount > u64::MAX as u128 {
        return Err(EducationError::Overflow);
    }
    effects.push(make_move(Pot::BookingEscrow, to, amount as u64));
    proof {
        assert(final(effects)@ =~= old(effects)@ + opt_pay(to, amount as int)) by {
            assert(final(effects)@ =~= old(effects)@.push(mv(Pot::BookingEscrow, to, amount as u64)));
        }
    }
    Ok(())
}

/// Submit a student score (in basis points) for a claimed booking, at or after
/// its scheduled delivery.
pub fn submit_impact_score(booking: &mut Booking, score: u16, now: i64) -> (r: Result<(), EducationError>)
    ensures
        score > 10_000 ==> r == Err::<(), EducationError>(EducationError::InvalidScore),
        score <= 10_000 && old(booking).lecturer is None ==> r == Err::<(), EducationError>(
            EducationError::NoLecturerSet,
        ),
        score <= 10_000 && old(booking).lecturer is Some && old(booking).score is Some ==> r == Err::<
            (),
            EducationError,
        >(EducationError::ScoreAlreadySet),
        score <= 10_000 && old(booking).lecturer is Some && old(booking).score is None && now < old(booking).delivery_at ==> r == Err::<(), EducationError>(EducationError::DeliveryNotReached),
        score <= 10_000 && old(booking).lecturer is Some && old(booking).score is None && now >= old(booking).delivery_at ==> r is Ok && *final(booking) == (Booking {
            score: Some(score),
            score_at: Some(now),
            ..*old(booking)
        }),
        r is Err ==> *final(booking) == *old(booking),
{
    if score > 10_000 {
        return Err(EducationError::InvalidScore);
    }
    if booking.lecturer.is_none() {
        return Err(EducationError::NoLecturerSet);
    }
    if booking.score.is_some() {
        return Err(EducationError::ScoreAlreadySet);
    }
    if now < booking.delivery_at {
        return Err(EducationError::DeliveryNotReached);
    }
    booking.score = Some(score);
    booking.score_at = Some(now);
    Ok(())
}

/// Why a dispute would be refused, checked in order.
pub open spec fn dispute_error(config: Config, booking: Booking, party: Key, proposed_score: u16, now: i64) -> Option<
    EducationError,
> {
    if proposed_score > 10_000 {
        Some(EducationError::InvalidScore)
    } else if booking.settled {
        Some(EducationError::AlreadySettled)
    } else if booking.score_at is None {
        Some(EducationError::NoTestResultsSubmitted)
    } else if booking.disputer is Some {
        Some(EducationError::DisputeAlreadyRaised)
    } else if !(party == booking.school || Some(party) == booking.lecturer) {
        Some(EducationError::NoPermission)
    } else if now >= sat_add_i64_spec(booking.score_at->Some_0, config.dispute_window) {
        Some(EducationError::DisputeWindowClosed)
    } else {
        None
    }
}

/// Dispute a submitted score within the window, proposing an amended score.
/// Only the booking's school or lecturer may, and only once.
pub fn dispute_score(config: &Config, booking: &mut Booking, party: Key, proposed_score: u16, now: i64) -> (r:
    Result<(), EducationError>)
    ensures
        dispute_error(*config, *old(booking), party, proposed_score, now) matches Some(e) ==> r == Err::<
            (),
            EducationError,
        >(e),
        dispute_error(*config, *old(booking), party, proposed_score, now) is None ==> r is Ok && *final(booking) == (Booking { disputer: Some(party), proposed_score: Some(proposed_score), ..*old(booking) }),
        r is Err ==> *final(booking) == *old(booking),
{
    if proposed_score > 10_000 {
        return Err(EducationError::InvalidScore);
    }
    if booking.settled {
        return Err(EducationError::AlreadySettled);
    }
    let score_at = match booking.score_at {
        Some(t) => t,
        None => return Err(EducationError::NoTestResultsSubmitted),
    };
    if booking.disputer.is_some() {
        return Err(EducationError::DisputeAlreadyRaised);
    }
    let is_party = party == booking.school || Some(party) == booking.lecturer;
    if !is_party {
        return Err(EducationError::NoPermission);
    }
    let deadline = sat_add_i64(score_at, config.dispute_window);
    if now >= deadline {
        return Err(EducationError::DisputeWindowClosed);
    }
    booking.disputer = Some(party);
    booking.proposed_score = Some(proposed_score);
    Ok(())
}

/// The party on the other side of a dispute: the lecturer when the school
/// disputed, otherwise the school.
pub open spec fn counterparty_of(booking: Booking) -> Key {
    if booking.disputer->Some_0 == booking.school {
        booking.lecturer->Some_0
    } else {
        booking.school
    }
}

/// The counterparty accepts or declines a disputed score; accepting adopts the
/// amended score. Either way the proposal is cleared.
pub fn resolve_dispute(booking: &mut Booking, counterparty: Key, accept: bool) -> (r: Result<(), EducationError>)
    ensures
        old(booking).settled ==> r == Err::<(), EducationError>(EducationError::AlreadySettled),
        !old(booking).settled && (old(booking).proposed_score is None || old(booking).disputer is None)
            ==> r == Err::<(), EducationError>(EducationError::NoDispute),
        !old(booking).settled && old(booking).proposed_score is Some && old(booking).disputer is Some
            && old(booking).lecturer is None ==> r == Err::<(), EducationError>(
            EducationError::NoLecturerSet,
        ),
        !old(booking).settled && old(booking).proposed_score is Some && old(booking).disputer is Some
            && old(booking).lecturer is Some ==> if counterparty != counterparty_of(*old(booking)) {
            r == Err::<(), EducationError>(EducationError::NoPermission)
        } else {
            r is Ok && *final(booking) == (Booking {
                score: if accept {
                    old(booking).proposed_score
                } else {
                    old(booking).score
                },
                proposed_score: None,
                ..*old(booking)
            })
        },
        r is Err ==> *final(booking) == *old(booking),
{
    if booking.settled {
        return Err(EducationError::AlreadySettled);
    }
    let proposed = match booking.proposed_score {
        Some(p) => p,
        None => return Err(EducationError::NoDispute),
    };
    let disputer = match booking.disputer {
        Some(d) => d,
        None => return Err(EducationError::NoDispute),
    };
    let lecturer = match booking.lecturer {
        Some(l) => l,
        None => return Err(EducationError::NoLecturerSet),
    };
    let expected = if disputer == booking.school {
        lecturer
    } else {
        booking.school
    };
    if counterparty != expected {
        return Err(EducationError::NoPermission);
    }
    if accept {
        booking.score = Some(proposed);
    }
    booking.proposed_score = None;
    Ok(())
}

/// Why settlement would be refused before any payment is computed, checked in
/// order.
pub open spec fn finalize_gate_error(
    config: Config,
    booking: Booking,
    cranker: Key,
    lecturer_payment_owner: Key,
    now: i64,
) -> Option<EducationError> {
    if booking.settled {
        Some(EducationError::AlreadySettled)
    } else if booking.lecturer is None {
        Some(EducationError::NoLecturerSet)
    } else if booking.score is None || booking.score_at is None {
        Some(EducationError::NoTestResultsSubmitted)
    } else if lecturer_payment_owner != booking.lecturer->Some_0 {
        Some(EducationError::WrongPayoutRecipient)
    } else {
        let window_over = now >= sat_add_i64_spec(booking.score_at->Some_0, config.dispute_window);
        let is_party = cranker == booking.school || cranker == booking.lecturer->Some_0;
        if booking.proposed_score is Some && !window_over {
            Some(EducationError::DisputePending)
        } else if !(window_over || is_party || booking.disputer is Some) {
            Some(EducationError::DisputeWindowOpen)
        } else {
            None
        }
    }
}

/// The deliverer after a settlement: its claim concludes, and a paid delivery
/// counts, every `deliveries_per_strike_reduction`-th one retiring a strike.
pub open spec fn deliverer_after_settlement(config: Config, deliverer: Deliverer, paid: bool) -> Deliverer {
    if paid {
        let delivered = (deliverer.successful_deliveries + 1) as u32;
        let reduction = config.deliveries_per_strike_reduction;
        Deliverer {
            successful_deliveries: delivered,
            active_strikes: if reduction > 0 && delivered % reduction == 0 && deliverer.active_strikes
                > 0 {
                (deliverer.active_strikes - 1) as u8
            } else {
                deliverer.active_strikes
            },
            active_claims: (deliverer.active_claims - 1) as u32,
            ..deliverer
        }
    } else {
        Deliverer { active_claims: (deliverer.active_claims - 1) as u32, ..deliverer }
    }
}

/// The payments a settlement makes, in order, followed by the burn of the
/// delivered token.
pub open spec fn settlement_moves(p: Payouts, price_per_token: u64) -> Seq<Effect> {
    Seq::<Effect>::empty() + opt_pay(Pot::CreatorPayment, p.creator as int) + opt_pay(
        Pot::RegionalOperatorPayment,
        p.regional_operator as int,
    ) + opt_pay(Pot::ProtocolPayment, p.protocol as int) + opt_pay(Pot::LecturerPayment, p.lecturer as int)
        + opt_pay(Pot::SponsorPayment, price_per_token - p.sum()) + seq![
        Effect::BurnModuleTokens { amount: 1 },
    ]
}

/// Settle a scored booking. Before the dispute window closes, only one of the
/// two parties (by signing) or a decided dispute can bring settlement forward;
/// an amendment still awaiting the counterparty lapses once the window is over.
/// The escrowed payment is split per [`settlement_spec`], the rest refunded to
/// the sponsor, the delivered token burned and the lecturer's claim concluded.
pub fn finalize_score(
    config: &Config,
    module: &Module,
    booking: &mut Booking,
    deliverer: &mut Deliverer,
    cranker: Key,
    lecturer_payment_owner: Key,
    payment_decimals: u8,
    now: i64,
) -> (r: Result<Vec<Effect>, EducationError>)
    ensures
        finalize_gate_error(*config, *old(booking), cranker, lecturer_payment_owner, now) matches Some(e)
            ==> r == Err::<Vec<Effect>, EducationError>(e),
        finalize_gate_error(*config, *old(booking), cranker, lecturer_payment_owner, now) is None ==> {
            let score = old(booking).score->Some_0;
            let paid = score >= config.min_impact_score_bps;
            match settlement_spec(
                config.min_impact_score_bps,
                *module,
                old(booking).price_per_token,
                score,
                payment_decimals,
            ) {
                Err(e) => r == Err::<Vec<Effect>, EducationError>(e),
                Ok(p) => if paid && old(deliverer).successful_deliveries == u32::MAX {
                    r == Err::<Vec<Effect>, EducationError>(EducationError::Overflow)
                } else if old(deliverer).active_claims == 0 {
                    r == Err::<Vec<Effect>, EducationError>(EducationError::Underflow)
                } else {
                    &&& r matches Ok(v) && v@ == settlement_moves(p, old(booking).price_per_token)
                    &&& net_into(r->Ok_0@, Pot::BookingEscrow) == -(old(booking).price_per_token as int)
                    &&& *final(booking) == (Booking {
                        settled: true,
                        proposed_score: None,
                        ..*old(booking)
                    })
                    &&& *final(deliverer) == deliverer_after_settlement(*config, *old(deliverer), paid)
                },
            }
        },
        r is Err ==> *final(booking) == *old(booking) && *final(deliverer) == *old(deliverer),
{
    if booking.settled {
        return Err(EducationError::AlreadySettled);
    }
    let lecturer = match booking.lecturer {
        Some(l) => l,
        None => return Err(EducationError::NoLecturerSet),
    };
    let score = match booking.score {
        Some(s) => s,
        None => return Err(EducationError::NoTestResultsSubmitted),
    };
    let score_at = match booking.score_at {
        Some(t) => t,
        None => return Err(EducationError::NoTestResultsSubmitted),
    };
    if lecturer_payment_owner != lecturer {
        return Err(EducationError::WrongPayoutRecipient);
    }
    let window_over = now >= sat_add_i64(score_at, config.dispute_window);
    if booking.proposed_score.is_some() && !window_over {
        return Err(EducationError::DisputePending);
    }
    let is_party = cranker == booking.school || cranker == lecturer;
    let dispute_concluded = booking.disputer.is_some();
    if !(window_over || is_party || dispute_concluded) {
        return Err(EducationError::DisputeWindowOpen);
    }
    let price = booking.price_per_token;
    let payouts = match compute_payouts(config.min_impact_score_bps, module, price, score, payment_decimals) {
        Ok(p) => p,
        Err(e) => return Err(e),
    };
    let paid = score >= config.min_impact_score_bps;
    if paid && deliverer.successful_deliveries == u32::MAX {
        return Err(EducationError::Overflow);
    }
    if deliverer.active_claims == 0 {
        return Err(EducationError::Underflow);
    }
    let paid_out: u128 = payouts.creator + payouts.regional_operator + payouts.protocol + payouts.lecturer;
    let refund: u128 = (price as u128) - paid_out;
    let mut effects: Vec<Effect> = Vec::new();
    if let Err(e) = pay_out(&mut effects, Pot::CreatorPayment, payouts.creator) {
        return Err(e);
    }
    if let Err(e) = pay_out(&mut effects, Pot::RegionalOperatorPayment, payouts.regional_operator) {
        return Err(e);
    }
    if let Err(e) = pay_out(&mut effects, Pot::ProtocolPayment, payouts.protocol) {
        return Err(e);
    }
    if let Err(e) = pay_out(&mut effects, Pot::LecturerPayment, payouts.lecturer) {
        return Err(e);
    }
    if let Err(e) = pay_out(&mut effects, Pot::SponsorPayment, refund) {
        return Err(e);
    }
    effects.push(Effect::BurnModuleTokens { amount: 1 });
    proof {
        let o1 = opt_pay(Pot::CreatorPayment, payouts.creator as int);
        let o2 = opt_pay(Pot::RegionalOperatorPayment, payouts.regional_operator as int);
        let o3 = opt_pay(Pot::ProtocolPayment, payouts.protocol as int);
        let o4 = opt_pay(Pot::LecturerPayment, payouts.lecturer as int);
        let o5 = opt_pay(Pot::SponsorPayment, price - payouts.sum());
        let burn = seq![Effect::BurnModuleTokens { amount: 1 }];
        assert(effects@ =~= settlement_moves(payouts, price));
        lemma_opt_pay_net(Pot::CreatorPayment, payouts.creator as int);
        lemma_opt_pay_net(Pot::RegionalOperatorPayment, payouts.regional_operator as int);
        lemma_opt_pay_net(Pot::ProtocolPayment, payouts.protocol as int);
        lemma_opt_pay_net(Pot::LecturerPayment, payouts.lecturer as int);
        lemma_opt_pay_net(Pot::SponsorPayment, price - payouts.sum());
        lemma_net_into_one(Effect::BurnModuleTokens { amount: 1 }, Pot::BookingEscrow);
        lemma_net_into_concat(Seq::<Effect>::empty(), o1, Pot::BookingEscrow);
        lemma_net_into_concat(Seq::<Effect>::empty() + o1, o2, Pot::BookingEscrow);
        lemma_net_into_concat(Seq::<Effect>::empty() + o1 + o2, o3, Pot::BookingEscrow);
        lemma_net_into_concat(Seq::<Effect>::empty() + o1 + o2 + o3, o4, Pot::BookingEscrow);
        lemma_net_into_concat(Seq::<Effect>::empty() + o1 + o2 + o3 + o4, o5, Pot::BookingEscrow);
        lemma_net_into_concat(Seq::<Effect>::empty() + o1 + o2 + o3 + o4 + o5, burn, Pot::BookingEscrow);
        assert(net_into(Seq::<Effect>::empty(), Pot::BookingEscrow) == 0);
    }
    if paid {
        deliverer.successful_deliveries = deliverer.successful_deliveries + 1;
        let reduction = config.deliveries_per_strike_reduction;
        if reduction > 0 && deliverer.successful_deliveries % reduction == 0 {
            deliverer.active_strikes = deliverer.active_strikes.saturating_sub(1);
        }
    }
    deliverer.active_claims = deliverer.active_claims - 1;
    booking.proposed_score = None;
    booking.settled = true;
    Ok(effects)
}

} // verus!

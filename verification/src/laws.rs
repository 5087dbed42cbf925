//! Properties that hold across the library's operations: how the passing rules
//! treat each kind of vote, what voting and seat changes leave in the vault,
//! how a settlement splits the escrowed payment, how a module's tokens move
//! between its allocations, and which actions undo one another.
use vstd::prelude::*;

use crate::effects::{
    lemma_net_into_concat, lemma_net_into_one, lemma_net_into_three, lemma_net_into_two, mv, net_into, Effect, Pot,
};
use crate::bookings::{booking_moves, cancellation_moves, opened_booking};
use crate::education::Booking;
use crate::education::{
    allocated, module_after_booking, module_after_cancellation, module_after_claim,
    module_after_claim_withdrawn, module_after_reclaim, module_after_sponsoring,
    sponsorship_after_booking, sponsorship_after_cancellation, Config as EducationConfig, Module,
    ModuleProposal, Sponsorship,
};
use crate::governance::{approval_met, lemma_more_yes_keeps_approval};
use crate::key::Key;
use crate::proposals::module_proposal_passes;
use crate::region_proposals::{pays_reward, region_finalize_moves, region_proposal_passes, revote_refund};
use crate::region_removal::{region_after_upheld_removal, removal_passes, removal_slash};
use crate::region_seats::seat_change_moves;
use crate::regions::{Config as RegionsConfig, Region, RegionProposal, RemovalProposal, VoteRecord};
use crate::pricing::{bps_floor_spec, fee_parts_spec, scale_to_asset_spec};
use crate::scoring::{settlement_spec, Payouts};

verus! {

/// A region proposal needs a turnout strictly above the quorum: a turnout
/// exactly at the quorum never passes.
pub proof fn law_region_quorum_is_strict(p: RegionProposal, threshold_bps: u16)
    ensures
        !region_proposal_passes(p, threshold_bps, (p.yes_power + p.no_power + p.abstain_power) as u64)
            || p.yes_power + p.no_power + p.abstain_power > u64::MAX,
{
}

/// With no Yes or No votes the approval ratio is met, so a turnout of
/// abstentions alone passes a region proposal exactly when it is above the
/// quorum.
pub proof fn law_region_abstentions_alone_pass_above_quorum(p: RegionProposal, threshold_bps: u16, quorum: u64)
    requires
        p.yes_power == 0,
        p.no_power == 0,
    ensures
        region_proposal_passes(p, threshold_bps, quorum) <==> p.abstain_power > quorum,
{
}

/// A region proposal passes exactly when its Yes votes, weighed against Yes and
/// No together, reach the threshold (`yes * 10_000 >= (yes + no) * threshold_bps`)
/// and its turnout is above the quorum. In particular a Yes share below the
/// threshold never passes, whatever the turnout.
pub proof fn law_region_pass_rule(p: RegionProposal, threshold_bps: u16, quorum: u64)
    ensures
        region_proposal_passes(p, threshold_bps, quorum) <==> (p.yes_power * 10_000 >= (p.yes_power
            + p.no_power) * threshold_bps && p.yes_power + p.no_power + p.abstain_power > quorum),
        p.yes_power * 10_000 < (p.yes_power + p.no_power) * threshold_bps ==> !region_proposal_passes(
            p,
            threshold_bps,
            quorum,
        ),
{
}

/// Abstentions count toward the quorum but not the approval ratio: more
/// abstentions never turn a passing region proposal into a failing one.
pub proof fn law_region_abstain_never_blocks(p: RegionProposal, extra: u64, threshold_bps: u16, quorum: u64)
    requires
        region_proposal_passes(p, threshold_bps, quorum),
        p.abstain_power + extra <= u64::MAX,
    ensures
        region_proposal_passes(
            RegionProposal { abstain_power: (p.abstain_power + extra) as u64, ..p },
            threshold_bps,
            quorum,
        ),
{
}

/// More Yes support never turns a passing region proposal into a failing one
/// (for a threshold of at most 100%).
pub proof fn law_region_more_yes_keeps_pass(p: RegionProposal, extra: u64, threshold_bps: u16, quorum: u64)
    requires
        threshold_bps <= 10_000,
        region_proposal_passes(p, threshold_bps, quorum),
        p.yes_power + extra <= u64::MAX,
    ensures
        region_proposal_passes(
            RegionProposal { yes_power: (p.yes_power + extra) as u64, ..p },
            threshold_bps,
            quorum,
        ),
{
    lemma_more_yes_keeps_approval(p.yes_power as nat, p.no_power as nat, extra as nat, threshold_bps as nat);
}

/// More No votes never turn a failing approval ratio into a passing one, for
/// region, removal and module proposals alike.
pub proof fn law_more_no_keeps_rejection(yes: u64, no: u64, extra: u64, threshold_bps: u16)
    requires
        !approval_met(yes as int, no as int, threshold_bps as int),
    ensures
        !approval_met(yes as int, no + extra, threshold_bps as int),
{
    crate::governance::lemma_more_no_keeps_rejection(yes as nat, no as nat, extra as nat, threshold_bps as nat);
}

/// Abstentions never turn a passing removal into a failing one.
pub proof fn law_removal_abstain_never_blocks(p: RemovalProposal, extra: u64, threshold_bps: u16, quorum: u64)
    requires
        removal_passes(p, threshold_bps, quorum),
        p.abstain_power + extra <= u64::MAX,
    ensures
        removal_passes(
            RemovalProposal { abstain_power: (p.abstain_power + extra) as u64, ..p },
            threshold_bps,
            quorum,
        ),
{
}

/// A removal passes exactly when its turnout is non-zero and above the quorum
/// and its Yes votes, weighed against Yes and No together, reach the
/// threshold: `yes * 10_000 >= (yes + no) * threshold_bps`.
pub proof fn law_removal_pass_rule(p: RemovalProposal, threshold_bps: u16, quorum: u64)
    ensures
        removal_passes(p, threshold_bps, quorum) <==> ({
            let turnout = p.yes_power + p.no_power + p.abstain_power;
            &&& turnout != 0
            &&& turnout > quorum
            &&& p.yes_power * 10_000 >= (p.yes_power + p.no_power) * threshold_bps
        }),
{
}

/// A removal needs a turnout strictly above the quorum: a turnout exactly at the
/// quorum never removes an operator.
pub proof fn law_removal_quorum_is_strict(p: RemovalProposal, threshold_bps: u16)
    ensures
        !removal_passes(p, threshold_bps, (p.yes_power + p.no_power + p.abstain_power) as u64)
            || p.yes_power + p.no_power + p.abstain_power > u64::MAX,
{
}

/// A module proposal passes exactly when its turnout is non-zero and at least
/// the quorum, and its Yes votes, weighed against Yes and No together, reach
/// the threshold: `yes * 10_000 >= (yes + no) * threshold_bps`.
pub proof fn law_module_pass_rule(p: ModuleProposal, threshold_bps: u16, quorum: u64)
    ensures
        module_proposal_passes(p, threshold_bps, quorum) <==> ({
            let turnout = p.yes_power + p.no_power + p.abstain_power;
            &&& turnout != 0
            &&& turnout >= quorum
            &&& p.yes_power * 10_000 >= (p.yes_power + p.no_power) * threshold_bps
        }),
{
}

/// Abstentions never turn a passing module proposal into a failing one; with no
/// Yes or No votes at all the approval ratio is met, so a proposal carried by
/// abstentions passes once it reaches the quorum.
pub proof fn law_module_abstain_never_blocks(p: ModuleProposal, extra: u64, threshold_bps: u16, quorum: u64)
    requires
        module_proposal_passes(p, threshold_bps, quorum),
        p.abstain_power + extra <= u64::MAX,
    ensures
        module_proposal_passes(
            ModuleProposal { abstain_power: (p.abstain_power + extra) as u64, ..p },
            threshold_bps,
            quorum,
        ),
{
}

/// Casting a vote moves exactly the new lock into the vault, less the earlier
/// lock it refunds when the voter had already voted.
pub proof fn law_revote_vault_net(rec: VoteRecord, amount: u64)
    ensures
        net_into(revote_refund(rec) + seq![mv(Pot::Voter, Pot::Vault, amount)], Pot::Vault) == amount
            - (if rec.voter != Key::zero_spec() {
            rec.power as int
        } else {
            0
        }),
{
    lemma_net_into_concat(revote_refund(rec), seq![mv(Pot::Voter, Pot::Vault, amount)], Pot::Vault);
    lemma_net_into_one(mv(Pot::Voter, Pot::Vault, amount), Pot::Vault);
    if rec.voter != Key::zero_spec() && rec.power > 0 {
        lemma_net_into_one(mv(Pot::Vault, Pot::Voter, rec.power), Pot::Vault);
    } else {
        assert(net_into(Seq::<Effect>::empty(), Pot::Vault) == 0);
    }
}

/// A seat change leaves the vault holding exactly the new bond in place of the
/// old collateral, whether the incumbent renews or another operator takes over.
pub proof fn law_seat_change_keeps_one_bond(renewal: bool, bond: u64, existing: u64)
    ensures
        net_into(seat_change_moves(renewal, bond, existing), Pot::Vault) == bond - existing,
{
    if renewal {
        if bond > existing {
            lemma_net_into_one(mv(Pot::NewOperator, Pot::Vault, (bond - existing) as u64), Pot::Vault);
        } else if existing > bond {
            lemma_net_into_one(mv(Pot::Vault, Pot::NewOperator, (existing - bond) as u64), Pot::Vault);
        } else {
            assert(net_into(Seq::<Effect>::empty(), Pot::Vault) == 0);
        }
    } else {
        lemma_net_into_two(mv(Pot::NewOperator, Pot::Vault, bond), mv(Pot::Vault, Pot::OldOwner, existing), Pot::Vault);
        lemma_net_into_one(mv(Pot::NewOperator, Pot::Vault, bond), Pot::Vault);
        lemma_net_into_one(mv(Pot::Vault, Pot::OldOwner, existing), Pot::Vault);
    }
}

/// A seat change settles only between the operators and the vault; the
/// treasury takes nothing. On a renewal the incumbent's net flow is the change
/// in their collateral (`existing - bond`: they take back any excess and top up
/// any shortfall) and no one else is paid; on a takeover the new operator pays
/// the whole bond and the outgoing one gets their whole collateral back.
pub proof fn law_seat_change_settlement(renewal: bool, bond: u64, existing: u64)
    ensures
        net_into(seat_change_moves(renewal, bond, existing), Pot::Treasury) == 0,
        renewal ==> net_into(seat_change_moves(renewal, bond, existing), Pot::NewOperator) == existing
            - bond,
        renewal ==> net_into(seat_change_moves(renewal, bond, existing), Pot::OldOwner) == 0,
        !renewal ==> net_into(seat_change_moves(renewal, bond, existing), Pot::NewOperator) == -bond,
        !renewal ==> net_into(seat_change_moves(renewal, bond, existing), Pot::OldOwner) == existing,
{
    let moves = seat_change_moves(renewal, bond, existing);
    if renewal {
        if bond > existing {
            let m = mv(Pot::NewOperator, Pot::Vault, (bond - existing) as u64);
            lemma_net_into_one(m, Pot::Treasury);
            lemma_net_into_one(m, Pot::NewOperator);
            lemma_net_into_one(m, Pot::OldOwner);
        } else if existing > bond {
            let m = mv(Pot::Vault, Pot::NewOperator, (existing - bond) as u64);
            lemma_net_into_one(m, Pot::Treasury);
            lemma_net_into_one(m, Pot::NewOperator);
            lemma_net_into_one(m, Pot::OldOwner);
        } else {
            assert(moves =~= Seq::<Effect>::empty());
        }
    } else {
        let a = mv(Pot::NewOperator, Pot::Vault, bond);
        let b = mv(Pot::Vault, Pot::OldOwner, existing);
        lemma_net_into_two(a, b, Pot::Treasury);
        lemma_net_into_two(a, b, Pot::NewOperator);
        lemma_net_into_two(a, b, Pot::OldOwner);
        lemma_net_into_one(a, Pot::Treasury);
        lemma_net_into_one(a, Pot::NewOperator);
        lemma_net_into_one(a, Pot::OldOwner);
        lemma_net_into_one(b, Pot::Treasury);
        lemma_net_into_one(b, Pot::NewOperator);
        lemma_net_into_one(b, Pot::OldOwner);
    }
}

/// A settlement never pays out more than was escrowed for the token.
pub proof fn law_settlement_within_escrow(min_score: u16, module: Module, price_per_token: u64, score: u16, decimals: u8)
    requires
        settlement_spec(min_score, module, price_per_token, score, decimals) is Ok,
    ensures
        settlement_spec(min_score, module, price_per_token, score, decimals)->Ok_0.sum() <= price_per_token,
{
}

/// Below the minimum impact score nothing is paid out: the whole escrowed
/// payment goes back to the sponsor.
pub proof fn law_low_score_pays_nothing(min_score: u16, module: Module, price_per_token: u64, score: u16, decimals: u8)
    requires
        score < min_score,
        settlement_spec(min_score, module, price_per_token, score, decimals) is Ok,
    ensures
        settlement_spec(min_score, module, price_per_token, score, decimals)->Ok_0 == (Payouts {
            creator: 0,
            regional_operator: 0,
            protocol: 0,
            lecturer: 0,
        }),
{
}

/// Sponsoring moves tokens from the sponsor allocation to the school
/// allocation: none are created or lost and the supply is unchanged.
pub proof fn law_sponsoring_keeps_tokens(m: Module, n: u64)
    requires
        n <= m.sponsor_allocation,
        m.school_allocation + n <= u64::MAX,
    ensures
        allocated(module_after_sponsoring(m, n)) == allocated(m),
        module_after_sponsoring(m, n).total_token_amount == m.total_token_amount,
{
}

/// Reclaiming the tokens a sponsorship took puts the module's allocations back
/// exactly as they were.
pub proof fn law_reclaim_undoes_sponsoring(m: Module, n: u64)
    requires
        n <= m.sponsor_allocation,
        m.school_allocation + n <= u64::MAX,
    ensures
        module_after_reclaim(module_after_sponsoring(m, n), n) == m,
{
    assert(module_after_reclaim(module_after_sponsoring(m, n), n) =~= m);
}

/// Booking moves one token from the school allocation to the student
/// allocation, keeping the number of allocated tokens.
pub proof fn law_booking_keeps_tokens(m: Module)
    requires
        m.school_allocation >= 1,
        m.student_allocation < u64::MAX,
    ensures
        allocated(module_after_booking(m)) == allocated(m),
{
}

/// A claim takes one booked token out of the allocations for delivery, and a
/// withdrawn claim returns it, leaving the module as before the claim.
pub proof fn law_withdrawn_claim_returns_token(m: Module)
    requires
        m.student_allocation >= 1,
    ensures
        allocated(module_after_claim(m)) == allocated(m) - 1,
        module_after_claim_withdrawn(module_after_claim(m)) == m,
{
    assert(module_after_claim_withdrawn(module_after_claim(m)) =~= m);
}

/// Cancelling a claimed booking returns the token in delivery to the school
/// allocation.
pub proof fn law_claimed_cancellation_returns_token(m: Module)
    requires
        m.school_allocation < u64::MAX,
    ensures
        allocated(module_after_cancellation(m, true)) == allocated(m) + 1,
{
}

/// Every accepted cancellation returns the booking's payment from its escrow to
/// the sponsor escrow, slashed or not; the school's deposit leaves the vault
/// and goes to the treasury when slashed, back to the school otherwise. The
/// treasury never gains more than the deposit.
pub proof fn law_cancellation_settlement(booking: Booking, slashed: bool)
    ensures
        net_into(cancellation_moves(booking, slashed), Pot::SponsorEscrow) == booking.price_per_token,
        net_into(cancellation_moves(booking, slashed), Pot::BookingEscrow) == -booking.price_per_token,
        net_into(cancellation_moves(booking, slashed), Pot::Vault) == -booking.deposit,
        net_into(cancellation_moves(booking, slashed), Pot::Treasury) == (if slashed {
            booking.deposit as int
        } else {
            0
        }),
        net_into(cancellation_moves(booking, slashed), Pot::SchoolXcav) == (if slashed {
            0
        } else {
            booking.deposit as int
        }),
        net_into(cancellation_moves(booking, slashed), Pot::Treasury) <= booking.deposit,
{
    let a = mv(Pot::BookingEscrow, Pot::SponsorEscrow, booking.price_per_token);
    let b = mv(Pot::Vault, if slashed { Pot::Treasury } else { Pot::SchoolXcav }, booking.deposit);
    let c = Effect::CloseEscrow { escrow: Pot::BookingEscrow, rent_to: Pot::SchoolWallet };
    assert(cancellation_moves(booking, slashed) == seq![a, b, c]);
    lemma_cancellation_pot(a, b, c, Pot::SponsorEscrow);
    lemma_cancellation_pot(a, b, c, Pot::BookingEscrow);
    lemma_cancellation_pot(a, b, c, Pot::Vault);
    lemma_cancellation_pot(a, b, c, Pot::Treasury);
    lemma_cancellation_pot(a, b, c, Pot::SchoolXcav);
    lemma_net_into_one(a, Pot::SponsorEscrow);
    lemma_net_into_one(b, Pot::SponsorEscrow);
    lemma_net_into_one(a, Pot::BookingEscrow);
    lemma_net_into_one(b, Pot::BookingEscrow);
    lemma_net_into_one(a, Pot::Vault);
    lemma_net_into_one(b, Pot::Vault);
    lemma_net_into_one(a, Pot::Treasury);
    lemma_net_into_one(b, Pot::Treasury);
    lemma_net_into_one(a, Pot::SchoolXcav);
    lemma_net_into_one(b, Pot::SchoolXcav);
}

/// The net flow of two moves followed by an escrow closure, which moves no
/// tokens, into one pot.
proof fn lemma_cancellation_pot(a: Effect, b: Effect, c: Effect, pot: Pot)
    requires
        c is CloseEscrow,
    ensures
        net_into(seq![a, b, c], pot) == net_into(seq![a], pot) + net_into(seq![b], pot),
{
    lemma_net_into_three(a, b, c, pot);
    lemma_net_into_two(a, b, pot);
    lemma_net_into_one(c, pot);
}

/// Cancelling an unclaimed booking below the cancellation limit undoes it: the
/// token is bookable again, the sponsorship is as before, and the payment and
/// the school's deposit are back where they came from, every account's net
/// flow over the two actions being zero.
pub proof fn law_cancellation_undoes_booking(
    config: EducationConfig,
    m: Module,
    s: Sponsorship,
    school: Key,
    module_id: u64,
    sponsor_id: u64,
    delivery_at: i64,
    metadata: String,
    now: i64,
    bump: u8,
    pot: Pot,
)
    requires
        m.school_allocation >= 1,
        m.student_allocation < u64::MAX,
        s.amount >= 1,
        s.active_bookings < u32::MAX,
    ensures
        module_after_cancellation(module_after_booking(m), false) == m,
        sponsorship_after_cancellation(sponsorship_after_booking(s)) == s,
        net_into(
            booking_moves(config, s) + cancellation_moves(
                opened_booking(config, s, school, module_id, sponsor_id, delivery_at, metadata, now, bump),
                false,
            ),
            pot,
        ) == 0,
{
    let b = opened_booking(config, s, school, module_id, sponsor_id, delivery_at, metadata, now, bump);
    assert(module_after_cancellation(module_after_booking(m), false) =~= m);
    lemma_net_into_concat(booking_moves(config, s), cancellation_moves(b, false), pot);
    lemma_net_into_two(
        mv(Pot::SchoolXcav, Pot::Vault, config.booking_deposit),
        mv(Pot::SponsorEscrow, Pot::BookingEscrow, s.price_per_token),
        pot,
    );
    lemma_net_into_three(
        mv(Pot::BookingEscrow, Pot::SponsorEscrow, b.price_per_token),
        mv(Pot::Vault, Pot::SchoolXcav, b.deposit),
        Effect::CloseEscrow { escrow: Pot::BookingEscrow, rent_to: Pot::SchoolWallet },
        pot,
    );
    lemma_net_into_two(
        mv(Pot::BookingEscrow, Pot::SponsorEscrow, b.price_per_token),
        mv(Pot::Vault, Pot::SchoolXcav, b.deposit),
        pot,
    );
    lemma_net_into_one(mv(Pot::BookingEscrow, Pot::SponsorEscrow, b.price_per_token), pot);
    lemma_net_into_one(mv(Pot::Vault, Pot::SchoolXcav, b.deposit), pot);
    lemma_net_into_one(mv(Pot::SchoolXcav, Pot::Vault, config.booking_deposit), pot);
    lemma_net_into_one(mv(Pot::SponsorEscrow, Pot::BookingEscrow, s.price_per_token), pot);
    lemma_net_into_one(Effect::CloseEscrow { escrow: Pot::BookingEscrow, rent_to: Pot::SchoolWallet }, pot);
}

/// Scaling by a larger score never gives less.
proof fn lemma_bps_floor_monotone(amount: u128, s1: u16, s2: u16)
    requires
        s1 <= s2,
        amount * s2 <= u128::MAX,
    ensures
        bps_floor_spec(amount, s1) is Ok,
        bps_floor_spec(amount, s1)->Ok_0 <= bps_floor_spec(amount, s2)->Ok_0,
{
    vstd::arithmetic::mul::lemma_mul_inequality(s1 as int, s2 as int, amount as int);
    assert(amount * s1 == s1 * amount && amount * s2 == s2 * amount) by (nonlinear_arith);
    vstd::arithmetic::div_mod::lemma_div_is_ordered(amount * s1, amount * s2, 10_000);
}

/// A higher score never pays out less in total: the parties' shares grow with
/// the score until together they take the whole escrowed payment, so the
/// sponsor's refund never grows with the score.
pub proof fn law_higher_score_pays_no_less(
    min_score: u16,
    module: Module,
    price_per_token: u64,
    s1: u16,
    s2: u16,
    decimals: u8,
)
    requires
        s1 <= s2,
        settlement_spec(min_score, module, price_per_token, s1, decimals) is Ok,
        settlement_spec(min_score, module, price_per_token, s2, decimals) is Ok,
    ensures
        settlement_spec(min_score, module, price_per_token, s1, decimals)->Ok_0.sum()
            <= settlement_spec(min_score, module, price_per_token, s2, decimals)->Ok_0.sum(),
{
    if s1 >= min_score {
        let base = scale_to_asset_spec(module.price, decimals)->Ok_0;
        let parts = fee_parts_spec(
            base,
            module.content_creator_bps,
            module.regional_operator_bps,
            module.protocol_bps,
            module.dbs_bps,
        )->Ok_0;
        lemma_bps_floor_monotone(parts.content_creator, s1, s2);
        lemma_bps_floor_monotone(parts.regional_operator, s1, s2);
        lemma_bps_floor_monotone(parts.protocol, s1, s2);
        lemma_bps_floor_monotone(parts.dbs, s1, s2);
        lemma_bps_floor_monotone(base, s1, s2);
    }
}

/// An upheld removal slashes at most the operator's whole collateral, leaves
/// the rest in place, adds a strike (saturating), and opens the seat at once
/// when the strikes reach the allowed number.
pub proof fn law_upheld_removal_slash_and_strikes(config: RegionsConfig, region: Region, now: i64)
    ensures
        removal_slash(config.slash_amount, region.collateral) <= region.collateral,
        removal_slash(config.slash_amount, region.collateral) <= config.slash_amount,
        region_after_upheld_removal(config, region, now).collateral == region.collateral - removal_slash(
            config.slash_amount,
            region.collateral,
        ),
        region.active_strikes < u8::MAX ==> region_after_upheld_removal(config, region, now).active_strikes
            == region.active_strikes + 1,
        region_after_upheld_removal(config, region, now).active_strikes >= config.allowed_strikes
            ==> region_after_upheld_removal(config, region, now).next_owner_change == now,
        region_after_upheld_removal(config, region, now).owner == region.owner,
{
}

/// Once a region proposal is finalized none of its bond stays in the vault:
/// a pass returns it to the proposer, who also gains the treasury's matching
/// reward when the treasury can pay it, and a rejection hands it to the
/// treasury.
pub proof fn law_finalized_proposal_leaves_no_bond_in_vault(passed: bool, deposit: u64, treasury_balance: u64)
    ensures
        ({
            let moves = seq![mv(Pot::Proposer, Pot::Vault, deposit)] + region_finalize_moves(
                passed,
                deposit,
                treasury_balance,
            );
            let reward: int = if pays_reward(deposit, treasury_balance) {
                deposit as int
            } else {
                0
            };
            &&& net_into(moves, Pot::Vault) == 0
            &&& net_into(moves, Pot::Proposer) == (if passed {
                reward
            } else {
                -deposit
            })
            &&& net_into(moves, Pot::Treasury) == (if passed {
                -reward
            } else {
                deposit as int
            })
        }),
{
    let lock = seq![mv(Pot::Proposer, Pot::Vault, deposit)];
    let fin = region_finalize_moves(passed, deposit, treasury_balance);
    lemma_net_into_concat(lock, fin, Pot::Vault);
    lemma_net_into_concat(lock, fin, Pot::Proposer);
    lemma_net_into_concat(lock, fin, Pot::Treasury);
    lemma_net_into_one(mv(Pot::Proposer, Pot::Vault, deposit), Pot::Vault);
    lemma_net_into_one(mv(Pot::Proposer, Pot::Vault, deposit), Pot::Proposer);
    lemma_net_into_one(mv(Pot::Proposer, Pot::Vault, deposit), Pot::Treasury);
    if passed {
        let refund = seq![mv(Pot::Vault, Pot::Proposer, deposit)];
        let extra = if pays_reward(deposit, treasury_balance) {
            seq![mv(Pot::Treasury, Pot::Proposer, deposit)]
        } else {
            Seq::<Effect>::empty()
        };
        lemma_net_into_concat(refund, extra, Pot::Vault);
        lemma_net_into_concat(refund, extra, Pot::Proposer);
        lemma_net_into_concat(refund, extra, Pot::Treasury);
        lemma_net_into_one(mv(Pot::Vault, Pot::Proposer, deposit), Pot::Vault);
        lemma_net_into_one(mv(Pot::Vault, Pot::Proposer, deposit), Pot::Proposer);
        lemma_net_into_one(mv(Pot::Vault, Pot::Proposer, deposit), Pot::Treasury);
        if pays_reward(deposit, treasury_balance) {
            lemma_net_into_one(mv(Pot::Treasury, Pot::Proposer, deposit), Pot::Vault);
            lemma_net_into_one(mv(Pot::Treasury, Pot::Proposer, deposit), Pot::Proposer);
            lemma_net_into_one(mv(Pot::Treasury, Pot::Proposer, deposit), Pot::Treasury);
        } else {
            assert(net_into(Seq::<Effect>::empty(), Pot::Vault) == 0);
            assert(net_into(Seq::<Effect>::empty(), Pot::Proposer) == 0);
            assert(net_into(Seq::<Effect>::empty(), Pot::Treasury) == 0);
        }
    } else {
        lemma_net_into_one(mv(Pot::Vault, Pot::Treasury, deposit), Pot::Vault);
        lemma_net_into_one(mv(Pot::Vault, Pot::Treasury, deposit), Pot::Proposer);
        lemma_net_into_one(mv(Pot::Vault, Pot::Treasury, deposit), Pot::Treasury);
    }
}

} // verus!

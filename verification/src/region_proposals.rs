//! The region proposal lifecycle: proposing, voting, finalizing, and reclaiming
//! or clearing what is left afterwards.
use vstd::prelude::*;

use crate::effects::{lemma_net_into_one, mv, make_move, net_into, Effect, Pot};
use crate::errors::RegionsError;
use crate::governance::{approval_met, meets_approval, sat_add_i64, sat_add_i64_spec, sat_sub_u64_spec};
use crate::key::Key;
use crate::regions::{Config, RegionIdentifier, RegionProposal, RegionState, RegionStatus, Vote, VoteRecord};

verus! {

/// The power tallied for one side of a region proposal.
pub open spec fn region_power(p: RegionProposal, v: Vote) -> u64 {
    match v {
        Vote::Yes => p.yes_power,
        Vote::No => p.no_power,
        Vote::Abstain => p.abstain_power,
    }
}

/// `p` with one side's tally set to `x`.
pub open spec fn region_with_power(p: RegionProposal, v: Vote, x: u64) -> RegionProposal {
    match v {
        Vote::Yes => RegionProposal { yes_power: x, ..p },
        Vote::No => RegionProposal { no_power: x, ..p },
        Vote::Abstain => RegionProposal { abstain_power: x, ..p },
    }
}

/// `p` with a voter's earlier vote (if the record is set) taken back out.
pub open spec fn region_withdrawn(p: RegionProposal, rec: VoteRecord) -> RegionProposal {
    if rec.voter == Key::zero_spec() {
        p
    } else {
        region_with_power(p, rec.vote, sat_sub_u64_spec(region_power(p, rec.vote), rec.power))
    }
}

/// The refund of an earlier vote's lock, if there is one to return.
pub open spec fn revote_refund(rec: VoteRecord) -> Seq<Effect> {
    if rec.voter != Key::zero_spec() && rec.power > 0 {
        seq![mv(Pot::Vault, Pot::Voter, rec.power)]
    } else {
        seq![]
    }
}

fn add_power(p: &mut RegionProposal, vote: Vote, amount: u64) -> (r: Result<(), RegionsError>)
    ensures
        region_power(*old(p), vote) + amount > u64::MAX ==> r == Err::<(), RegionsError>(
            RegionsError::Overflow,
        ) && *final(p) == *old(p),
        region_power(*old(p), vote) + amount <= u64::MAX ==> r is Ok && *final(p) == region_with_power(
            *old(p),
            vote,
            (region_power(*old(p), vote) + amount) as u64,
        ),
{
    match vote {
        Vote::Yes => match p.yes_power.checked_add(amount) {
            Some(v) => {
                p.yes_power = v;
                Ok(())
            },
            None => Err(RegionsError::Overflow),
        },
        Vote::No => match p.no_power.checked_add(amount) {
            Some(v) => {
                p.no_power = v;
                Ok(())
            },
            None => Err(RegionsError::Overflow),
        },
        Vote::Abstain => match p.abstain_power.checked_add(amount) {
            Some(v) => {
                p.abstain_power = v;
                Ok(())
            },
            None => Err(RegionsError::Overflow),
        },
    }
}

fn sub_power(p: &mut RegionProposal, vote: Vote, amount: u64)
    ensures
        *final(p) == region_with_power(
            *old(p),
            vote,
            sat_sub_u64_spec(region_power(*old(p), vote), amount),
        ),
{
    match vote {
        Vote::Yes => p.yes_power = p.yes_power.saturating_sub(amount),
        Vote::No => p.no_power = p.no_power.saturating_sub(amount),
        Vote::Abstain => p.abstain_power = p.abstain_power.saturating_sub(amount),
    }
}

/// Taking back a vote that was just added restores the tally.
pub proof fn law_withdrawn_vote_restores_tally(p: RegionProposal, vote: Vote, amount: u64)
    requires
        region_power(p, vote) + amount <= u64::MAX,
    ensures
        ({
            let added = region_with_power(p, vote, (region_power(p, vote) + amount) as u64);
            region_with_power(added, vote, sat_sub_u64_spec(region_power(added, vote), amount)) == p
        }),
{
}

/// The region state a new proposal opens.
pub open spec fn proposed_region_state(
    region_id: u16,
    proposal_id: u64,
    proposer: Key,
    deposit: u64,
    bump: u8,
) -> RegionState {
    RegionState {
        region_id,
        status: RegionStatus::Proposing,
        proposal_id,
        proposer,
        deposit,
        claim_deadline: 0,
        highest_bidder: None,
        collateral: 0,
        auction_expiry: 0,
        bump,
    }
}

/// A region state whose proposal passed: its operator auction opens at the
/// minimum region deposit with no bidder, ending at `auction_expiry`.
pub open spec fn auctioning_region_state(state: RegionState, minimum_deposit: u64, auction_expiry: i64) -> RegionState {
    RegionState {
        status: RegionStatus::Auctioning,
        highest_bidder: None,
        collateral: minimum_deposit,
        auction_expiry,
        ..state
    }
}

/// Whether the treasury pays a passing proposer a reward matching the bond:
/// only when it holds at least that much.
pub open spec fn pays_reward(deposit: u64, treasury_balance: u64) -> bool {
    deposit > 0 && treasury_balance >= deposit
}

/// What finalizing moves: a pass returns the bond to the proposer, matched by a
/// reward from the treasury when it can cover it; a rejection slashes the bond
/// to the treasury.
pub open spec fn region_finalize_moves(passed: bool, deposit: u64, treasury_balance: u64) -> Seq<Effect> {
    if passed {
        seq![mv(Pot::Vault, Pot::Proposer, deposit)] + (if pays_reward(deposit, treasury_balance) {
            seq![mv(Pot::Treasury, Pot::Proposer, deposit)]
        } else {
            Seq::<Effect>::empty()
        })
    } else {
        seq![mv(Pot::Vault, Pot::Treasury, deposit)]
    }
}

/// The proposal record a new proposal opens.
pub open spec fn opened_region_proposal(
    proposal_id: u64,
    proposer: Key,
    region_id: u16,
    now: i64,
    voting_period: i64,
    deposit: u64,
    bump: u8,
) -> RegionProposal {
    RegionProposal {
        proposal_id,
        proposer,
        region_id,
        created_at: now,
        expiry: sat_add_i64_spec(now, voting_period),
        deposit,
        yes_power: 0,
        no_power: 0,
        abstain_power: 0,
        bump,
    }
}

/// Propose a new region. The region must not exist yet (`region_created`) and
/// its id must be recognised. The proposer's deposit is locked in the vault,
/// the voting window opens, and the proposal counter advances.
pub fn propose_new_region(
    config: &mut Config,
    region_id: u16,
    proposer: Key,
    region_created: bool,
    now: i64,
    state_bump: u8,
    proposal_bump: u8,
) -> (r: Result<(RegionState, RegionProposal, Vec<Effect>), RegionsError>)
    ensures
        region_created ==> r == Err::<(RegionState, RegionProposal, Vec<Effect>), RegionsError>(
            RegionsError::RegionAlreadyCreated,
        ),
        !region_created && RegionIdentifier::from_code_spec(region_id) is None ==> r == Err::<
            (RegionState, RegionProposal, Vec<Effect>),
            RegionsError,
        >(RegionsError::InvalidRegion),
        !region_created && RegionIdentifier::from_code_spec(region_id) is Some
            && old(config).proposal_counter == u64::MAX ==> r == Err::<
            (RegionState, RegionProposal, Vec<Effect>),
            RegionsError,
        >(RegionsError::Overflow),
        !region_created && RegionIdentifier::from_code_spec(region_id) is Some
            && old(config).proposal_counter < u64::MAX ==> (r matches Ok((s, p, v)) && s
            == proposed_region_state(
            region_id,
            old(config).proposal_counter,
            proposer,
            old(config).proposal_deposit,
            state_bump,
        ) && p == opened_region_proposal(
            old(config).proposal_counter,
            proposer,
            region_id,
            now,
            old(config).voting_period,
            old(config).proposal_deposit,
            proposal_bump,
        ) && v@ == seq![mv(Pot::Proposer, Pot::Vault, old(config).proposal_deposit)]),
        r is Ok ==> *final(config) == (Config {
            proposal_counter: (old(config).proposal_counter + 1) as u64,
            ..*old(config)
        }),
        r is Err ==> *final(config) == *old(config),
{
    if region_created {
        return Err(RegionsError::RegionAlreadyCreated);
    }
    if RegionIdentifier::from_code(region_id).is_none() {
        return Err(RegionsError::InvalidRegion);
    }
    let proposal_id = config.proposal_counter;
    let next_id = match proposal_id.checked_add(1) {
        Some(n) => n,
        None => return Err(RegionsError::Overflow),
    };
    let deposit = config.proposal_deposit;
    let proposal = RegionProposal {
        proposal_id,
        proposer,
        region_id,
        created_at: now,
        expiry: sat_add_i64(now, config.voting_period),
        deposit,
        yes_power: 0,
        no_power: 0,
        abstain_power: 0,
        bump: proposal_bump,
    };
    let state = RegionState {
        region_id,
        status: RegionStatus::Proposing,
        proposal_id,
        proposer,
        deposit,
        claim_deadline: 0,
        highest_bidder: None,
        collateral: 0,
        auction_expiry: 0,
        bump: state_bump,
    };
    config.proposal_counter = next_id;
    Ok((state, proposal, vec![make_move(Pot::Proposer, Pot::Vault, deposit)]))
}

/// Vote on an open region proposal, locking `amount` in the vault. Voting again
/// replaces the prior vote: its tally is taken back out and its lock refunded.
pub fn vote_on_region_proposal(
    config: &Config,
    proposal: &mut RegionProposal,
    record: &mut VoteRecord,
    voter: Key,
    region_id: u16,
    vote: Vote,
    amount: u64,
    now: i64,
    record_bump: u8,
) -> (r: Result<Vec<Effect>, RegionsError>)
    ensures
        amount < config.minimum_voting_amount ==> r == Err::<Vec<Effect>, RegionsError>(
            RegionsError::BelowMinimumVotingAmount,
        ),
        amount >= config.minimum_voting_amount && now >= old(proposal).expiry ==> r == Err::<
            Vec<Effect>,
            RegionsError,
        >(RegionsError::ProposalExpired),
        ({
            let w = region_withdrawn(*old(proposal), *old(record));
            amount >= config.minimum_voting_amount && now < old(proposal).expiry ==> if region_power(
                w,
                vote,
            ) + amount > u64::MAX {
                r == Err::<Vec<Effect>, RegionsError>(RegionsError::Overflow)
            } else {
                &&& r matches Ok(v) && v@ == revote_refund(*old(record)) + seq![
                    mv(Pot::Voter, Pot::Vault, amount),
                ]
                &&& *final(proposal) == region_with_power(
                    w,
                    vote,
                    (region_power(w, vote) + amount) as u64,
                )
                &&& *final(record) == (VoteRecord {
                    proposal_id: old(proposal).proposal_id,
                    voter,
                    region_id,
                    vote,
                    power: amount,
                    expiry: old(proposal).expiry,
                    bump: record_bump,
                })
            }
        }),
        r is Err ==> *final(proposal) == *old(proposal) && *final(record) == *old(record),
{
    if amount < config.minimum_voting_amount {
        return Err(RegionsError::BelowMinimumVotingAmount);
    }
    if now >= proposal.expiry {
        return Err(RegionsError::ProposalExpired);
    }
    let mut effects: Vec<Effect> = Vec::new();
    let mut tally = *proposal;
    if !record.voter.is_zero() {
        let old_power = record.power;
        sub_power(&mut tally, record.vote, old_power);
        if old_power > 0 {
            effects.push(make_move(Pot::Vault, Pot::Voter, old_power));
        }
    }
    if let Err(e) = add_power(&mut tally, vote, amount) {
        return Err(e);
    }
    effects.push(make_move(Pot::Voter, Pot::Vault, amount));
    *proposal = tally;
    *record = VoteRecord {
        proposal_id: proposal.proposal_id,
        voter,
        region_id,
        vote,
        power: amount,
        expiry: proposal.expiry,
        bump: record_bump,
    };
    Ok(effects)
}

/// A region proposal passes when its Yes share of the Yes and No votes reaches
/// the threshold and its turnout (abstentions included) is strictly above the
/// quorum. Abstentions count toward the quorum only, so a turnout of
/// abstentions alone passes once it clears the quorum.
pub open spec fn region_proposal_passes(p: RegionProposal, threshold_bps: u16, quorum: u64) -> bool {
    &&& approval_met(p.yes_power as int, p.no_power as int, threshold_bps as int)
    &&& p.yes_power + p.no_power + p.abstain_power > quorum
}

/// Finalize an expired proposal (permissionless). A pass opens the operator
/// auction at the minimum region deposit and returns the proposer's bond (to
/// their token account, which must be supplied), matched by a reward from the
/// treasury when its balance covers it. A rejection slashes the bond to the
/// treasury and marks the state rejected.
pub fn finalize_region_proposal(
    config: &Config,
    state: &mut RegionState,
    proposal: &RegionProposal,
    now: i64,
    has_proposer_token: bool,
    treasury_balance: u64,
) -> (r: Result<Vec<Effect>, RegionsError>)
    ensures
        old(state).status != RegionStatus::Proposing ==> r == Err::<Vec<Effect>, RegionsError>(
            RegionsError::NotProposing,
        ),
        old(state).status == RegionStatus::Proposing && now < proposal.expiry ==> r == Err::<
            Vec<Effect>,
            RegionsError,
        >(RegionsError::VotingStillOngoing),
        old(state).status == RegionStatus::Proposing && now >= proposal.expiry ==> ({
            if proposal.yes_power + proposal.no_power + proposal.abstain_power > u64::MAX {
                r == Err::<Vec<Effect>, RegionsError>(RegionsError::Overflow)
            } else if region_proposal_passes(*proposal, config.threshold_bps, config.quorum) {
                if !has_proposer_token {
                    r == Err::<Vec<Effect>, RegionsError>(RegionsError::MissingRecipientToken)
                } else if now + config.auction_period > i64::MAX || now + config.auction_period
                    < i64::MIN {
                    r == Err::<Vec<Effect>, RegionsError>(RegionsError::Overflow)
                } else {
                    &&& r matches Ok(v) && v@ == region_finalize_moves(
                        true,
                        old(state).deposit,
                        treasury_balance,
                    )
                    &&& *final(state) == auctioning_region_state(
                        *old(state),
                        config.minimum_region_deposit,
                        (now + config.auction_period) as i64,
                    )
                }
            } else {
                &&& r matches Ok(v) && v@ == region_finalize_moves(false, old(state).deposit, treasury_balance)
                &&& *final(state) == (RegionState { status: RegionStatus::Rejected, ..*old(state) })
            }
        }),
        r is Err ==> *final(state) == *old(state),
        r is Ok ==> (final(state).status == RegionStatus::Auctioning <==> (proposal.yes_power * 10_000 >= (
        proposal.yes_power + proposal.no_power) * config.threshold_bps && proposal.yes_power
            + proposal.no_power + proposal.abstain_power > config.quorum)),
        old(state).status == RegionStatus::Proposing && now >= proposal.expiry && proposal.yes_power
            + proposal.no_power + proposal.abstain_power <= u64::MAX && proposal.yes_power * 10_000 < (
        proposal.yes_power + proposal.no_power) * config.threshold_bps ==> {
            &&& r is Ok
            &&& final(state).status == RegionStatus::Rejected
            &&& net_into(r->Ok_0@, Pot::Treasury) == old(state).deposit
            &&& net_into(r->Ok_0@, Pot::Vault) == -old(state).deposit
            &&& net_into(r->Ok_0@, Pot::Proposer) == 0
        },
{
    if state.status != RegionStatus::Proposing {
        return Err(RegionsError::NotProposing);
    }
    if now < proposal.expiry {
        return Err(RegionsError::VotingStillOngoing);
    }
    let yes = proposal.yes_power;
    let no = proposal.no_power;
    let approval_base = match yes.checked_add(no) {
        Some(v) => v,
        None => return Err(RegionsError::Overflow),
    };
    let total = match approval_base.checked_add(proposal.abstain_power) {
        Some(v) => v,
        None => return Err(RegionsError::Overflow),
    };
    let meets_threshold = meets_approval(yes, no, config.threshold_bps);
    let meets_quorum = total > config.quorum;
    let deposit = state.deposit;
    if meets_threshold && meets_quorum {
        if !has_proposer_token {
            return Err(RegionsError::MissingRecipientToken);
        }
        let expiry = match now.checked_add(config.auction_period) {
            Some(t) => t,
            None => return Err(RegionsError::Overflow),
        };
        let mut effects: Vec<Effect> = vec![make_move(Pot::Vault, Pot::Proposer, deposit)];
        if deposit > 0 && treasury_balance >= deposit {
            effects.push(make_move(Pot::Treasury, Pot::Proposer, deposit));
            proof {
                assert(effects@ =~= seq![mv(Pot::Vault, Pot::Proposer, deposit)] + seq![
                    mv(Pot::Treasury, Pot::Proposer, deposit),
                ]);
            }
        } else {
            proof {
                assert(effects@ =~= seq![mv(Pot::Vault, Pot::Proposer, deposit)] + Seq::<Effect>::empty());
            }
        }
        state.status = RegionStatus::Auctioning;
        state.highest_bidder = None;
        state.collateral = config.minimum_region_deposit;
        state.auction_expiry = expiry;
        Ok(effects)
    } else {
        state.status = RegionStatus::Rejected;
        let effects = vec![make_move(Pot::Vault, Pot::Treasury, deposit)];
        proof {
            assert(effects@ == seq![mv(Pot::Vault, Pot::Treasury, deposit)]);
            lemma_net_into_one(mv(Pot::Vault, Pot::Treasury, deposit), Pot::Treasury);
            lemma_net_into_one(mv(Pot::Vault, Pot::Treasury, deposit), Pot::Vault);
            lemma_net_into_one(mv(Pot::Vault, Pot::Treasury, deposit), Pot::Proposer);
        }
        Ok(effects)
    }
}

/// Reclaim a voter's locked power once the voting window has ended.
pub fn unlock_voting_token(record: &VoteRecord, now: i64) -> (r: Result<Vec<Effect>, RegionsError>)
    ensures
        now < record.expiry ==> r == Err::<Vec<Effect>, RegionsError>(RegionsError::VotingStillOngoing),
        now >= record.expiry && record.power > 0 ==> (r matches Ok(v) && v@ == seq![
            mv(Pot::Vault, Pot::Voter, record.power),
        ]),
        now >= record.expiry && record.power == 0 ==> (r matches Ok(v) && v@ == Seq::<
            Effect,
        >::empty()),
{
    if now < record.expiry {
        return Err(RegionsError::VotingStillOngoing);
    }
    if record.power > 0 {
        Ok(vec![make_move(Pot::Vault, Pot::Voter, record.power)])
    } else {
        Ok(Vec::new())
    }
}

/// Whether a region state can be closed: a rejected proposal, or a passed one
/// whose claim window has closed.
pub open spec fn region_state_clearable(state: RegionState, now: i64) -> bool {
    state.status == RegionStatus::Rejected || (state.status == RegionStatus::Passed && now
        >= state.claim_deadline)
}

/// Close a region state that can no longer progress (permissionless). A stale
/// passed state still holds the proposer's bond, which is refunded.
pub fn clear_region_state(state: &RegionState, now: i64, has_proposer_token: bool) -> (r: Result<
    Vec<Effect>,
    RegionsError,
>)
    ensures
        !region_state_clearable(*state, now) ==> r == Err::<Vec<Effect>, RegionsError>(
            RegionsError::NotClearable,
        ),
        state.status == RegionStatus::Rejected ==> (r matches Ok(v) && v@ == Seq::<Effect>::empty()),
        state.status == RegionStatus::Passed && now >= state.claim_deadline ==> if has_proposer_token {
            r matches Ok(v) && v@ == seq![mv(Pot::Vault, Pot::Proposer, state.deposit)]
        } else {
            r == Err::<Vec<Effect>, RegionsError>(RegionsError::MissingRecipientToken)
        },
{
    let clearable = state.status == RegionStatus::Rejected || (state.status == RegionStatus::Passed
        && now >= state.claim_deadline);
    if !clearable {
        return Err(RegionsError::NotClearable);
    }
    if state.status == RegionStatus::Passed {
        if !has_proposer_token {
            return Err(RegionsError::MissingRecipientToken);
        }
        return Ok(vec![make_move(Pot::Vault, Pot::Proposer, state.deposit)]);
    }
    Ok(Vec::new())
}

} // verus!

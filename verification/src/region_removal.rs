//! Removing a region's operator: anyone may open a removal vote by locking a
//! dispute deposit; an upheld removal slashes the operator a strike's worth of
//! collateral and, at the strike ceiling, opens the seat.
use vstd::prelude::*;

use crate::effects::{mv, make_move, Effect, Pot};
use crate::errors::RegionsError;
use crate::governance::{approval_met, meets_approval, sat_add_i64, sat_add_i64_spec, sat_sub_u64_spec};
use crate::key::Key;
use crate::regions::{Config, Region, RemovalProposal, RemovalVoteRecord, Vote};

verus! {

/// The power tallied for one side of a removal proposal.
pub open spec fn removal_power(p: RemovalProposal, v: Vote) -> u64 {
    match v {
        Vote::Yes => p.yes_power,
        Vote::No => p.no_power,
        Vote::Abstain => p.abstain_power,
    }
}

/// `p` with one side's tally set to `x`.
pub open spec fn removal_with_power(p: RemovalProposal, v: Vote, x: u64) -> RemovalProposal {
    match v {
        Vote::Yes => RemovalProposal { yes_power: x, ..p },
        Vote::No => RemovalProposal { no_power: x, ..p },
        Vote::Abstain => RemovalProposal { abstain_power: x, ..p },
    }
}

/// `p` with a voter's earlier vote (if the record is set) taken back out.
pub open spec fn removal_withdrawn(p: RemovalProposal, rec: RemovalVoteRecord) -> RemovalProposal {
    if rec.voter == Key::zero_spec() {
        p
    } else {
        removal_with_power(p, rec.vote, sat_sub_u64_spec(removal_power(p, rec.vote), rec.power))
    }
}

/// The refund of an earlier removal vote's lock, if there is one to return.
pub open spec fn removal_revote_refund(rec: RemovalVoteRecord) -> Seq<Effect> {
    if rec.voter != Key::zero_spec() && rec.power > 0 {
        seq![mv(Pot::Vault, Pot::Voter, rec.power)]
    } else {
        seq![]
    }
}

fn add_power(p: &mut RemovalProposal, vote: Vote, amount: u64) -> (r: Result<(), RegionsError>)
    ensures
        removal_power(*old(p), vote) + amount > u64::MAX ==> r == Err::<(), RegionsError>(
            RegionsError::Overflow,
        ) && *final(p) == *old(p),
        removal_power(*old(p), vote) + amount <= u64::MAX ==> r is Ok && *final(p) == removal_with_power(
            *old(p),
            vote,
            (removal_power(*old(p), vote) + amount) as u64,
        ),
{
    match vote {
        Vote::Yes => match p.yes_power.checked_add(amount) {
            Some(v) => {
                p.yes_power = v;
                Ok(())
            },
            None => Err(RegionsError::Overflow),
        },
        Vote::No => match p.no_power.checked_add(amount) {
            Some(v) => {
                p.no_power = v;
                Ok(())
            },
            None => Err(RegionsError::Overflow),
        },
        Vote::Abstain => match p.abstain_power.checked_add(amount) {
            Some(v) => {
                p.abstain_power = v;
                Ok(())
            },
            None => Err(RegionsError::Overflow),
        },
    }
}

fn sub_power(p: &mut RemovalProposal, vote: Vote, amount: u64)
    ensures
        *final(p) == removal_with_power(
            *old(p),
            vote,
            sat_sub_u64_spec(removal_power(*old(p), vote), amount),
        ),
{
    match vote {
        Vote::Yes => p.yes_power = p.yes_power.saturating_sub(amount),
        Vote::No => p.no_power = p.no_power.saturating_sub(amount),
        Vote::Abstain => p.abstain_power = p.abstain_power.saturating_sub(amount),
    }
}

/// The removal proposal a new challenge opens.
pub open spec fn opened_removal_proposal(
    proposal_id: u64,
    region_id: u16,
    proposer: Key,
    now: i64,
    voting_period: i64,
    deposit: u64,
    bump: u8,
) -> RemovalProposal {
    RemovalProposal {
        proposal_id,
        region_id,
        proposer,
        created_at: now,
        expiry: sat_add_i64_spec(now, voting_period),
        deposit,
        yes_power: 0,
        no_power: 0,
        abstain_power: 0,
        bump,
    }
}

/// Propose removing a region's operator, locking the removal deposit.
pub fn propose_remove_operator(config: &mut Config, region_id: u16, proposer: Key, now: i64, bump: u8) -> (r: Result<
    (RemovalProposal, Vec<Effect>),
    RegionsError,
>)
    ensures
        old(config).proposal_counter == u64::MAX ==> r == Err::<(RemovalProposal, Vec<Effect>), RegionsError>(
            RegionsError::Overflow,
        ),
        old(config).proposal_counter < u64::MAX ==> (r matches Ok((p, v)) && p == opened_removal_proposal(
            old(config).proposal_counter,
            region_id,
            proposer,
            now,
            old(config).removal_voting_period,
            old(config).removal_deposit,
            bump,
        ) && v@ == seq![mv(Pot::Proposer, Pot::Vault, old(config).removal_deposit)]),
        r is Ok ==> *final(config) == (Config {
            proposal_counter: (old(config).proposal_counter + 1) as u64,
            ..*old(config)
        }),
        r is Err ==> *final(config) == *old(config),
{
    let proposal_id = config.proposal_counter;
    let next_id = match proposal_id.checked_add(1) {
        Some(n) => n,
        None => return Err(RegionsError::Overflow),
    };
    let deposit = config.removal_deposit;
    let proposal = RemovalProposal {
        proposal_id,
        region_id,
        proposer,
        created_at: now,
        expiry: sat_add_i64(now, config.removal_voting_period),
        deposit,
        yes_power: 0,
        no_power: 0,
        abstain_power: 0,
        bump,
    };
    config.proposal_counter = next_id;
    Ok((proposal, vec![make_move(Pot::Proposer, Pot::Vault, deposit)]))
}

/// Vote on an open removal proposal, locking `amount`; voting again replaces
/// the prior vote.
pub fn vote_on_removal(
    config: &Config,
    proposal: &mut RemovalProposal,
    record: &mut RemovalVoteRecord,
    voter: Key,
    region_id: u16,
    vote: Vote,
    amount: u64,
    now: i64,
    record_bump: u8,
) -> (r: Result<Vec<Effect>, RegionsError>)
    ensures
        amount < config.minimum_voting_amount ==> r == Err::<Vec<Effect>, RegionsError>(
            RegionsError::BelowMinimumVotingAmount,
        ),
        amount >= config.minimum_voting_amount && now >= old(proposal).expiry ==> r == Err::<
            Vec<Effect>,
            RegionsError,
        >(RegionsError::ProposalExpired),
        ({
            let w = removal_withdrawn(*old(proposal), *old(record));
            amount >= config.minimum_voting_amount && now < old(proposal).expiry ==> if removal_power(
                w,
                vote,
            ) + amount > u64::MAX {
                r == Err::<Vec<Effect>, RegionsError>(RegionsError::Overflow)
            } else {
                &&& r matches Ok(v) && v@ == removal_revote_refund(*old(record)) + seq![
                    mv(Pot::Voter, Pot::Vault, amount),
                ]
                &&& *final(proposal) == removal_with_power(
                    w,
                    vote,
                    (removal_power(w, vote) + amount) as u64,
                )
                &&& *final(record) == (RemovalVoteRecord {
                    proposal_id: old(proposal).proposal_id,
                    voter,
                    region_id,
                    vote,
                    power: amount,
                    expiry: old(proposal).expiry,
                    bump: record_bump,
                })
            }
        }),
        r is Err ==> *final(proposal) == *old(proposal) && *final(record) == *old(record),
{
    if amount < config.minimum_voting_amount {
        return Err(RegionsError::BelowMinimumVotingAmount);
    }
    if now >= proposal.expiry {
        return Err(RegionsError::ProposalExpired);
    }
    let mut effects: Vec<Effect> = Vec::new();
    let mut tally = *proposal;
    if !record.voter.is_zero() {
        let old_power = record.power;
        sub_power(&mut tally, record.vote, old_power);
        if old_power > 0 {
            effects.push(make_move(Pot::Vault, Pot::Voter, old_power));
        }
    }
    if let Err(e) = add_power(&mut tally, vote, amount) {
        return Err(e);
    }
    effects.push(make_move(Pot::Voter, Pot::Vault, amount));
    *proposal = tally;
    *record = RemovalVoteRecord {
        proposal_id: proposal.proposal_id,
        voter,
        region_id,
        vote,
        power: amount,
        expiry: proposal.expiry,
        bump: record_bump,
    };
    Ok(effects)
}

/// A removal passes with a non-empty turnout whose Yes share reaches the
/// threshold, and a turnout strictly above the quorum.
pub open spec fn removal_passes(p: RemovalProposal, threshold_bps: u16, quorum: u64) -> bool {
    &&& p.yes_power + p.no_power + p.abstain_power != 0
    &&& approval_met(p.yes_power as int, p.no_power as int, threshold_bps as int)
    &&& p.yes_power + p.no_power + p.abstain_power > quorum
}

/// The slash an upheld removal takes: the configured amount, capped at the
/// operator's collateral.
pub open spec fn removal_slash(slash_amount: u64, collateral: u64) -> u64 {
    if slash_amount <= collateral {
        slash_amount
    } else {
        collateral
    }
}

/// The region after an upheld removal: collateral slashed, one more strike, and
/// the seat opened at once when the strikes reach the ceiling.
pub open spec fn region_after_upheld_removal(config: Config, region: Region, now: i64) -> Region {
    let slash = removal_slash(config.slash_amount, region.collateral);
    let strikes: u8 = if region.active_strikes < u8::MAX {
        (region.active_strikes + 1) as u8
    } else {
        u8::MAX
    };
    Region {
        collateral: (region.collateral - slash) as u64,
        active_strikes: strikes,
        next_owner_change: if strikes >= config.allowed_strikes {
            now
        } else {
            region.next_owner_change
        },
        ..region
    }
}

/// Finalize an expired removal proposal (permissionless). Upheld: the operator
/// is slashed to the treasury, gains a strike, and the proposer's deposit is
/// returned. Otherwise the proposer's deposit is slashed to the treasury.
pub fn finalize_removal(
    config: &Config,
    region: &mut Region,
    proposal: &RemovalProposal,
    now: i64,
    has_proposer_token: bool,
) -> (r: Result<Vec<Effect>, RegionsError>)
    ensures
        now < proposal.expiry ==> r == Err::<Vec<Effect>, RegionsError>(RegionsError::VotingStillOngoing),
        now >= proposal.expiry ==> if proposal.yes_power + proposal.no_power + proposal.abstain_power
            > u64::MAX {
            r == Err::<Vec<Effect>, RegionsError>(RegionsError::Overflow)
        } else if removal_passes(*proposal, config.threshold_bps, config.quorum) {
            if !has_proposer_token {
                r == Err::<Vec<Effect>, RegionsError>(RegionsError::MissingRecipientToken)
            } else {
                let slash = removal_slash(config.slash_amount, old(region).collateral);
                &&& r matches Ok(v) && v@ == (if slash > 0 {
                    seq![mv(Pot::Vault, Pot::Treasury, slash)]
                } else {
                    Seq::<Effect>::empty()
                }) + seq![mv(Pot::Vault, Pot::Proposer, proposal.deposit)]
                &&& *final(region) == region_after_upheld_removal(*config, *old(region), now)
            }
        } else {
            &&& r matches Ok(v) && v@ == seq![mv(Pot::Vault, Pot::Treasury, proposal.deposit)]
            &&& *final(region) == *old(region)
        },
        r is Err ==> *final(region) == *old(region),
{
    if now < proposal.expiry {
        return Err(RegionsError::VotingStillOngoing);
    }
    let yes = proposal.yes_power;
    let no = proposal.no_power;
    let approval_base = match yes.checked_add(no) {
        Some(v) => v,
        None => return Err(RegionsError::Overflow),
    };
    let total = match approval_base.checked_add(proposal.abstain_power) {
        Some(v) => v,
        None => return Err(RegionsError::Overflow),
    };
    let meets_threshold = total != 0 && meets_approval(yes, no, config.threshold_bps);
    let meets_quorum = total > config.quorum;
    if meets_threshold && meets_quorum {
        if !has_proposer_token {
            return Err(RegionsError::MissingRecipientToken);
        }
        let slash: u64 = if config.slash_amount <= region.collateral {
            config.slash_amount
        } else {
            region.collateral
        };
        let mut effects: Vec<Effect> = Vec::new();
        if slash > 0 {
            effects.push(make_move(Pot::Vault, Pot::Treasury, slash));
        }
        effects.push(make_move(Pot::Vault, Pot::Proposer, proposal.deposit));
        region.collateral = region.collateral - slash;
        region.active_strikes = region.active_strikes.saturating_add(1);
        if region.active_strikes >= config.allowed_strikes {
            region.next_owner_change = now;
        }
        proof {
            if slash > 0 {
                assert(effects@ =~= seq![mv(Pot::Vault, Pot::Treasury, slash)] + seq![
                    mv(Pot::Vault, Pot::Proposer, proposal.deposit),
                ]);
            } else {
                assert(effects@ =~= Seq::<Effect>::empty() + seq![
                    mv(Pot::Vault, Pot::Proposer, proposal.deposit),
                ]);
            }
        }
        Ok(effects)
    } else {
        Ok(vec![make_move(Pot::Vault, Pot::Treasury, proposal.deposit)])
    }
}

/// Reclaim a voter's locked power on a removal proposal once its window ended.
pub fn unlock_removal_vote(record: &RemovalVoteRecord, now: i64) -> (r: Result<Vec<Effect>, RegionsError>)
    ensures
        now < record.expiry ==> r == Err::<Vec<Effect>, RegionsError>(RegionsError::VotingStillOngoing),
        now >= record.expiry && record.power > 0 ==> (r matches Ok(v) && v@ == seq![
            mv(Pot::Vault, Pot::Voter, record.power),
        ]),
        now >= record.expiry && record.power == 0 ==> (r matches Ok(v) && v@ == Seq::<
            Effect,
        >::empty()),
{
    if now < record.expiry {
        return Err(RegionsError::VotingStillOngoing);
    }
    if record.power > 0 {
        Ok(vec![make_move(Pot::Vault, Pot::Voter, record.power)])
    } else {
        Ok(Vec::new())
    }
}

} // verus!

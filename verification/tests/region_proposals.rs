use xcavate_education::effects::{Effect, Pot};
use xcavate_education::errors::RegionsError;
use xcavate_education::key::Key;
use xcavate_education::region_proposals::{
    clear_region_state, finalize_region_proposal, propose_new_region, unlock_voting_token,
    vote_on_region_proposal,
};
use xcavate_education::regions::{Config, RegionProposal, RegionState, RegionStatus, Vote, VoteRecord};

const DEPOSIT: u64 = 1_000_000_000;
const NOW: i64 = 1_700_000_000;

fn key(n: u64) -> Key {
    Key { w0: n, w1: 0, w2: 0, w3: 0 }
}

fn config() -> Config {
    Config {
        authority: key(1),
        xcav_mint: key(7),
        treasury: key(2),
        proposal_deposit: DEPOSIT,
        minimum_voting_amount: 100_000_000,
        minimum_region_deposit: 500_000_000,
        voting_period: 1_000,
        auction_period: 1_000,
        owner_change_period: 10_000,
        threshold_bps: 5_000,
        quorum: 100_000_000,
        removal_deposit: DEPOSIT,
        removal_voting_period: 1_000,
        slash_amount: 100_000_000,
        notice_period: 5_000,
        allowed_strikes: 3,
        proposal_counter: 0,
        bump: 255,
    }
}

/// Net amount the effects move into `pot`.
fn net(effects: &[Effect], pot: Pot) -> i128 {
    let mut total: i128 = 0;
    for e in effects {
        if let Effect::Move { from, to, amount } = e {
            if *to == pot && *from != pot {
                total += *amount as i128;
            } else if *from == pot && *to != pot {
                total -= *amount as i128;
            }
        }
    }
    total
}

fn no_vote() -> VoteRecord {
    VoteRecord { proposal_id: 0, voter: Key::zero(), region_id: 0, vote: Vote::Yes, power: 0, expiry: 0, bump: 0 }
}

struct Proposed {
    cfg: Config,
    state: RegionState,
    proposal: RegionProposal,
    vault: i128,
    proposer_balance: i128,
}

fn propose(cfg: Config, proposer: Key) -> Proposed {
    let mut cfg = cfg;
    let (state, proposal, effects) = propose_new_region(&mut cfg, 1, proposer, false, NOW, 3, 4).unwrap();
    Proposed {
        cfg,
        state,
        proposal,
        vault: net(&effects, Pot::Vault),
        proposer_balance: net(&effects, Pot::Proposer),
    }
}

fn vote(p: &mut Proposed, record: &mut VoteRecord, voter: Key, v: Vote, amount: u64) -> Vec<Effect> {
    let effects = vote_on_region_proposal(&p.cfg, &mut p.proposal, record, voter, 1, v, amount, NOW + 10, 9).unwrap();
    p.vault += net(&effects, Pot::Vault);
    effects
}

fn run_propose_new_region_works() {
    let op = key(10);
    let id = config().proposal_counter;
    let p = propose(config(), op);
    assert_eq!(p.proposal.proposer, op);
    assert_eq!(p.proposal.region_id, 1);
    assert_eq!(p.proposal.deposit, DEPOSIT);
    assert_eq!(p.proposal.yes_power, 0);
    // Deposit moved from proposer into the vault.
    assert_eq!(-p.proposer_balance, DEPOSIT as i128);
    assert_eq!(p.vault, DEPOSIT as i128);
    // Counter advanced.
    assert_eq!(p.cfg.proposal_counter, id + 1);
    assert_eq!(p.state.status, RegionStatus::Proposing);
    assert_eq!(p.proposal.expiry, NOW + 1_000);
}

#[test]
fn proposal_propose_new_region_works() {
    run_propose_new_region_works();
}

#[test]
fn propose_propose_new_region_works() {
    run_propose_new_region_works();
}

fn run_propose_fails_for_unknown_region() {
    let mut cfg = config();
    let r = propose_new_region(&mut cfg, 99, key(10), false, NOW, 3, 4);
    assert_eq!(r.unwrap_err(), RegionsError::InvalidRegion);
    assert_eq!(cfg, config());
}

#[test]
fn proposal_propose_fails_for_unknown_region() {
    run_propose_fails_for_unknown_region();
}

#[test]
fn propose_propose_fails_for_unknown_region() {
    run_propose_fails_for_unknown_region();
}

#[test]
fn propose_fails_for_created_region() {
    let mut cfg = config();
    let r = propose_new_region(&mut cfg, 1, key(10), true, NOW, 3, 4);
    assert_eq!(r.unwrap_err(), RegionsError::RegionAlreadyCreated);
}

#[test]
fn propose_fails_when_counter_exhausted() {
    let mut cfg = config();
    cfg.proposal_counter = u64::MAX;
    let r = propose_new_region(&mut cfg, 1, key(10), false, NOW, 3, 4);
    assert_eq!(r.unwrap_err(), RegionsError::Overflow);
    assert_eq!(cfg.proposal_counter, u64::MAX);
}

fn run_vote_records_power() {
    let mut p = propose(config(), key(10));
    let voter = key(20);
    let mut rec = no_vote();
    let effects = vote(&mut p, &mut rec, voter, Vote::Yes, 200_000_000);
    assert_eq!(p.proposal.yes_power, 200_000_000);
    assert_eq!(rec.power, 200_000_000);
    assert_eq!(rec.vote, Vote::Yes);
    // Power moved from voter into the vault (on top of the proposal deposit).
    assert_eq!(-net(&effects, Pot::Voter), 200_000_000);
    assert_eq!(p.vault, (DEPOSIT + 200_000_000) as i128);
}

#[test]
fn proposal_vote_records_power() {
    run_vote_records_power();
}

#[test]
fn propose_vote_records_power() {
    run_vote_records_power();
}

fn run_vote_below_minimum_fails() {
    let mut p = propose(config(), key(10));
    let mut rec = no_vote();
    let r = vote_on_region_proposal(&p.cfg, &mut p.proposal, &mut rec, key(20), 1, Vote::Yes, 1, NOW + 10, 9);
    assert_eq!(r.unwrap_err(), RegionsError::BelowMinimumVotingAmount);
    assert_eq!(p.proposal.yes_power, 0);
}

#[test]
fn proposal_vote_below_minimum_fails() {
    run_vote_below_minimum_fails();
}

#[test]
fn propose_vote_below_minimum_fails() {
    run_vote_below_minimum_fails();
}

fn run_revote_replaces_previous_vote() {
    let mut p = propose(config(), key(10));
    let voter = key(20);
    let mut rec = no_vote();
    let first = vote(&mut p, &mut rec, voter, Vote::Yes, 200_000_000);
    // Change vote to No with a different amount.
    let second = vote(&mut p, &mut rec, voter, Vote::No, 300_000_000);
    assert_eq!(p.proposal.yes_power, 0);
    assert_eq!(p.proposal.no_power, 300_000_000);
    assert_eq!(rec.vote, Vote::No);
    assert_eq!(rec.power, 300_000_000);
    // Net XCAV locked equals only the new vote; the old lock was refunded.
    assert_eq!(-(net(&first, Pot::Voter) + net(&second, Pot::Voter)), 300_000_000);
    assert_eq!(p.vault, (DEPOSIT + 300_000_000) as i128);
}

#[test]
fn proposal_revote_replaces_previous_vote() {
    run_revote_replaces_previous_vote();
}

#[test]
fn propose_revote_replaces_previous_vote() {
    run_revote_replaces_previous_vote();
}

#[test]
fn vote_after_expiry_fails() {
    let mut p = propose(config(), key(10));
    let mut rec = no_vote();
    let r = vote_on_region_proposal(&p.cfg, &mut p.proposal, &mut rec, key(20), 1, Vote::Yes, 200_000_000, NOW + 2_000, 9);
    assert_eq!(r.unwrap_err(), RegionsError::ProposalExpired);
}

fn run_finalize_fails_while_voting_ongoing() {
    let mut p = propose(config(), key(10));
    let r = finalize_region_proposal(&p.cfg, &mut p.state, &p.proposal, NOW + 10, true, 0);
    assert_eq!(r.unwrap_err(), RegionsError::VotingStillOngoing);
    assert_eq!(p.state.status, RegionStatus::Proposing);
}

#[test]
fn proposal_finalize_fails_while_voting_ongoing() {
    run_finalize_fails_while_voting_ongoing();
}

#[test]
fn propose_finalize_fails_while_voting_ongoing() {
    run_finalize_fails_while_voting_ongoing();
}

/// Finalizes `p` once voting is over, with the proposer's account supplied and
/// the treasury holding `treasury`; returns the moves.
fn finalize(p: &mut Proposed, treasury: u64) -> Vec<Effect> {
    let effects = finalize_region_proposal(&p.cfg, &mut p.state, &p.proposal, NOW + 2_000, true, treasury).unwrap();
    p.vault += net(&effects, Pot::Vault);
    effects
}

fn run_finalize_passes_and_starts_auction() {
    let mut p = propose(config(), key(10));
    let mut rec = no_vote();
    vote(&mut p, &mut rec, key(20), Vote::Yes, 200_000_000);
    let effects = finalize(&mut p, 0);
    assert_eq!(p.state.status, RegionStatus::Auctioning);
    assert_eq!(p.state.collateral, 500_000_000); // minimum_region_deposit
    assert_eq!(p.state.highest_bidder, None);
    assert_eq!(p.state.auction_expiry, NOW + 2_000 + 1_000);
    // Deposit returned to the proposer; only the voter's lock remains in the vault.
    assert_eq!(net(&effects, Pot::Proposer), DEPOSIT as i128);
    assert_eq!(p.vault, 200_000_000);
}

#[test]
fn proposal_finalize_passes_and_starts_auction() {
    run_finalize_passes_and_starts_auction();
}

#[test]
fn propose_finalize_passes_and_starts_auction() {
    run_finalize_passes_and_starts_auction();
}

fn run_finalize_rejects_and_slashes_deposit() {
    let mut p = propose(config(), key(10));
    // No votes -> quorum not met -> rejected.
    let effects = finalize(&mut p, 0);
    assert_eq!(p.state.status, RegionStatus::Rejected);
    // Deposit slashed from the vault to the treasury.
    assert_eq!(net(&effects, Pot::Treasury), DEPOSIT as i128);
    assert_eq!(p.vault, 0);
}

#[test]
fn proposal_finalize_rejects_and_slashes_deposit() {
    run_finalize_rejects_and_slashes_deposit();
}

#[test]
fn propose_finalize_rejects_and_slashes_deposit() {
    run_finalize_rejects_and_slashes_deposit();
}

#[test]
fn finalize_exact_threshold_passes() {
    // yes == no is exactly the 50% threshold (yes*2 >= yes+no holds at equality).
    let mut p = propose(config(), key(10));
    let mut yes = no_vote();
    let mut no = no_vote();
    vote(&mut p, &mut yes, key(20), Vote::Yes, 100_000_000);
    vote(&mut p, &mut no, key(21), Vote::No, 100_000_000);
    finalize(&mut p, 0);
    assert_eq!(p.state.status, RegionStatus::Auctioning);
}

#[test]
fn finalize_all_abstain_passes_if_quorum() {
    // Abstain counts toward quorum but not the approval base, so an all-abstain
    // proposal that clears quorum passes.
    let mut p = propose(config(), key(10));
    let mut rec = no_vote();
    vote(&mut p, &mut rec, key(20), Vote::Abstain, 200_000_000);
    finalize(&mut p, 0);
    assert_eq!(p.state.status, RegionStatus::Auctioning);
}

#[test]
fn finalize_exact_quorum_rejects() {
    // The quorum is strict: a turnout exactly at the quorum is not enough.
    let mut cfg = config();
    cfg.quorum = 200_000_000;
    let mut p = propose(cfg, key(10));
    let mut rec = no_vote();
    vote(&mut p, &mut rec, key(20), Vote::Yes, 200_000_000);
    finalize(&mut p, 0);
    assert_eq!(p.state.status, RegionStatus::Rejected);
}

#[test]
fn finalize_below_threshold_rejects() {
    let mut p = propose(config(), key(10));
    // yes < no fails the threshold even though quorum is met.
    let mut yes = no_vote();
    let mut no = no_vote();
    vote(&mut p, &mut yes, key(20), Vote::Yes, 100_000_000);
    vote(&mut p, &mut no, key(21), Vote::No, 200_000_000);
    finalize(&mut p, 0);
    assert_eq!(p.state.status, RegionStatus::Rejected);
}

#[test]
fn finalize_below_quorum_rejects() {
    // Raise the quorum above a single vote so a lone yes cannot reach it.
    let mut cfg = config();
    cfg.quorum = 300_000_000;
    let mut p = propose(cfg, key(10));
    // Unanimous yes, but total 200M is below the 300M quorum.
    let mut rec = no_vote();
    vote(&mut p, &mut rec, key(20), Vote::Yes, 200_000_000);
    finalize(&mut p, 0);
    assert_eq!(p.state.status, RegionStatus::Rejected);
}

#[test]
fn finalize_reject_without_proposer_token_works() {
    let mut p = propose(config(), key(10));
    // Rejection slashes to the treasury, so the crank settles even with no
    // proposer token account at all.
    let effects = finalize_region_proposal(&p.cfg, &mut p.state, &p.proposal, NOW + 2_000, false, 0).unwrap();
    assert_eq!(p.state.status, RegionStatus::Rejected);
    assert_eq!(net(&effects, Pot::Treasury), DEPOSIT as i128);
}

#[test]
fn finalize_pass_requires_proposer_token() {
    let mut p = propose(config(), key(10));
    let mut rec = no_vote();
    vote(&mut p, &mut rec, key(20), Vote::Yes, 200_000_000);
    // A passing proposal pays the deposit back, so the account is mandatory.
    let r = finalize_region_proposal(&p.cfg, &mut p.state, &p.proposal, NOW + 2_000, false, 0);
    assert_eq!(r.unwrap_err(), RegionsError::MissingRecipientToken);
    assert_eq!(p.state.status, RegionStatus::Proposing);
}

#[test]
fn finalize_pass_pays_treasury_reward() {
    // A funded treasury matches the returned deposit with a reward.
    let treasury = 2 * DEPOSIT;
    let mut p = propose(config(), key(10));
    let mut rec = no_vote();
    vote(&mut p, &mut rec, key(20), Vote::Yes, 200_000_000);
    let effects = finalize(&mut p, treasury);
    // Deposit back plus the deposit-matching reward.
    assert_eq!(net(&effects, Pot::Proposer), 2 * DEPOSIT as i128);
    assert_eq!(treasury as i128 + net(&effects, Pot::Treasury), DEPOSIT as i128);
}

#[test]
fn finalize_pass_skips_reward_when_treasury_poor() {
    // Below the deposit, so no reward is paid and nothing is taken.
    let treasury = DEPOSIT - 1;
    let mut p = propose(config(), key(10));
    let mut rec = no_vote();
    vote(&mut p, &mut rec, key(20), Vote::Yes, 200_000_000);
    let effects = finalize(&mut p, treasury);
    assert_eq!(p.state.status, RegionStatus::Auctioning);
    assert_eq!(net(&effects, Pot::Proposer), DEPOSIT as i128);
    assert_eq!(treasury as i128 + net(&effects, Pot::Treasury), (DEPOSIT - 1) as i128);
}

#[test]
fn finalize_twice_fails() {
    let mut p = propose(config(), key(10));
    finalize(&mut p, 0);
    let r = finalize_region_proposal(&p.cfg, &mut p.state, &p.proposal, NOW + 2_000, true, 0);
    assert_eq!(r.unwrap_err(), RegionsError::NotProposing);
}

fn run_unlock_voting_token_works() {
    let mut p = propose(config(), key(10));
    let mut rec = no_vote();
    vote(&mut p, &mut rec, key(20), Vote::Yes, 200_000_000);
    let effects = unlock_voting_token(&rec, NOW + 2_000).unwrap();
    // The locked power is returned as XCAV.
    assert_eq!(net(&effects, Pot::Voter), 200_000_000);
    // Only the proposal deposit is left in the vault.
    assert_eq!(p.vault + net(&effects, Pot::Vault), DEPOSIT as i128);
}

#[test]
fn proposal_unlock_voting_token_works() {
    run_unlock_voting_token_works();
}

#[test]
fn propose_unlock_voting_token_works() {
    run_unlock_voting_token_works();
}

#[test]
fn unlock_fails_while_voting_ongoing() {
    let mut p = propose(config(), key(10));
    let mut rec = no_vote();
    vote(&mut p, &mut rec, key(20), Vote::Yes, 200_000_000);
    // Window is still open, so the lock can't be reclaimed yet.
    assert_eq!(unlock_voting_token(&rec, NOW + 10).unwrap_err(), RegionsError::VotingStillOngoing);
}

fn run_clear_region_state_after_reject() {
    let mut p = propose(config(), key(10));
    // No votes -> rejected on finalize.
    finalize(&mut p, 0);
    assert_eq!(p.state.status, RegionStatus::Rejected);
    let effects = clear_region_state(&p.state, NOW + 2_000, false).unwrap();
    assert!(effects.is_empty());
}

#[test]
fn proposal_clear_region_state_after_reject() {
    run_clear_region_state_after_reject();
}

#[test]
fn propose_clear_region_state_after_reject() {
    run_clear_region_state_after_reject();
}

#[test]
fn clear_fails_while_proposing() {
    let p = propose(config(), key(10));
    assert_eq!(clear_region_state(&p.state, NOW + 2_000, true).unwrap_err(), RegionsError::NotClearable);
}

#[test]
fn stale_passed_region_clears_and_refunds_bond() {
    // A passed state that the proposer never claimed: past the claim deadline
    // anyone can clear it and the bond is refunded.
    let p = propose(config(), key(10));
    let mut state = p.state;
    state.status = RegionStatus::Passed;
    state.claim_deadline = NOW + 10_000;
    assert_eq!(clear_region_state(&state, NOW + 5_000, true).unwrap_err(), RegionsError::NotClearable);
    let effects = clear_region_state(&state, NOW + 11_000, true).unwrap();
    assert_eq!(net(&effects, Pot::Proposer), DEPOSIT as i128);
    assert_eq!(clear_region_state(&state, NOW + 11_000, false).unwrap_err(), RegionsError::MissingRecipientToken);
}

use xcavate_education::effects::{Effect, Pot, TokenAccountInfo};
use xcavate_education::errors::RegionsError;
use xcavate_education::key::Key;
use xcavate_education::region_seats::{
    bid_on_region, bid_on_replacement, claim_open_region, create_new_region, create_region,
    finalize_replacement, initiate_resignation,
};
use xcavate_education::regions::{Config, Region, RegionState, RegionStatus, ReplacementAuction};

const DEPOSIT: u64 = 1_000_000_000;
const NOW: i64 = 1_700_000_000;
const XCAV: Key = Key { w0: 7, w1: 0, w2: 0, w3: 0 };

fn key(n: u64) -> Key {
    Key { w0: n, w1: 0, w2: 0, w3: 0 }
}

fn config() -> Config {
    Config {
        authority: key(1),
        xcav_mint: XCAV,
        treasury: key(2),
        proposal_deposit: DEPOSIT,
        minimum_voting_amount: 100_000_000,
        minimum_region_deposit: 500_000_000,
        voting_period: 1_000,
        auction_period: 1_000,
        owner_change_period: 10_000,
        threshold_bps: 5_000,
        quorum: 100_000_000,
        removal_deposit: DEPOSIT,
        removal_voting_period: 1_000,
        slash_amount: 100_000_000,
        notice_period: 5_000,
        allowed_strikes: 3,
        proposal_counter: 0,
        bump: 255,
    }
}

fn net(effects: &[Effect], pot: Pot) -> i128 {
    let mut total: i128 = 0;
    for e in effects {
        if let Effect::Move { from, to, amount } = e {
            if *to == pot && *from != pot {
                total += *amount as i128;
            } else if *from == pot && *to != pot {
                total -= *amount as i128;
            }
        }
    }
    total
}

fn xcav_account(owner: Key) -> Option<TokenAccountInfo> {
    Some(TokenAccountInfo { owner, mint: XCAV })
}

/// A region state whose proposal passed, claimable until `NOW + 10_000`.
fn passed(proposer: Key) -> RegionState {
    RegionState {
        region_id: 1,
        status: RegionStatus::Passed,
        proposal_id: 0,
        proposer,
        deposit: DEPOSIT,
        claim_deadline: NOW + 10_000,
        highest_bidder: None,
        collateral: 0,
        auction_expiry: 0,
        bump: 1,
    }
}

/// A region state in its operator auction, opening at the minimum deposit.
fn auctioning() -> RegionState {
    RegionState {
        region_id: 1,
        status: RegionStatus::Auctioning,
        proposal_id: 0,
        proposer: key(10),
        deposit: DEPOSIT,
        claim_deadline: 0,
        highest_bidder: None,
        collateral: 500_000_000,
        auction_expiry: NOW + 1_000,
        bump: 1,
    }
}

/// A created region owned by `owner`, whose seat is still locked.
fn created(owner: Key, collateral: u64) -> Region {
    Region { region_id: 1, owner, collateral, active_strikes: 0, next_owner_change: NOW + 10_000, bump: 2 }
}

/// A created region whose seat opened through its operator's resignation.
fn seat_open(owner: Key, collateral: u64) -> (Region, i64) {
    let mut region = created(owner, collateral);
    initiate_resignation(&config(), &mut region, owner, NOW).unwrap();
    (region, NOW + 6_000)
}

fn no_auction() -> ReplacementAuction {
    ReplacementAuction { region_id: 0, highest_bidder: None, collateral: 0, auction_expiry: 0, bump: 0 }
}

// ---------------------------------------------------------------- create

#[test]
fn create_region_makes_proposer_the_operator() {
    let op = key(10);
    let state = passed(op);
    let region = create_region(&config(), &state, op, 1, NOW + 100, 5).unwrap();
    assert_eq!(region.owner, op);
    // The bond locked when proposing (DEPOSIT) is now the region's collateral.
    assert_eq!(region.collateral, DEPOSIT);
    assert_eq!(region.active_strikes, 0);
    assert_eq!(region.next_owner_change, NOW + 100 + 10_000);
}

#[test]
fn create_region_only_by_proposer() {
    let state = passed(key(10));
    assert_eq!(create_region(&config(), &state, key(11), 1, NOW + 100, 5).unwrap_err(), RegionsError::NotProposer);
}

#[test]
fn create_region_requires_passed() {
    let mut state = passed(key(10));
    state.status = RegionStatus::Proposing;
    assert_eq!(create_region(&config(), &state, key(10), 1, NOW + 100, 5).unwrap_err(), RegionsError::RegionNotPassed);
}

#[test]
fn create_region_after_claim_deadline_fails() {
    let state = passed(key(10));
    assert_eq!(
        create_region(&config(), &state, key(10), 1, NOW + 10_000, 5).unwrap_err(),
        RegionsError::ClaimWindowClosed
    );
}

// ---------------------------------------------------------------- open seats

#[test]
fn claim_open_region_changes_operator_and_refunds_old() {
    let old = key(10);
    let (mut region, now) = seat_open(old, DEPOSIT);
    let newop = key(11);
    // Supply chosen so the 0.1% operator bond equals DEPOSIT.
    let effects = claim_open_region(&config(), &mut region, newop, DEPOSIT * 1_000, true, now).unwrap();
    assert_eq!(region.owner, newop);
    assert_eq!(region.collateral, DEPOSIT);
    assert_eq!(region.active_strikes, 0);
    // Outgoing operator got their collateral back; the new one bonded DEPOSIT.
    assert_eq!(net(&effects, Pot::OldOwner), DEPOSIT as i128);
    assert_eq!(-net(&effects, Pot::NewOperator), DEPOSIT as i128);
    assert_eq!(region.next_owner_change, now + 10_000);
}

#[test]
fn claim_open_region_fails_before_seat_open() {
    let mut region = created(key(10), DEPOSIT);
    let r = claim_open_region(&config(), &mut region, key(11), DEPOSIT * 1_000, true, NOW + 100);
    assert_eq!(r.unwrap_err(), RegionsError::RegionOwnerCantBeChanged);
    assert_eq!(region, created(key(10), DEPOSIT));
}

#[test]
fn claim_open_region_needs_outgoing_account() {
    let (mut region, now) = seat_open(key(10), DEPOSIT);
    let r = claim_open_region(&config(), &mut region, key(11), DEPOSIT * 1_000, false, now);
    assert_eq!(r.unwrap_err(), RegionsError::MissingRecipientToken);
}

#[test]
fn claim_open_region_bond_too_small() {
    let (mut region, now) = seat_open(key(10), DEPOSIT);
    let r = claim_open_region(&config(), &mut region, key(11), 999, true, now);
    assert_eq!(r.unwrap_err(), RegionsError::BondTooSmall);
}

#[test]
fn renewal_moves_only_the_bond_difference() {
    let op = key(10);
    let (mut region, now) = seat_open(op, DEPOSIT);
    // The supply grew, so the bond rises by 200M; only that is topped up.
    let effects = claim_open_region(&config(), &mut region, op, 1_200 * 1_000_000_000, false, now).unwrap();
    assert_eq!(effects, vec![Effect::Move { from: Pot::NewOperator, to: Pot::Vault, amount: 200_000_000 }]);
    assert_eq!(region.collateral, 1_200_000_000);
    // At an unchanged bond nothing moves.
    let (mut same, now) = seat_open(op, DEPOSIT);
    assert!(claim_open_region(&config(), &mut same, op, DEPOSIT * 1_000, false, now).unwrap().is_empty());
}

// ---------------------------------------------------------------- resignation

fn run_resignation_requires_owner() {
    let mut region = created(key(10), DEPOSIT);
    assert_eq!(initiate_resignation(&config(), &mut region, key(11), NOW).unwrap_err(), RegionsError::NotRegionOwner);
}

#[test]
fn create_resignation_requires_owner() {
    run_resignation_requires_owner();
}

#[test]
fn replacement_resignation_requires_owner() {
    run_resignation_requires_owner();
}

fn run_resign_fails_when_change_already_scheduled() {
    let op = key(10);
    let mut region = created(op, DEPOSIT);
    initiate_resignation(&config(), &mut region, op, NOW).unwrap();
    assert_eq!(region.next_owner_change, NOW + 5_000);
    // A second resignation can't push the change back out.
    assert_eq!(
        initiate_resignation(&config(), &mut region, op, NOW).unwrap_err(),
        RegionsError::OwnerChangeAlreadyScheduled
    );
}

#[test]
fn create_resign_fails_when_change_already_scheduled() {
    run_resign_fails_when_change_already_scheduled();
}

#[test]
fn replacement_resign_fails_when_change_already_scheduled() {
    run_resign_fails_when_change_already_scheduled();
}

// ---------------------------------------------------------------- region auction

fn run_bid_places_and_outbid_refunds() {
    let cfg = config();
    let mut state = auctioning();
    let op = key(10);
    let first = bid_on_region(&cfg, &mut state, op, true, 600_000_000, NOW + 10, None).unwrap();
    assert_eq!(state.highest_bidder, Some(op));
    assert_eq!(state.collateral, 600_000_000);
    assert_eq!(net(&first, Pot::Vault), 600_000_000);

    let op2 = key(11);
    let second = bid_on_region(&cfg, &mut state, op2, true, 700_000_000, NOW + 20, xcav_account(op)).unwrap();
    assert_eq!(state.highest_bidder, Some(op2));
    assert_eq!(state.collateral, 700_000_000);
    // Operator was refunded their exact outbid collateral.
    assert_eq!(net(&second, Pot::PreviousBidder), 600_000_000);
    // Vault now holds the new top bid.
    assert_eq!(net(&first, Pot::Vault) + net(&second, Pot::Vault), 700_000_000);
}

#[test]
fn auction_bid_places_and_outbid_refunds() {
    run_bid_places_and_outbid_refunds();
}

#[test]
fn propose_bid_places_and_outbid_refunds() {
    run_bid_places_and_outbid_refunds();
}

fn run_bid_fails_before_auction() {
    let mut state = auctioning();
    state.status = RegionStatus::Proposing;
    let r = bid_on_region(&config(), &mut state, key(10), true, 600_000_000, NOW + 10, None);
    assert_eq!(r.unwrap_err(), RegionsError::NotAuctioning);
}

#[test]
fn auction_bid_fails_before_auction() {
    run_bid_fails_before_auction();
}

#[test]
fn propose_bid_fails_before_auction() {
    run_bid_fails_before_auction();
}

#[test]
fn bid_below_minimum_fails() {
    let mut state = auctioning();
    // The opening bid must clear the minimum region deposit (500_000_000).
    let r = bid_on_region(&config(), &mut state, key(10), true, 100_000_000, NOW + 10, None);
    assert_eq!(r.unwrap_err(), RegionsError::BidBelowMinimum);
}

#[test]
fn bid_too_low_fails() {
    let cfg = config();
    let mut state = auctioning();
    bid_on_region(&cfg, &mut state, key(10), true, 600_000_000, NOW + 10, None).unwrap();
    // A second bidder must strictly beat the standing bid.
    let r = bid_on_region(&cfg, &mut state, key(11), true, 600_000_000, NOW + 20, xcav_account(key(10)));
    assert_eq!(r.unwrap_err(), RegionsError::BidTooLow);
}

#[test]
fn bid_after_auction_ends_fails() {
    let mut state = auctioning();
    let r = bid_on_region(&config(), &mut state, key(10), true, 600_000_000, NOW + 2_000, None);
    assert_eq!(r.unwrap_err(), RegionsError::AuctionEnded);
}

#[test]
fn bid_rejects_wrong_previous_bidder() {
    let cfg = config();
    let mut state = auctioning();
    bid_on_region(&cfg, &mut state, key(10), true, 600_000_000, NOW + 10, None).unwrap();
    // op2 outbids but points the refund account at a third party, not the leader.
    let r = bid_on_region(&cfg, &mut state, key(11), true, 700_000_000, NOW + 20, xcav_account(key(12)));
    assert_eq!(r.unwrap_err(), RegionsError::WrongPreviousBidder);
}

#[test]
fn bid_rejects_missing_previous_bidder() {
    let cfg = config();
    let mut state = auctioning();
    bid_on_region(&cfg, &mut state, key(10), true, 600_000_000, NOW + 10, None).unwrap();
    let r = bid_on_region(&cfg, &mut state, key(11), true, 700_000_000, NOW + 20, None);
    assert_eq!(r.unwrap_err(), RegionsError::MissingPreviousBidder);
}

#[test]
fn bid_rejects_refund_account_of_other_mint() {
    let cfg = config();
    let mut state = auctioning();
    bid_on_region(&cfg, &mut state, key(10), true, 600_000_000, NOW + 10, None).unwrap();
    let other = Some(TokenAccountInfo { owner: key(10), mint: key(9) });
    let r = bid_on_region(&cfg, &mut state, key(11), true, 700_000_000, NOW + 20, other);
    assert_eq!(r.unwrap_err(), RegionsError::InvalidMint);
}

#[test]
fn bid_same_bidder_can_raise() {
    let cfg = config();
    let mut state = auctioning();
    let op = key(10);
    let first = bid_on_region(&cfg, &mut state, op, true, 600_000_000, NOW + 10, None).unwrap();
    // The current leader raises their own bid; only the difference is locked.
    let second = bid_on_region(&cfg, &mut state, op, true, 700_000_000, NOW + 20, None).unwrap();
    assert_eq!(state.highest_bidder, Some(op));
    assert_eq!(state.collateral, 700_000_000);
    // Vault and bidder moved by exactly the top-up, not the whole new bid.
    assert_eq!(net(&second, Pot::Vault), 100_000_000);
    assert_eq!(-net(&second, Pot::Bidder), 100_000_000);
    assert_eq!(net(&first, Pot::Vault) + net(&second, Pot::Vault), 700_000_000);
}

#[test]
fn bid_same_bidder_cannot_lower() {
    let cfg = config();
    let mut state = auctioning();
    bid_on_region(&cfg, &mut state, key(10), true, 600_000_000, NOW + 10, None).unwrap();
    // Re-bidding at the same amount is not a raise.
    let r = bid_on_region(&cfg, &mut state, key(10), true, 600_000_000, NOW + 20, None);
    assert_eq!(r.unwrap_err(), RegionsError::BidTooLow);
    assert_eq!(state.collateral, 600_000_000);
}

#[test]
fn bid_by_non_compliant_operator_is_refused() {
    let mut state = auctioning();
    let r = bid_on_region(&config(), &mut state, key(10), false, 600_000_000, NOW + 10, None);
    assert_eq!(r.unwrap_err(), RegionsError::NotCompliant);
}

fn run_create_region_works() {
    let cfg = config();
    let op = key(10);
    let mut state = auctioning();
    bid_on_region(&cfg, &mut state, op, true, 600_000_000, NOW + 10, None).unwrap();
    let region = create_new_region(&cfg, &state, op, 1, NOW + 2_000, 5).unwrap();
    assert_eq!(region.region_id, 1);
    assert_eq!(region.owner, op);
    assert_eq!(region.collateral, 600_000_000);
}

#[test]
fn auction_create_region_works() {
    run_create_region_works();
}

#[test]
fn propose_create_region_works() {
    run_create_region_works();
}

fn run_create_region_fails_for_non_winner() {
    let cfg = config();
    let mut state = auctioning();
    bid_on_region(&cfg, &mut state, key(10), true, 600_000_000, NOW + 10, None).unwrap();
    assert_eq!(create_new_region(&cfg, &state, key(11), 1, NOW + 2_000, 5).unwrap_err(), RegionsError::NotWinner);
}

#[test]
fn auction_create_region_fails_for_non_winner() {
    run_create_region_fails_for_non_winner();
}

#[test]
fn propose_create_region_fails_for_non_winner() {
    run_create_region_fails_for_non_winner();
}

#[test]
fn create_region_fails_before_auction_ends() {
    let cfg = config();
    let mut state = auctioning();
    bid_on_region(&cfg, &mut state, key(10), true, 600_000_000, NOW + 10, None).unwrap();
    // Winner is set, but the auction window is still open.
    assert_eq!(
        create_new_region(&cfg, &state, key(10), 1, NOW + 20, 5).unwrap_err(),
        RegionsError::AuctionNotFinished
    );
}

// ---------------------------------------------------------------- replacement auction

#[test]
fn resignation_then_replacement_changes_owner() {
    let cfg = config();
    let op = key(10);
    let (mut region, now) = seat_open(op, 600_000_000);
    let mut auction = no_auction();
    let op2 = key(11);
    bid_on_replacement(&cfg, &region, &mut auction, op2, 1, 600_000_000, now, 6, None).unwrap();
    assert_eq!(auction.auction_expiry, now + 1_000);
    // Past the replacement auction.
    let effects = finalize_replacement(&cfg, &mut region, &auction, now + 2_000, true).unwrap();
    assert_eq!(region.owner, op2);
    assert_eq!(region.collateral, 600_000_000);
    assert_eq!(region.active_strikes, 0);
    // Outgoing operator's collateral was returned.
    assert_eq!(net(&effects, Pot::OldOwner), 600_000_000);
}

#[test]
fn replacement_bid_fails_before_seat_open() {
    let region = created(key(10), 600_000_000);
    let mut auction = no_auction();
    // No resignation / removal yet, so the owner-change lock is still in the future.
    let r = bid_on_replacement(&config(), &region, &mut auction, key(11), 1, 600_000_000, NOW + 100, 6, None);
    assert_eq!(r.unwrap_err(), RegionsError::RegionOwnerCantBeChanged);
    assert_eq!(auction, no_auction());
}

#[test]
fn replacement_outbid_refunds_previous() {
    let cfg = config();
    let (region, now) = seat_open(key(10), 600_000_000);
    let mut auction = no_auction();
    let op2 = key(11);
    let op3 = key(12);
    let first = bid_on_replacement(&cfg, &region, &mut auction, op2, 1, 600_000_000, now, 6, None).unwrap();
    assert_eq!(net(&first, Pot::Bidder), -600_000_000);
    // op3 outbids, refunding op2 exactly.
    let second = bid_on_replacement(&cfg, &region, &mut auction, op3, 1, 700_000_000, now + 10, 6, xcav_account(op2)).unwrap();
    assert_eq!(net(&second, Pot::PreviousBidder), 600_000_000);
    assert_eq!(net(&second, Pot::Bidder), -700_000_000);
}

#[test]
fn replacement_same_bidder_can_raise() {
    let cfg = config();
    let (region, now) = seat_open(key(10), 600_000_000);
    let mut auction = no_auction();
    let op2 = key(11);
    let first = bid_on_replacement(&cfg, &region, &mut auction, op2, 1, 600_000_000, now, 6, None).unwrap();
    // Raising own bid locks only the delta, not the full amount again.
    let second = bid_on_replacement(&cfg, &region, &mut auction, op2, 1, 650_000_000, now + 10, 6, None).unwrap();
    assert_eq!(net(&first, Pot::Bidder) + net(&second, Pot::Bidder), -650_000_000);
    assert_eq!(auction.collateral, 650_000_000);
}

#[test]
fn replacement_bid_rejects_wrong_previous_bidder() {
    let cfg = config();
    let (region, now) = seat_open(key(10), 600_000_000);
    let mut auction = no_auction();
    bid_on_replacement(&cfg, &region, &mut auction, key(11), 1, 600_000_000, now, 6, None).unwrap();
    // op3 outbids but points the refund account at a third party, not the leader.
    let r = bid_on_replacement(&cfg, &region, &mut auction, key(12), 1, 700_000_000, now + 10, 6, xcav_account(key(10)));
    assert_eq!(r.unwrap_err(), RegionsError::WrongPreviousBidder);
}

#[test]
fn replacement_bid_rejects_missing_previous_bidder() {
    let cfg = config();
    let (region, now) = seat_open(key(10), 600_000_000);
    let mut auction = no_auction();
    bid_on_replacement(&cfg, &region, &mut auction, key(11), 1, 600_000_000, now, 6, None).unwrap();
    let r = bid_on_replacement(&cfg, &region, &mut auction, key(12), 1, 700_000_000, now + 10, 6, None);
    assert_eq!(r.unwrap_err(), RegionsError::MissingPreviousBidder);
}

#[test]
fn replacement_bid_too_low_fails() {
    let cfg = config();
    let (region, now) = seat_open(key(10), 600_000_000);
    let mut auction = no_auction();
    bid_on_replacement(&cfg, &region, &mut auction, key(11), 1, 600_000_000, now, 6, None).unwrap();
    let r = bid_on_replacement(&cfg, &region, &mut auction, key(12), 1, 600_000_000, now + 10, 6, xcav_account(key(11)));
    assert_eq!(r.unwrap_err(), RegionsError::BidTooLow);
}

#[test]
fn replacement_bid_below_minimum_fails() {
    let (region, now) = seat_open(key(10), 600_000_000);
    let mut auction = no_auction();
    // First bid below minimum_region_deposit (500M).
    let r = bid_on_replacement(&config(), &region, &mut auction, key(11), 1, 400_000_000, now, 6, None);
    assert_eq!(r.unwrap_err(), RegionsError::BidBelowMinimum);
}

#[test]
fn replacement_bid_after_auction_ends_fails() {
    let cfg = config();
    let (region, now) = seat_open(key(10), 600_000_000);
    let mut auction = no_auction();
    bid_on_replacement(&cfg, &region, &mut auction, key(11), 1, 600_000_000, now, 6, None).unwrap();
    // Past auction_period (1_000).
    let r = bid_on_replacement(&cfg, &region, &mut auction, key(12), 1, 700_000_000, now + 2_000, 6, xcav_account(key(11)));
    assert_eq!(r.unwrap_err(), RegionsError::AuctionEnded);
}

#[test]
fn finalize_replacement_fails_before_expiry() {
    let cfg = config();
    let (mut region, now) = seat_open(key(10), 600_000_000);
    let mut auction = no_auction();
    bid_on_replacement(&cfg, &region, &mut auction, key(11), 1, 600_000_000, now, 6, None).unwrap();
    let r = finalize_replacement(&cfg, &mut region, &auction, now + 10, true);
    assert_eq!(r.unwrap_err(), RegionsError::AuctionNotFinished);
}

#[test]
fn finalize_replacement_without_bids_changes_nothing() {
    let cfg = config();
    let (mut region, now) = seat_open(key(10), 600_000_000);
    let before = region;
    let auction = ReplacementAuction { region_id: 1, highest_bidder: None, collateral: 500_000_000, auction_expiry: now, bump: 6 };
    let effects = finalize_replacement(&cfg, &mut region, &auction, now + 10, false).unwrap();
    assert!(effects.is_empty());
    assert_eq!(region, before);
}

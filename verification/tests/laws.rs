use xcavate_education::bookings::{book_module, cancel_booking};
use xcavate_education::education::{
    initialize_config, CancellationCounter, Config as EducationConfig, ConfigParams, Deliverer, Module,
};
use xcavate_education::effects::{Effect, Pot};
use xcavate_education::key::Key;
use xcavate_education::modules::{create_module, reclaim_sponsorship, sponsor_module};
use xcavate_education::region_proposals::{finalize_region_proposal, propose_new_region, vote_on_region_proposal};
use xcavate_education::region_removal::{finalize_removal, propose_remove_operator, vote_on_removal};
use xcavate_education::regions::{Config, Region, RegionStatus, RemovalVoteRecord, Vote, VoteRecord};
use xcavate_education::scoring::compute_payouts;

const NOW: i64 = 1_700_000_000;
const USDC: Key = Key { w0: 44, w1: 0, w2: 0, w3: 0 };

fn key(n: u64) -> Key {
    Key { w0: n, w1: 0, w2: 0, w3: 0 }
}

fn classic() -> Key {
    let bytes = anchor_spl::token::ID.to_bytes();
    let word = |i: usize| {
        let mut w = [0u8; 8];
        w.copy_from_slice(&bytes[i * 8..i * 8 + 8]);
        u64::from_le_bytes(w)
    };
    Key { w0: word(0), w1: word(1), w2: word(2), w3: word(3) }
}

fn net(effects: &[Effect], pot: Pot) -> i128 {
    let mut total: i128 = 0;
    for e in effects {
        if let Effect::Move { from, to, amount } = e {
            if *to == pot && *from != pot {
                total += *amount as i128;
            } else if *from == pot && *to != pot {
                total -= *amount as i128;
            }
        }
    }
    total
}

fn regions_config() -> Config {
    Config {
        authority: key(1),
        xcav_mint: key(7),
        treasury: key(2),
        proposal_deposit: 1_000_000_000,
        minimum_voting_amount: 100_000_000,
        minimum_region_deposit: 500_000_000,
        voting_period: 1_000,
        auction_period: 1_000,
        owner_change_period: 10_000,
        threshold_bps: 5_000,
        quorum: 100_000_000,
        removal_deposit: 1_000_000_000,
        removal_voting_period: 1_000,
        slash_amount: 100_000_000,
        notice_period: 5_000,
        allowed_strikes: 3,
        proposal_counter: 0,
        bump: 255,
    }
}

fn education_config() -> EducationConfig {
    let params = ConfigParams {
        module_deposit: 50_000_000,
        booking_deposit: 20_000_000,
        deliverer_deposit: 100_000_000,
        module_price: 100,
        max_module_tokens: 1_000,
        content_creator_bps: 1_000,
        regional_operator_bps: 500,
        protocol_bps: 250,
        dbs_bps: 1_500,
        min_impact_score_bps: 5_000,
        sponsorship_window: 1_000,
        cancellation_window: 10_000,
        max_cancellations: 3,
        max_strikes: 3,
        strike_slash_bps: 1_000,
        deliveries_per_strike_reduction: 2,
        accepted_assets: [USDC, Key::zero(), Key::zero()],
    };
    initialize_config(&params, key(1), key(7), key(2), key(3), 250).unwrap()
}

fn no_vote() -> VoteRecord {
    VoteRecord { proposal_id: 0, voter: Key::zero(), region_id: 0, vote: Vote::Yes, power: 0, expiry: 0, bump: 0 }
}

/// Whether a region proposal with these votes passes.
fn region_passes(votes: &[(Vote, u64)]) -> bool {
    let mut cfg = regions_config();
    let (mut state, mut proposal, _) = propose_new_region(&mut cfg, 1, key(10), false, NOW, 1, 2).unwrap();
    for (i, (v, amount)) in votes.iter().enumerate() {
        let mut rec = no_vote();
        vote_on_region_proposal(&cfg, &mut proposal, &mut rec, key(100 + i as u64), 1, *v, *amount, NOW + 1, 3).unwrap();
    }
    finalize_region_proposal(&cfg, &mut state, &proposal, NOW + 1_000, true, 0).unwrap();
    state.status == RegionStatus::Auctioning
}

#[test]
fn abstentions_never_block_a_region_proposal() {
    assert!(region_passes(&[(Vote::Yes, 200_000_000), (Vote::No, 150_000_000)]));
    assert!(region_passes(&[(Vote::Yes, 200_000_000), (Vote::No, 150_000_000), (Vote::Abstain, 900_000_000)]));
}

#[test]
fn more_yes_keeps_a_region_pass_and_more_no_keeps_a_rejection() {
    assert!(region_passes(&[(Vote::Yes, 200_000_000), (Vote::No, 200_000_000)]));
    assert!(region_passes(&[(Vote::Yes, 300_000_000), (Vote::No, 200_000_000)]));
    assert!(!region_passes(&[(Vote::Yes, 200_000_000), (Vote::No, 300_000_000)]));
    assert!(!region_passes(&[(Vote::Yes, 200_000_000), (Vote::No, 400_000_000)]));
}

/// Whether a removal with these votes is upheld.
fn removal_upheld(votes: &[(Vote, u64)]) -> bool {
    let mut cfg = regions_config();
    let mut region = Region { region_id: 1, owner: key(10), collateral: 600_000_000, active_strikes: 0, next_owner_change: NOW, bump: 1 };
    let (mut proposal, _) = propose_remove_operator(&mut cfg, 1, key(11), NOW, 2).unwrap();
    for (i, (v, amount)) in votes.iter().enumerate() {
        let mut rec = RemovalVoteRecord { proposal_id: 0, voter: Key::zero(), region_id: 0, vote: Vote::Yes, power: 0, expiry: 0, bump: 0 };
        vote_on_removal(&cfg, &mut proposal, &mut rec, key(100 + i as u64), 1, *v, *amount, NOW + 1, 3).unwrap();
    }
    finalize_removal(&cfg, &mut region, &proposal, NOW + 1_000, true).unwrap();
    region.active_strikes == 1
}

#[test]
fn abstentions_never_block_a_removal() {
    assert!(removal_upheld(&[(Vote::Yes, 200_000_000)]));
    assert!(removal_upheld(&[(Vote::Yes, 200_000_000), (Vote::Abstain, 500_000_000)]));
    // Abstentions alone can carry the turnout past the quorum.
    assert!(removal_upheld(&[(Vote::Yes, 100_000_000), (Vote::Abstain, 100_000_000)]));
    assert!(!removal_upheld(&[(Vote::Yes, 100_000_000)]));
}

#[test]
fn higher_scores_never_pay_out_less() {
    let module = Module {
        module_id: 0,
        creator: key(10),
        region: 1,
        mint: key(90),
        deposit: 0,
        total_token_amount: 1,
        sponsor_allocation: 1,
        school_allocation: 0,
        student_allocation: 0,
        price: 100,
        content_creator_bps: 1_000,
        regional_operator_bps: 500,
        protocol_bps: 250,
        dbs_bps: 1_500,
        created_at: NOW,
        metadata: String::new(),
        bump: 0,
    };
    for escrowed in [132_500_000u64, 110_000_000, 100_000_000] {
        let mut last: u128 = 0;
        let mut score: u16 = 0;
        while score <= 10_000 {
            let p = compute_payouts(5_000, &module, escrowed, score, 6).unwrap();
            let total = p.creator + p.regional_operator + p.protocol + p.lecturer;
            assert!(total >= last, "score {score}");
            assert!(total <= escrowed as u128);
            last = total;
            score += 250;
        }
    }
}

#[test]
fn reclaiming_a_whole_sponsorship_restores_the_module() {
    let mut cfg = education_config();
    let (mut m, _) = create_module(&mut cfg, key(10), 1, 40, String::from("intro"), key(90), NOW, 4).unwrap();
    let before = (m.sponsor_allocation, m.school_allocation, m.student_allocation);
    let (mut s, lock) = sponsor_module(&mut cfg, &mut m, key(20), USDC, 6, &classic(), &vec![0u8; 82], 7, NOW, 5).unwrap();
    assert_eq!(m.sponsor_allocation + m.school_allocation + m.student_allocation, 40);
    let refund = reclaim_sponsorship(&cfg, &mut m, &mut s, key(20), 7, NOW + 2_000).unwrap();
    assert_eq!((m.sponsor_allocation, m.school_allocation, m.student_allocation), before);
    assert_eq!(net(&lock, Pot::SponsorPayment) + net(&refund, Pot::SponsorPayment), 0);
    assert_eq!(net(&lock, Pot::SponsorEscrow) + net(&refund, Pot::SponsorEscrow), 0);
}

#[test]
fn cancelling_an_unclaimed_booking_undoes_it() {
    let mut cfg = education_config();
    let (mut m, _) = create_module(&mut cfg, key(10), 1, 40, String::from("intro"), key(90), NOW, 4).unwrap();
    let (mut s, _) = sponsor_module(&mut cfg, &mut m, key(20), USDC, 6, &classic(), &vec![0u8; 82], 3, NOW, 5).unwrap();
    let module_before = (m.sponsor_allocation, m.school_allocation, m.student_allocation);
    let sponsorship_before = (s.amount, s.active_bookings);
    let (booking, booked) =
        book_module(&mut cfg, &mut m, &mut s, key(30), 0, 0, NOW + 10, String::new(), NOW, 6).unwrap();
    assert_eq!(m.sponsor_allocation + m.school_allocation + m.student_allocation, 40);
    let mut counter = CancellationCounter { school: Key::zero(), count: 0, bump: 0 };
    let mut deliverer: Option<Deliverer> = None;
    let (_, cancelled) =
        cancel_booking(&cfg, &mut m, &booking, &mut s, &mut counter, &mut deliverer, key(30), true, 0, 0, NOW + 1, 7, 8)
            .unwrap();
    assert_eq!((m.sponsor_allocation, m.school_allocation, m.student_allocation), module_before);
    assert_eq!((s.amount, s.active_bookings), sponsorship_before);
    for pot in [Pot::SchoolXcav, Pot::Vault, Pot::SponsorEscrow, Pot::BookingEscrow, Pot::Treasury] {
        assert_eq!(net(&booked, pot) + net(&cancelled, pot), 0, "{pot:?}");
    }
}

#[test]
fn finalized_proposal_leaves_no_bond_in_vault() {
    for (votes, treasury) in [(200_000_000u64, 0u64), (200_000_000, 5_000_000_000), (0, 0)] {
        let mut cfg = regions_config();
        let proposer = key(10);
        let (mut state, mut proposal, locked) = propose_new_region(&mut cfg, 1, proposer, false, NOW, 1, 2).unwrap();
        if votes > 0 {
            let mut rec = no_vote();
            vote_on_region_proposal(&cfg, &mut proposal, &mut rec, key(20), 1, Vote::Yes, votes, NOW + 1, 3).unwrap();
        }
        let done = finalize_region_proposal(&cfg, &mut state, &proposal, NOW + 1_000, true, treasury).unwrap();
        assert_eq!(net(&locked, Pot::Vault) + net(&done, Pot::Vault), 0);
        let proposer_net = net(&locked, Pot::Proposer) + net(&done, Pot::Proposer);
        let treasury_net = net(&done, Pot::Treasury);
        if state.status == RegionStatus::Rejected {
            assert_eq!((proposer_net, treasury_net), (-1_000_000_000, 1_000_000_000));
        } else if treasury >= 1_000_000_000 {
            assert_eq!((proposer_net, treasury_net), (1_000_000_000, -1_000_000_000));
        } else {
            assert_eq!((proposer_net, treasury_net), (0, 0));
        }
    }
}

#[test]
fn a_passed_proposal_opens_the_region_auction() {
    let mut cfg = regions_config();
    let (mut state, mut proposal, _) = propose_new_region(&mut cfg, 1, key(10), false, NOW, 1, 2).unwrap();
    let mut rec = no_vote();
    vote_on_region_proposal(&cfg, &mut proposal, &mut rec, key(20), 1, Vote::Yes, 200_000_000, NOW + 1, 3).unwrap();
    finalize_region_proposal(&cfg, &mut state, &proposal, NOW + 1_000, true, 0).unwrap();
    let bidder = key(11);
    xcavate_education::region_seats::bid_on_region(&cfg, &mut state, bidder, true, 600_000_000, NOW + 1_500, None).unwrap();
    let region = xcavate_education::region_seats::create_new_region(&cfg, &state, bidder, 1, NOW + 2_000, 4).unwrap();
    assert_eq!(region.owner, bidder);
    assert_eq!(region.collateral, 600_000_000);
}

//! Who holds a region's operator seat: claiming a passed region, renewing or
//! taking an open seat, resigning, and the auctions that fill a seat.
use vstd::prelude::*;

use crate::effects::{lemma_net_into_one, lemma_net_into_two, mv, make_move, net_into, Effect, Pot, TokenAccountInfo};
use crate::errors::RegionsError;
use crate::key::Key;
use crate::laws::law_seat_change_settlement;
use crate::regions::{operator_bond, operator_bond_spec, Config, Region, RegionState, RegionStatus, ReplacementAuction};

verus! {

/// `now + period`, when it fits in `i64`.
pub open spec fn checked_time(now: i64, period: i64) -> Option<i64> {
    if now + period > i64::MAX || now + period < i64::MIN {
        None
    } else {
        Some((now + period) as i64)
    }
}

/// The region its proposer creates from a passed state: the bond held since
/// the proposal becomes its collateral, with no strikes.
pub open spec fn claimed_region(
    state: RegionState,
    creator: Key,
    region_id: u16,
    next_owner_change: i64,
    bump: u8,
) -> Region {
    Region { region_id, owner: creator, collateral: state.deposit, active_strikes: 0, next_owner_change, bump }
}

/// Claim a region whose proposal passed, creating it. Only the proposer may
/// claim, before the claim deadline; their bond (already in the vault) becomes
/// the region's collateral.
pub fn create_region(config: &Config, state: &RegionState, creator: Key, region_id: u16, now: i64, bump: u8) -> (r:
    Result<Region, RegionsError>)
    ensures
        state.status != RegionStatus::Passed ==> r == Err::<Region, RegionsError>(RegionsError::RegionNotPassed),
        state.status == RegionStatus::Passed && state.proposer != creator ==> r == Err::<
            Region,
            RegionsError,
        >(RegionsError::NotProposer),
        state.status == RegionStatus::Passed && state.proposer == creator && now >= state.claim_deadline
            ==> r == Err::<Region, RegionsError>(RegionsError::ClaimWindowClosed),
        state.status == RegionStatus::Passed && state.proposer == creator && now < state.claim_deadline
            ==> r == match checked_time(now, config.owner_change_period) {
            None => Err::<Region, RegionsError>(RegionsError::Overflow),
            Some(t) => Ok(claimed_region(*state, creator, region_id, t, bump)),
        },
{
    if state.status != RegionStatus::Passed {
        return Err(RegionsError::RegionNotPassed);
    }
    if state.proposer != creator {
        return Err(RegionsError::NotProposer);
    }
    if now >= state.claim_deadline {
        return Err(RegionsError::ClaimWindowClosed);
    }
    let next_owner_change = match now.checked_add(config.owner_change_period) {
        Some(t) => t,
        None => return Err(RegionsError::Overflow),
    };
    Ok(
        Region {
            region_id,
            owner: creator,
            collateral: state.deposit,
            active_strikes: 0,
            next_owner_change,
            bump,
        },
    )
}

/// The XCAV a seat change moves: the incumbent only tops up or takes back the
/// difference to the new bond; anyone else bonds in full and the outgoing
/// operator's collateral is returned.
pub open spec fn seat_change_moves(renewal: bool, bond: u64, existing: u64) -> Seq<Effect> {
    if renewal {
        if bond > existing {
            seq![mv(Pot::NewOperator, Pot::Vault, (bond - existing) as u64)]
        } else if existing > bond {
            seq![mv(Pot::Vault, Pot::NewOperator, (existing - bond) as u64)]
        } else {
            seq![]
        }
    } else {
        seq![mv(Pot::NewOperator, Pot::Vault, bond), mv(Pot::Vault, Pot::OldOwner, existing)]
    }
}

/// Claim a region whose operator seat is open (its term has elapsed), bonding
/// 0.1% of the XCAV `supply`. First-come; the incumbent may renew.
pub fn claim_open_region(
    config: &Config,
    region: &mut Region,
    new_operator: Key,
    supply: u64,
    has_old_owner_token: bool,
    now: i64,
) -> (r: Result<Vec<Effect>, RegionsError>)
    ensures
        old(region).next_owner_change >= now ==> r == Err::<Vec<Effect>, RegionsError>(
            RegionsError::RegionOwnerCantBeChanged,
        ),
        old(region).next_owner_change < now && operator_bond_spec(supply) is None ==> r == Err::<
            Vec<Effect>,
            RegionsError,
        >(RegionsError::BondTooSmall),
        old(region).next_owner_change < now && operator_bond_spec(supply) is Some ==> ({
            let bond = operator_bond_spec(supply)->Some_0;
            let renewal = new_operator == old(region).owner;
            if !renewal && !has_old_owner_token {
                r == Err::<Vec<Effect>, RegionsError>(RegionsError::MissingRecipientToken)
            } else {
                match checked_time(now, config.owner_change_period) {
                    None => r == Err::<Vec<Effect>, RegionsError>(RegionsError::Overflow),
                    Some(t) => {
                        &&& r matches Ok(v) && v@ == seat_change_moves(
                            renewal,
                            bond,
                            old(region).collateral,
                        )
                        &&& *final(region) == (Region {
                            owner: new_operator,
                            collateral: bond,
                            next_owner_change: t,
                            ..*old(region)
                        })
                    },
                }
            }
        }),
        r is Err ==> *final(region) == *old(region),
        r is Ok ==> net_into(r->Ok_0@, Pot::Treasury) == 0,
        r is Ok && new_operator == old(region).owner ==> net_into(r->Ok_0@, Pot::NewOperator) == old(
            region,
        ).collateral - final(region).collateral && net_into(r->Ok_0@, Pot::OldOwner) == 0,
        r is Ok && new_operator != old(region).owner ==> net_into(r->Ok_0@, Pot::NewOperator)
            == -final(region).collateral && net_into(r->Ok_0@, Pot::OldOwner) == old(region).collateral,
{
    if region.next_owner_change >= now {
        return Err(RegionsError::RegionOwnerCantBeChanged);
    }
    let bond = match operator_bond(supply) {
        Some(b) => b,
        None => return Err(RegionsError::BondTooSmall),
    };
    let existing = region.collateral;
    let mut effects: Vec<Effect> = Vec::new();
    if new_operator == region.owner {
        if bond > existing {
            effects.push(make_move(Pot::NewOperator, Pot::Vault, bond - existing));
        } else if existing > bond {
            effects.push(make_move(Pot::Vault, Pot::NewOperator, existing - bond));
        }
    } else {
        if !has_old_owner_token {
            return Err(RegionsError::MissingRecipientToken);
        }
        effects.push(make_move(Pot::NewOperator, Pot::Vault, bond));
        effects.push(make_move(Pot::Vault, Pot::OldOwner, existing));
    }
    let next_owner_change = match now.checked_add(config.owner_change_period) {
        Some(t) => t,
        None => return Err(RegionsError::Overflow),
    };
    proof {
        assert(effects@ =~= seat_change_moves(new_operator == region.owner, bond, existing));
        law_seat_change_settlement(new_operator == region.owner, bond, existing);
    }
    region.owner = new_operator;
    region.collateral = bond;
    region.next_owner_change = next_owner_change;
    Ok(effects)
}

/// Schedule the caller's own departure as a region's operator, opening the seat
/// after the notice period. The change can only be brought forward.
pub fn initiate_resignation(config: &Config, region: &mut Region, operator: Key, now: i64) -> (r: Result<
    (),
    RegionsError,
>)
    ensures
        old(region).owner != operator ==> r == Err::<(), RegionsError>(RegionsError::NotRegionOwner),
        old(region).owner == operator ==> match checked_time(now, config.notice_period) {
            None => r == Err::<(), RegionsError>(RegionsError::Overflow),
            Some(t) => if old(region).next_owner_change > t {
                r is Ok && *final(region) == (Region { next_owner_change: t, ..*old(region) })
            } else {
                r == Err::<(), RegionsError>(RegionsError::OwnerChangeAlreadyScheduled)
            },
        },
        r is Ok ==> final(region).next_owner_change < old(region).next_owner_change,
        r is Err ==> *final(region) == *old(region),
{
    if region.owner != operator {
        return Err(RegionsError::NotRegionOwner);
    }
    let next_owner_change = match now.checked_add(config.notice_period) {
        Some(t) => t,
        None => return Err(RegionsError::Overflow),
    };
    if !(region.next_owner_change > next_owner_change) {
        return Err(RegionsError::OwnerChangeAlreadyScheduled);
    }
    region.next_owner_change = next_owner_change;
    Ok(())
}

/// The refund check on an outbid bidder's token account: it must be supplied,
/// be owned by the bidder being outbid and (where `mint` is given) hold XCAV.
pub open spec fn previous_bidder_check(previous: Option<TokenAccountInfo>, prev: Key, mint: Option<Key>) -> Option<
    RegionsError,
> {
    match previous {
        None => Some(RegionsError::MissingPreviousBidder),
        Some(acc) => if acc.owner != prev {
            Some(RegionsError::WrongPreviousBidder)
        } else if mint is Some && acc.mint != mint->Some_0 {
            Some(RegionsError::InvalidMint)
        } else {
            None
        },
    }
}

/// Bid to become a new region's operator during its auction
/// (compliant RegionalOperator only). A new leader's bid is locked in the vault
/// and the outbid bidder refunded; the leader raising their own bid locks only
/// the difference.
pub fn bid_on_region(
    config: &Config,
    state: &mut RegionState,
    bidder: Key,
    bidder_compliant: bool,
    amount: u64,
    now: i64,
    previous: Option<TokenAccountInfo>,
) -> (r: Result<Vec<Effect>, RegionsError>)
    ensures
        !bidder_compliant ==> r == Err::<Vec<Effect>, RegionsError>(RegionsError::NotCompliant),
        bidder_compliant && old(state).status != RegionStatus::Auctioning ==> r == Err::<
            Vec<Effect>,
            RegionsError,
        >(RegionsError::NotAuctioning),
        bidder_compliant && old(state).status == RegionStatus::Auctioning && now >= old(state).auction_expiry ==> r == Err::<Vec<Effect>, RegionsError>(RegionsError::AuctionEnded),
        bidder_compliant && old(state).status == RegionStatus::Auctioning && now < old(state).auction_expiry
            ==> match old(state).highest_bidder {
            Some(prev) => if amount <= old(state).collateral {
                r == Err::<Vec<Effect>, RegionsError>(RegionsError::BidTooLow)
            } else if prev == bidder {
                &&& r matches Ok(v) && v@ == seq![
                    mv(Pot::Bidder, Pot::Vault, (amount - old(state).collateral) as u64),
                ]
                &&& net_into(r->Ok_0@, Pot::Vault) == amount - old(state).collateral
            } else if previous_bidder_check(previous, prev, Some(config.xcav_mint)) is Some {
                r == Err::<Vec<Effect>, RegionsError>(
                    previous_bidder_check(previous, prev, Some(config.xcav_mint))->Some_0,
                )
            } else {
                &&& r matches Ok(v) && v@ == seq![mv(Pot::Bidder, Pot::Vault, amount)] + (if old(state).collateral > 0 {
                    seq![mv(Pot::Vault, Pot::PreviousBidder, old(state).collateral)]
                } else {
                    Seq::<Effect>::empty()
                })
                &&& net_into(r->Ok_0@, Pot::Vault) == amount - old(state).collateral
            },
            None => if amount < old(state).collateral {
                r == Err::<Vec<Effect>, RegionsError>(RegionsError::BidBelowMinimum)
            } else {
                &&& r matches Ok(v) && v@ == seq![mv(Pot::Bidder, Pot::Vault, amount)]
                &&& net_into(r->Ok_0@, Pot::Vault) == amount
            },
        },
        r is Ok ==> *final(state) == (RegionState {
            highest_bidder: Some(bidder),
            collateral: amount,
            ..*old(state)
        }),
        r is Ok ==> final(state).collateral >= old(state).collateral,
        r is Err ==> *final(state) == *old(state),
{
    if !bidder_compliant {
        return Err(RegionsError::NotCompliant);
    }
    if state.status != RegionStatus::Auctioning {
        return Err(RegionsError::NotAuctioning);
    }
    if now >= state.auction_expiry {
        return Err(RegionsError::AuctionEnded);
    }
    let (lock_amount, refund): (u64, u64) = match state.highest_bidder {
        Some(prev) => {
            if amount <= state.collateral {
                return Err(RegionsError::BidTooLow);
            }
            if prev == bidder {
                (amount - state.collateral, 0)
            } else {
                match previous {
                    None => return Err(RegionsError::MissingPreviousBidder),
                    Some(acc) => {
                        if acc.owner != prev {
                            return Err(RegionsError::WrongPreviousBidder);
                        }
                        if acc.mint != config.xcav_mint {
                            return Err(RegionsError::InvalidMint);
                        }
                    },
                }
                (amount, state.collateral)
            }
        },
        None => {
            if amount < state.collateral {
                return Err(RegionsError::BidBelowMinimum);
            }
            (amount, 0)
        },
    };
    let mut effects: Vec<Effect> = vec![make_move(Pot::Bidder, Pot::Vault, lock_amount)];
    if refund > 0 {
        effects.push(make_move(Pot::Vault, Pot::PreviousBidder, refund));
    }
    proof {
        lemma_net_into_one(mv(Pot::Bidder, Pot::Vault, lock_amount), Pot::Vault);
        if refund > 0 {
            lemma_net_into_two(
                mv(Pot::Bidder, Pot::Vault, lock_amount),
                mv(Pot::Vault, Pot::PreviousBidder, refund),
                Pot::Vault,
            );
            lemma_net_into_one(mv(Pot::Vault, Pot::PreviousBidder, refund), Pot::Vault);
            assert(effects@ =~= seq![
                mv(Pot::Bidder, Pot::Vault, lock_amount),
                mv(Pot::Vault, Pot::PreviousBidder, refund),
            ]);
            assert(effects@ =~= seq![mv(Pot::Bidder, Pot::Vault, lock_amount)] + seq![
                mv(Pot::Vault, Pot::PreviousBidder, refund),
            ]);
        } else {
            assert(effects@ =~= seq![mv(Pot::Bidder, Pot::Vault, lock_amount)]);
            assert(effects@ =~= seq![mv(Pot::Bidder, Pot::Vault, lock_amount)] + Seq::<
                Effect,
            >::empty());
        }
    }
    state.highest_bidder = Some(bidder);
    state.collateral = amount;
    Ok(effects)
}

/// Create the region once its auction has ended. Only the winning bidder may,
/// and their locked bid becomes the region's collateral.
pub fn create_new_region(config: &Config, state: &RegionState, creator: Key, region_id: u16, now: i64, bump: u8) -> (r:
    Result<Region, RegionsError>)
    ensures
        state.status != RegionStatus::Auctioning ==> r == Err::<Region, RegionsError>(RegionsError::NotAuctioning),
        state.status == RegionStatus::Auctioning && now < state.auction_expiry ==> r == Err::<
            Region,
            RegionsError,
        >(RegionsError::AuctionNotFinished),
        state.status == RegionStatus::Auctioning && now >= state.auction_expiry && state.highest_bidder
            != Some(creator) ==> r == Err::<Region, RegionsError>(RegionsError::NotWinner),
        state.status == RegionStatus::Auctioning && now >= state.auction_expiry && state.highest_bidder
            == Some(creator) ==> r == match checked_time(now, config.owner_change_period) {
            None => Err::<Region, RegionsError>(RegionsError::Overflow),
            Some(t) => Ok(
                Region {
                    region_id,
                    owner: creator,
                    collateral: state.collateral,
                    active_strikes: 0,
                    next_owner_change: t,
                    bump,
                },
            ),
        },
{
    if state.status != RegionStatus::Auctioning {
        return Err(RegionsError::NotAuctioning);
    }
    if now < state.auction_expiry {
        return Err(RegionsError::AuctionNotFinished);
    }
    if state.highest_bidder != Some(creator) {
        return Err(RegionsError::NotWinner);
    }
    let next_owner_change = match now.checked_add(config.owner_change_period) {
        Some(t) => t,
        None => return Err(RegionsError::Overflow),
    };
    Ok(
        Region {
            region_id,
            owner: creator,
            collateral: state.collateral,
            active_strikes: 0,
            next_owner_change,
            bump,
        },
    )
}

/// The auction a replacement bid works on: a fresh one (zero expiry) opens at the
/// minimum collateral for the auction period.
pub open spec fn opened_auction(
    config: Config,
    auction: ReplacementAuction,
    region_id: u16,
    now: i64,
    bump: u8,
) -> Option<ReplacementAuction> {
    if auction.auction_expiry == 0 {
        match checked_time(now, config.auction_period) {
            None => None,
            Some(t) => Some(
                ReplacementAuction {
                    region_id,
                    highest_bidder: None,
                    collateral: config.minimum_region_deposit,
                    auction_expiry: t,
                    bump,
                },
            ),
        }
    } else {
        Some(auction)
    }
}

/// Bid to take over a region whose seat is open. A fresh auction opens at the
/// minimum collateral; the leader may raise their own bid (locking only the
/// difference), anyone else must outbid and the outbid bidder is refunded.
pub fn bid_on_replacement(
    config: &Config,
    region: &Region,
    auction: &mut ReplacementAuction,
    bidder: Key,
    region_id: u16,
    amount: u64,
    now: i64,
    auction_bump: u8,
    previous: Option<TokenAccountInfo>,
) -> (r: Result<Vec<Effect>, RegionsError>)
    ensures
        amount == 0 ==> r == Err::<Vec<Effect>, RegionsError>(RegionsError::BidBelowMinimum),
        amount > 0 && region.next_owner_change >= now ==> r == Err::<Vec<Effect>, RegionsError>(
            RegionsError::RegionOwnerCantBeChanged,
        ),
        amount > 0 && region.next_owner_change < now && old(auction).auction_expiry == 0 && checked_time(
            now,
            config.auction_period,
        ) is None ==> r == Err::<Vec<Effect>, RegionsError>(RegionsError::Overflow),
        amount > 0 && region.next_owner_change < now && old(auction).auction_expiry != 0 && now >= old(auction).auction_expiry ==> r == Err::<Vec<Effect>, RegionsError>(RegionsError::AuctionEnded),
        amount > 0 && region.next_owner_change < now && opened_auction(
            *config,
            *old(auction),
            region_id,
            now,
            auction_bump,
        ) is Some && (old(auction).auction_expiry == 0 || now < old(auction).auction_expiry) ==> ({
            let a = opened_auction(*config, *old(auction), region_id, now, auction_bump)->Some_0;
            match a.highest_bidder {
                Some(prev) => if amount <= a.collateral {
                    r == Err::<Vec<Effect>, RegionsError>(RegionsError::BidTooLow)
                } else if prev == bidder {
                    &&& r matches Ok(v) && v@ == seq![
                        mv(Pot::Bidder, Pot::Vault, (amount - a.collateral) as u64),
                    ]
                    &&& net_into(r->Ok_0@, Pot::Vault) == amount - a.collateral
                } else if previous_bidder_check(previous, prev, None) is Some {
                    r == Err::<Vec<Effect>, RegionsError>(
                        previous_bidder_check(previous, prev, None)->Some_0,
                    )
                } else {
                    &&& r matches Ok(v) && v@ == seq![mv(Pot::Bidder, Pot::Vault, amount)] + (if a.collateral
                        > 0 {
                        seq![mv(Pot::Vault, Pot::PreviousBidder, a.collateral)]
                    } else {
                        Seq::<Effect>::empty()
                    })
                    &&& net_into(r->Ok_0@, Pot::Vault) == amount - a.collateral
                },
                None => if amount < a.collateral {
                    r == Err::<Vec<Effect>, RegionsError>(RegionsError::BidBelowMinimum)
                } else {
                    &&& r matches Ok(v) && v@ == seq![mv(Pot::Bidder, Pot::Vault, amount)]
                    &&& net_into(r->Ok_0@, Pot::Vault) == amount
                },
            }
        }),
        r is Ok ==> *final(auction) == (ReplacementAuction {
            highest_bidder: Some(bidder),
            collateral: amount,
            ..opened_auction(*config, *old(auction), region_id, now, auction_bump)->Some_0
        }),
        r is Err ==> *final(auction) == *old(auction),
{
    if amount == 0 {
        return Err(RegionsError::BidBelowMinimum);
    }
    if region.next_owner_change >= now {
        return Err(RegionsError::RegionOwnerCantBeChanged);
    }
    let mut a = *auction;
    if a.auction_expiry == 0 {
        let expiry = match now.checked_add(config.auction_period) {
            Some(t) => t,
            None => return Err(RegionsError::Overflow),
        };
        a = ReplacementAuction {
            region_id,
            highest_bidder: None,
            collateral: config.minimum_region_deposit,
            auction_expiry: expiry,
            bump: auction_bump,
        };
    } else if now >= a.auction_expiry {
        return Err(RegionsError::AuctionEnded);
    }
    let (lock_amount, refund): (u64, u64) = match a.highest_bidder {
        Some(prev) => {
            if amount <= a.collateral {
                return Err(RegionsError::BidTooLow);
            }
            if prev == bidder {
                (amount - a.collateral, 0)
            } else {
                match previous {
                    None => return Err(RegionsError::MissingPreviousBidder),
                    Some(acc) => {
                        if acc.owner != prev {
                            return Err(RegionsError::WrongPreviousBidder);
                        }
                    },
                }
                (amount, a.collateral)
            }
        },
        None => {
            if amount < a.collateral {
                return Err(RegionsError::BidBelowMinimum);
            }
            (amount, 0)
        },
    };
    let mut effects: Vec<Effect> = vec![make_move(Pot::Bidder, Pot::Vault, lock_amount)];
    if refund > 0 {
        effects.push(make_move(Pot::Vault, Pot::PreviousBidder, refund));
    }
    proof {
        lemma_net_into_one(mv(Pot::Bidder, Pot::Vault, lock_amount), Pot::Vault);
        if refund > 0 {
            lemma_net_into_two(
                mv(Pot::Bidder, Pot::Vault, lock_amount),
                mv(Pot::Vault, Pot::PreviousBidder, refund),
                Pot::Vault,
            );
            lemma_net_into_one(mv(Pot::Vault, Pot::PreviousBidder, refund), Pot::Vault);
            assert(effects@ =~= seq![
                mv(Pot::Bidder, Pot::Vault, lock_amount),
                mv(Pot::Vault, Pot::PreviousBidder, refund),
            ]);
            assert(effects@ =~= seq![mv(Pot::Bidder, Pot::Vault, lock_amount)] + seq![
                mv(Pot::Vault, Pot::PreviousBidder, refund),
            ]);
        } else {
            assert(effects@ =~= seq![mv(Pot::Bidder, Pot::Vault, lock_amount)]);
            assert(effects@ =~= seq![mv(Pot::Bidder, Pot::Vault, lock_amount)] + Seq::<
                Effect,
            >::empty());
        }
    }
    a.highest_bidder = Some(bidder);
    a.collateral = amount;
    *auction = a;
    Ok(effects)
}

/// Finalize a replacement auction once it has ended (permissionless). A winner
/// takes the seat with their bid as collateral, strikes reset, and the outgoing
/// operator's collateral is returned; with no bidder nothing changes.
pub fn finalize_replacement(
    config: &Config,
    region: &mut Region,
    auction: &ReplacementAuction,
    now: i64,
    has_old_owner_token: bool,
) -> (r: Result<Vec<Effect>, RegionsError>)
    ensures
        now < auction.auction_expiry ==> r == Err::<Vec<Effect>, RegionsError>(RegionsError::AuctionNotFinished),
        now >= auction.auction_expiry && auction.highest_bidder is None ==> (r matches Ok(v) && v@
            == Seq::<Effect>::empty() && *final(region) == *old(region)),
        now >= auction.auction_expiry && auction.highest_bidder is Some ==> if !has_old_owner_token {
            r == Err::<Vec<Effect>, RegionsError>(RegionsError::MissingRecipientToken)
        } else {
            match checked_time(now, config.owner_change_period) {
                None => r == Err::<Vec<Effect>, RegionsError>(RegionsError::Overflow),
                Some(t) => {
                    &&& r matches Ok(v) && v@ == seq![
                        mv(Pot::Vault, Pot::OldOwner, old(region).collateral),
                    ]
                    &&& *final(region) == (Region {
                        owner: auction.highest_bidder->Some_0,
                        collateral: auction.collateral,
                        active_strikes: 0,
                        next_owner_change: t,
                        ..*old(region)
                    })
                },
            }
        },
        r is Err ==> *final(region) == *old(region),
{
    if now < auction.auction_expiry {
        return Err(RegionsError::AuctionNotFinished);
    }
    match auction.highest_bidder {
        None => Ok(Vec::new()),
        Some(new_owner) => {
            if !has_old_owner_token {
                return Err(RegionsError::MissingRecipientToken);
            }
            let outgoing = region.collateral;
            let next_owner_change = match now.checked_add(config.owner_change_period) {
                Some(t) => t,
                None => return Err(RegionsError::Overflow),
            };
            region.owner = new_owner;
            region.collateral = auction.collateral;
            region.active_strikes = 0;
            region.next_owner_change = next_owner_change;
            Ok(vec![make_move(Pot::Vault, Pot::OldOwner, outgoing)])
        },
    }
}

} // verus!

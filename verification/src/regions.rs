//! Region governance state: the singleton config, regions and their operators,
//! region and removal proposals with their vote tallies, and the auctions that
//! fill an open seat.
use vstd::prelude::*;

use crate::effects::{mv, make_move, Effect, Pot};
use crate::errors::RegionsError;
use crate::key::Key;
use crate::mint_guard::{mint_verdict, require_supported_mint, token2022_mint_extension_types, MintGuardError};

verus! {

/// The recognised regions and their on-chain ids.
#[derive(Clone, Copy, Debug, PartialEq, Eq, Structural)]
pub enum RegionIdentifier {
    England,
    France,
    Japan,
    India,
}

impl RegionIdentifier {
    /// The region a raw id names, if any: 1 England, 2 France, 3 Japan, 4 India.
    pub open spec fn from_code_spec(code: u16) -> Option<RegionIdentifier> {
        if code == 1 {
            Some(RegionIdentifier::England)
        } else if code == 2 {
            Some(RegionIdentifier::France)
        } else if code == 3 {
            Some(RegionIdentifier::Japan)
        } else if code == 4 {
            Some(RegionIdentifier::India)
        } else {
            None
        }
    }

    /// Returns the identifier for a raw id, or `None` if it isn't recognised.
    pub fn from_code(code: u16) -> (r: Option<RegionIdentifier>)
        ensures
            r == RegionIdentifier::from_code_spec(code),
            r is Some <==> 1 <= code <= 4,
    {
        match code {
            1 => Some(RegionIdentifier::England),
            2 => Some(RegionIdentifier::France),
            3 => Some(RegionIdentifier::Japan),
            4 => Some(RegionIdentifier::India),
            _ => None,
        }
    }
}

/// How a voter can vote on a proposal.
#[derive(Clone, Copy, Debug, PartialEq, Eq, Structural)]
pub enum Vote {
    Yes,
    No,
    Abstain,
}

/// Singleton config holding governance parameters and the authority.
#[derive(Clone, Copy, Debug, PartialEq, Eq, Structural)]
pub struct Config {
    pub authority: Key,
    pub xcav_mint: Key,
    pub treasury: Key,
    pub proposal_deposit: u64,
    pub minimum_voting_amount: u64,
    pub minimum_region_deposit: u64,
    pub voting_period: i64,
    pub auction_period: i64,
    pub owner_change_period: i64,
    pub threshold_bps: u16,
    pub quorum: u64,
    pub removal_deposit: u64,
    pub removal_voting_period: i64,
    pub slash_amount: u64,
    pub notice_period: i64,
    pub allowed_strikes: u8,
    pub proposal_counter: u64,
    pub bump: u8,
}

/// A created region and its operator.
#[derive(Clone, Copy, Debug, PartialEq, Eq, Structural)]
pub struct Region {
    pub region_id: u16,
    pub owner: Key,
    pub collateral: u64,
    pub active_strikes: u8,
    pub next_owner_change: i64,
    pub bump: u8,
}

/// An open proposal to create a region, with its running vote tally.
#[derive(Clone, Copy, Debug, PartialEq, Eq, Structural)]
pub struct RegionProposal {
    pub proposal_id: u64,
    pub proposer: Key,
    pub region_id: u16,
    pub created_at: i64,
    pub expiry: i64,
    pub deposit: u64,
    pub yes_power: u64,
    pub no_power: u64,
    pub abstain_power: u64,
    pub bump: u8,
}

/// Where a region is in its lifecycle.
#[derive(Clone, Copy, Debug, PartialEq, Eq, Structural)]
pub enum RegionStatus {
    /// A proposal is open for voting.
    Proposing,
    /// The proposal passed; the proposer may claim the region until the deadline.
    Passed,
    /// An auction for the operator slot is running.
    Auctioning,
    /// The proposal was rejected; the state lingers until cleared.
    Rejected,
}

/// One per region, tracking its lifecycle until the region is created or the
/// proposal is rejected and cleared.
#[derive(Clone, Copy, Debug, PartialEq, Eq, Structural)]
pub struct RegionState {
    pub region_id: u16,
    pub status: RegionStatus,
    pub proposal_id: u64,
    /// Who proposed the region.
    pub proposer: Key,
    /// The proposer's bond held in the vault.
    pub deposit: u64,
    /// When a passed region stops being claimable.
    pub claim_deadline: i64,
    /// Highest bidder while auctioning.
    pub highest_bidder: Option<Key>,
    /// Current highest bid / minimum collateral during the auction.
    pub collateral: u64,
    /// When the auction ends.
    pub auction_expiry: i64,
    pub bump: u8,
}

/// One voter's locked vote on a region proposal.
#[derive(Clone, Copy, Debug, PartialEq, Eq, Structural)]
pub struct VoteRecord {
    pub proposal_id: u64,
    pub voter: Key,
    pub region_id: u16,
    pub vote: Vote,
    pub power: u64,
    pub expiry: i64,
    pub bump: u8,
}

/// An open proposal to remove a region's operator, one per region.
#[derive(Clone, Copy, Debug, PartialEq, Eq, Structural)]
pub struct RemovalProposal {
    pub proposal_id: u64,
    pub region_id: u16,
    pub proposer: Key,
    pub created_at: i64,
    pub expiry: i64,
    pub deposit: u64,
    pub yes_power: u64,
    pub no_power: u64,
    pub abstain_power: u64,
    pub bump: u8,
}

/// One voter's locked vote on a removal proposal.
#[derive(Clone, Copy, Debug, PartialEq, Eq, Structural)]
pub struct RemovalVoteRecord {
    pub proposal_id: u64,
    pub voter: Key,
    pub region_id: u16,
    pub vote: Vote,
    pub power: u64,
    pub expiry: i64,
    pub bump: u8,
}

/// An auction to replace a region's operator once the seat is open.
#[derive(Clone, Copy, Debug, PartialEq, Eq, Structural)]
pub struct ReplacementAuction {
    pub region_id: u16,
    pub highest_bidder: Option<Key>,
    pub collateral: u64,
    pub auction_expiry: i64,
    pub bump: u8,
}

/// Governance parameters the authority sets.
#[derive(Clone, Copy, Debug, PartialEq, Eq, Structural)]
pub struct ConfigParams {
    pub minimum_voting_amount: u64,
    pub voting_period: i64,
    pub owner_change_period: i64,
    pub threshold_bps: u16,
    pub quorum: u64,
    pub removal_deposit: u64,
    pub removal_voting_period: i64,
    pub slash_amount: u64,
    pub notice_period: i64,
    pub allowed_strikes: u8,
}

impl ConfigParams {
    /// A threshold in (0, 100%], and every quorum, period, amount and strike
    /// count positive.
    pub open spec fn is_valid(&self) -> bool {
        &&& 0 < self.threshold_bps <= 10_000
        &&& self.quorum > 0
        &&& self.voting_period > 0 && self.owner_change_period > 0
        &&& self.minimum_voting_amount > 0
        &&& self.removal_deposit > 0 && self.slash_amount > 0
        &&& self.removal_voting_period > 0 && self.notice_period > 0
        &&& self.allowed_strikes > 0
    }

    /// Reject obviously broken parameters up front.
    pub fn validate(&self) -> (r: Result<(), RegionsError>)
        ensures
            r == (if self.is_valid() {
                Ok::<(), RegionsError>(())
            } else {
                Err::<(), RegionsError>(RegionsError::InvalidConfig)
            }),
    {
        if !(self.threshold_bps > 0 && self.threshold_bps <= 10_000) {
            return Err(RegionsError::InvalidConfig);
        }
        if !(self.quorum > 0) {
            return Err(RegionsError::InvalidConfig);
        }
        if !(self.voting_period > 0 && self.owner_change_period > 0) {
            return Err(RegionsError::InvalidConfig);
        }
        if !(self.minimum_voting_amount > 0) {
            return Err(RegionsError::InvalidConfig);
        }
        if !(self.removal_deposit > 0 && self.slash_amount > 0) {
            return Err(RegionsError::InvalidConfig);
        }
        if !(self.removal_voting_period > 0 && self.notice_period > 0) {
            return Err(RegionsError::InvalidConfig);
        }
        if !(self.allowed_strikes > 0) {
            return Err(RegionsError::InvalidConfig);
        }
        Ok(())
    }

    /// `config` with these parameters written over it.
    pub open spec fn applied_to(&self, config: Config) -> Config {
        Config {
            minimum_voting_amount: self.minimum_voting_amount,
            voting_period: self.voting_period,
            owner_change_period: self.owner_change_period,
            threshold_bps: self.threshold_bps,
            quorum: self.quorum,
            removal_deposit: self.removal_deposit,
            removal_voting_period: self.removal_voting_period,
            slash_amount: self.slash_amount,
            notice_period: self.notice_period,
            allowed_strikes: self.allowed_strikes,
            ..config
        }
    }

    /// Write the parameters into `config`.
    pub fn apply(&self, config: &mut Config)
        ensures
            *final(config) == self.applied_to(*old(config)),
    {
        config.minimum_voting_amount = self.minimum_voting_amount;
        config.voting_period = self.voting_period;
        config.owner_change_period = self.owner_change_period;
        config.threshold_bps = self.threshold_bps;
        config.quorum = self.quorum;
        config.removal_deposit = self.removal_deposit;
        config.removal_voting_period = self.removal_voting_period;
        config.slash_amount = self.slash_amount;
        config.notice_period = self.notice_period;
        config.allowed_strikes = self.allowed_strikes;
    }
}

/// The 0.1% operator bond on a supply, `None` when it rounds to nothing.
pub open spec fn operator_bond_spec(supply: u64) -> Option<u64> {
    if supply / 1000 > 0 {
        Some(supply / 1000)
    } else {
        None
    }
}

/// The operator bond for an XCAV supply: 0.1% of it, or `None` when the supply
/// is too small to produce a positive bond.
pub fn operator_bond(supply: u64) -> (r: Option<u64>)
    ensures
        r == operator_bond_spec(supply),
{
    let bond: u64 = supply / 1000;
    if bond > 0 {
        Some(bond)
    } else {
        None
    }
}

/// Maps a mint screening failure to the governance error.
pub open spec fn regions_mint_error(e: MintGuardError) -> RegionsError {
    match e {
        MintGuardError::InvalidMintData => RegionsError::InvalidMintData,
        MintGuardError::UnsupportedMintExtension => RegionsError::UnsupportedMintExtension,
    }
}

/// The config a fresh initialization writes.
pub open spec fn fresh_config(params: ConfigParams, authority: Key, xcav_mint: Key, treasury: Key, bump: u8) -> Config {
    params.applied_to(
        Config {
            authority,
            xcav_mint,
            treasury,
            proposal_deposit: 0,
            minimum_voting_amount: 0,
            minimum_region_deposit: 0,
            voting_period: 0,
            auction_period: 0,
            owner_change_period: 0,
            threshold_bps: 0,
            quorum: 0,
            removal_deposit: 0,
            removal_voting_period: 0,
            slash_amount: 0,
            notice_period: 0,
            allowed_strikes: 0,
            proposal_counter: 0,
            bump,
        },
    )
}

/// Build the singleton config: validate the parameters, screen the XCAV mint
/// (owned by `mint_owner`, account data `mint_data`) and set the signer as the
/// authority.
pub fn initialize_config(
    params: &ConfigParams,
    authority: Key,
    xcav_mint: Key,
    treasury: Key,
    mint_owner: &Key,
    mint_data: &[u8],
    bump: u8,
) -> (r: Result<Config, RegionsError>)
    ensures
        !params.is_valid() ==> r == Err::<Config, RegionsError>(RegionsError::InvalidConfig),
        params.is_valid() ==> r == match mint_verdict(*mint_owner, token2022_mint_extension_types(mint_data@)) {
            Err(e) => Err(regions_mint_error(e)),
            Ok(_) => Ok(fresh_config(*params, authority, xcav_mint, treasury, bump)),
        },
{
    if let Err(e) = params.validate() {
        return Err(e);
    }
    match require_supported_mint(mint_owner, mint_data) {
        Err(MintGuardError::InvalidMintData) => return Err(RegionsError::InvalidMintData),
        Err(MintGuardError::UnsupportedMintExtension) => return Err(RegionsError::UnsupportedMintExtension),
        Ok(()) => {},
    }
    let mut config = Config {
        authority,
        xcav_mint,
        treasury,
        proposal_deposit: 0,
        minimum_voting_amount: 0,
        minimum_region_deposit: 0,
        voting_period: 0,
        auction_period: 0,
        owner_change_period: 0,
        threshold_bps: 0,
        quorum: 0,
        removal_deposit: 0,
        removal_voting_period: 0,
        slash_amount: 0,
        notice_period: 0,
        allowed_strikes: 0,
        proposal_counter: 0,
        bump,
    };
    params.apply(&mut config);
    Ok(config)
}

/// Update the governance parameters. Authority-only.
pub fn update_config(config: &mut Config, signer: Key, params: &ConfigParams) -> (r: Result<(), RegionsError>)
    ensures
        old(config).authority != signer ==> r == Err::<(), RegionsError>(RegionsError::NotAuthority),
        old(config).authority == signer && !params.is_valid() ==> r == Err::<(), RegionsError>(
            RegionsError::InvalidConfig,
        ),
        old(config).authority == signer && params.is_valid() ==> r is Ok,
        r is Ok ==> *final(config) == params.applied_to(*old(config)),
        r is Err ==> *final(config) == *old(config),
{
    if config.authority != signer {
        return Err(RegionsError::NotAuthority);
    }
    if let Err(e) = params.validate() {
        return Err(e);
    }
    params.apply(config);
    Ok(())
}

/// Rotate the authority. Only the current authority may call this, and the new
/// authority may not be the zero address.
pub fn update_authority(config: &mut Config, signer: Key, new_authority: Key) -> (r: Result<(), RegionsError>)
    ensures
        old(config).authority != signer ==> r == Err::<(), RegionsError>(RegionsError::NotAuthority),
        old(config).authority == signer && new_authority == Key::zero_spec() ==> r == Err::<
            (),
            RegionsError,
        >(RegionsError::InvalidConfig),
        old(config).authority == signer && new_authority != Key::zero_spec() ==> r is Ok,
        r is Ok ==> *final(config) == (Config { authority: new_authority, ..*old(config) }),
        r is Err ==> *final(config) == *old(config),
{
    if config.authority != signer {
        return Err(RegionsError::NotAuthority);
    }
    if new_authority.is_zero() {
        return Err(RegionsError::InvalidConfig);
    }
    config.authority = new_authority;
    Ok(())
}

/// Move `amount` out of the treasury to a destination account. Authority-only;
/// `treasury` is the account supplied as the treasury.
pub fn withdraw_treasury(config: &Config, signer: Key, treasury: Key, amount: u64) -> (r: Result<
    Vec<Effect>,
    RegionsError,
>)
    ensures
        config.authority != signer ==> r == Err::<Vec<Effect>, RegionsError>(RegionsError::NotAuthority),
        config.authority == signer && config.treasury != treasury ==> r == Err::<Vec<Effect>, RegionsError>(
            RegionsError::InvalidTreasury,
        ),
        config.authority == signer && config.treasury == treasury && amount == 0 ==> r == Err::<
            Vec<Effect>,
            RegionsError,
        >(RegionsError::InvalidConfig),
        config.authority == signer && config.treasury == treasury && amount > 0 ==> (r matches Ok(
            v,
        ) && v@ == seq![mv(Pot::Treasury, Pot::Destination, amount)]),
{
    if config.authority != signer {
        return Err(RegionsError::NotAuthority);
    }
    if config.treasury != treasury {
        return Err(RegionsError::InvalidTreasury);
    }
    if amount == 0 {
        return Err(RegionsError::InvalidConfig);
    }
    Ok(vec![make_move(Pot::Treasury, Pot::Destination, amount)])
}

} // verus!

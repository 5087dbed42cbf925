//! Learning-module state: the protocol config, modules and their token
//! allocations, sponsorships, bookings, deliverers, cancellations, module
//! proposals and credentials.
use vstd::prelude::*;

use crate::errors::EducationError;
use crate::key::Key;

verus! {

/// The length in bytes of a string's UTF-8 encoding, as `str::len` reports it.
pub open spec fn text_len(s: &String) -> usize {
    vstd::utf8::encode_utf8(s@).len() as usize
}

/// Whether a string's UTF-8 encoding is at most `max` bytes.
pub fn fits(s: &String, max: usize) -> (r: bool)
    ensures
        r == (text_len(s) <= max),
{
    s.as_str().len() <= max
}

/// A participant role in the roles program.
#[derive(Clone, Copy, Debug, PartialEq, Eq, Structural)]
pub enum Role {
    RegionalOperator,
    ModuleCreator,
    ModuleSponsor,
    ModuleBooker,
    ModuleDeliverer,
    ModuleAIAgent,
}

/// Singleton config holding every protocol parameter and the authority.
#[derive(Clone, Copy, Debug)]
pub struct Config {
    pub authority: Key,
    pub xcav_mint: Key,
    pub treasury: Key,
    pub protocol_authority: Key,
    pub module_deposit: u64,
    pub booking_deposit: u64,
    pub deliverer_deposit: u64,
    pub module_price: u64,
    pub max_module_tokens: u64,
    pub content_creator_bps: u16,
    pub regional_operator_bps: u16,
    pub protocol_bps: u16,
    pub dbs_bps: u16,
    pub min_impact_score_bps: u16,
    pub sponsorship_window: i64,
    pub cancellation_window: i64,
    pub no_show_grace: i64,
    /// Seconds after a score lands during which a party may dispute it.
    pub dispute_window: i64,
    pub max_cancellations: u32,
    pub max_strikes: u8,
    pub strike_slash_bps: u16,
    pub deliveries_per_strike_reduction: u32,
    pub proposal_deposit: u64,
    pub minimum_voting_amount: u64,
    pub voting_period: i64,
    pub threshold_bps: u16,
    pub quorum: u64,
    pub pre_sponsor_amount: u64,
    pub claim_period: i64,
    pub upload_period: i64,
    /// Accepted payment mints. A zeroed key is an unused slot.
    pub accepted_assets: [Key; 3],
    pub next_module_id: u64,
    pub next_sponsor_id: u64,
    pub next_booking_id: u64,
    pub next_proposal_id: u64,
    pub bump: u8,
}

impl Config {
    /// Whether `mint` is one of the configured payment assets.
    /// A zeroed key marks an unused slot, so it is never accepted.
    pub open spec fn accepts_spec(&self, mint: Key) -> bool {
        &&& mint != Key::zero_spec()
        &&& exists|i: int| 0 <= i < 3 && self.accepted_assets[i] == mint
    }

    /// Whether `mint` is one of the configured payment assets.
    pub fn accepts(&self, mint: &Key) -> (r: bool)
        ensures
            r == self.accepts_spec(*mint),
    {
        let r = !mint.is_zero() && (self.accepted_assets[0] == *mint || self.accepted_assets[1]
            == *mint || self.accepted_assets[2] == *mint);
        proof {
            if r {
                if self.accepted_assets[0] == *mint {
                    assert(0 <= 0int < 3 && self.accepted_assets[0int] == *mint);
                } else if self.accepted_assets[1] == *mint {
                    assert(0 <= 1int < 3 && self.accepted_assets[1int] == *mint);
                } else {
                    assert(0 <= 2int < 3 && self.accepted_assets[2int] == *mint);
                }
            }
        }
        r
    }
}

/// A learning module: its fractionalized supply and how it is allocated.
/// Tokens flow sponsor allocation -> school allocation -> student allocation
/// as the module is sponsored, booked and claimed, and are burned on delivery.
#[derive(Clone, Debug)]
pub struct Module {
    pub module_id: u64,
    pub creator: Key,
    pub region: u16,
    pub mint: Key,
    pub deposit: u64,
    pub total_token_amount: u64,
    pub sponsor_allocation: u64,
    pub school_allocation: u64,
    pub student_allocation: u64,
    pub price: u64,
    pub content_creator_bps: u16,
    pub regional_operator_bps: u16,
    pub protocol_bps: u16,
    pub dbs_bps: u16,
    pub created_at: i64,
    pub metadata: String,
    pub bump: u8,
}

/// The module tokens held in one of the three allocations.
pub open spec fn allocated(m: Module) -> int {
    m.sponsor_allocation + m.school_allocation + m.student_allocation
}

/// `n` tokens move from the sponsor allocation to the school allocation.
pub open spec fn module_after_sponsoring(m: Module, n: u64) -> Module {
    Module {
        sponsor_allocation: (m.sponsor_allocation - n) as u64,
        school_allocation: (m.school_allocation + n) as u64,
        ..m
    }
}

/// `n` unbooked tokens move back from the school allocation to the sponsor
/// allocation.
pub open spec fn module_after_reclaim(m: Module, n: u64) -> Module {
    Module {
        school_allocation: (m.school_allocation - n) as u64,
        sponsor_allocation: (m.sponsor_allocation + n) as u64,
        ..m
    }
}

/// A booked token moves from the school allocation to the student allocation.
pub open spec fn module_after_booking(m: Module) -> Module {
    Module {
        school_allocation: (m.school_allocation - 1) as u64,
        student_allocation: (m.student_allocation + 1) as u64,
        ..m
    }
}

/// A claimed token leaves the student allocation for delivery.
pub open spec fn module_after_claim(m: Module) -> Module {
    Module { student_allocation: (m.student_allocation - 1) as u64, ..m }
}

/// A withdrawn claim returns its token to the student allocation.
pub open spec fn module_after_claim_withdrawn(m: Module) -> Module {
    Module { student_allocation: (m.student_allocation + 1) as u64, ..m }
}

/// A cancelled booking's token returns to the school allocation, out of the
/// student allocation unless a lecturer had already claimed it.
pub open spec fn module_after_cancellation(m: Module, claimed: bool) -> Module {
    if claimed {
        Module { school_allocation: (m.school_allocation + 1) as u64, ..m }
    } else {
        Module {
            school_allocation: (m.school_allocation + 1) as u64,
            student_allocation: (m.student_allocation - 1) as u64,
            ..m
        }
    }
}

/// A booking takes one token off a sponsorship and counts it as open.
pub open spec fn sponsorship_after_booking(s: Sponsorship) -> Sponsorship {
    Sponsorship {
        amount: (s.amount - 1) as u64,
        active_bookings: (s.active_bookings + 1) as u32,
        ..s
    }
}

/// A cancelled booking's token becomes bookable on its sponsorship again.
pub open spec fn sponsorship_after_cancellation(s: Sponsorship) -> Sponsorship {
    Sponsorship {
        amount: (s.amount + 1) as u64,
        active_bookings: (s.active_bookings - 1) as u32,
        ..s
    }
}

/// The longest module, booking or proposal metadata, in bytes.
pub const METADATA_MAX_LEN: usize = 200;

/// The longest content or credential uri, in bytes.
pub const URI_MAX_LEN: usize = 200;

/// A sponsor's funding of a module: `amount` tokens still bookable, each paid
/// for at `price_per_token` in the sponsor escrow.
#[derive(Clone, Copy, Debug)]
pub struct Sponsorship {
    pub module_id: u64,
    pub sponsor_id: u64,
    pub sponsor: Key,
    pub payment_asset: Key,
    pub amount: u64,
    pub active_bookings: u32,
    pub price_per_token: u64,
    pub sponsored_at: i64,
    pub bump: u8,
}

/// A school's booking of one module token.
#[derive(Clone, Debug)]
pub struct Booking {
    pub module_id: u64,
    pub booking_id: u64,
    pub sponsor_id: u64,
    pub sponsor: Key,
    pub school: Key,
    pub lecturer: Option<Key>,
    pub payment_asset: Key,
    pub price_per_token: u64,
    pub score: Option<u16>,
    pub deposit: u64,
    pub booked_at: i64,
    pub delivery_at: i64,
    pub claimed_at: Option<i64>,
    /// When the score was submitted.
    pub score_at: Option<i64>,
    /// Whether the payment has been settled.
    pub settled: bool,
    /// Who raised a dispute over the score, if anyone.
    pub disputer: Option<Key>,
    /// The amended score a dispute proposes, awaiting the counterparty.
    pub proposed_score: Option<u16>,
    pub metadata: String,
    pub bump: u8,
}

/// A lecturer's registration to deliver modules.
#[derive(Clone, Copy, Debug)]
pub struct Deliverer {
    pub deliverer: Key,
    pub deposit: u64,
    pub active_claims: u32,
    pub active_strikes: u8,
    pub successful_deliveries: u32,
    pub bump: u8,
}

/// A school's rolling count of recent cancellations.
#[derive(Clone, Copy, Debug)]
pub struct CancellationCounter {
    pub school: Key,
    pub count: u32,
    pub bump: u8,
}

/// One recorded cancellation, kept until it ages out of the window.
#[derive(Clone, Copy, Debug)]
pub struct Cancellation {
    pub school: Key,
    pub booking_id: u64,
    pub module_id: u64,
    pub created_at: i64,
    pub bump: u8,
}

/// How a voter sided on a module proposal.
#[derive(Clone, Copy, Debug, PartialEq, Eq, Structural)]
pub enum ModuleVote {
    Yes,
    No,
    Abstain,
}

/// Where a module proposal is in its lifecycle.
#[derive(Clone, Copy, Debug, PartialEq, Eq, Structural)]
pub enum ProposalStatus {
    Voting,
    Claimable,
    Claimed,
    UnderReview,
    Approved,
    Created,
    Rejected,
}

/// The most creators a proposal can ban.
pub const MAX_BANNED: usize = 8;

/// A community proposal to open a learning module.
#[derive(Clone, Debug)]
pub struct ModuleProposal {
    pub proposal_id: u64,
    pub proposer: Key,
    pub proposer_role: Role,
    pub region: u16,
    pub status: ProposalStatus,
    pub created_at: i64,
    pub expiry: i64,
    pub deposit: u64,
    pub yes_power: u64,
    pub no_power: u64,
    pub abstain_power: u64,
    pub module_amount: u64,
    pub price: u64,
    pub content_creator_bps: u16,
    pub regional_operator_bps: u16,
    pub protocol_bps: u16,
    pub dbs_bps: u16,
    pub claimant: Option<Key>,
    pub claim_bond: u64,
    pub upload_deadline: i64,
    pub claimant_failures: u8,
    pub banned: Vec<Key>,
    pub build_deadline: i64,
    pub payment_asset: Key,
    pub pre_sponsor_amount: u64,
    pub pre_sponsor_price_per_token: u64,
    pub metadata: String,
    pub content_uri: String,
    pub bump: u8,
}

impl ModuleProposal {
    /// The payment the locked pre-sponsorship escrow should hold, if it fits.
    pub open spec fn pre_sponsor_locked_spec(&self) -> Option<u64> {
        if self.pre_sponsor_price_per_token * self.pre_sponsor_amount > u64::MAX {
            None
        } else {
            Some((self.pre_sponsor_price_per_token * self.pre_sponsor_amount) as u64)
        }
    }

    /// Total payment the locked pre-sponsorship escrow should hold.
    pub fn pre_sponsor_locked(&self) -> (r: Option<u64>)
        ensures
            r == self.pre_sponsor_locked_spec(),
    {
        self.pre_sponsor_price_per_token.checked_mul(self.pre_sponsor_amount)
    }
}

/// One voter's locked vote on a module proposal.
#[derive(Clone, Copy, Debug)]
pub struct ModuleProposalVote {
    pub proposal_id: u64,
    pub voter: Key,
    pub vote: ModuleVote,
    pub power: u64,
    pub expiry: i64,
    pub bump: u8,
}

/// Who a credential is issued to.
#[derive(Clone, Copy, Debug, PartialEq, Eq, Structural)]
pub enum CredentialKind {
    Sponsor,
    School,
    Lecturer,
    Student,
}

impl CredentialKind {
    /// The byte a credential's address is derived with.
    pub open spec fn seed_byte_spec(&self) -> u8 {
        match self {
            CredentialKind::Sponsor => 0,
            CredentialKind::School => 1,
            CredentialKind::Lecturer => 2,
            CredentialKind::Student => 3,
        }
    }

    /// The byte a credential's address is derived with: 0 sponsor, 1 school,
    /// 2 lecturer, 3 student.
    pub fn seed_byte(&self) -> (r: u8)
        ensures
            r == self.seed_byte_spec(),
    {
        match self {
            CredentialKind::Sponsor => 0,
            CredentialKind::School => 1,
            CredentialKind::Lecturer => 2,
            CredentialKind::Student => 3,
        }
    }
}

/// A non-transferable credential issued once a booking is scored.
#[derive(Clone, Debug)]
pub struct Credential {
    pub recipient: Key,
    pub module_id: u64,
    pub booking_id: u64,
    pub kind: CredentialKind,
    pub score: Option<u16>,
    pub issued_at: i64,
    pub uri: String,
    pub bump: u8,
}

/// Protocol parameters the authority sets.
#[derive(Clone, Copy, Debug)]
pub struct ConfigParams {
    pub module_deposit: u64,
    pub booking_deposit: u64,
    pub deliverer_deposit: u64,
    pub module_price: u64,
    pub max_module_tokens: u64,
    pub content_creator_bps: u16,
    pub regional_operator_bps: u16,
    pub protocol_bps: u16,
    pub dbs_bps: u16,
    pub min_impact_score_bps: u16,
    pub sponsorship_window: i64,
    pub cancellation_window: i64,
    pub max_cancellations: u32,
    pub max_strikes: u8,
    pub strike_slash_bps: u16,
    pub deliveries_per_strike_reduction: u32,
    pub accepted_assets: [Key; 3],
}

impl ConfigParams {
    /// Fee shares summing to at most 100%, slash and minimum score shares at
    /// most 100%, positive windows, price and token cap.
    pub open spec fn is_valid(&self) -> bool {
        &&& self.content_creator_bps + self.regional_operator_bps + self.protocol_bps + self.dbs_bps
            <= 10_000
        &&& self.strike_slash_bps <= 10_000 && self.min_impact_score_bps <= 10_000
        &&& self.sponsorship_window > 0 && self.cancellation_window > 0
        &&& self.module_price > 0
        &&& self.max_module_tokens > 0
    }

    /// Reject broken parameters up front.
    pub fn validate(&self) -> (r: Result<(), EducationError>)
        ensures
            r == (if self.is_valid() {
                Ok::<(), EducationError>(())
            } else {
                Err::<(), EducationError>(EducationError::InvalidConfig)
            }),
    {
        let fee_total: u32 = (self.content_creator_bps as u32) + (self.regional_operator_bps as u32)
            + (self.protocol_bps as u32) + (self.dbs_bps as u32);
        if !(fee_total <= 10_000) {
            return Err(EducationError::InvalidConfig);
        }
        if !(self.strike_slash_bps <= 10_000 && self.min_impact_score_bps <= 10_000) {
            return Err(EducationError::InvalidConfig);
        }
        if !(self.sponsorship_window > 0 && self.cancellation_window > 0) {
            return Err(EducationError::InvalidConfig);
        }
        if !(self.module_price > 0) {
            return Err(EducationError::InvalidConfig);
        }
        if !(self.max_module_tokens > 0) {
            return Err(EducationError::InvalidConfig);
        }
        Ok(())
    }

    /// `config` with these parameters written over it.
    pub open spec fn applied_to(&self, config: Config) -> Config {
        Config {
            module_deposit: self.module_deposit,
            booking_deposit: self.booking_deposit,
            deliverer_deposit: self.deliverer_deposit,
            module_price: self.module_price,
            max_module_tokens: self.max_module_tokens,
            content_creator_bps: self.content_creator_bps,
            regional_operator_bps: self.regional_operator_bps,
            protocol_bps: self.protocol_bps,
            dbs_bps: self.dbs_bps,
            min_impact_score_bps: self.min_impact_score_bps,
            sponsorship_window: self.sponsorship_window,
            cancellation_window: self.cancellation_window,
            max_cancellations: self.max_cancellations,
            max_strikes: self.max_strikes,
            strike_slash_bps: self.strike_slash_bps,
            deliveries_per_strike_reduction: self.deliveries_per_strike_reduction,
            accepted_assets: self.accepted_assets,
            ..config
        }
    }

    /// Write the parameters into `config`.
    pub fn apply(&self, config: &mut Config)
        ensures
            *final(config) == self.applied_to(*old(config)),
    {
        config.module_deposit = self.module_deposit;
        config.booking_deposit = self.booking_deposit;
        config.deliverer_deposit = self.deliverer_deposit;
        config.module_price = self.module_price;
        config.max_module_tokens = self.max_module_tokens;
        config.content_creator_bps = self.content_creator_bps;
        config.regional_operator_bps = self.regional_operator_bps;
        config.protocol_bps = self.protocol_bps;
        config.dbs_bps = self.dbs_bps;
        config.min_impact_score_bps = self.min_impact_score_bps;
        config.sponsorship_window = self.sponsorship_window;
        config.cancellation_window = self.cancellation_window;
        config.max_cancellations = self.max_cancellations;
        config.max_strikes = self.max_strikes;
        config.strike_slash_bps = self.strike_slash_bps;
        config.deliveries_per_strike_reduction = self.deliveries_per_strike_reduction;
        config.accepted_assets = self.accepted_assets;
    }
}

/// The config a fresh initialization writes: parameters applied, every other
/// value zero.
pub open spec fn fresh_config(
    params: ConfigParams,
    authority: Key,
    xcav_mint: Key,
    treasury: Key,
    protocol_authority: Key,
    bump: u8,
) -> Config {
    params.applied_to(
        Config {
            authority,
            xcav_mint,
            treasury,
            protocol_authority,
            module_deposit: 0,
            booking_deposit: 0,
            deliverer_deposit: 0,
            module_price: 0,
            max_module_tokens: 0,
            content_creator_bps: 0,
            regional_operator_bps: 0,
            protocol_bps: 0,
            dbs_bps: 0,
            min_impact_score_bps: 0,
            sponsorship_window: 0,
            cancellation_window: 0,
            no_show_grace: 0,
            dispute_window: 0,
            max_cancellations: 0,
            max_strikes: 0,
            strike_slash_bps: 0,
            deliveries_per_strike_reduction: 0,
            proposal_deposit: 0,
            minimum_voting_amount: 0,
            voting_period: 0,
            threshold_bps: 0,
            quorum: 0,
            pre_sponsor_amount: 0,
            claim_period: 0,
            upload_period: 0,
            accepted_assets: [Key::zero_spec(), Key::zero_spec(), Key::zero_spec()],
            next_module_id: 0,
            next_sponsor_id: 0,
            next_booking_id: 0,
            next_proposal_id: 0,
            bump,
        },
    )
}

/// Build the singleton config with the signer as its authority.
pub fn initialize_config(
    params: &ConfigParams,
    authority: Key,
    xcav_mint: Key,
    treasury: Key,
    protocol_authority: Key,
    bump: u8,
) -> (r: Result<Config, EducationError>)
    ensures
        !params.is_valid() ==> r == Err::<Config, EducationError>(EducationError::InvalidConfig),
        params.is_valid() ==> r == Ok::<Config, EducationError>(
            fresh_config(*params, authority, xcav_mint, treasury, protocol_authority, bump),
        ),
{
    if let Err(e) = params.validate() {
        return Err(e);
    }
    let mut config = Config {
        authority,
        xcav_mint,
        treasury,
        protocol_authority,
        module_deposit: 0,
        booking_deposit: 0,
        deliverer_deposit: 0,
        module_price: 0,
        max_module_tokens: 0,
        content_creator_bps: 0,
        regional_operator_bps: 0,
        protocol_bps: 0,
        dbs_bps: 0,
        min_impact_score_bps: 0,
        sponsorship_window: 0,
        cancellation_window: 0,
        no_show_grace: 0,
        dispute_window: 0,
        max_cancellations: 0,
        max_strikes: 0,
        strike_slash_bps: 0,
        deliveries_per_strike_reduction: 0,
        proposal_deposit: 0,
        minimum_voting_amount: 0,
        voting_period: 0,
        threshold_bps: 0,
        quorum: 0,
        pre_sponsor_amount: 0,
        claim_period: 0,
        upload_period: 0,
        accepted_assets: [Key::zero(), Key::zero(), Key::zero()],
        next_module_id: 0,
        next_sponsor_id: 0,
        next_booking_id: 0,
        next_proposal_id: 0,
        bump,
    };
    params.apply(&mut config);
    Ok(config)
}

/// Update the protocol parameters, the treasury and the protocol fee
/// authority. Authority-only.
pub fn update_config(
    config: &mut Config,
    signer: Key,
    treasury: Key,
    protocol_authority: Key,
    params: &ConfigParams,
) -> (r: Result<(), EducationError>)
    ensures
        old(config).authority != signer ==> r == Err::<(), EducationError>(EducationError::NotAuthority),
        old(config).authority == signer && !params.is_valid() ==> r == Err::<(), EducationError>(
            EducationError::InvalidConfig,
        ),
        old(config).authority == signer && params.is_valid() ==> r is Ok,
        r is Ok ==> *final(config) == params.applied_to(
            Config { treasury, protocol_authority, ..*old(config) },
        ),
        r is Err ==> *final(config) == *old(config),
{
    if config.authority != signer {
        return Err(EducationError::NotAuthority);
    }
    if let Err(e) = params.validate() {
        return Err(e);
    }
    config.treasury = treasury;
    config.protocol_authority = protocol_authority;
    params.apply(config);
    Ok(())
}

/// Rotate the authority. Current-authority-only.
pub fn update_authority(config: &mut Config, signer: Key, new_authority: Key) -> (r: Result<(), EducationError>)
    ensures
        old(config).authority != signer ==> r == Err::<(), EducationError>(EducationError::NotAuthority),
        old(config).authority == signer ==> r is Ok && *final(config) == (Config {
            authority: new_authority,
            ..*old(config)
        }),
        r is Err ==> *final(config) == *old(config),
{
    if config.authority != signer {
        return Err(EducationError::NotAuthority);
    }
    config.authority = new_authority;
    Ok(())
}

} // verus!

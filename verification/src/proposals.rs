//! Community module proposals: anyone holding a participant role may propose a
//! module, anyone may vote by locking XCAV, and a passed proposal is claimed by
//! a creator, uploaded, reviewed by the AI agent and minted.
use vstd::prelude::*;

use crate::education::{
    fits, text_len, Config, Module, ModuleProposal, ModuleProposalVote, ModuleVote, ProposalStatus,
    Role, Sponsorship, MAX_BANNED, METADATA_MAX_LEN, URI_MAX_LEN,
};
use crate::effects::{lemma_net_into_one, mv, make_move, net_into, Effect, Pot};
use crate::errors::EducationError;
use crate::governance::{approval_met, meets_approval, sat_add_i64, sat_add_i64_spec, sat_sub_u64_spec};
use crate::key::Key;
use crate::modules::{blank_module, module_from_terms, write_module, ModuleTerms};
use crate::pricing::{price_per_token, price_per_token_spec};

verus! {

/// Roles allowed to open a proposal: creators, sponsors, schools and lecturers.
pub open spec fn is_proposer_role_spec(role: Role) -> bool {
    role == Role::ModuleCreator || role == Role::ModuleSponsor || role == Role::ModuleBooker || role
        == Role::ModuleDeliverer
}

/// Whether `role` may open a proposal.
pub fn is_proposer_role(role: Role) -> (r: bool)
    ensures
        r == is_proposer_role_spec(role),
{
    match role {
        Role::ModuleCreator | Role::ModuleSponsor | Role::ModuleBooker | Role::ModuleDeliverer => true,
        _ => false,
    }
}

/// `p` is a freshly opened proposal: voting, pricing snapshotted from `config`,
/// no tally, no claimant, no pre-sponsorship.
pub open spec fn is_fresh_proposal(
    p: ModuleProposal,
    config: Config,
    proposal_id: u64,
    proposer: Key,
    role: Role,
    region: u16,
    module_amount: u64,
    metadata: String,
    now: i64,
    bump: u8,
) -> bool {
    &&& p.proposal_id == proposal_id
    &&& p.proposer == proposer
    &&& p.proposer_role == role
    &&& p.region == region
    &&& p.status == ProposalStatus::Voting
    &&& p.created_at == now
    &&& p.expiry == sat_add_i64_spec(now, config.voting_period)
    &&& p.deposit == config.proposal_deposit
    &&& p.yes_power == 0 && p.no_power == 0 && p.abstain_power == 0
    &&& p.module_amount == module_amount
    &&& p.price == config.module_price
    &&& p.content_creator_bps == config.content_creator_bps
    &&& p.regional_operator_bps == config.regional_operator_bps
    &&& p.protocol_bps == config.protocol_bps
    &&& p.dbs_bps == config.dbs_bps
    &&& p.claimant is None
    &&& p.claim_bond == 0
    &&& p.upload_deadline == 0
    &&& p.claimant_failures == 0
    &&& p.banned@ == Seq::<Key>::empty()
    &&& p.build_deadline == 0
    &&& p.payment_asset == Key::zero_spec()
    &&& p.pre_sponsor_amount == 0
    &&& p.pre_sponsor_price_per_token == 0
    &&& p.metadata == metadata
    &&& p.content_uri@ == Seq::<char>::empty()
    &&& p.bump == bump
}

/// Open a proposal record, snapshotting the config's pricing so the module is
/// built on the terms it was voted on.
pub fn init_proposal_common(
    config: &Config,
    proposal_id: u64,
    proposer: Key,
    role: Role,
    region: u16,
    module_amount: u64,
    metadata: String,
    now: i64,
    bump: u8,
) -> (p: ModuleProposal)
    ensures
        is_fresh_proposal(p, *config, proposal_id, proposer, role, region, module_amount, metadata, now, bump),
{
    ModuleProposal {
        proposal_id,
        proposer,
        proposer_role: role,
        region,
        status: ProposalStatus::Voting,
        created_at: now,
        expiry: sat_add_i64(now, config.voting_period),
        deposit: config.proposal_deposit,
        yes_power: 0,
        no_power: 0,
        abstain_power: 0,
        module_amount,
        price: config.module_price,
        content_creator_bps: config.content_creator_bps,
        regional_operator_bps: config.regional_operator_bps,
        protocol_bps: config.protocol_bps,
        dbs_bps: config.dbs_bps,
        claimant: None,
        claim_bond: 0,
        upload_deadline: 0,
        claimant_failures: 0,
        banned: Vec::new(),
        build_deadline: 0,
        payment_asset: Key::zero(),
        pre_sponsor_amount: 0,
        pre_sponsor_price_per_token: 0,
        metadata,
        content_uri: String::new(),
        bump,
    }
}

/// Why opening a proposal would be refused (before any role-specific check).
pub open spec fn proposal_shape_error(config: Config, module_amount: u64, metadata: String) -> Option<EducationError> {
    if module_amount == 0 {
        Some(EducationError::AmountCannotBeZero)
    } else if module_amount > config.max_module_tokens {
        Some(EducationError::TooManyTokens)
    } else if text_len(&metadata) > METADATA_MAX_LEN {
        Some(EducationError::InvalidConfig)
    } else {
        None
    }
}

/// Open a proposal to create a module under one of the participant roles,
/// locking the proposal deposit.
pub fn create_module_proposal(
    config: &mut Config,
    proposer: Key,
    role: Role,
    region: u16,
    module_amount: u64,
    metadata: String,
    now: i64,
    bump: u8,
) -> (r: Result<(ModuleProposal, Vec<Effect>), EducationError>)
    ensures
        !is_proposer_role_spec(role) ==> r == Err::<(ModuleProposal, Vec<Effect>), EducationError>(
            EducationError::InvalidProposalRole,
        ),
        is_proposer_role_spec(role) ==> (proposal_shape_error(*old(config), module_amount, metadata) matches Some(
            e,
        ) ==> r == Err::<(ModuleProposal, Vec<Effect>), EducationError>(e)),
        is_proposer_role_spec(role) && proposal_shape_error(*old(config), module_amount, metadata) is None
            ==> if old(config).next_proposal_id == u64::MAX {
            r == Err::<(ModuleProposal, Vec<Effect>), EducationError>(EducationError::Overflow)
        } else {
            &&& r matches Ok((p, v)) && is_fresh_proposal(
                p,
                *old(config),
                old(config).next_proposal_id,
                proposer,
                role,
                region,
                module_amount,
                metadata,
                now,
                bump,
            ) && v@ == seq![mv(Pot::Proposer, Pot::Vault, old(config).proposal_deposit)]
            &&& *final(config) == (Config {
                next_proposal_id: (old(config).next_proposal_id + 1) as u64,
                ..*old(config)
            })
        },
        r is Err ==> *final(config) == *old(config),
{
    if !is_proposer_role(role) {
        return Err(EducationError::InvalidProposalRole);
    }
    if module_amount == 0 {
        return Err(EducationError::AmountCannotBeZero);
    }
    if module_amount > config.max_module_tokens {
        return Err(EducationError::TooManyTokens);
    }
    if !fits(&metadata, METADATA_MAX_LEN) {
        return Err(EducationError::InvalidConfig);
    }
    let proposal_id = config.next_proposal_id;
    if proposal_id == u64::MAX {
        return Err(EducationError::Overflow);
    }
    let deposit = config.proposal_deposit;
    let proposal = init_proposal_common(
        config,
        proposal_id,
        proposer,
        role,
        region,
        module_amount,
        metadata,
        now,
        bump,
    );
    config.next_proposal_id = proposal_id + 1;
    Ok((proposal, vec![make_move(Pot::Proposer, Pot::Vault, deposit)]))
}

/// The per-token price of the config's current terms in an asset.
pub open spec fn config_price_spec(config: Config, decimals: u8) -> Result<u64, EducationError> {
    price_per_token_spec(
        config.module_price,
        decimals,
        config.content_creator_bps,
        config.regional_operator_bps,
        config.protocol_bps,
        config.dbs_bps,
    )
}

/// Why a sponsor proposal would be refused after its shape checks, in order.
pub open spec fn sponsor_proposal_error(config: Config, module_amount: u64, payment_mint: Key, decimals: u8) -> Option<
    EducationError,
> {
    if !config.accepts_spec(payment_mint) {
        Some(EducationError::PaymentAssetNotSupported)
    } else if config.pre_sponsor_amount == 0 {
        Some(EducationError::InvalidConfig)
    } else if config.pre_sponsor_amount > module_amount {
        Some(EducationError::NotEnoughTokenAvailable)
    } else {
        match config_price_spec(config, decimals) {
            Err(e) => Some(e),
            Ok(per_token) => if per_token * config.pre_sponsor_amount > u64::MAX || config.next_proposal_id
                == u64::MAX {
                Some(EducationError::Overflow)
            } else {
                None
            },
        }
    }
}

/// Open a proposal as a sponsor and pre-fund it: on top of the proposal
/// deposit, the payment for the configured pre-sponsored tokens is locked in
/// the proposal escrow at the current terms.
pub fn create_sponsor_proposal(
    config: &mut Config,
    proposer: Key,
    region: u16,
    module_amount: u64,
    metadata: String,
    payment_mint: Key,
    payment_decimals: u8,
    now: i64,
    bump: u8,
) -> (r: Result<(ModuleProposal, Vec<Effect>), EducationError>)
    ensures
        proposal_shape_error(*old(config), module_amount, metadata) matches Some(e) ==> r == Err::<
            (ModuleProposal, Vec<Effect>),
            EducationError,
        >(e),
        proposal_shape_error(*old(config), module_amount, metadata) is None ==> (sponsor_proposal_error(
            *old(config),
            module_amount,
            payment_mint,
            payment_decimals,
        ) matches Some(e) ==> r == Err::<(ModuleProposal, Vec<Effect>), EducationError>(e)),
        proposal_shape_error(*old(config), module_amount, metadata) is None && sponsor_proposal_error(
            *old(config),
            module_amount,
            payment_mint,
            payment_decimals,
        ) is None ==> {
            let per_token = config_price_spec(*old(config), payment_decimals)->Ok_0;
            let pre = old(config).pre_sponsor_amount;
            &&& r matches Ok((p, v)) && is_fresh_proposal(
                ModuleProposal {
                    payment_asset: Key::zero_spec(),
                    pre_sponsor_amount: 0,
                    pre_sponsor_price_per_token: 0,
                    ..p
                },
                *old(config),
                old(config).next_proposal_id,
                proposer,
                Role::ModuleSponsor,
                region,
                module_amount,
                metadata,
                now,
                bump,
            ) && p.payment_asset == payment_mint && p.pre_sponsor_amount == pre
                && p.pre_sponsor_price_per_token == per_token && v@ == seq![
                mv(Pot::Proposer, Pot::Vault, old(config).proposal_deposit),
                mv(Pot::ProposerPayment, Pot::ProposalEscrow, (per_token * pre) as u64),
            ]
            &&& *final(config) == (Config {
                next_proposal_id: (old(config).next_proposal_id + 1) as u64,
                ..*old(config)
            })
        },
        r is Err ==> *final(config) == *old(config),
{
    if module_amount == 0 {
        return Err(EducationError::AmountCannotBeZero);
    }
    if module_amount > config.max_module_tokens {
        return Err(EducationError::TooManyTokens);
    }
    if !fits(&metadata, METADATA_MAX_LEN) {
        return Err(EducationError::InvalidConfig);
    }
    if !config.accepts(&payment_mint) {
        return Err(EducationError::PaymentAssetNotSupported);
    }
    let pre_sponsor_amount = config.pre_sponsor_amount;
    if pre_sponsor_amount == 0 {
        return Err(EducationError::InvalidConfig);
    }
    if pre_sponsor_amount > module_amount {
        return Err(EducationError::NotEnoughTokenAvailable);
    }
    let per_token = match price_per_token(
        config.module_price,
        payment_decimals,
        config.content_creator_bps,
        config.regional_operator_bps,
        config.protocol_bps,
        config.dbs_bps,
    ) {
        Ok(p) => p,
        Err(e) => return Err(e),
    };
    let total = match per_token.checked_mul(pre_sponsor_amount) {
        Some(t) => t,
        None => return Err(EducationError::Overflow),
    };
    let proposal_id = config.next_proposal_id;
    if proposal_id == u64::MAX {
        return Err(EducationError::Overflow);
    }
    let deposit = config.proposal_deposit;
    let mut proposal = init_proposal_common(
        config,
        proposal_id,
        proposer,
        Role::ModuleSponsor,
        region,
        module_amount,
        metadata,
        now,
        bump,
    );
    proposal.payment_asset = payment_mint;
    proposal.pre_sponsor_amount = pre_sponsor_amount;
    proposal.pre_sponsor_price_per_token = per_token;
    config.next_proposal_id = proposal_id + 1;
    Ok(
        (
            proposal,
            vec![
                make_move(Pot::Proposer, Pot::Vault, deposit),
                make_move(Pot::ProposerPayment, Pot::ProposalEscrow, total),
            ],
        ),
    )
}

/// The power tallied for one side of a module proposal.
pub open spec fn module_power(p: ModuleProposal, v: ModuleVote) -> u64 {
    match v {
        ModuleVote::Yes => p.yes_power,
        ModuleVote::No => p.no_power,
        ModuleVote::Abstain => p.abstain_power,
    }
}

/// `p` with one side's tally set to `x`.
pub open spec fn module_with_power(p: ModuleProposal, v: ModuleVote, x: u64) -> ModuleProposal {
    match v {
        ModuleVote::Yes => ModuleProposal { yes_power: x, ..p },
        ModuleVote::No => ModuleProposal { no_power: x, ..p },
        ModuleVote::Abstain => ModuleProposal { abstain_power: x, ..p },
    }
}

/// `p` with a voter's earlier vote (if the record is set) taken back out.
pub open spec fn module_withdrawn(p: ModuleProposal, rec: ModuleProposalVote) -> ModuleProposal {
    if rec.voter == Key::zero_spec() {
        p
    } else {
        module_with_power(p, rec.vote, sat_sub_u64_spec(module_power(p, rec.vote), rec.power))
    }
}

/// The refund of an earlier module vote's lock, if there is one to return.
pub open spec fn module_revote_refund(rec: ModuleProposalVote) -> Seq<Effect> {
    if rec.voter != Key::zero_spec() && rec.power > 0 {
        seq![mv(Pot::Vault, Pot::Voter, rec.power)]
    } else {
        seq![]
    }
}

fn add_power(p: &mut ModuleProposal, vote: ModuleVote, amount: u64) -> (r: Result<(), EducationError>)
    ensures
        module_power(*old(p), vote) + amount > u64::MAX ==> r == Err::<(), EducationError>(
            EducationError::Overflow,
        ) && *final(p) == *old(p),
        module_power(*old(p), vote) + amount <= u64::MAX ==> r is Ok && *final(p) == module_with_power(
            *old(p),
            vote,
            (module_power(*old(p), vote) + amount) as u64,
        ),
{
    match vote {
        ModuleVote::Yes => match p.yes_power.checked_add(amount) {
            Some(v) => {
                p.yes_power = v;
                Ok(())
            },
            None => Err(EducationError::Overflow),
        },
        ModuleVote::No => match p.no_power.checked_add(amount) {
            Some(v) => {
                p.no_power = v;
                Ok(())
            },
            None => Err(EducationError::Overflow),
        },
        ModuleVote::Abstain => match p.abstain_power.checked_add(amount) {
            Some(v) => {
                p.abstain_power = v;
                Ok(())
            },
            None => Err(EducationError::Overflow),
        },
    }
}

fn sub_power(p: &mut ModuleProposal, vote: ModuleVote, amount: u64)
    ensures
        *final(p) == module_with_power(
            *old(p),
            vote,
            sat_sub_u64_spec(module_power(*old(p), vote), amount),
        ),
{
    match vote {
        ModuleVote::Yes => p.yes_power = p.yes_power.saturating_sub(amount),
        ModuleVote::No => p.no_power = p.no_power.saturating_sub(amount),
        ModuleVote::Abstain => p.abstain_power = p.abstain_power.saturating_sub(amount),
    }
}

fn power_of(p: &ModuleProposal, vote: ModuleVote) -> (r: u64)
    ensures
        r == module_power(*p, vote),
{
    match vote {
        ModuleVote::Yes => p.yes_power,
        ModuleVote::No => p.no_power,
        ModuleVote::Abstain => p.abstain_power,
    }
}

/// Vote on an open proposal by locking XCAV. Voting again replaces the prior
/// vote: its tally is taken back out and its lock refunded.
pub fn vote_on_proposal(
    config: &Config,
    proposal: &mut ModuleProposal,
    record: &mut ModuleProposalVote,
    voter: Key,
    proposal_id: u64,
    vote: ModuleVote,
    amount: u64,
    now: i64,
    record_bump: u8,
) -> (r: Result<Vec<Effect>, EducationError>)
    ensures
        amount < config.minimum_voting_amount ==> r == Err::<Vec<Effect>, EducationError>(
            EducationError::BelowMinimumVotingAmount,
        ),
        amount >= config.minimum_voting_amount && old(proposal).status != ProposalStatus::Voting ==> r
            == Err::<Vec<Effect>, EducationError>(EducationError::InvalidProposalState),
        amount >= config.minimum_voting_amount && old(proposal).status == ProposalStatus::Voting && now
            >= old(proposal).expiry ==> r == Err::<Vec<Effect>, EducationError>(
            EducationError::ProposalExpired,
        ),
        ({
            let w = module_withdrawn(*old(proposal), *old(record));
            amount >= config.minimum_voting_amount && old(proposal).status == ProposalStatus::Voting && now
                < old(proposal).expiry ==> if module_power(w, vote) + amount > u64::MAX {
                r == Err::<Vec<Effect>, EducationError>(EducationError::Overflow)
            } else {
                &&& r matches Ok(v) && v@ == module_revote_refund(*old(record)) + seq![
                    mv(Pot::Voter, Pot::Vault, amount),
                ]
                &&& *final(proposal) == module_with_power(
                    w,
                    vote,
                    (module_power(w, vote) + amount) as u64,
                )
                &&& *final(record) == (ModuleProposalVote {
                    proposal_id,
                    voter,
                    vote,
                    power: amount,
                    expiry: old(proposal).expiry,
                    bump: record_bump,
                })
            }
        }),
        r is Err ==> *final(proposal) == *old(proposal) && *final(record) == *old(record),
{
    if amount < config.minimum_voting_amount {
        return Err(EducationError::BelowMinimumVotingAmount);
    }
    if proposal.status != ProposalStatus::Voting {
        return Err(EducationError::InvalidProposalState);
    }
    if now >= proposal.expiry {
        return Err(EducationError::ProposalExpired);
    }
    let revoting = !record.voter.is_zero();
    let old_power = record.power;
    let old_vote = record.vote;
    let current = power_of(proposal, vote);
    let base: u64 = if revoting && old_vote == vote {
        current.saturating_sub(old_power)
    } else {
        current
    };
    if base.checked_add(amount).is_none() {
        return Err(EducationError::Overflow);
    }
    let mut effects: Vec<Effect> = Vec::new();
    if revoting {
        sub_power(proposal, old_vote, old_power);
        if old_power > 0 {
            effects.push(make_move(Pot::Vault, Pot::Voter, old_power));
        }
    }
    let added = add_power(proposal, vote, amount);
    assert(added is Ok);
    effects.push(make_move(Pot::Voter, Pot::Vault, amount));
    let expiry = proposal.expiry;
    *record = ModuleProposalVote { proposal_id, voter, vote, power: amount, expiry, bump: record_bump };
    Ok(effects)
}

/// A module proposal passes with a non-empty turnout whose Yes share reaches the
/// threshold, and a turnout of at least the quorum.
pub open spec fn module_proposal_passes(p: ModuleProposal, threshold_bps: u16, quorum: u64) -> bool {
    &&& p.yes_power + p.no_power + p.abstain_power != 0
    &&& approval_met(p.yes_power as int, p.no_power as int, threshold_bps as int)
    &&& p.yes_power + p.no_power + p.abstain_power >= quorum
}

/// Finalize a proposal once voting closes (permissionless). A pass returns the
/// proposer's deposit and opens the build window; a failure slashes the deposit
/// to the treasury and rejects the proposal.
pub fn finalize_proposal(config: &Config, proposal: &mut ModuleProposal, now: i64) -> (r: Result<
    Vec<Effect>,
    EducationError,
>)
    ensures
        old(proposal).status != ProposalStatus::Voting ==> r == Err::<Vec<Effect>, EducationError>(
            EducationError::InvalidProposalState,
        ),
        old(proposal).status == ProposalStatus::Voting && now < old(proposal).expiry ==> r == Err::<
            Vec<Effect>,
            EducationError,
        >(EducationError::VotingStillOngoing),
        old(proposal).status == ProposalStatus::Voting && now >= old(proposal).expiry ==> if old(proposal).yes_power + old(proposal).no_power + old(proposal).abstain_power > u64::MAX {
            r == Err::<Vec<Effect>, EducationError>(EducationError::Overflow)
        } else if module_proposal_passes(*old(proposal), config.threshold_bps, config.quorum) {
            &&& r matches Ok(v) && v@ == seq![mv(Pot::Vault, Pot::Proposer, old(proposal).deposit)]
            &&& *final(proposal) == (ModuleProposal {
                status: ProposalStatus::Claimable,
                build_deadline: sat_add_i64_spec(now, config.claim_period),
                ..*old(proposal)
            })
        } else {
            &&& r matches Ok(v) && v@ == seq![mv(Pot::Vault, Pot::Treasury, old(proposal).deposit)]
            &&& *final(proposal) == (ModuleProposal { status: ProposalStatus::Rejected, ..*old(proposal) })
        },
        r is Err ==> *final(proposal) == *old(proposal),
        old(proposal).status == ProposalStatus::Voting && now >= old(proposal).expiry && old(
            proposal,
        ).yes_power + old(proposal).no_power + old(proposal).abstain_power <= u64::MAX ==> r is Ok,
        r is Ok ==> (final(proposal).status == ProposalStatus::Claimable <==> ({
            let turnout = old(proposal).yes_power + old(proposal).no_power + old(proposal).abstain_power;
            &&& turnout != 0
            &&& turnout >= config.quorum
            &&& old(proposal).yes_power * 10_000 >= (old(proposal).yes_power + old(proposal).no_power)
                * config.threshold_bps
        })),
        r is Ok && final(proposal).status == ProposalStatus::Claimable ==> net_into(r->Ok_0@, Pot::Proposer)
            == old(proposal).deposit && net_into(r->Ok_0@, Pot::Treasury) == 0,
        r is Ok && final(proposal).status != ProposalStatus::Claimable ==> final(proposal).status
            == ProposalStatus::Rejected && net_into(r->Ok_0@, Pot::Treasury) == old(proposal).deposit
            && net_into(r->Ok_0@, Pot::Proposer) == 0,
{
    if proposal.status != ProposalStatus::Voting {
        return Err(EducationError::InvalidProposalState);
    }
    if now < proposal.expiry {
        return Err(EducationError::VotingStillOngoing);
    }
    let yes = proposal.yes_power;
    let no = proposal.no_power;
    let approval_base = match yes.checked_add(no) {
        Some(v) => v,
        None => return Err(EducationError::Overflow),
    };
    let total = match approval_base.checked_add(proposal.abstain_power) {
        Some(v) => v,
        None => return Err(EducationError::Overflow),
    };
    let meets_threshold = total != 0 && meets_approval(yes, no, config.threshold_bps);
    let meets_quorum = total >= config.quorum;
    let passed = meets_threshold && meets_quorum;
    let destination = if passed {
        Pot::Proposer
    } else {
        Pot::Treasury
    };
    let effects = vec![make_move(Pot::Vault, destination, proposal.deposit)];
    proof {
        assert(effects@ == seq![mv(Pot::Vault, destination, proposal.deposit)]);
        lemma_net_into_one(mv(Pot::Vault, destination, proposal.deposit), Pot::Proposer);
        lemma_net_into_one(mv(Pot::Vault, destination, proposal.deposit), Pot::Treasury);
    }
    if passed {
        proposal.status = ProposalStatus::Claimable;
        proposal.build_deadline = sat_add_i64(now, config.claim_period);
    } else {
        proposal.status = ProposalStatus::Rejected;
    }
    Ok(effects)
}

/// Whether `who` appears in `banned`.
pub fn is_banned(banned: &Vec<Key>, who: Key) -> (r: bool)
    ensures
        r == banned@.contains(who),
{
    let mut i: usize = 0;
    while i < banned.len()
        invariant
            i <= banned@.len(),
            forall|j: int| 0 <= j < i ==> banned@[j] != who,
        decreases banned@.len() - i,
    {
        if banned[i] == who {
            assert(banned@[i as int] == who);
            return true;
        }
        i = i + 1;
    }
    false
}

/// Why a claim on a proposal would be refused, checked in order.
pub open spec fn claim_proposal_error(p: ModuleProposal, creator: Key) -> Option<EducationError> {
    if p.status != ProposalStatus::Claimable {
        Some(EducationError::InvalidProposalState)
    } else if p.proposer_role == Role::ModuleCreator && p.proposer != creator {
        Some(EducationError::NotProposalCreator)
    } else {
        match p.claimant {
            Some(pending) => if pending != creator {
                Some(EducationError::NotProposalCreator)
            } else {
                None
            },
            None => if p.banned@.contains(creator) {
                Some(EducationError::CreatorBanned)
            } else {
                None
            },
        }
    }
}

/// Claim a passed proposal to build it, locking the module deposit as the
/// build bond. A creator-opened proposal is reserved for its proposer; a
/// pending retry only for the same claimant; banned creators are refused.
pub fn claim_proposal(config: &Config, proposal: &mut ModuleProposal, creator: Key, now: i64) -> (r: Result<
    Vec<Effect>,
    EducationError,
>)
    ensures
        claim_proposal_error(*old(proposal), creator) matches Some(e) ==> r == Err::<Vec<Effect>, EducationError>(
            e,
        ),
        claim_proposal_error(*old(proposal), creator) is None ==> {
            &&& r matches Ok(v) && v@ == seq![mv(Pot::CreatorXcav, Pot::Vault, config.module_deposit)]
            &&& *final(proposal) == (ModuleProposal {
                claimant: Some(creator),
                claim_bond: config.module_deposit,
                upload_deadline: sat_add_i64_spec(now, config.upload_period),
                status: ProposalStatus::Claimed,
                ..*old(proposal)
            })
        },
        r is Err ==> *final(proposal) == *old(proposal),
{
    if proposal.status != ProposalStatus::Claimable {
        return Err(EducationError::InvalidProposalState);
    }
    if proposal.proposer_role == Role::ModuleCreator && proposal.proposer != creator {
        return Err(EducationError::NotProposalCreator);
    }
    match proposal.claimant {
        Some(pending) => {
            if pending != creator {
                return Err(EducationError::NotProposalCreator);
            }
        },
        None => {
            if is_banned(&proposal.banned, creator) {
                return Err(EducationError::CreatorBanned);
            }
        },
    }
    let bond = config.module_deposit;
    proposal.claimant = Some(creator);
    proposal.claim_bond = bond;
    proposal.upload_deadline = sat_add_i64(now, config.upload_period);
    proposal.status = ProposalStatus::Claimed;
    Ok(vec![make_move(Pot::CreatorXcav, Pot::Vault, bond)])
}

/// Upload the content for a reserved proposal and send it for review. Only the
/// reserving claimant may.
pub fn upload_proposal(proposal: &mut ModuleProposal, claimant: Key, content_uri: String) -> (r: Result<
    (),
    EducationError,
>)
    ensures
        text_len(&content_uri) > URI_MAX_LEN ==> r == Err::<(), EducationError>(EducationError::InvalidConfig),
        text_len(&content_uri) <= URI_MAX_LEN && old(proposal).status != ProposalStatus::Claimed ==> r
            == Err::<(), EducationError>(EducationError::InvalidProposalState),
        text_len(&content_uri) <= URI_MAX_LEN && old(proposal).status == ProposalStatus::Claimed && old(proposal).claimant != Some(claimant) ==> r == Err::<(), EducationError>(EducationError::NotProposalCreator),
        text_len(&content_uri) <= URI_MAX_LEN && old(proposal).status == ProposalStatus::Claimed && old(proposal).claimant == Some(claimant) ==> r is Ok && *final(proposal) == (ModuleProposal {
            upload_deadline: 0,
            content_uri,
            status: ProposalStatus::UnderReview,
            ..*old(proposal)
        }),
        r is Err ==> *final(proposal) == *old(proposal),
{
    if !fits(&content_uri, URI_MAX_LEN) {
        return Err(EducationError::InvalidConfig);
    }
    if proposal.status != ProposalStatus::Claimed {
        return Err(EducationError::InvalidProposalState);
    }
    if proposal.claimant != Some(claimant) {
        return Err(EducationError::NotProposalCreator);
    }
    proposal.upload_deadline = 0;
    proposal.content_uri = content_uri;
    proposal.status = ProposalStatus::UnderReview;
    Ok(())
}

/// The bond slash an abandoned or failed build takes, if there is a bond.
pub open spec fn bond_slash(bond: u64) -> Seq<Effect> {
    if bond > 0 {
        seq![mv(Pot::Vault, Pot::Treasury, bond)]
    } else {
        seq![]
    }
}

/// Release a reservation whose upload deadline passed (permissionless): the
/// bond is slashed to the treasury and the proposal reopens.
pub fn release_claim(proposal: &mut ModuleProposal, now: i64) -> (r: Result<Vec<Effect>, EducationError>)
    ensures
        old(proposal).status != ProposalStatus::Claimed ==> r == Err::<Vec<Effect>, EducationError>(
            EducationError::InvalidProposalState,
        ),
        old(proposal).status == ProposalStatus::Claimed && now < old(proposal).upload_deadline ==> r
            == Err::<Vec<Effect>, EducationError>(EducationError::UploadDeadlineNotReached),
        old(proposal).status == ProposalStatus::Claimed && now >= old(proposal).upload_deadline ==> {
            &&& r matches Ok(v) && v@ == bond_slash(old(proposal).claim_bond)
            &&& *final(proposal) == (ModuleProposal {
                claimant: None,
                claim_bond: 0,
                upload_deadline: 0,
                status: ProposalStatus::Claimable,
                ..*old(proposal)
            })
        },
        r is Err ==> *final(proposal) == *old(proposal),
{
    if proposal.status != ProposalStatus::Claimed {
        return Err(EducationError::InvalidProposalState);
    }
    if now < proposal.upload_deadline {
        return Err(EducationError::UploadDeadlineNotReached);
    }
    let bond = proposal.claim_bond;
    let mut effects: Vec<Effect> = Vec::new();
    if bond > 0 {
        effects.push(make_move(Pot::Vault, Pot::Treasury, bond));
    }
    proposal.claimant = None;
    proposal.claim_bond = 0;
    proposal.upload_deadline = 0;
    proposal.status = ProposalStatus::Claimable;
    proof {
        assert(effects@ =~= bond_slash(bond));
    }
    Ok(effects)
}

/// Record the AI agent's review of an uploaded proposal. A pass approves it. A
/// first failure sends it back to the same claimant with a fresh upload window.
/// A second failure slashes the bond and drops the claimant, banning them and
/// reopening the proposal, or rejecting it once the ban list is full.
pub fn review_proposal(config: &Config, proposal: &mut ModuleProposal, passed: bool, now: i64) -> (r: Result<
    Vec<Effect>,
    EducationError,
>)
    ensures
        old(proposal).status != ProposalStatus::UnderReview ==> r == Err::<Vec<Effect>, EducationError>(
            EducationError::InvalidProposalState,
        ),
        old(proposal).status == ProposalStatus::UnderReview && old(proposal).claimant is None ==> r
            == Err::<Vec<Effect>, EducationError>(EducationError::NotProposalCreator),
        old(proposal).status == ProposalStatus::UnderReview && old(proposal).claimant is Some ==> if passed {
            &&& r matches Ok(v) && v@ == Seq::<Effect>::empty()
            &&& *final(proposal) == (ModuleProposal {
                status: ProposalStatus::Approved,
                ..*old(proposal)
            })
        } else if old(proposal).claimant_failures == 0 {
            &&& r matches Ok(v) && v@ == Seq::<Effect>::empty()
            &&& *final(proposal) == (ModuleProposal {
                claimant_failures: 1,
                upload_deadline: sat_add_i64_spec(now, config.upload_period),
                status: ProposalStatus::Claimed,
                ..*old(proposal)
            })
        } else {
            let room = old(proposal).banned@.len() < MAX_BANNED;
            &&& r matches Ok(v) && v@ == bond_slash(old(proposal).claim_bond)
            &&& final(proposal).banned@ == (if room {
                old(proposal).banned@.push(old(proposal).claimant->Some_0)
            } else {
                old(proposal).banned@
            })
            &&& *final(proposal) == (ModuleProposal {
                claim_bond: 0,
                claimant: None,
                claimant_failures: 0,
                upload_deadline: 0,
                banned: final(proposal).banned,
                status: if room {
                    ProposalStatus::Claimable
                } else {
                    ProposalStatus::Rejected
                },
                ..*old(proposal)
            })
        },
        r is Err ==> *final(proposal) == *old(proposal),
{
    if proposal.status != ProposalStatus::UnderReview {
        return Err(EducationError::InvalidProposalState);
    }
    let claimant = match proposal.claimant {
        Some(c) => c,
        None => return Err(EducationError::NotProposalCreator),
    };
    if passed {
        proposal.status = ProposalStatus::Approved;
        return Ok(Vec::new());
    }
    if proposal.claimant_failures.saturating_add(1) < 2 {
        proposal.claimant_failures = proposal.claimant_failures.saturating_add(1);
        proposal.upload_deadline = sat_add_i64(now, config.upload_period);
        proposal.status = ProposalStatus::Claimed;
        return Ok(Vec::new());
    }
    let bond = proposal.claim_bond;
    let mut effects: Vec<Effect> = Vec::new();
    if bond > 0 {
        effects.push(make_move(Pot::Vault, Pot::Treasury, bond));
    }
    proposal.claim_bond = 0;
    proposal.claimant = None;
    proposal.claimant_failures = 0;
    proposal.upload_deadline = 0;
    if proposal.banned.len() < MAX_BANNED {
        proposal.banned.push(claimant);
        proposal.status = ProposalStatus::Claimable;
    } else {
        proposal.status = ProposalStatus::Rejected;
    }
    proof {
        assert(effects@ =~= bond_slash(bond));
    }
    Ok(effects)
}

/// The terms a proposal's module is minted on: its snapshotted pricing and
/// metadata, built by `creator`.
pub open spec fn proposal_terms_spec(
    proposal: ModuleProposal,
    module_id: u64,
    creator: Key,
    mint: Key,
    deposit: u64,
    school_allocated: u64,
    created_at: i64,
    bump: u8,
) -> ModuleTerms {
    ModuleTerms {
        module_id,
        creator,
        region: proposal.region,
        mint,
        deposit,
        module_amount: proposal.module_amount,
        school_allocated,
        price: proposal.price,
        content_creator_bps: proposal.content_creator_bps,
        regional_operator_bps: proposal.regional_operator_bps,
        protocol_bps: proposal.protocol_bps,
        dbs_bps: proposal.dbs_bps,
        created_at,
        metadata: proposal.metadata,
        bump,
    }
}

/// Gather a proposal's snapshotted terms for minting. The creator is the
/// claimant who built it.
pub fn proposal_terms(
    proposal: &ModuleProposal,
    module_id: u64,
    creator: Key,
    mint: Key,
    deposit: u64,
    school_allocated: u64,
    created_at: i64,
    bump: u8,
) -> (t: ModuleTerms)
    ensures
        t == proposal_terms_spec(*proposal, module_id, creator, mint, deposit, school_allocated, created_at, bump),
{
    ModuleTerms {
        module_id,
        creator,
        region: proposal.region,
        mint,
        deposit,
        module_amount: proposal.module_amount,
        school_allocated,
        price: proposal.price,
        content_creator_bps: proposal.content_creator_bps,
        regional_operator_bps: proposal.regional_operator_bps,
        protocol_bps: proposal.protocol_bps,
        dbs_bps: proposal.dbs_bps,
        created_at,
        metadata: proposal.metadata.clone(),
        bump,
    }
}

/// Why minting an approved proposal would be refused, checked in order.
pub open spec fn mint_gate_error(p: ModuleProposal, creator: Key, sponsored: bool) -> Option<EducationError> {
    if p.status != ProposalStatus::Approved {
        Some(EducationError::InvalidProposalState)
    } else if p.claimant != Some(creator) {
        Some(EducationError::NotProposalCreator)
    } else if sponsored && p.pre_sponsor_amount == 0 {
        Some(EducationError::InvalidProposalState)
    } else if !sponsored && p.pre_sponsor_amount != 0 {
        Some(EducationError::InvalidProposalState)
    } else {
        None
    }
}

/// Mint the module for an approved proposal with no pre-sponsorship. The bond
/// locked at claim time becomes the module's deposit and the full supply is
/// minted.
pub fn mint_proposed_module(
    config: &mut Config,
    proposal: &mut ModuleProposal,
    creator: Key,
    mint: Key,
    now: i64,
    bump: u8,
) -> (r: Result<(Module, Vec<Effect>), EducationError>)
    ensures
        mint_gate_error(*old(proposal), creator, false) matches Some(e) ==> r == Err::<(Module, Vec<Effect>), EducationError>(
            e,
        ),
        mint_gate_error(*old(proposal), creator, false) is None ==> if old(config).next_module_id == u64::MAX {
            r == Err::<(Module, Vec<Effect>), EducationError>(EducationError::Overflow)
        } else {
            &&& r matches Ok((m, v)) && m == module_from_terms(
                proposal_terms_spec(
                    *old(proposal),
                    old(config).next_module_id,
                    creator,
                    mint,
                    old(proposal).claim_bond,
                    0,
                    now,
                    bump,
                ),
            ) && v@ == seq![Effect::MintModuleSupply { amount: old(proposal).module_amount }]
            &&& *final(proposal) == (ModuleProposal { status: ProposalStatus::Created, ..*old(proposal) })
            &&& *final(config) == (Config {
                next_module_id: (old(config).next_module_id + 1) as u64,
                ..*old(config)
            })
        },
        r is Err ==> *final(config) == *old(config) && *final(proposal) == *old(proposal),
{
    if proposal.status != ProposalStatus::Approved {
        return Err(EducationError::InvalidProposalState);
    }
    if proposal.claimant != Some(creator) {
        return Err(EducationError::NotProposalCreator);
    }
    if proposal.pre_sponsor_amount != 0 {
        return Err(EducationError::InvalidProposalState);
    }
    let module_id = config.next_module_id;
    if module_id == u64::MAX {
        return Err(EducationError::Overflow);
    }
    let module_amount = proposal.module_amount;
    let terms = proposal_terms(proposal, module_id, creator, mint, proposal.claim_bond, 0, now, bump);
    let mut module = blank_module();
    write_module(&mut module, terms);
    config.next_module_id = module_id + 1;
    proposal.status = ProposalStatus::Created;
    Ok((module, vec![Effect::MintModuleSupply { amount: module_amount }]))
}

/// Mint the module for an approved sponsor proposal, converting the locked
/// pre-sponsorship into a real sponsorship in the proposer's name: its payment
/// moves to a fresh sponsor escrow, and that many tokens start in the school
/// allocation.
pub fn mint_sponsored_module(
    config: &mut Config,
    proposal: &mut ModuleProposal,
    creator: Key,
    mint: Key,
    now: i64,
    module_bump: u8,
    sponsorship_bump: u8,
) -> (r: Result<(Module, Sponsorship, Vec<Effect>), EducationError>)
    ensures
        mint_gate_error(*old(proposal), creator, true) matches Some(e) ==> r == Err::<
            (Module, Sponsorship, Vec<Effect>),
            EducationError,
        >(e),
        mint_gate_error(*old(proposal), creator, true) is None ==> if old(proposal).pre_sponsor_locked_spec() is None
            || old(config).next_module_id == u64::MAX || old(config).next_sponsor_id == u64::MAX {
            r == Err::<(Module, Sponsorship, Vec<Effect>), EducationError>(EducationError::Overflow)
        } else {
            &&& r matches Ok((m, s, v)) && m == module_from_terms(
                proposal_terms_spec(
                    *old(proposal),
                    old(config).next_module_id,
                    creator,
                    mint,
                    old(proposal).claim_bond,
                    old(proposal).pre_sponsor_amount,
                    now,
                    module_bump,
                ),
            ) && s == (Sponsorship {
                module_id: old(config).next_module_id,
                sponsor_id: old(config).next_sponsor_id,
                sponsor: old(proposal).proposer,
                payment_asset: old(proposal).payment_asset,
                amount: old(proposal).pre_sponsor_amount,
                active_bookings: 0,
                price_per_token: old(proposal).pre_sponsor_price_per_token,
                sponsored_at: now,
                bump: sponsorship_bump,
            }) && v@ == seq![
                Effect::MintModuleSupply { amount: old(proposal).module_amount },
                mv(Pot::ProposalEscrow, Pot::SponsorEscrow, old(proposal).pre_sponsor_locked_spec()->Some_0),
                Effect::CloseEscrow { escrow: Pot::ProposalEscrow, rent_to: Pot::ProposerWallet },
            ]
            &&& *final(proposal) == (ModuleProposal { status: ProposalStatus::Created, ..*old(proposal) })
            &&& *final(config) == (Config {
                next_module_id: (old(config).next_module_id + 1) as u64,
                next_sponsor_id: (old(config).next_sponsor_id + 1) as u64,
                ..*old(config)
            })
        },
        r is Err ==> *final(config) == *old(config) && *final(proposal) == *old(proposal),
{
    if proposal.status != ProposalStatus::Approved {
        return Err(EducationError::InvalidProposalState);
    }
    if proposal.claimant != Some(creator) {
        return Err(EducationError::NotProposalCreator);
    }
    if proposal.pre_sponsor_amount == 0 {
        return Err(EducationError::InvalidProposalState);
    }
    let locked = match proposal.pre_sponsor_locked() {
        Some(l) => l,
        None => return Err(EducationError::Overflow),
    };
    let module_id = config.next_module_id;
    let sponsor_id = config.next_sponsor_id;
    if module_id == u64::MAX || sponsor_id == u64::MAX {
        return Err(EducationError::Overflow);
    }
    let module_amount = proposal.module_amount;
    let pre_sponsor_amount = proposal.pre_sponsor_amount;
    let terms = proposal_terms(
        proposal,
        module_id,
        creator,
        mint,
        proposal.claim_bond,
        pre_sponsor_amount,
        now,
        module_bump,
    );
    let mut module = blank_module();
    write_module(&mut module, terms);
    let sponsorship = Sponsorship {
        module_id,
        sponsor_id,
        sponsor: proposal.proposer,
        payment_asset: proposal.payment_asset,
        amount: pre_sponsor_amount,
        active_bookings: 0,
        price_per_token: proposal.pre_sponsor_price_per_token,
        sponsored_at: now,
        bump: sponsorship_bump,
    };
    config.next_module_id = module_id + 1;
    config.next_sponsor_id = sponsor_id + 1;
    proposal.status = ProposalStatus::Created;
    Ok(
        (
            module,
            sponsorship,
            vec![
                Effect::MintModuleSupply { amount: module_amount },
                make_move(Pot::ProposalEscrow, Pot::SponsorEscrow, locked),
                Effect::CloseEscrow { escrow: Pot::ProposalEscrow, rent_to: Pot::ProposerWallet },
            ],
        ),
    )
}

/// Reclaim a voter's locked XCAV once the proposal's voting window ended.
pub fn unlock_proposal_vote(record: &ModuleProposalVote, now: i64) -> (r: Result<Vec<Effect>, EducationError>)
    ensures
        now < record.expiry ==> r == Err::<Vec<Effect>, EducationError>(EducationError::VotingStillOngoing),
        now >= record.expiry && record.power > 0 ==> (r matches Ok(v) && v@ == seq![
            mv(Pot::Vault, Pot::Voter, record.power),
        ]),
        now >= record.expiry && record.power == 0 ==> (r matches Ok(v) && v@ == Seq::<
            Effect,
        >::empty()),
{
    if now < record.expiry {
        return Err(EducationError::VotingStillOngoing);
    }
    if record.power > 0 {
        Ok(vec![make_move(Pot::Vault, Pot::Voter, record.power)])
    } else {
        Ok(Vec::new())
    }
}

/// Whether a proposal is passed but not yet built.
pub open spec fn is_building(status: ProposalStatus) -> bool {
    status == ProposalStatus::Claimable || status == ProposalStatus::Claimed || status
        == ProposalStatus::UnderReview || status == ProposalStatus::Approved
}

/// Reject a passed proposal that wasn't built before its build deadline
/// (permissionless), slashing any bond still riding on it.
pub fn expire_proposal(proposal: &mut ModuleProposal, now: i64) -> (r: Result<Vec<Effect>, EducationError>)
    ensures
        !is_building(old(proposal).status) ==> r == Err::<Vec<Effect>, EducationError>(
            EducationError::InvalidProposalState,
        ),
        is_building(old(proposal).status) && now < old(proposal).build_deadline ==> r == Err::<
            Vec<Effect>,
            EducationError,
        >(EducationError::BuildDeadlineNotReached),
        is_building(old(proposal).status) && now >= old(proposal).build_deadline ==> {
            &&& r matches Ok(v) && v@ == bond_slash(old(proposal).claim_bond)
            &&& *final(proposal) == (ModuleProposal {
                claim_bond: 0,
                claimant: None,
                upload_deadline: 0,
                status: ProposalStatus::Rejected,
                ..*old(proposal)
            })
        },
        r is Err ==> *final(proposal) == *old(proposal),
{
    let status = proposal.status;
    if !(status == ProposalStatus::Claimable || status == ProposalStatus::Claimed || status
        == ProposalStatus::UnderReview || status == ProposalStatus::Approved) {
        return Err(EducationError::InvalidProposalState);
    }
    if now < proposal.build_deadline {
        return Err(EducationError::BuildDeadlineNotReached);
    }
    let bond = proposal.claim_bond;
    let mut effects: Vec<Effect> = Vec::new();
    if bond > 0 {
        effects.push(make_move(Pot::Vault, Pot::Treasury, bond));
    }
    proposal.claim_bond = 0;
    proposal.claimant = None;
    proposal.upload_deadline = 0;
    proposal.status = ProposalStatus::Rejected;
    proof {
        assert(effects@ =~= bond_slash(bond));
    }
    Ok(effects)
}

/// Refund a rejected sponsor proposal's pre-sponsorship to its proposer and
/// close the escrow.
pub fn reclaim_pre_sponsor(proposal: &ModuleProposal, sponsor: Key) -> (r: Result<Vec<Effect>, EducationError>)
    ensures
        proposal.proposer != sponsor ==> r == Err::<Vec<Effect>, EducationError>(EducationError::NoPermission),
        proposal.proposer == sponsor && (proposal.status != ProposalStatus::Rejected
            || proposal.pre_sponsor_amount == 0) ==> r == Err::<Vec<Effect>, EducationError>(
            EducationError::InvalidProposalState,
        ),
        proposal.proposer == sponsor && proposal.status == ProposalStatus::Rejected
            && proposal.pre_sponsor_amount > 0 ==> match proposal.pre_sponsor_locked_spec() {
            None => r == Err::<Vec<Effect>, EducationError>(EducationError::Overflow),
            Some(locked) => r matches Ok(v) && v@ == seq![
                mv(Pot::ProposalEscrow, Pot::SponsorPayment, locked),
                Effect::CloseEscrow { escrow: Pot::ProposalEscrow, rent_to: Pot::SponsorWallet },
            ],
        },
{
    if proposal.proposer != sponsor {
        return Err(EducationError::NoPermission);
    }
    if proposal.status != ProposalStatus::Rejected {
        return Err(EducationError::InvalidProposalState);
    }
    if proposal.pre_sponsor_amount == 0 {
        return Err(EducationError::InvalidProposalState);
    }
    let locked = match proposal.pre_sponsor_locked() {
        Some(l) => l,
        None => return Err(EducationError::Overflow),
    };
    Ok(
        vec![
            make_move(Pot::ProposalEscrow, Pot::SponsorPayment, locked),
            Effect::CloseEscrow { escrow: Pot::ProposalEscrow, rent_to: Pot::SponsorWallet },
        ],
    )
}

/// Close a rejected proposal that has nothing left to settle (no locked
/// pre-sponsorship).
pub fn clear_proposal(proposal: &ModuleProposal) -> (r: Result<(), EducationError>)
    ensures
        r is Ok <==> (proposal.status == ProposalStatus::Rejected && proposal.pre_sponsor_amount == 0),
        r is Err ==> r == Err::<(), EducationError>(EducationError::ProposalNotClearable),
{
    if proposal.status != ProposalStatus::Rejected {
        return Err(EducationError::ProposalNotClearable);
    }
    if proposal.pre_sponsor_amount != 0 {
        return Err(EducationError::ProposalNotClearable);
    }
    Ok(())
}

} // verus!

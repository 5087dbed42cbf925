//! A module's life from the creator's side: creating and fractionalizing it,
//! sponsors funding tokens, reclaiming and closing sponsorships, burning unsold
//! tokens and removing a retired module.
use vstd::prelude::*;

use crate::education::{
    fits, module_after_reclaim, module_after_sponsoring, text_len, Config, Module, Sponsorship,
    METADATA_MAX_LEN,
};
use crate::effects::{mv, make_move, Effect, Pot};
use crate::errors::EducationError;
use crate::governance::{sat_add_i64, sat_add_i64_spec, sat_sub_u64_spec};
use crate::key::Key;
use crate::mint_guard::{mint_verdict, require_supported_mint, token2022_mint_extension_types, MintGuardError};
use crate::pricing::{price_per_token, price_per_token_spec};

verus! {

/// The terms a module is created on, shared by every creation path.
#[derive(Clone, Debug)]
pub struct ModuleTerms {
    pub module_id: u64,
    pub creator: Key,
    pub region: u16,
    pub mint: Key,
    pub deposit: u64,
    pub module_amount: u64,
    /// Tokens credited straight to the school allocation (a pre-sponsorship).
    pub school_allocated: u64,
    pub price: u64,
    pub content_creator_bps: u16,
    pub regional_operator_bps: u16,
    pub protocol_bps: u16,
    pub dbs_bps: u16,
    pub created_at: i64,
    pub metadata: String,
    pub bump: u8,
}

/// The module a set of terms describes: the supply not pre-sponsored starts as
/// the sponsor allocation.
pub open spec fn module_from_terms(t: ModuleTerms) -> Module {
    Module {
        module_id: t.module_id,
        creator: t.creator,
        region: t.region,
        mint: t.mint,
        deposit: t.deposit,
        total_token_amount: t.module_amount,
        sponsor_allocation: sat_sub_u64_spec(t.module_amount, t.school_allocated),
        school_allocation: t.school_allocated,
        student_allocation: 0,
        price: t.price,
        content_creator_bps: t.content_creator_bps,
        regional_operator_bps: t.regional_operator_bps,
        protocol_bps: t.protocol_bps,
        dbs_bps: t.dbs_bps,
        created_at: t.created_at,
        metadata: t.metadata,
        bump: t.bump,
    }
}

/// Populate a freshly created module from its terms.
pub fn write_module(module: &mut Module, terms: ModuleTerms)
    ensures
        *final(module) == module_from_terms(terms),
{
    module.module_id = terms.module_id;
    module.creator = terms.creator;
    module.region = terms.region;
    module.mint = terms.mint;
    module.deposit = terms.deposit;
    module.total_token_amount = terms.module_amount;
    module.sponsor_allocation = terms.module_amount.saturating_sub(terms.school_allocated);
    module.school_allocation = terms.school_allocated;
    module.student_allocation = 0;
    module.price = terms.price;
    module.content_creator_bps = terms.content_creator_bps;
    module.regional_operator_bps = terms.regional_operator_bps;
    module.protocol_bps = terms.protocol_bps;
    module.dbs_bps = terms.dbs_bps;
    module.created_at = terms.created_at;
    module.metadata = terms.metadata;
    module.bump = terms.bump;
}

/// An all-zero module record, as a freshly created account holds.
pub fn blank_module() -> (m: Module)
    ensures
        m.metadata@ == Seq::<char>::empty(),
{
    Module {
        module_id: 0,
        creator: Key::zero(),
        region: 0,
        mint: Key::zero(),
        deposit: 0,
        total_token_amount: 0,
        sponsor_allocation: 0,
        school_allocation: 0,
        student_allocation: 0,
        price: 0,
        content_creator_bps: 0,
        regional_operator_bps: 0,
        protocol_bps: 0,
        dbs_bps: 0,
        created_at: 0,
        metadata: String::new(),
        bump: 0,
    }
}

/// The terms a direct creation uses: the config's current price and fee split,
/// nothing pre-sponsored.
pub open spec fn direct_terms(
    config: Config,
    creator: Key,
    region: u16,
    module_amount: u64,
    metadata: String,
    mint: Key,
    now: i64,
    bump: u8,
) -> ModuleTerms {
    ModuleTerms {
        module_id: config.next_module_id,
        creator,
        region,
        mint,
        deposit: config.module_deposit,
        module_amount,
        school_allocated: 0,
        price: config.module_price,
        content_creator_bps: config.content_creator_bps,
        regional_operator_bps: config.regional_operator_bps,
        protocol_bps: config.protocol_bps,
        dbs_bps: config.dbs_bps,
        created_at: now,
        metadata,
        bump,
    }
}

/// Create a learning module and fractionalize it into `module_amount` tokens.
/// The creator's module deposit is locked and the whole supply minted into the
/// module vault as the sponsor allocation.
pub fn create_module(
    config: &mut Config,
    creator: Key,
    region: u16,
    module_amount: u64,
    metadata: String,
    mint: Key,
    now: i64,
    bump: u8,
) -> (r: Result<(Module, Vec<Effect>), EducationError>)
    ensures
        module_amount == 0 ==> r == Err::<(Module, Vec<Effect>), EducationError>(
            EducationError::AmountCannotBeZero,
        ),
        module_amount > 0 && module_amount > old(config).max_module_tokens ==> r == Err::<
            (Module, Vec<Effect>),
            EducationError,
        >(EducationError::TooManyTokens),
        0 < module_amount <= old(config).max_module_tokens && text_len(&metadata) > METADATA_MAX_LEN
            ==> r == Err::<(Module, Vec<Effect>), EducationError>(EducationError::InvalidConfig),
        0 < module_amount <= old(config).max_module_tokens && text_len(&metadata) <= METADATA_MAX_LEN
            ==> if old(config).next_module_id == u64::MAX {
            r == Err::<(Module, Vec<Effect>), EducationError>(EducationError::Overflow)
        } else {
            &&& r matches Ok((m, v)) && m == module_from_terms(
                direct_terms(*old(config), creator, region, module_amount, metadata, mint, now, bump),
            ) && v@ == seq![
                mv(Pot::CreatorXcav, Pot::Vault, old(config).module_deposit),
                Effect::MintModuleSupply { amount: module_amount },
            ]
            &&& *final(config) == (Config {
                next_module_id: (old(config).next_module_id + 1) as u64,
                ..*old(config)
            })
        },
        r is Err ==> *final(config) == *old(config),
{
    if module_amount == 0 {
        return Err(EducationError::AmountCannotBeZero);
    }
    if module_amount > config.max_module_tokens {
        return Err(EducationError::TooManyTokens);
    }
    if !fits(&metadata, METADATA_MAX_LEN) {
        return Err(EducationError::InvalidConfig);
    }
    let module_id = config.next_module_id;
    let next_id = match module_id.checked_add(1) {
        Some(n) => n,
        None => return Err(EducationError::Overflow),
    };
    let deposit = config.module_deposit;
    let terms = ModuleTerms {
        module_id,
        creator,
        region,
        mint,
        deposit,
        module_amount,
        school_allocated: 0,
        price: config.module_price,
        content_creator_bps: config.content_creator_bps,
        regional_operator_bps: config.regional_operator_bps,
        protocol_bps: config.protocol_bps,
        dbs_bps: config.dbs_bps,
        created_at: now,
        metadata,
        bump,
    };
    let mut module = blank_module();
    write_module(&mut module, terms);
    config.next_module_id = next_id;
    Ok(
        (
            module,
            vec![
                make_move(Pot::CreatorXcav, Pot::Vault, deposit),
                Effect::MintModuleSupply { amount: module_amount },
            ],
        ),
    )
}

/// Maps a mint screening failure to the education error.
pub open spec fn education_mint_error(e: MintGuardError) -> EducationError {
    match e {
        MintGuardError::InvalidMintData => EducationError::InvalidMintData,
        MintGuardError::UnsupportedMintExtension => EducationError::UnsupportedMintExtension,
    }
}

/// The per-token price of a module in an asset with `decimals`.
pub open spec fn module_price_spec(module: Module, decimals: u8) -> Result<u64, EducationError> {
    price_per_token_spec(
        module.price,
        decimals,
        module.content_creator_bps,
        module.regional_operator_bps,
        module.protocol_bps,
        module.dbs_bps,
    )
}

/// Sponsor `token_amount` tokens of a module: the full per-token price (base
/// plus fees) for each is locked in a fresh sponsor escrow, and the tokens move
/// from the sponsor allocation to the school allocation.
pub fn sponsor_module(
    config: &mut Config,
    module: &mut Module,
    sponsor: Key,
    payment_mint: Key,
    payment_decimals: u8,
    mint_owner: &Key,
    mint_data: &[u8],
    token_amount: u64,
    now: i64,
    bump: u8,
) -> (r: Result<(Sponsorship, Vec<Effect>), EducationError>)
    ensures
        token_amount == 0 ==> r == Err::<(Sponsorship, Vec<Effect>), EducationError>(
            EducationError::AmountCannotBeZero,
        ),
        token_amount > 0 && !old(config).accepts_spec(payment_mint) ==> r == Err::<
            (Sponsorship, Vec<Effect>),
            EducationError,
        >(EducationError::PaymentAssetNotSupported),
        token_amount > 0 && old(config).accepts_spec(payment_mint) ==> match mint_verdict(
            *mint_owner,
            token2022_mint_extension_types(mint_data@),
        ) {
            Err(e) => r == Err::<(Sponsorship, Vec<Effect>), EducationError>(education_mint_error(e)),
            Ok(_) => if token_amount > old(module).sponsor_allocation {
                r == Err::<(Sponsorship, Vec<Effect>), EducationError>(
                    EducationError::NotEnoughTokenAvailable,
                )
            } else {
                match module_price_spec(*old(module), payment_decimals) {
                    Err(e) => r == Err::<(Sponsorship, Vec<Effect>), EducationError>(e),
                    Ok(per_token) => if per_token * token_amount > u64::MAX || old(module).school_allocation + token_amount > u64::MAX || old(config).next_sponsor_id
                        == u64::MAX {
                        r == Err::<(Sponsorship, Vec<Effect>), EducationError>(EducationError::Overflow)
                    } else {
                        &&& r matches Ok((s, v)) && v@ == seq![
                            mv(
                                Pot::SponsorPayment,
                                Pot::SponsorEscrow,
                                (per_token * token_amount) as u64,
                            ),
                        ] && s == (Sponsorship {
                            module_id: old(module).module_id,
                            sponsor_id: old(config).next_sponsor_id,
                            sponsor,
                            payment_asset: payment_mint,
                            amount: token_amount,
                            active_bookings: 0,
                            price_per_token: per_token,
                            sponsored_at: now,
                            bump,
                        })
                        &&& *final(module) == module_after_sponsoring(*old(module), token_amount)
                        &&& *final(config) == (Config {
                            next_sponsor_id: (old(config).next_sponsor_id + 1) as u64,
                            ..*old(config)
                        })
                    }
                }
            },
        },
        r is Err ==> *final(config) == *old(config) && *final(module) == *old(module),
{
    if token_amount == 0 {
        return Err(EducationError::AmountCannotBeZero);
    }
    if !config.accepts(&payment_mint) {
        return Err(EducationError::PaymentAssetNotSupported);
    }
    match require_supported_mint(mint_owner, mint_data) {
        Err(MintGuardError::InvalidMintData) => return Err(EducationError::InvalidMintData),
        Err(MintGuardError::UnsupportedMintExtension) => return Err(
            EducationError::UnsupportedMintExtension,
        ),
        Ok(()) => {},
    }
    if token_amount > module.sponsor_allocation {
        return Err(EducationError::NotEnoughTokenAvailable);
    }
    let per_token = match price_per_token(
        module.price,
        payment_decimals,
        module.content_creator_bps,
        module.regional_operator_bps,
        module.protocol_bps,
        module.dbs_bps,
    ) {
        Ok(p) => p,
        Err(e) => return Err(e),
    };
    let total = match per_token.checked_mul(token_amount) {
        Some(t) => t,
        None => return Err(EducationError::Overflow),
    };
    let school_allocation = match module.school_allocation.checked_add(token_amount) {
        Some(s) => s,
        None => return Err(EducationError::Overflow),
    };
    let sponsor_id = config.next_sponsor_id;
    let next_id = match sponsor_id.checked_add(1) {
        Some(n) => n,
        None => return Err(EducationError::Overflow),
    };
    module.sponsor_allocation = module.sponsor_allocation - token_amount;
    module.school_allocation = school_allocation;
    config.next_sponsor_id = next_id;
    let sponsorship = Sponsorship {
        module_id: module.module_id,
        sponsor_id,
        sponsor,
        payment_asset: payment_mint,
        amount: token_amount,
        active_bookings: 0,
        price_per_token: per_token,
        sponsored_at: now,
        bump,
    };
    Ok((sponsorship, vec![make_move(Pot::SponsorPayment, Pot::SponsorEscrow, total)]))
}

/// Reclaim `amount` unbooked sponsored tokens once the sponsorship window has
/// passed: their payment returns to the sponsor and the tokens to the sponsor
/// allocation. Only the sponsorship's own sponsor may.
pub fn reclaim_sponsorship(
    config: &Config,
    module: &mut Module,
    sponsorship: &mut Sponsorship,
    sponsor: Key,
    amount: u64,
    now: i64,
) -> (r: Result<Vec<Effect>, EducationError>)
    ensures
        old(sponsorship).sponsor != sponsor ==> r == Err::<Vec<Effect>, EducationError>(
            EducationError::NoPermission,
        ),
        old(sponsorship).sponsor == sponsor && amount == 0 ==> r == Err::<Vec<Effect>, EducationError>(
            EducationError::AmountCannotBeZero,
        ),
        old(sponsorship).sponsor == sponsor && amount > 0 && amount > old(sponsorship).amount ==> r
            == Err::<Vec<Effect>, EducationError>(EducationError::NotEnoughTokenAvailable),
        old(sponsorship).sponsor == sponsor && 0 < amount <= old(sponsorship).amount && now
            <= sat_add_i64_spec(old(sponsorship).sponsored_at, config.sponsorship_window) ==> r
            == Err::<Vec<Effect>, EducationError>(EducationError::SponsorshipWindowNotExpired),
        old(sponsorship).sponsor == sponsor && 0 < amount <= old(sponsorship).amount && now
            > sat_add_i64_spec(old(sponsorship).sponsored_at, config.sponsorship_window) ==> if old(sponsorship).price_per_token * amount > u64::MAX {
            r == Err::<Vec<Effect>, EducationError>(EducationError::Overflow)
        } else if old(module).school_allocation < amount {
            r == Err::<Vec<Effect>, EducationError>(EducationError::Underflow)
        } else if old(module).sponsor_allocation + amount > u64::MAX {
            r == Err::<Vec<Effect>, EducationError>(EducationError::Overflow)
        } else {
            &&& r matches Ok(v) && v@ == seq![
                mv(
                    Pot::SponsorEscrow,
                    Pot::SponsorPayment,
                    (old(sponsorship).price_per_token * amount) as u64,
                ),
            ]
            &&& *final(module) == module_after_reclaim(*old(module), amount)
            &&& *final(sponsorship) == (Sponsorship {
                amount: (old(sponsorship).amount - amount) as u64,
                ..*old(sponsorship)
            })
        },
        r is Err ==> *final(module) == *old(module) && *final(sponsorship) == *old(sponsorship),
{
    if sponsorship.sponsor != sponsor {
        return Err(EducationError::NoPermission);
    }
    if amount == 0 {
        return Err(EducationError::AmountCannotBeZero);
    }
    if amount > sponsorship.amount {
        return Err(EducationError::NotEnoughTokenAvailable);
    }
    let deadline = sat_add_i64(sponsorship.sponsored_at, config.sponsorship_window);
    if !(now > deadline) {
        return Err(EducationError::SponsorshipWindowNotExpired);
    }
    let refund = match sponsorship.price_per_token.checked_mul(amount) {
        Some(v) => v,
        None => return Err(EducationError::Overflow),
    };
    let school_allocation = match module.school_allocation.checked_sub(amount) {
        Some(v) => v,
        None => return Err(EducationError::Underflow),
    };
    let sponsor_allocation = match module.sponsor_allocation.checked_add(amount) {
        Some(v) => v,
        None => return Err(EducationError::Overflow),
    };
    module.school_allocation = school_allocation;
    module.sponsor_allocation = sponsor_allocation;
    sponsorship.amount = sponsorship.amount - amount;
    Ok(vec![make_move(Pot::SponsorEscrow, Pot::SponsorPayment, refund)])
}

/// Close a fully spent sponsorship (nothing left to book, no booking still
/// open) and its escrow, returning the rent to the sponsor.
pub fn close_sponsorship(sponsorship: &Sponsorship, sponsor: Key) -> (r: Result<Vec<Effect>, EducationError>)
    ensures
        sponsorship.sponsor != sponsor ==> r == Err::<Vec<Effect>, EducationError>(EducationError::NoPermission),
        sponsorship.sponsor == sponsor && !(sponsorship.amount == 0 && sponsorship.active_bookings == 0)
            ==> r == Err::<Vec<Effect>, EducationError>(EducationError::SponsorshipNotEmpty),
        sponsorship.sponsor == sponsor && sponsorship.amount == 0 && sponsorship.active_bookings == 0
            ==> (r matches Ok(v) && v@ == seq![
            Effect::CloseEscrow { escrow: Pot::SponsorEscrow, rent_to: Pot::SponsorWallet },
        ]),
{
    if sponsorship.sponsor != sponsor {
        return Err(EducationError::NoPermission);
    }
    if !(sponsorship.amount == 0 && sponsorship.active_bookings == 0) {
        return Err(EducationError::SponsorshipNotEmpty);
    }
    Ok(vec![Effect::CloseEscrow { escrow: Pot::SponsorEscrow, rent_to: Pot::SponsorWallet }])
}

/// Burn `amount` tokens from the module's unsponsored allocation. Only the
/// module's creator may.
pub fn burn_unsponsored_token(module: &mut Module, creator: Key, amount: u64) -> (r: Result<Vec<Effect>, EducationError>)
    ensures
        old(module).creator != creator ==> r == Err::<Vec<Effect>, EducationError>(EducationError::NoPermission),
        old(module).creator == creator && amount == 0 ==> r == Err::<Vec<Effect>, EducationError>(
            EducationError::AmountCannotBeZero,
        ),
        old(module).creator == creator && amount > 0 && amount > old(module).sponsor_allocation ==> r
            == Err::<Vec<Effect>, EducationError>(EducationError::CannotBurnMoreThanAvailable),
        old(module).creator == creator && 0 < amount <= old(module).sponsor_allocation ==> (r matches Ok(
            v,
        ) && v@ == seq![Effect::BurnModuleTokens { amount }] && *final(module) == (Module {
            sponsor_allocation: (old(module).sponsor_allocation - amount) as u64,
            ..*old(module)
        })),
        r is Err ==> *final(module) == *old(module),
{
    if module.creator != creator {
        return Err(EducationError::NoPermission);
    }
    if amount == 0 {
        return Err(EducationError::AmountCannotBeZero);
    }
    if amount > module.sponsor_allocation {
        return Err(EducationError::CannotBurnMoreThanAvailable);
    }
    module.sponsor_allocation = module.sponsor_allocation - amount;
    Ok(vec![Effect::BurnModuleTokens { amount }])
}

/// Remove a fully retired module (its vault holds no tokens): the creator's
/// deposit is returned and the empty module vault closed.
pub fn remove_module(module: &Module, creator: Key, module_vault_amount: u64) -> (r: Result<
    Vec<Effect>,
    EducationError,
>)
    ensures
        module.creator != creator ==> r == Err::<Vec<Effect>, EducationError>(EducationError::NoPermission),
        module.creator == creator && module_vault_amount != 0 ==> r == Err::<Vec<Effect>, EducationError>(
            EducationError::CannotRemoveModuleWithActiveTokens,
        ),
        module.creator == creator && module_vault_amount == 0 ==> (r matches Ok(v) && v@ == seq![
            mv(Pot::Vault, Pot::CreatorXcav, module.deposit),
            Effect::CloseEscrow { escrow: Pot::ModuleVault, rent_to: Pot::CreatorWallet },
        ]),
{
    if module.creator != creator {
        return Err(EducationError::NoPermission);
    }
    if module_vault_amount != 0 {
        return Err(EducationError::CannotRemoveModuleWithActiveTokens);
    }
    Ok(
        vec![
            make_move(Pot::Vault, Pot::CreatorXcav, module.deposit),
            Effect::CloseEscrow { escrow: Pot::ModuleVault, rent_to: Pot::CreatorWallet },
        ],
    )
}

} // verus!

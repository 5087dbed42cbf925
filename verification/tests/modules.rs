use xcavate_education::education::{
    fits, initialize_config, update_authority, update_config, Config, ConfigParams, Module, Sponsorship,
};
use xcavate_education::effects::{Effect, Pot};
use xcavate_education::errors::EducationError;
use xcavate_education::key::Key;
use xcavate_education::modules::{
    burn_unsponsored_token, close_sponsorship, create_module, reclaim_sponsorship, remove_module, sponsor_module,
};

const NOW: i64 = 1_700_000_000;
const USDC: Key = Key { w0: 44, w1: 0, w2: 0, w3: 0 };

fn key(n: u64) -> Key {
    Key { w0: n, w1: 0, w2: 0, w3: 0 }
}

fn classic() -> Key {
    let bytes = anchor_spl::token::ID.to_bytes();
    let word = |i: usize| {
        let mut w = [0u8; 8];
        w.copy_from_slice(&bytes[i * 8..i * 8 + 8]);
        u64::from_le_bytes(w)
    };
    Key { w0: word(0), w1: word(1), w2: word(2), w3: word(3) }
}

fn params() -> ConfigParams {
    ConfigParams {
        module_deposit: 50_000_000,
        booking_deposit: 20_000_000,
        deliverer_deposit: 100_000_000,
        module_price: 100,
        max_module_tokens: 1_000,
        content_creator_bps: 1_000,
        regional_operator_bps: 500,
        protocol_bps: 250,
        dbs_bps: 1_500,
        min_impact_score_bps: 5_000,
        sponsorship_window: 1_000,
        cancellation_window: 10_000,
        max_cancellations: 3,
        max_strikes: 3,
        strike_slash_bps: 1_000,
        deliveries_per_strike_reduction: 2,
        accepted_assets: [USDC, Key::zero(), Key::zero()],
    }
}

fn config() -> Config {
    initialize_config(&params(), key(1), key(7), key(2), key(3), 250).unwrap()
}

fn module_with(total: u64) -> (Config, Module) {
    let mut cfg = config();
    let (m, _) = create_module(&mut cfg, key(10), 1, total, String::from("intro"), key(90), NOW, 4).unwrap();
    (cfg, m)
}

fn sponsor(cfg: &mut Config, m: &mut Module, amount: u64) -> (Sponsorship, Vec<Effect>) {
    sponsor_module(cfg, m, key(20), USDC, 6, &classic(), &vec![0u8; 82], amount, NOW, 5).unwrap()
}

// ---------------------------------------------------------------- config

#[test]
fn initialize_writes_parameters() {
    let cfg = config();
    assert_eq!(cfg.authority, key(1));
    assert_eq!(cfg.protocol_authority, key(3));
    assert_eq!(cfg.module_price, 100);
    assert_eq!(cfg.accepted_assets, [USDC, Key::zero(), Key::zero()]);
    assert_eq!(cfg.next_module_id, 0);
    assert!(cfg.accepts(&USDC));
    assert!(!cfg.accepts(&key(45)));
    // The zeroed unused slots never make the zero key an accepted asset.
    assert!(!cfg.accepts(&Key::zero()));
}

#[test]
fn initialize_rejects_bad_parameters() {
    let mut p = params();
    p.dbs_bps = 8_251; // fees total above 100%
    assert_eq!(initialize_config(&p, key(1), key(7), key(2), key(3), 250).unwrap_err(), EducationError::InvalidConfig);
    let mut p = params();
    p.strike_slash_bps = 10_001;
    assert_eq!(p.validate(), Err(EducationError::InvalidConfig));
    let mut p = params();
    p.min_impact_score_bps = 10_001;
    assert_eq!(p.validate(), Err(EducationError::InvalidConfig));
    let mut p = params();
    p.sponsorship_window = 0;
    assert_eq!(p.validate(), Err(EducationError::InvalidConfig));
    let mut p = params();
    p.cancellation_window = 0;
    assert_eq!(p.validate(), Err(EducationError::InvalidConfig));
    let mut p = params();
    p.module_price = 0;
    assert_eq!(p.validate(), Err(EducationError::InvalidConfig));
    let mut p = params();
    p.max_module_tokens = 0;
    assert_eq!(p.validate(), Err(EducationError::InvalidConfig));
    // Exactly 100% in fees is allowed.
    let mut p = params();
    p.dbs_bps = 8_250;
    assert_eq!(p.validate(), Ok(()));
}

#[test]
fn update_config_is_authority_only() {
    let mut cfg = config();
    let mut p = params();
    p.module_price = 250;
    assert_eq!(update_config(&mut cfg, key(9), key(2), key(3), &p).unwrap_err(), EducationError::NotAuthority);
    assert_eq!(cfg.module_price, 100);
    update_config(&mut cfg, key(1), key(12), key(13), &p).unwrap();
    assert_eq!(cfg.module_price, 250);
    assert_eq!(cfg.treasury, key(12));
    assert_eq!(cfg.protocol_authority, key(13));
}

#[test]
fn update_authority_rotates_education_config() {
    let mut cfg = config();
    assert_eq!(update_authority(&mut cfg, key(9), key(5)).unwrap_err(), EducationError::NotAuthority);
    update_authority(&mut cfg, key(1), key(5)).unwrap();
    assert_eq!(cfg.authority, key(5));
    assert_eq!(update_config(&mut cfg, key(1), key(2), key(3), &params()).unwrap_err(), EducationError::NotAuthority);
}

#[test]
fn metadata_limit_counts_utf8_bytes() {
    assert!(fits(&"a".repeat(200), 200));
    assert!(!fits(&"a".repeat(201), 200));
    // 'é' is two bytes in UTF-8: 100 of them fill the limit exactly.
    assert!(fits(&"é".repeat(100), 200));
    assert!(!fits(&"é".repeat(101), 200));
}

// ---------------------------------------------------------------- create

#[test]
fn create_module_locks_deposit_and_mints_supply() {
    let mut cfg = config();
    let (m, effects) = create_module(&mut cfg, key(10), 1, 40, String::from("intro"), key(90), NOW, 4).unwrap();
    assert_eq!(m.module_id, 0);
    assert_eq!(m.creator, key(10));
    assert_eq!(m.mint, key(90));
    assert_eq!(m.total_token_amount, 40);
    assert_eq!(m.sponsor_allocation, 40);
    assert_eq!(m.school_allocation, 0);
    assert_eq!(m.student_allocation, 0);
    assert_eq!(m.price, 100);
    assert_eq!(m.deposit, 50_000_000);
    assert_eq!((m.content_creator_bps, m.regional_operator_bps, m.protocol_bps, m.dbs_bps), (1_000, 500, 250, 1_500));
    assert_eq!(
        effects,
        vec![
            Effect::Move { from: Pot::CreatorXcav, to: Pot::Vault, amount: 50_000_000 },
            Effect::MintModuleSupply { amount: 40 },
        ]
    );
    assert_eq!(cfg.next_module_id, 1);
}

#[test]
fn create_module_rejects_bad_amounts_and_metadata() {
    let mut cfg = config();
    assert_eq!(
        create_module(&mut cfg, key(10), 1, 0, String::new(), key(90), NOW, 4).unwrap_err(),
        EducationError::AmountCannotBeZero
    );
    assert_eq!(
        create_module(&mut cfg, key(10), 1, 1_001, String::new(), key(90), NOW, 4).unwrap_err(),
        EducationError::TooManyTokens
    );
    assert_eq!(
        create_module(&mut cfg, key(10), 1, 10, "x".repeat(201), key(90), NOW, 4).unwrap_err(),
        EducationError::InvalidConfig
    );
    assert_eq!(cfg.next_module_id, 0);
}

// ---------------------------------------------------------------- sponsor

#[test]
fn sponsor_module_escrows_full_price() {
    let (mut cfg, mut m) = module_with(40);
    let (s, effects) = sponsor(&mut cfg, &mut m, 3);
    // 100 units at 6 decimals is 100_000_000 base plus 32.5% in fees.
    assert_eq!(s.price_per_token, 132_500_000);
    assert_eq!(s.amount, 3);
    assert_eq!(s.sponsor, key(20));
    assert_eq!(s.payment_asset, USDC);
    assert_eq!(s.sponsor_id, 0);
    assert_eq!(effects, vec![Effect::Move { from: Pot::SponsorPayment, to: Pot::SponsorEscrow, amount: 397_500_000 }]);
    assert_eq!(m.sponsor_allocation, 37);
    assert_eq!(m.school_allocation, 3);
    assert_eq!(cfg.next_sponsor_id, 1);
}

#[test]
fn sponsor_module_refusals() {
    let (mut cfg, mut m) = module_with(4);
    let data = vec![0u8; 82];
    assert_eq!(
        sponsor_module(&mut cfg, &mut m, key(20), USDC, 6, &classic(), &data, 0, NOW, 5).unwrap_err(),
        EducationError::AmountCannotBeZero
    );
    assert_eq!(
        sponsor_module(&mut cfg, &mut m, key(20), key(45), 6, &classic(), &data, 1, NOW, 5).unwrap_err(),
        EducationError::PaymentAssetNotSupported
    );
    assert_eq!(
        sponsor_module(&mut cfg, &mut m, key(20), USDC, 6, &classic(), &data, 5, NOW, 5).unwrap_err(),
        EducationError::NotEnoughTokenAvailable
    );
    // A token-2022 payment mint with a transfer fee is refused.
    let t22 = anchor_spl::token_2022::ID.to_bytes();
    let owner = Key {
        w0: u64::from_le_bytes(t22[0..8].try_into().unwrap()),
        w1: u64::from_le_bytes(t22[8..16].try_into().unwrap()),
        w2: u64::from_le_bytes(t22[16..24].try_into().unwrap()),
        w3: u64::from_le_bytes(t22[24..32].try_into().unwrap()),
    };
    let mut fee_mint = vec![0u8; 166 + 4 + 108];
    fee_mint[45] = 1;
    fee_mint[165] = 1;
    fee_mint[166..168].copy_from_slice(&1u16.to_le_bytes());
    fee_mint[168..170].copy_from_slice(&108u16.to_le_bytes());
    assert_eq!(
        sponsor_module(&mut cfg, &mut m, key(20), USDC, 6, &owner, &fee_mint, 1, NOW, 5).unwrap_err(),
        EducationError::UnsupportedMintExtension
    );
    assert_eq!(
        sponsor_module(&mut cfg, &mut m, key(20), USDC, 6, &owner, &vec![1u8; 5], 1, NOW, 5).unwrap_err(),
        EducationError::InvalidMintData
    );
    // Nothing changed on refusal.
    assert_eq!(m.sponsor_allocation, 4);
    assert_eq!(cfg.next_sponsor_id, 0);
}

// ---------------------------------------------------------------- reclaim / close

#[test]
fn reclaim_waits_for_the_window() {
    let (mut cfg, mut m) = module_with(40);
    let (mut s, _) = sponsor(&mut cfg, &mut m, 3);
    assert_eq!(
        reclaim_sponsorship(&cfg, &mut m, &mut s, key(20), 2, NOW + 1_000).unwrap_err(),
        EducationError::SponsorshipWindowNotExpired
    );
    let effects = reclaim_sponsorship(&cfg, &mut m, &mut s, key(20), 2, NOW + 1_001).unwrap();
    assert_eq!(effects, vec![Effect::Move { from: Pot::SponsorEscrow, to: Pot::SponsorPayment, amount: 265_000_000 }]);
    assert_eq!(s.amount, 1);
    assert_eq!(m.school_allocation, 1);
    assert_eq!(m.sponsor_allocation, 39);
}

#[test]
fn reclaim_refusals() {
    let (mut cfg, mut m) = module_with(40);
    let (mut s, _) = sponsor(&mut cfg, &mut m, 3);
    let later = NOW + 5_000;
    assert_eq!(reclaim_sponsorship(&cfg, &mut m, &mut s, key(21), 1, later).unwrap_err(), EducationError::NoPermission);
    assert_eq!(
        reclaim_sponsorship(&cfg, &mut m, &mut s, key(20), 0, later).unwrap_err(),
        EducationError::AmountCannotBeZero
    );
    assert_eq!(
        reclaim_sponsorship(&cfg, &mut m, &mut s, key(20), 4, later).unwrap_err(),
        EducationError::NotEnoughTokenAvailable
    );
}

#[test]
fn close_sponsorship_only_when_spent() {
    let (mut cfg, mut m) = module_with(40);
    let (mut s, _) = sponsor(&mut cfg, &mut m, 1);
    assert_eq!(close_sponsorship(&s, key(21)).unwrap_err(), EducationError::NoPermission);
    assert_eq!(close_sponsorship(&s, key(20)).unwrap_err(), EducationError::SponsorshipNotEmpty);
    reclaim_sponsorship(&cfg, &mut m, &mut s, key(20), 1, NOW + 2_000).unwrap();
    assert_eq!(
        close_sponsorship(&s, key(20)).unwrap(),
        vec![Effect::CloseEscrow { escrow: Pot::SponsorEscrow, rent_to: Pot::SponsorWallet }]
    );
}

// ---------------------------------------------------------------- burn / remove

#[test]
fn burn_unsponsored_tokens() {
    let (mut cfg, mut m) = module_with(10);
    sponsor(&mut cfg, &mut m, 4);
    assert_eq!(burn_unsponsored_token(&mut m, key(11), 1).unwrap_err(), EducationError::NoPermission);
    assert_eq!(burn_unsponsored_token(&mut m, key(10), 0).unwrap_err(), EducationError::AmountCannotBeZero);
    // Only the 6 unsponsored tokens can be burned.
    assert_eq!(burn_unsponsored_token(&mut m, key(10), 7).unwrap_err(), EducationError::CannotBurnMoreThanAvailable);
    assert_eq!(burn_unsponsored_token(&mut m, key(10), 6).unwrap(), vec![Effect::BurnModuleTokens { amount: 6 }]);
    assert_eq!(m.sponsor_allocation, 0);
    assert_eq!(m.school_allocation, 4);
}

#[test]
fn remove_module_needs_an_empty_vault() {
    let (_, m) = module_with(10);
    assert_eq!(remove_module(&m, key(11), 0).unwrap_err(), EducationError::NoPermission);
    assert_eq!(remove_module(&m, key(10), 1).unwrap_err(), EducationError::CannotRemoveModuleWithActiveTokens);
    assert_eq!(
        remove_module(&m, key(10), 0).unwrap(),
        vec![
            Effect::Move { from: Pot::Vault, to: Pot::CreatorXcav, amount: 50_000_000 },
            Effect::CloseEscrow { escrow: Pot::ModuleVault, rent_to: Pot::CreatorWallet },
        ]
    );
}

//! Screening of payment and governance mints: a mint carrying a token-2022
//! extension that breaks one-to-one escrow accounting, or lets a third party
//! move, freeze or hide escrowed funds, is refused.
use vstd::prelude::*;

use anchor_spl::token_2022::spl_token_2022::extension::{BaseStateWithExtensions, StateWithExtensions};
use anchor_spl::token_2022::spl_token_2022::state::Mint as Token2022Mint;

use crate::key::Key;

verus! {

/// Why a mint was refused.
#[derive(Clone, Copy, Debug, PartialEq, Eq, Structural)]
pub enum MintGuardError {
    /// The account data is not a token-2022 mint.
    InvalidMintData,
    /// The mint carries an extension the escrow accounting cannot support.
    UnsupportedMintExtension,
}

/// The address of the classic SPL token program
/// (`TokenkegQfeZyiNwAJbNbGKPFXCWuBvf9Ss623VQ5DA`).
pub open spec fn classic_token_program_spec() -> Key {
    Key {
        w0: 10637895772709248262,
        w1: 12428223917890587609,
        w2: 10463932726783620124,
        w3: 12178014311288245306,
    }
}

/// The classic SPL token program id, read from `anchor_spl::token::ID`; the
/// contract states its documented value.
#[verifier::external_body]
fn classic_token_program() -> (r: Key)
    ensures
        r == classic_token_program_spec(),
{
    let b: [u8; 32] = anchor_spl::token::ID.to_bytes();
    Key {
        w0: u64::from_le_bytes(b[0..8].try_into().unwrap()),
        w1: u64::from_le_bytes(b[8..16].try_into().unwrap()),
        w2: u64::from_le_bytes(b[16..24].try_into().unwrap()),
        w3: u64::from_le_bytes(b[24..32].try_into().unwrap()),
    }
}

/// The extension type codes that token-2022's parser finds in a mint account's
/// data, or `None` when the data does not parse as a token-2022 mint.
pub uninterp spec fn token2022_mint_extension_types(data: Seq<u8>) -> Option<Seq<u16>>;

/// Calls `StateWithExtensions::<Mint>::unpack` and then
/// `BaseStateWithExtensions::get_extension_types` of spl-token-2022 on `data`,
/// returning the extensions' `u16` codes in the order the parser lists them. The
/// contract only ties the result to `data` through the name above.
#[verifier::external_body]
fn mint_extension_types(data: &[u8]) -> (r: Option<Vec<u16>>)
    ensures
        match r {
            Some(v) => token2022_mint_extension_types(data@) == Some(v@),
            None => token2022_mint_extension_types(data@) is None,
        },
{
    match StateWithExtensions::<Token2022Mint>::unpack(data) {
        Ok(state) => match state.get_extension_types() {
            Ok(types) => Some(types.into_iter().map(u16::from).collect()),
            Err(_) => None,
        },
        Err(_) => None,
    }
}

/// The extension codes refused: transfer fee config (1), mint close authority
/// (3), confidential transfer mint (4), default account state (6),
/// non-transferable (9), permanent delegate (12), transfer hook (14),
/// confidential mint/burn (24) and pausable (26).
pub open spec fn is_unsupported_extension(code: u16) -> bool {
    code == 1 || code == 3 || code == 4 || code == 6 || code == 9 || code == 12 || code == 14
        || code == 24 || code == 26
}

/// Whether a refused extension code appears among `codes`.
pub open spec fn has_unsupported_extension(codes: Seq<u16>) -> bool {
    exists|i: int| 0 <= i < codes.len() && is_unsupported_extension(#[trigger] codes[i])
}

/// The verdict on a mint whose account is owned by `owner`, given what
/// token-2022's parser made of its data.
pub open spec fn mint_verdict(owner: Key, parsed: Option<Seq<u16>>) -> Result<(), MintGuardError> {
    if owner == classic_token_program_spec() {
        Ok(())
    } else {
        match parsed {
            None => Err(MintGuardError::InvalidMintData),
            Some(codes) => if has_unsupported_extension(codes) {
                Err(MintGuardError::UnsupportedMintExtension)
            } else {
                Ok(())
            },
        }
    }
}

/// Whether a single extension code is refused.
pub fn is_unsupported_code(code: u16) -> (r: bool)
    ensures
        r == is_unsupported_extension(code),
{
    code == 1 || code == 3 || code == 4 || code == 6 || code == 9 || code == 12 || code == 14
        || code == 24 || code == 26
}

/// Judges a list of extension codes that the parser produced.
pub fn screen_extension_codes(codes: &Vec<u16>) -> (r: Result<(), MintGuardError>)
    ensures
        r == (if has_unsupported_extension(codes@) {
            Err::<(), MintGuardError>(MintGuardError::UnsupportedMintExtension)
        } else {
            Ok::<(), MintGuardError>(())
        }),
{
    let mut i: usize = 0;
    while i < codes.len()
        invariant
            i <= codes@.len(),
            forall|j: int| 0 <= j < i ==> !is_unsupported_extension(#[trigger] codes@[j]),
        decreases codes@.len() - i,
    {
        if is_unsupported_code(codes[i]) {
            return Err(MintGuardError::UnsupportedMintExtension);
        }
        i = i + 1;
    }
    Ok(())
}

/// Reject mints carrying an extension that breaks escrow accounting. Classic SPL
/// mints have no extensions, so they skip the check; any other owner's data is
/// parsed as a token-2022 mint.
pub fn require_supported_mint(owner: &Key, data: &[u8]) -> (r: Result<(), MintGuardError>)
    ensures
        r == mint_verdict(*owner, token2022_mint_extension_types(data@)),
{
    if *owner == classic_token_program() {
        return Ok(());
    }
    match mint_extension_types(data) {
        None => Err(MintGuardError::InvalidMintData),
        Some(codes) => screen_extension_codes(&codes),
    }
}

} // verus!

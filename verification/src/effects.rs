use vstd::prelude::*;

verus! {

/// A token account (or, for rent, a wallet) that an action moves value between.
#[derive(Clone, Copy, Debug, PartialEq, Eq, Structural)]
pub enum Pot {
    /// The program's XCAV escrow vault.
    Vault,
    /// The protocol treasury.
    Treasury,
    /// A proposer's XCAV account (region, removal or module proposal).
    Proposer,
    /// A voter's XCAV account.
    Voter,
    /// A bidder's XCAV account.
    Bidder,
    /// The XCAV account of the bidder who was just outbid.
    PreviousBidder,
    /// The XCAV account of an operator taking a region seat.
    NewOperator,
    /// The XCAV account of an operator leaving a region seat.
    OldOwner,
    /// Where a treasury withdrawal goes.
    Destination,
    /// A module creator's XCAV account.
    CreatorXcav,
    /// A school's XCAV account.
    SchoolXcav,
    /// A lecturer's XCAV account.
    DelivererXcav,
    /// A sponsor's payment-asset account.
    SponsorPayment,
    /// A sponsorship's payment escrow.
    SponsorEscrow,
    /// A booking's payment escrow.
    BookingEscrow,
    /// A sponsor proposal's pre-sponsorship escrow.
    ProposalEscrow,
    /// A module creator's payment-asset account.
    CreatorPayment,
    /// A region operator's payment-asset account.
    RegionalOperatorPayment,
    /// The protocol's payment-asset fee account.
    ProtocolPayment,
    /// A lecturer's payment-asset account.
    LecturerPayment,
    /// A sponsor's wallet (receives closed escrow rent).
    SponsorWallet,
    /// A school's wallet (receives closed escrow rent).
    SchoolWallet,
    /// A creator's wallet (receives closed escrow rent).
    CreatorWallet,
    /// A proposer's wallet (receives closed escrow rent).
    ProposerWallet,
    /// A module's token vault (holds its whole fractionalized supply).
    ModuleVault,
    /// A sponsor-proposer's payment-asset account.
    ProposerPayment,
}

/// One step of outside work an accepted action asks for, in order.
#[derive(Clone, Copy, Debug, PartialEq, Eq, Structural)]
pub enum Effect {
    /// Move `amount` tokens between two token accounts.
    Move { from: Pot, to: Pot, amount: u64 },
    /// Mint `amount` module tokens into the module vault.
    MintModuleSupply { amount: u64 },
    /// Burn `amount` module tokens from the module vault.
    BurnModuleTokens { amount: u64 },
    /// Close an (empty) escrow token account, its rent going to `rent_to`.
    CloseEscrow { escrow: Pot, rent_to: Pot },
    /// Give up the caller's module-deliverer role in the roles program.
    RenounceDelivererRole,
}

/// A token movement effect.
pub open spec fn mv(from: Pot, to: Pot, amount: u64) -> Effect {
    Effect::Move { from, to, amount }
}

/// Builds a token movement effect.
pub fn make_move(from: Pot, to: Pot, amount: u64) -> (e: Effect)
    ensures
        e == mv(from, to, amount),
{
    Effect::Move { from, to, amount }
}

} // verus!

verus! {

/// What a handler reads of a token account supplied to it: its owner and mint.
#[derive(Clone, Copy, Debug, PartialEq, Eq, Structural)]
pub struct TokenAccountInfo {
    pub owner: crate::key::Key,
    pub mint: crate::key::Key,
}

/// The net amount a sequence of effects moves into `pot` (in minus out).
pub open spec fn net_into(effects: Seq<Effect>, pot: Pot) -> int
    decreases effects.len(),
{
    if effects.len() == 0 {
        0
    } else {
        let rest = net_into(effects.drop_last(), pot);
        match effects.last() {
            Effect::Move { from, to, amount } => if to == pot && from != pot {
                rest + amount
            } else if from == pot && to != pot {
                rest - amount
            } else {
                rest
            },
            _ => rest,
        }
    }
}

} // verus!

verus! {

/// The net flow into `pot` of two effect lists in a row is the sum of each.
pub proof fn lemma_net_into_concat(a: Seq<Effect>, b: Seq<Effect>, pot: Pot)
    ensures
        net_into(a + b, pot) == net_into(a, pot) + net_into(b, pot),
    decreases b.len(),
{
    if b.len() == 0 {
        assert(a + b =~= a);
    } else {
        lemma_net_into_concat(a, b.drop_last(), pot);
        assert((a + b).drop_last() =~= a + b.drop_last());
        assert((a + b).last() == b.last());
    }
}

/// A one-move effect list moves its amount into the destination.
pub proof fn lemma_net_into_one(a: Effect, pot: Pot)
    ensures
        net_into(seq![a], pot) == match a {
            Effect::Move { from, to, amount } => if to == pot && from != pot {
                amount as int
            } else if from == pot && to != pot {
                -amount
            } else {
                0
            },
            _ => 0,
        },
{
    reveal_with_fuel(net_into, 2);
    assert(seq![a].drop_last() =~= Seq::<Effect>::empty());
}

/// A two-move effect list moves the sum of its parts.
pub proof fn lemma_net_into_two(a: Effect, b: Effect, pot: Pot)
    ensures
        net_into(seq![a, b], pot) == net_into(seq![a], pot) + net_into(seq![b], pot),
{
    reveal_with_fuel(net_into, 2);
    assert(seq![a, b].drop_last() =~= seq![a]);
    lemma_net_into_one(a, pot);
    lemma_net_into_one(b, pot);
}

/// Net flow of a three-effect list.
pub proof fn lemma_net_into_three(a: Effect, b: Effect, c: Effect, pot: Pot)
    ensures
        net_into(seq![a, b, c], pot) == net_into(seq![a, b], pot) + net_into(seq![c], pot),
{
    assert(seq![a, b, c] =~= seq![a, b] + seq![c]);
    lemma_net_into_concat(seq![a, b], seq![c], pot);
}

} // verus!

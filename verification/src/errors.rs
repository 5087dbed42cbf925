use vstd::prelude::*;

verus! {

/// Why a region-governance action was refused.
#[derive(Clone, Copy, Debug, PartialEq, Eq, Structural)]
pub enum RegionsError {
    NotAuthority,
    InvalidConfig,
    InvalidMint,
    InvalidRegion,
    RegionAlreadyCreated,
    BelowMinimumVotingAmount,
    ProposalExpired,
    NotProposing,
    VotingStillOngoing,
    InvalidTreasury,
    BondTooSmall,
    RegionNotPassed,
    NotProposer,
    SelfClaimNotAllowed,
    RemovalTargetChanged,
    NotClearable,
    NotRegionOwner,
    RegionOwnerCantBeChanged,
    OwnerChangeAlreadyScheduled,
    Overflow,
    MissingRecipientToken,
    UnsupportedMintExtension,
    NotUpgradeAuthority,
    NotCompliant,
    NotAuctioning,
    AuctionEnded,
    AlreadyHighestBidder,
    BidTooLow,
    BidBelowMinimum,
    MissingPreviousBidder,
    WrongPreviousBidder,
    AuctionNotFinished,
    NotWinner,
    ClaimWindowClosed,
    /// The mint account's data does not parse as a mint.
    InvalidMintData,
}

/// Why a learning-module action was refused.
#[derive(Clone, Copy, Debug, PartialEq, Eq, Structural)]
pub enum EducationError {
    NotAuthority,
    InvalidConfig,
    InvalidMint,
    InvalidTreasury,
    NotCompliant,
    RegionUnknown,
    AmountCannotBeZero,
    TooManyTokens,
    Overflow,
    Underflow,
    PaymentAssetNotSupported,
    ModuleNotAvailable,
    NotEnoughTokenAvailable,
    NoPermission,
    SponsorshipWindowNotExpired,
    CannotBurnMoreThanAvailable,
    NoFundedModulesFromSponsor,
    NoBookingAvailable,
    LecturerAlreadySet,
    SchoolCannotClaimOwnBooking,
    ModuleDelivererNotRegistered,
    InsufficientDepositToClaim,
    NoLecturerSet,
    ScoreAlreadySet,
    InvalidScore,
    NoTestResultsSubmitted,
    WrongPayoutRecipient,
    ModuleDelivererStillActive,
    CancellationNotClearable,
    MissingAccount,
    CannotRemoveModuleWithActiveTokens,
    InvalidProposalRole,
    BelowMinimumVotingAmount,
    ProposalExpired,
    VotingStillOngoing,
    InvalidProposalState,
    NotProposalCreator,
    CreatorBanned,
    ProposalNotClearable,
    SponsorshipNotEmpty,
    BuildDeadlineNotReached,
    UploadDeadlineNotReached,
    UnsupportedMintExtension,
    DeliveryNotReached,
    AlreadySettled,
    DisputeAlreadyRaised,
    DisputeWindowClosed,
    NoDispute,
    DisputePending,
    DisputeWindowOpen,
    /// The mint account's data does not parse as a mint.
    InvalidMintData,
}

} // verus!

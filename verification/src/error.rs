//! Every way in which an instruction of the two programs can be refused.
use vstd::prelude::*;

verus! {

/// Why an instruction was refused.
#[derive(Clone, Copy, Debug, PartialEq, Eq, Structural)]
pub enum ProgramError {
    /// An account's data is too short for the field that is read.
    InvalidAccountData,
    /// An instruction's data is too short for its arguments.
    InvalidInstructionData,
    /// An argument is outside the values that the instruction knows.
    InvalidArgument,
    /// An account does not sit at its derived address, or no address can be derived.
    InvalidSeeds,
    /// An account breaks a constraint declared for its slot.
    AccountConstraint,
    /// A rule of the exchange.
    Dex(DexError),
    /// A rule of the ownership token.
    Ot(OtError),
}

/// The exchange's own rules.
#[derive(Clone, Copy, Debug, PartialEq, Eq, Structural)]
pub enum DexError {
    DexPaused,
    PoolNotActive,
    ZeroAmount,
    ZeroOutput,
    SlippageExceeded,
    EmptyReserves,
    MathOverflow,
    InvalidVault,
    InvalidTokenAccount,
    InvalidPoolType,
    InvalidFee,
    InvalidFeeShare,
    InvalidFeeDestination,
    InvalidPauseAuthority,
    InvalidProtocolFeeDestination,
    MissingOtTreasuryAccount,
    OtTreasuryAccountMismatch,
    InvalidOtTreasuryDestination,
    OtTreasuryNotAllowedOnMasterPool,
    Unauthorized,
    UnauthorizedPause,
    InsufficientShares,
    InvalidLpPosition,
    MasterPoolUserLpDisabled,
    CreatorNotWhitelisted,
    CreatorAlreadyExists,
    CreatorNotFound,
    WhitelistFull,
    IdenticalMints,
    InvalidMintOrder,
    InvalidMintPair,
    MissingRwtMint,
    InvalidBinStep,
    InvalidBinRange,
    InvalidPermanentTailOffset,
    ShiftTooLarge,
    ShiftNoOp,
    PriceOverflow,
    MissingMintRouteAccounts,
    InvalidRwtMint,
    InvalidRwtVault,
    InvalidRebalancer,
    NavBinMismatch,
    NotGrowthDirection,
    NotCompressionDirection,
    ActiveZoneOverlapsTail,
    ExceedsRightEdgeBuffer,
    ZeroAddress,
    SelfTransfer,
    NoPendingAuthority,
    InvalidPendingAuthority,
    InvalidYdProgram,
    TargetVaultNotRwt,
    InvalidPoolPda,
    InvalidTargetVault,
    InvalidOtMint,
    NexusNotActive,
    NexusManagerDisabled,
    InvalidNexusManager,
    InvalidNexusToken,
    NexusAccumulatorEmpty,
    InsufficientNexusProfit,
    NexusRecordDepositOnlyFromYd,
    InvalidLiquidityHoldingPda,
}

/// The ownership token's own rules.
#[derive(Clone, Copy, Debug, PartialEq, Eq, Structural)]
pub enum OtError {
    /// Signer is not the governance authority.
    Unauthorized,
    /// Amount must be greater than zero.
    ZeroAmount,
    /// Destination allocations do not sum to 10,000.
    InvalidBpsTotal,
    /// Allocation not in the range 1 to 10,000.
    InvalidAllocationBps,
    /// Same address used twice in the destinations.
    DuplicateDestination,
    /// Destination list is empty.
    EmptyDestinationList,
    /// More than 10 destinations.
    TooManyDestinations,
    /// Balance below the minimum distribution amount.
    BelowMinDistribution,
    /// Less than 7 days since the last distribution.
    DistributionCooldown,
    /// Distribution already in progress.
    DistributionInProgress,
    /// Not enough remaining accounts for all destinations.
    InsufficientRemainingAccounts,
    /// Remaining account does not match its destination address.
    DestinationAccountMismatch,
    /// Arithmetic overflow.
    MathOverflow,
    /// Mint supply must be zero.
    InvalidMintSupply,
    /// Mint authority must be the deployer.
    InvalidMintAuthority,
    /// Freeze authority must be unset.
    FreezeAuthoritySet,
    /// Token name is empty.
    InvalidName,
    /// Token symbol is empty.
    InvalidSymbol,
    /// Decimals must be 1 to 9.
    InvalidDecimals,
    /// No pending authority transfer.
    NoPendingAuthority,
    /// Signer is not the pending authority.
    InvalidPendingAuthority,
    /// Cannot transfer authority to its present holder.
    AuthorityTransferToSelf,
    /// Destination address cannot be the fee destination.
    FeeDestinationCollision,
    /// Destination address cannot be zero.
    ZeroDestinationAddress,
    /// Active destinations must sum to 10,000.
    ActiveBpsSumMismatch,
    /// Governance is inactive.
    GovernanceInactive,
    /// Token account has the wrong owner.
    InvalidTokenAccountOwner,
    /// Token account mint mismatch.
    TokenMintMismatch,
    /// Fee account does not match the revenue configuration.
    InvalidFeeAccount,
    /// Initial authority cannot be the zero address.
    InvalidInitialAuthority,
    /// New authority cannot be the zero address.
    ZeroAuthority,
    /// The yield program is not the pinned one.
    InvalidYdProgram,
    /// The treasury is not at its derived address.
    InvalidOtTreasuryPda,
    /// The treasury's reward account has the wrong mint.
    InvalidTreasuryAtaMint,
    /// The treasury's reward account is not owned by the treasury.
    InvalidTreasuryAtaOwner,
}

} // verus!

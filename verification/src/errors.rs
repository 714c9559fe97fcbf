//! Error codes raised by the protocol's operations.

use vstd::prelude::*;

verus! {

/// Every failure an operation can report. All are terminal for the inputs
/// that caused them.
#[derive(Clone, Copy, Debug, PartialEq, Eq, Structural)]
pub enum ErrorCode {
    /// Integer overflow
    IntegerOverflow,
    /// Conversion failure
    ConversionFailure,
    /// Mathematical operation with overflow
    MathOverflow,
    /// Out of range integral conversion attempted
    OutOfRangeIntegralConversion,
    /// Unexpected account in instruction
    UnexpectedAccount,
    /// Unable to deserialize account
    UnableToDeserializeAccount,
    /// Invalid account discriminator
    InvalidAccountDiscriminator,
    /// Invalid raydium pool
    InvalidRaydiumPool,
    /// Epoch not ready to be advanced
    EpochNotAdvanceable,
    /// Token not NFT
    TokenNotNFT,
    /// Token account empty
    TokenAccountEmpty,
    /// Collection not verified
    CollectionNotVerified,
    /// Invalid collection
    InvalidCollection,
    /// Staking inactive
    StakingInactive,
    /// Invalid nft bump
    NftBumpError,
    /// Bond account from invalid epoch
    BondAccountInvalidEpoch,
    /// Invalid seed index
    InvalidSeedIndex,
    /// Negative period value
    NegativePeriodValue,
    /// Ineligible for reward
    IneligibleForReward,
    /// Invalid account status
    InvalidAccountStatus,
}

/// Result of a fallible protocol operation.
pub type ProgramResult<T = ()> = Result<T, ErrorCode>;

} // verus!

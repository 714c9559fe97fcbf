//! Value types that the protocol's records are built from.

pub mod boardroom;
pub mod bond;
pub mod clock;
pub mod custody;
pub mod epoch;
pub mod nft_staking;
pub mod oracle;
pub mod price;
pub mod pubkey;

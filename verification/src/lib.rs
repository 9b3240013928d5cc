//! Accounting core of a bucket exchange protocol.
//!
//! A bucket pools non-fungible assets ("NFTs") behind one fungible token
//! ("droplets"). A holder deposits an NFT and is minted a fixed amount of
//! droplets, or deposits under swap intent and is instead owed a replacement
//! NFT at a reduced fee. Redeeming burns droplets (or consumes the swap
//! eligibility), charges an exactly-split fee, and releases an NFT from
//! custody.
//!
//! This crate holds the verified state-transition and fee logic only. Moving
//! tokens, minting, burning and closing accounts are the ledger's work: the
//! operations here return the [`intents::LedgerIntent`] sequence that the
//! enclosing transaction must execute atomically.

pub mod config;
pub mod deposit;
pub mod errors;
pub mod fees;
pub mod intents;
pub mod laws;
pub mod redeem;
pub mod state;

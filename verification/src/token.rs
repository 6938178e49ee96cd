//! The token ledger's data model: the metadata a genesis request carries, the
//! minter authorization it may establish, the token state that is persisted,
//! and the errors genesis can fail with.
//!
//! Structural validation of the metadata (name and symbol shape, the decimals
//! range) is delegated to an external validator and is assumed to have run
//! before these values reach the core.

use vstd::prelude::*;

verus! {

/// The optional minting grant a genesis request asks for: the designated
/// minter's address, still unresolved, and an optional hard cap on the total
/// supply.
#[derive(Debug, Clone, PartialEq, Eq)]
pub struct MintDescriptor {
    /// The requested minter address, not yet resolved through the host's
    /// address-validation capability.
    pub minter: String,
    /// The optional hard cap the total supply must never exceed.
    pub cap: Option<u128>,
}

/// The requested token metadata handed to genesis. It is an input, never
/// persisted as-is.
#[derive(Debug, Clone, PartialEq, Eq)]
pub struct TokenMetadata {
    pub name: String,
    pub symbol: String,
    /// Decimal precision of displayed amounts.
    pub decimals: u8,
    /// The accounts credited at genesis: each address with its amount.
    pub initial_balances: Vec<(String, u128)>,
    /// Optional mint authorization to establish.
    pub mint: Option<MintDescriptor>,
}

/// An established minting grant: the minter's address in resolved, canonical
/// form, and the optional supply cap.
#[derive(Debug, Clone, PartialEq, Eq)]
pub struct MinterAuthorization {
    /// The resolved minter address. An unresolvable address is a hard genesis
    /// failure, so an authorization never carries one.
    pub minter: String,
    /// The optional hard cap on the total supply.
    pub cap: Option<u128>,
}

/// The persisted token record, created exactly once at genesis and never
/// mutated by the core afterwards.
#[derive(Debug, Clone, PartialEq, Eq)]
pub struct TokenState {
    pub name: String,
    pub symbol: String,
    pub decimals: u8,
    /// Equals the exact sum of the initial balances at genesis.
    pub total_supply: u128,
    /// The minting grant, if one was configured.
    pub mint: Option<MinterAuthorization>,
}

/// The typed failures genesis can report. No partial state is ever committed
/// alongside one of these.
#[derive(Debug, Clone, PartialEq, Eq, Structural)]
pub enum InitError {
    /// The sum of the initial balances exceeds the configured cap.
    SupplyExceedsCap,
    /// The requested minter address could not be resolved by the host.
    InvalidMinterAddress,
    /// The storage instance already holds a token state: genesis runs at most
    /// once.
    AlreadyInitialized,
}

} // verus!

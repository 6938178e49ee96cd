//! A capped-supply fungible token ledger for a sandboxed guest, in two
//! coupled pieces: the genesis semantics of the token (issuance, an optional
//! hard supply cap, an optional minter authorization) and the descriptor
//! protocol through which byte buffers cross the host boundary.
//!
//! The generic transfer, allowance and query machinery is delegated to an
//! external cw20 ledger; this crate owns what must not go wrong: the
//! accounting invariants of genesis and the layout and ownership rules of the
//! boundary descriptors.

mod contract;
mod ledger;
mod region;
mod token;

pub use contract::genesis_error;
pub use contract::genesis_state;
pub use contract::instantiate;
pub use contract::lemma_initialize_at_most_once;
pub use contract::metadata_cap;
pub use contract::sum_amounts;
pub use ledger::LedgerStore;
pub use ledger::balance_in;
pub use region::Region;
pub use region::build_region;
pub use region::build_region_from_components;
pub use region::region_for_buffer;
pub use region::release_buffer;
pub use token::InitError;
pub use token::MintDescriptor;
pub use token::MinterAuthorization;
pub use token::TokenMetadata;
pub use token::TokenState;

//! The token ledger core: genesis issuance. `instantiate` validates the
//! requested metadata against the optional supply cap, resolves the minter
//! authorization, and commits the token state and the initial balances as one
//! atomic write — or fails with a typed error and leaves storage unchanged.
//!
//! Resolving an address is the host's capability, so the caller performs the
//! resolution and hands its outcome in: `Some` with the canonical form where
//! the host accepted the requested minter address, `None` where it did not.

use vstd::prelude::*;

use crate::ledger::LedgerStore;
use crate::token::InitError;
use crate::token::MintDescriptor;
use crate::token::MinterAuthorization;
use crate::token::TokenMetadata;
use crate::token::TokenState;

verus! {

/// The sum of all listed amounts, as an unbounded integer.
pub open spec fn sum_amounts(entries: Seq<(String, u128)>) -> int
    decreases entries.len(),
{
    if entries.len() == 0 {
        0
    } else {
        entries.last().1 + sum_amounts(entries.drop_last())
    }
}

/// The cap the metadata configures, if any.
pub open spec fn metadata_cap(meta: TokenMetadata) -> Option<u128> {
    match meta.mint {
        Some(m) => m.cap,
        None => None,
    }
}

/// The failure genesis reports for this storage, metadata and minter
/// resolution, or `None` where genesis succeeds. The checks run in this
/// order: the supply cap first, then the minter resolution, and last the
/// storage layer's refusal of a second genesis.
pub open spec fn genesis_error(
    store: LedgerStore,
    meta: TokenMetadata,
    minter_resolved: Option<String>,
) -> Option<InitError> {
    if metadata_cap(meta) matches Some(cap) && sum_amounts(meta.initial_balances@) > cap {
        Some(InitError::SupplyExceedsCap)
    } else if meta.mint is Some && minter_resolved is None {
        Some(InitError::InvalidMinterAddress)
    } else if store.token is Some {
        Some(InitError::AlreadyInitialized)
    } else {
        None
    }
}

/// The token state a successful genesis persists: the metadata's name, symbol
/// and decimals, the exact sum of the initial balances as total supply, and
/// the resolved minter authorization with the configured cap, unclamped.
pub open spec fn genesis_state(meta: TokenMetadata, minter_resolved: Option<String>) -> TokenState {
    TokenState {
        name: meta.name,
        symbol: meta.symbol,
        decimals: meta.decimals,
        total_supply: sum_amounts(meta.initial_balances@) as u128,
        mint: match meta.mint {
            Some(m) => Some(
                MinterAuthorization { minter: minter_resolved.unwrap(), cap: m.cap },
            ),
            None => None,
        },
    }
}

/// A prefix of the journal never sums to more than the whole journal, because
/// every amount is non-negative.
proof fn lemma_sum_take_bound(entries: Seq<(String, u128)>, j: int)
    requires
        0 <= j <= entries.len(),
    ensures
        sum_amounts(entries.take(j)) <= sum_amounts(entries),
    decreases entries.len() - j,
{
    if j == entries.len() {
        assert(entries.take(j) =~= entries);
    } else {
        assert(entries.take(j + 1).last() == entries[j]);
        assert(entries.take(j + 1).drop_last() =~= entries.take(j));
        lemma_sum_take_bound(entries, j + 1);
    }
}

/// Adds up every initial balance. The caller guarantees the machine limit:
/// the exact sum fits in 128 bits.
fn sum_balances(entries: &Vec<(String, u128)>) -> (r: u128)
    requires
        sum_amounts(entries@) <= u128::MAX,
    ensures
        r == sum_amounts(entries@),
{
    let mut total: u128 = 0;
    let mut i: usize = 0;
    while i < entries.len()
        invariant
            i <= entries@.len(),
            sum_amounts(entries@) <= u128::MAX,
            total == sum_amounts(entries@.take(i as int)),
        decreases entries@.len() - i,
    {
        proof {
            assert(entries@.take(i as int + 1).last() == entries@[i as int]);
            assert(entries@.take(i as int + 1).drop_last() =~= entries@.take(i as int));
            lemma_sum_take_bound(entries@, i as int + 1);
        }
        total = total + entries[i].1;
        i = i + 1;
    }
    proof {
        assert(entries@.take(entries@.len() as int) =~= entries@);
    }
    total
}

/// Genesis: establishes the token state and the initial balances, exactly
/// once per storage instance.
///
/// The metadata is assumed to have passed the delegated structural validator.
/// `minter_resolved` is the outcome of resolving the requested minter address
/// through the host: `Some` canonical address, or `None` where the host
/// rejected it; it is only consulted where the metadata configures minting.
///
/// Either the full token state and every balance entry are written, or the
/// reported error is returned and storage is exactly as it was.
pub fn instantiate(
    store: &mut LedgerStore,
    meta: TokenMetadata,
    minter_resolved: Option<String>,
) -> (r: Result<(), InitError>)
    requires
        sum_amounts(meta.initial_balances@) <= u128::MAX,
    ensures
        r is Ok <==> genesis_error(*old(store), meta, minter_resolved) is None,
        r is Err ==> r == Err::<(), InitError>(
            genesis_error(*old(store), meta, minter_resolved).unwrap(),
        ) && *final(store) == *old(store),
        r is Ok ==> final(store).token == Some(genesis_state(meta, minter_resolved))
            && final(store).balances@ == old(store).balances@ + meta.initial_balances@,
        // The total supply is the exact sum of the listed amounts.
        r is Ok ==> final(store).token.unwrap().total_supply == sum_amounts(
            meta.initial_balances@,
        ),
        // A configured cap below the initial supply fails genesis and leaves
        // storage unchanged.
        (metadata_cap(meta) matches Some(cap) && sum_amounts(meta.initial_balances@) > cap)
            ==> r == Err::<(), InitError>(InitError::SupplyExceedsCap) && *final(store) == *old(
            store,
        ),
        // A cap that admits the initial supply never by itself fails genesis.
        (metadata_cap(meta) matches Some(cap) && sum_amounts(meta.initial_balances@) <= cap
            && minter_resolved is Some && old(store).token is None) ==> r is Ok,
        // A cap that admits the initial supply is persisted exactly as
        // configured, never clamped.
        r is Ok && meta.mint is Some ==> final(store).token.unwrap().mint == Some(
            MinterAuthorization {
                minter: minter_resolved.unwrap(),
                cap: meta.mint.unwrap().cap,
            },
        ),
{
    let total = sum_balances(&meta.initial_balances);

    // Enforce the optional hard cap before anything is persisted.
    if let Some(m) = &meta.mint {
        if let Some(cap) = m.cap {
            if total > cap {
                return Err(InitError::SupplyExceedsCap);
            }
        }
    }

    let TokenMetadata { name, symbol, decimals, initial_balances, mint } = meta;

    // Establish the minter authorization from the host's resolution outcome.
    let mint_auth: Option<MinterAuthorization> = match mint {
        Some(m) => match minter_resolved {
            Some(addr) => Some(MinterAuthorization { minter: addr, cap: m.cap }),
            None => {
                return Err(InitError::InvalidMinterAddress);
            },
        },
        None => None,
    };

    // The storage layer refuses a second genesis.
    if store.has_token() {
        return Err(InitError::AlreadyInitialized);
    }

    // Atomic commit: credit every initial balance, then persist the token
    // state.
    store.credit_all(initial_balances);
    store.token = Some(
        TokenState { name, symbol, decimals, total_supply: total, mint: mint_auth },
    );
    Ok(())
}

/// Genesis runs at most once: any storage instance left by a successful
/// `instantiate` refuses every further genesis attempt, whatever metadata or
/// minter resolution it carries (and, by the contract of `instantiate`, a
/// refused attempt leaves the stored token state untouched).
pub proof fn lemma_initialize_at_most_once(
    s0: LedgerStore,
    s1: LedgerStore,
    m1: TokenMetadata,
    r1: Option<String>,
    m2: TokenMetadata,
    r2: Option<String>,
)
    requires
        genesis_error(s0, m1, r1) is None,
        s1.token == Some(genesis_state(m1, r1)),
    ensures
        genesis_error(s1, m2, r2) is Some,
{
}

} // verus!

//! The abstract key-value store the core persists into: a single token state
//! record plus the credited balance entries, keyed by account address.
//!
//! Balance entries are kept as a journal of credits in the order they were
//! written; a later credit to the same address supersedes an earlier one, so
//! an account's balance is the amount of its most recent entry.

use vstd::prelude::*;

use crate::token::TokenState;

verus! {

/// The balance an address holds under a journal of credits: the amount of the
/// latest entry for that address, or zero where none exists.
pub open spec fn balance_in(entries: Seq<(String, u128)>, addr: Seq<char>) -> u128
    decreases entries.len(),
{
    if entries.len() == 0 {
        0
    } else if entries.last().0@ == addr {
        entries.last().1
    } else {
        balance_in(entries.drop_last(), addr)
    }
}

/// One contract instance's storage scope: at most one token state, and the
/// balance entries credited so far.
#[derive(Debug, Clone, PartialEq, Eq)]
pub struct LedgerStore {
    /// The persisted token record, present once genesis has succeeded.
    pub token: Option<TokenState>,
    /// The credited balance entries, in write order; the latest entry for an
    /// address is its balance.
    pub balances: Vec<(String, u128)>,
}

impl LedgerStore {
    /// A fresh, uninitialized storage instance: no token state, no balances.
    pub fn new() -> (s: LedgerStore)
        ensures
            s.token is None,
            s.balances@ == Seq::<(String, u128)>::empty(),
    {
        LedgerStore { token: None, balances: Vec::new() }
    }

    /// Whether genesis has already established a token state here.
    pub fn has_token(&self) -> (r: bool)
        ensures
            r == self.token is Some,
    {
        self.token.is_some()
    }

    /// The balance credited to `addr`: the latest entry for it, or zero.
    pub fn balance_of(&self, addr: &String) -> (r: u128)
        ensures
            r == balance_in(self.balances@, addr@),
    {
        let mut i: usize = self.balances.len();
        proof {
            assert(self.balances@.take(self.balances@.len() as int) =~= self.balances@);
        }
        while i > 0
            invariant
                i <= self.balances@.len(),
                balance_in(self.balances@, addr@) == balance_in(
                    self.balances@.take(i as int),
                    addr@,
                ),
            decreases i,
        {
            i = i - 1;
            let entry = &self.balances[i];
            if entry.0 == *addr {
                proof {
                    assert(self.balances@.take(i as int + 1).last() == self.balances@[i as int]);
                }
                return entry.1;
            }
            proof {
                assert(self.balances@.take(i as int + 1).last() == self.balances@[i as int]);
                assert(self.balances@.take(i as int + 1).drop_last() =~= self.balances@.take(
                    i as int,
                ));
            }
        }
        0
    }

    /// Appends one credit entry for every listed account, in order, leaving
    /// the token record as it was.
    pub fn credit_all(&mut self, entries: Vec<(String, u128)>)
        ensures
            final(self).token == old(self).token,
            final(self).balances@ == old(self).balances@ + entries@,
    {
        let mut i: usize = 0;
        while i < entries.len()
            invariant
                i <= entries@.len(),
                self.token == old(self).token,
                self.balances@ == old(self).balances@ + entries@.take(i as int),
            decreases entries@.len() - i,
        {
            let entry = &entries[i];
            let address = entry.0.clone();
            let amount = entry.1;
            self.balances.push((address, amount));
            proof {
                assert(old(self).balances@ + entries@.take(i as int + 1) =~= (old(
                    self,
                ).balances@ + entries@.take(i as int)).push(entries@[i as int]));
            }
            i = i + 1;
        }
        proof {
            assert(entries@.take(entries@.len() as int) =~= entries@);
        }
    }
}

} // verus!

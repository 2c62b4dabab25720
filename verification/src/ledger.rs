use vstd::prelude::*;

use std::collections::HashMap;

use crate::errors::CustomError;

verus! {

broadcast use vstd::std_specs::hash::group_hash_axioms;

/// The collaborator ledger that custodies value: account balances keyed by
/// address. A transfer either completes in full or fails with no effect, so
/// the lottery's custody can never be left half-moved.
///
/// Participant addresses are identities widened to `u128`; each record's
/// custody account lives at an address derived from the participant pair
/// (see `crate::store::pair_key`), disjoint from all participant addresses.
pub struct Ledger {
    accounts: HashMap<u128, u64>,
}

impl Ledger {
    /// The balance held at an address; an account never touched holds zero.
    pub closed spec fn bal(self, a: u128) -> u64 {
        if self.accounts@.contains_key(a) {
            self.accounts@[a]
        } else {
            0
        }
    }

    /// An empty ledger: every balance is zero.
    pub fn new() -> (l: Ledger)
        ensures
            forall|a: u128| l.bal(a) == 0,
    {
        Ledger { accounts: HashMap::new() }
    }

    /// Reads the balance of an address.
    pub fn balance_of(&self, a: u128) -> (b: u64)
        ensures
            b == self.bal(a),
    {
        match self.accounts.get(&a) {
            Some(v) => *v,
            None => 0,
        }
    }

    /// Mints `amount` into an account, as the host environment does when it
    /// endows a participant. Fails with no effect if the balance would pass
    /// `u64::MAX`.
    pub fn deposit(&mut self, a: u128, amount: u64) -> (r: Result<(), CustomError>)
        ensures
            match r {
                Ok(()) => old(self).bal(a) + amount <= u64::MAX
                    && final(self).bal(a) == old(self).bal(a) + amount
                    && forall|x: u128| x != a ==> final(self).bal(x) == old(self).bal(x),
                Err(e) => e == CustomError::BalanceOverflow
                    && old(self).bal(a) + amount > u64::MAX
                    && forall|x: u128| final(self).bal(x) == old(self).bal(x),
            },
    {
        let b = self.balance_of(a);
        if amount > u64::MAX - b {
            return Err(CustomError::BalanceOverflow);
        }
        self.accounts.insert(a, b + amount);
        Ok(())
    }

    /// Moves `amount` from one address to another. Fails with no effect when
    /// the source balance is insufficient, or when the destination balance
    /// would pass `u64::MAX`.
    pub fn transfer(&mut self, from: u128, to: u128, amount: u64) -> (r: Result<
        (),
        CustomError,
    >)
        ensures
            match r {
                Ok(()) => old(self).bal(from) >= amount
                    && (from != to ==> old(self).bal(to) + amount <= u64::MAX
                        && final(self).bal(from) == old(self).bal(from) - amount
                        && final(self).bal(to) == old(self).bal(to) + amount)
                    && (from == to ==> final(self).bal(from) == old(self).bal(from))
                    && forall|x: u128| x != from && x != to
                        ==> final(self).bal(x) == old(self).bal(x),
                Err(e) => (forall|x: u128| final(self).bal(x) == old(self).bal(x))
                    && (e == CustomError::InsufficientFunds
                        || e == CustomError::BalanceOverflow)
                    && (e == CustomError::InsufficientFunds
                        <==> old(self).bal(from) < amount)
                    && (e == CustomError::BalanceOverflow
                        <==> old(self).bal(from) >= amount && from != to
                            && old(self).bal(to) + amount > u64::MAX),
            },
    {
        let fb = self.balance_of(from);
        if fb < amount {
            return Err(CustomError::InsufficientFunds);
        }
        if from == to {
            return Ok(());
        }
        let tb = self.balance_of(to);
        if amount > u64::MAX - tb {
            return Err(CustomError::BalanceOverflow);
        }
        self.accounts.insert(from, fb - amount);
        self.accounts.insert(to, tb + amount);
        Ok(())
    }
}

} // verus!

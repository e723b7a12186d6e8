//! An in-memory model of the asset ledger the wallets move funds on.
//!
//! The real ledger is an external collaborator that holds balances and
//! performs atomic transfers; this model gives the wallet logic a concrete,
//! fully specified counterpart, so that fee-inclusive accounting can be
//! stated and proved balance by balance.
use vstd::prelude::*;
use crate::addresses::Address;
use crate::errors::Error;

verus! {

/// A keyed store of non-negative balances, one entry per holder.
pub struct TokenLedger {
    accounts: Vec<(Address, i128)>,
}

impl TokenLedger {
    /// The balance held by `holder`; an account never touched holds zero.
    pub closed spec fn balance_of(&self, holder: Address) -> int {
        if exists|i: int| 0 <= i < self.accounts@.len() && self.accounts@[i].0 == holder {
            let i = choose|i: int|
                0 <= i < self.accounts@.len() && self.accounts@[i].0 == holder;
            self.accounts@[i].1 as int
        } else {
            0
        }
    }

    /// One entry per holder, each balance non-negative.
    pub closed spec fn inv(&self) -> bool {
        &&& forall|i: int, j: int|
            0 <= i < j < self.accounts@.len() ==> (#[trigger] self.accounts@[i]).0 != (
            #[trigger] self.accounts@[j]).0
        &&& forall|i: int| 0 <= i < self.accounts@.len() ==> (#[trigger] self.accounts@[i]).1 >= 0
    }

    proof fn lemma_entry_is_balance(&self, i: int)
        requires
            self.inv(),
            0 <= i < self.accounts@.len(),
        ensures
            self.balance_of(self.accounts@[i].0) == self.accounts@[i].1,
    {
        let holder = self.accounts@[i].0;
        let k = choose|k: int|
            0 <= k < self.accounts@.len() && self.accounts@[k].0 == holder;
        if k < i {
            assert(self.accounts@[k].0 != self.accounts@[i].0);
        } else if i < k {
            assert(self.accounts@[i].0 != self.accounts@[k].0);
        }
    }

    proof fn lemma_absent_is_zero(&self, holder: Address)
        requires
            forall|i: int|
                0 <= i < self.accounts@.len() ==> (#[trigger] self.accounts@[i]).0 != holder,
        ensures
            self.balance_of(holder) == 0,
    {
    }

    /// When the entries of `prior` carry over unchanged wherever they hold
    /// `a`, and no appended entry holds `a`, `a`'s balance is unchanged.
    proof fn lemma_balance_carried(&self, prior: &TokenLedger, a: Address)
        requires
            self.inv(),
            prior.inv(),
            prior.accounts@.len() <= self.accounts@.len(),
            forall|i: int|
                0 <= i < prior.accounts@.len() ==> (#[trigger] self.accounts@[i]).0
                    == prior.accounts@[i].0,
            forall|i: int|
                0 <= i < prior.accounts@.len() && prior.accounts@[i].0 == a ==> (
                #[trigger] self.accounts@[i]).1 == prior.accounts@[i].1,
            forall|i: int|
                prior.accounts@.len() <= i < self.accounts@.len() ==> (
                #[trigger] self.accounts@[i]).0 != a,
        ensures
            self.balance_of(a) == prior.balance_of(a),
    {
        if exists|i: int| 0 <= i < prior.accounts@.len() && prior.accounts@[i].0 == a {
            let i = choose|i: int|
                0 <= i < prior.accounts@.len() && prior.accounts@[i].0 == a;
            assert(self.accounts@[i].0 == a);
            self.lemma_entry_is_balance(i);
            prior.lemma_entry_is_balance(i);
        } else {
            assert(forall|i: int|
                0 <= i < self.accounts@.len() ==> (#[trigger] self.accounts@[i]).0 != a);
            self.lemma_absent_is_zero(a);
            prior.lemma_absent_is_zero(a);
        }
    }

    pub fn new() -> (r: TokenLedger)
        ensures
            r.inv(),
            forall|a: Address| r.balance_of(a) == 0,
    {
        let ledger = TokenLedger { accounts: Vec::new() };
        proof {
            assert forall|a: Address| ledger.balance_of(a) == 0 by {
                ledger.lemma_absent_is_zero(a);
            }
        }
        ledger
    }

    /// The position of `holder`'s entry, if one exists.
    fn find_account(&self, holder: Address) -> (r: Option<usize>)
        ensures
            match r {
                Some(i) => i < self.accounts@.len() && self.accounts@[i as int].0 == holder,
                None => forall|j: int|
                    0 <= j < self.accounts@.len() ==> self.accounts@[j].0 != holder,
            },
    {
        let n = self.accounts.len();
        let mut i: usize = 0;
        while i < n
            invariant
                n == self.accounts@.len(),
                i <= n,
                forall|j: int| 0 <= j < i ==> self.accounts@[j].0 != holder,
            decreases n - i,
        {
            if self.accounts[i].0 == holder {
                return Some(i);
            }
            i = i + 1;
        }
        None
    }

    /// The balance held by `holder`.
    pub fn balance(&self, holder: Address) -> (r: i128)
        requires
            self.inv(),
        ensures
            r == self.balance_of(holder),
            r >= 0,
    {
        match self.find_account(holder) {
            Some(i) => {
                proof {
                    self.lemma_entry_is_balance(i as int);
                }
                self.accounts[i].1
            },
            None => {
                proof {
                    self.lemma_absent_is_zero(holder);
                }
                0
            },
        }
    }

    /// Issues `amount` fresh units to `to` (test and setup use only; the
    /// core logic never mints).
    pub fn mint(&mut self, to: Address, amount: i128)
        requires
            old(self).inv(),
            amount >= 0,
            old(self).balance_of(to) + amount <= i128::MAX,
        ensures
            final(self).inv(),
            final(self).balance_of(to) == old(self).balance_of(to) + amount,
            forall|a: Address| a != to ==> final(self).balance_of(a) == old(self).balance_of(a),
    {
        match self.find_account(to) {
            Some(i) => {
                proof {
                    self.lemma_entry_is_balance(i as int);
                }
                let updated = (to, self.accounts[i].1 + amount);
                self.accounts[i] = updated;
                proof {
                    self.lemma_entry_is_balance(i as int);
                    assert forall|a: Address| a != to implies self.balance_of(a) == old(
                        self,
                    ).balance_of(a) by {
                        self.lemma_balance_carried(old(self), a);
                    }
                }
            },
            None => {
                proof {
                    self.lemma_absent_is_zero(to);
                }
                self.accounts.push((to, amount));
                proof {
                    self.lemma_entry_is_balance(self.accounts@.len() - 1);
                    assert forall|a: Address| a != to implies self.balance_of(a) == old(
                        self,
                    ).balance_of(a) by {
                        self.lemma_balance_carried(old(self), a);
                    }
                }
            },
        }
    }

    /// Moves `amount` from `from` to `to` atomically: either both balances
    /// change by exactly `amount`, or neither does. Fails on a negative
    /// amount and when `from` cannot cover it.
    pub fn transfer(&mut self, from: Address, to: Address, amount: i128) -> (r: Result<(), Error>)
        requires
            old(self).inv(),
            old(self).balance_of(to) + amount <= i128::MAX,
        ensures
            final(self).inv(),
            r is Ok <==> 0 <= amount <= old(self).balance_of(from),
            r is Err ==> *final(self) == *old(self) && r == (if amount < 0 {
                Err::<(), Error>(Error::InvalidAmount)
            } else {
                Err::<(), Error>(Error::InsufficientBalance)
            }),
            r is Ok ==> forall|a: Address|
                final(self).balance_of(a) == old(self).balance_of(a) + (if a == to {
                    amount as int
                } else {
                    0
                }) - (if a == from {
                    amount as int
                } else {
                    0
                }),
    {
        if amount < 0 {
            return Err(Error::InvalidAmount);
        }
        let from_balance = self.balance(from);
        if from_balance < amount {
            return Err(Error::InsufficientBalance);
        }
        if from == to || amount == 0 {
            return Ok(());
        }
        // A positive balance means the holder's entry exists.
        let i = match self.find_account(from) {
            Some(i) => i,
            None => {
                proof {
                    self.lemma_absent_is_zero(from);
                }
                return Err(Error::InsufficientBalance);
            },
        };
        proof {
            self.lemma_entry_is_balance(i as int);
        }
        let debited = (from, self.accounts[i].1 - amount);
        self.accounts[i] = debited;
        let ghost mid = *self;
        proof {
            mid.lemma_entry_is_balance(i as int);
            assert forall|a: Address| a != from implies mid.balance_of(a) == old(
                self,
            ).balance_of(a) by {
                mid.lemma_balance_carried(old(self), a);
            }
        }
        match self.find_account(to) {
            Some(j) => {
                proof {
                    self.lemma_entry_is_balance(j as int);
                }
                let credited = (to, self.accounts[j].1 + amount);
                self.accounts[j] = credited;
                proof {
                    self.lemma_entry_is_balance(j as int);
                    assert(self.balance_of(to) == mid.balance_of(to) + amount);
                    assert forall|a: Address| a != to implies self.balance_of(a)
                        == mid.balance_of(a) by {
                        self.lemma_balance_carried(&mid, a);
                    }
                }
            },
            None => {
                proof {
                    self.lemma_absent_is_zero(to);
                }
                self.accounts.push((to, amount));
                proof {
                    self.lemma_entry_is_balance(self.accounts@.len() - 1);
                    assert(self.balance_of(to) == mid.balance_of(to) + amount);
                    assert forall|a: Address| a != to implies self.balance_of(a)
                        == mid.balance_of(a) by {
                        self.lemma_balance_carried(&mid, a);
                    }
                }
            },
        }
        proof {
            assert forall|a: Address|
                self.balance_of(a) == old(self).balance_of(a) + (if a == to {
                    amount as int
                } else {
                    0int
                }) - (if a == from {
                    amount as int
                } else {
                    0int
                }) by {
                if a == to {
                    assert(mid.balance_of(to) == old(self).balance_of(to));
                } else if a == from {
                    assert(self.balance_of(from) == mid.balance_of(from));
                } else {
                    assert(self.balance_of(a) == mid.balance_of(a));
                    assert(mid.balance_of(a) == old(self).balance_of(a));
                }
            }
        }
        Ok(())
    }
}

} // verus!

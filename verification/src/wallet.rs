//! The custodial wallet.
//!
//! A per-user fund holder on the asset ledger. Withdrawals are gated by the
//! assigned backend service or, once set, an optional owner principal; the
//! whole balance can be swept to the vault with a fee surcharge quoted by
//! the vault's own fee policy, which this core treats as an opaque function
//! whose reading is handed in.
use vstd::prelude::*;
use crate::addresses::Address;
use crate::errors::Error;
use crate::ledger::TokenLedger;

verus! {

/// A custodial wallet: the principals that may move its funds and the
/// addresses it moves them between. The wallet's own holdings live on the
/// asset ledger under `address`.
pub struct UserWallet {
    /// The ledger account this wallet custodies.
    address: Address,
    /// Always authorized to withdraw and to reassign the owner.
    backend: Address,
    /// The sweep target.
    vault: Address,
    /// The fungible asset this wallet custodies.
    asset: Address,
    /// Once set, additionally authorized for withdrawal and emergency
    /// withdrawal.
    owner: Option<Address>,
}

impl UserWallet {
    pub closed spec fn spec_address(&self) -> Address {
        self.address
    }

    pub closed spec fn spec_backend(&self) -> Address {
        self.backend
    }

    pub closed spec fn spec_vault(&self) -> Address {
        self.vault
    }

    pub closed spec fn spec_asset(&self) -> Address {
        self.asset
    }

    pub closed spec fn spec_owner(&self) -> Option<Address> {
        self.owner
    }

    /// Whether `caller` may move this wallet's funds: the backend always
    /// may, the owner may once one is set.
    pub open spec fn is_authorized(&self, caller: Address) -> bool {
        caller == self.spec_backend() || (self.spec_owner() matches Some(owner) && caller
            == owner)
    }

    pub fn new(
        address: Address,
        backend: Address,
        vault: Address,
        asset: Address,
        owner: Option<Address>,
    ) -> (r: UserWallet)
        ensures
            r.spec_address() == address,
            r.spec_backend() == backend,
            r.spec_vault() == vault,
            r.spec_asset() == asset,
            r.spec_owner() == owner,
    {
        UserWallet { address, backend, vault, asset, owner }
    }

    pub fn get_backend(&self) -> (r: Address)
        ensures
            r == self.spec_backend(),
    {
        self.backend
    }

    pub fn get_vault(&self) -> (r: Address)
        ensures
            r == self.spec_vault(),
    {
        self.vault
    }

    pub fn get_asset(&self) -> (r: Address)
        ensures
            r == self.spec_asset(),
    {
        self.asset
    }

    pub fn get_owner(&self) -> (r: Option<Address>)
        ensures
            r == self.spec_owner(),
    {
        self.owner
    }

    pub fn get_address(&self) -> (r: Address)
        ensures
            r == self.spec_address(),
    {
        self.address
    }

    /// The wallet's current holdings on the ledger.
    pub fn get_balance(&self, ledger: &TokenLedger) -> (r: i128)
        requires
            ledger.inv(),
        ensures
            r == ledger.balance_of(self.spec_address()),
            r >= 0,
    {
        ledger.balance(self.address)
    }

    fn require_authorized(&self, caller: Address) -> (r: Result<(), Error>)
        ensures
            r is Ok <==> self.is_authorized(caller),
            r is Err ==> r == Err::<(), Error>(Error::NotAuthorized),
    {
        if caller == self.backend {
            return Ok(());
        }
        if let Some(owner) = self.owner {
            if caller == owner {
                return Ok(());
            }
        }
        Err(Error::NotAuthorized)
    }

    /// Withdraws `amount` from the wallet's custody to `recipient`, for an
    /// authorized caller with sufficient balance. Either the full amount
    /// moves or nothing does.
    pub fn withdraw(
        &self,
        ledger: &mut TokenLedger,
        caller: Address,
        amount: i128,
        recipient: Address,
    ) -> (r: Result<(), Error>)
        requires
            old(ledger).inv(),
            old(ledger).balance_of(recipient) + amount <= i128::MAX,
        ensures
            final(ledger).inv(),
            r is Ok <==> self.is_authorized(caller) && 0 <= amount <= old(ledger).balance_of(
                self.spec_address(),
            ),
            r matches Err(e) ==> *final(ledger) == *old(ledger) && e == (
            if !self.is_authorized(caller) {
                Error::NotAuthorized
            } else if amount < 0 {
                Error::InvalidAmount
            } else {
                Error::InsufficientBalance
            }),
            r is Ok ==> forall|a: Address|
                final(ledger).balance_of(a) == old(ledger).balance_of(a) + (
                if a == recipient {
                    amount as int
                } else {
                    0
                }) - (if a == self.spec_address() {
                    amount as int
                } else {
                    0
                }),
    {
        if let Err(e) = self.require_authorized(caller) {
            return Err(e);
        }
        if amount < 0 {
            return Err(Error::InvalidAmount);
        }
        let balance = ledger.balance(self.address);
        if balance < amount {
            return Err(Error::InsufficientBalance);
        }
        let moved = ledger.transfer(self.address, recipient, amount);
        proof {
            assert(moved is Ok);
        }
        Ok(())
    }

    /// Reassigns the owner. Only the backend may do this; the replacement is
    /// unconditional.
    pub fn set_owner(&mut self, caller: Address, new_owner: Address) -> (r: Result<(), Error>)
        ensures
            r is Ok <==> caller == old(self).spec_backend(),
            r matches Err(e) ==> *final(self) == *old(self) && e == Error::OnlyBackend,
            r is Ok ==> final(self).spec_owner() == Some(new_owner),
            final(self).spec_address() == old(self).spec_address(),
            final(self).spec_backend() == old(self).spec_backend(),
            final(self).spec_vault() == old(self).spec_vault(),
            final(self).spec_asset() == old(self).spec_asset(),
    {
        if caller != self.backend {
            return Err(Error::OnlyBackend);
        }
        self.owner = Some(new_owner);
        Ok(())
    }

    /// Sweeps the wallet's entire balance to the owner. Requires an owner to
    /// be set, and only the owner itself may call.
    pub fn emergency_withdraw(&self, ledger: &mut TokenLedger, caller: Address) -> (r: Result<
        (),
        Error,
    >)
        requires
            old(ledger).inv(),
            old(ledger).balance_of(caller) + old(ledger).balance_of(self.spec_address())
                <= i128::MAX,
        ensures
            final(ledger).inv(),
            r is Ok <==> (self.spec_owner() matches Some(owner) && caller == owner),
            r matches Err(e) ==> *final(ledger) == *old(ledger) && e == (
            if self.spec_owner() is None {
                Error::OwnerNotSet
            } else {
                Error::OnlyOwner
            }),
            r is Ok ==> final(ledger).balance_of(self.spec_address()) == (
            if caller == self.spec_address() {
                old(ledger).balance_of(self.spec_address())
            } else {
                0
            }),
            r is Ok ==> forall|a: Address|
                final(ledger).balance_of(a) == old(ledger).balance_of(a) + (if a == caller {
                    old(ledger).balance_of(self.spec_address())
                } else {
                    0
                }) - (if a == self.spec_address() {
                    old(ledger).balance_of(self.spec_address())
                } else {
                    0
                }),
    {
        let owner = match self.owner {
            None => {
                return Err(Error::OwnerNotSet);
            },
            Some(owner) => owner,
        };
        if caller != owner {
            return Err(Error::OnlyOwner);
        }
        let balance = ledger.balance(self.address);
        let moved = ledger.transfer(self.address, owner, balance);
        proof {
            assert(moved is Ok);
        }
        Ok(())
    }

    /// Sweeps `payment_amount` plus the vault's quoted `fee` to the vault,
    /// for an authorized caller. The fee is part of the sufficiency check:
    /// either the full sum moves in one ledger operation, or nothing moves.
    /// Returns the total actually debited.
    pub fn transfer_to_vault(
        &self,
        ledger: &mut TokenLedger,
        caller: Address,
        payment_amount: i128,
        fee: i128,
    ) -> (r: Result<i128, Error>)
        requires
            old(ledger).inv(),
            fee >= 0,
            payment_amount + fee <= i128::MAX,
            old(ledger).balance_of(self.spec_vault()) + payment_amount + fee <= i128::MAX,
        ensures
            final(ledger).inv(),
            r is Ok <==> self.is_authorized(caller) && 0 <= payment_amount && payment_amount + fee
                <= old(ledger).balance_of(self.spec_address()),
            r matches Err(e) ==> *final(ledger) == *old(ledger) && e == (
            if !self.is_authorized(caller) {
                Error::NotAuthorized
            } else if payment_amount < 0 {
                Error::InvalidAmount
            } else {
                Error::InsufficientBalance
            }),
            r matches Ok(total) ==> total == payment_amount + fee && forall|a: Address|
                final(ledger).balance_of(a) == old(ledger).balance_of(a) + (
                if a == self.spec_vault() {
                    total as int
                } else {
                    0
                }) - (if a == self.spec_address() {
                    total as int
                } else {
                    0
                }),
    {
        if let Err(e) = self.require_authorized(caller) {
            return Err(e);
        }
        if payment_amount < 0 {
            return Err(Error::InvalidAmount);
        }
        let total = payment_amount + fee;
        let balance = ledger.balance(self.address);
        if balance < total {
            return Err(Error::InsufficientBalance);
        }
        let moved = ledger.transfer(self.address, self.vault, total);
        proof {
            assert(moved is Ok);
        }
        Ok(total)
    }
}

} // verus!

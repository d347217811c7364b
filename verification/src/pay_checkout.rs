//! The checkout contract: it forwards a buyer's payment to the marketplace
//! and keeps the status of each checkout, which the marketplace's answer
//! settles.

use vstd::prelude::*;

use crate::store::Store;
use crate::types::Address;

verus! {

/// Where a checkout stands.
#[derive(Clone, Copy, PartialEq, Eq, Structural, Debug)]
pub enum CheckoutStatus {
    Pending,
    Successful,
    Failed,
}

/// Why the checkout contract refuses a call.
#[derive(Clone, Copy, PartialEq, Eq, Structural, Debug)]
pub enum CheckoutError {
    NotOwner,
}

impl CheckoutError {
    /// The message the contract fails with, as text.
    pub open spec fn message_text(&self) -> Seq<char> {
        match self {
            CheckoutError::NotOwner => "Only owner can withdraw!"@,
        }
    }

    /// The message the contract fails with.
    pub fn message(&self) -> (r: &'static str)
        ensures
            r@ == self.message_text(),
    {
        match self {
            CheckoutError::NotOwner => "Only owner can withdraw!",
        }
    }
}

/// The call that a checkout makes to the marketplace: a trusted payment of
/// `amount` on behalf of `buyer`, whose answer comes back to
/// `pay_checkout_callback`.
#[derive(Clone, Copy, PartialEq, Eq, Structural, Debug)]
pub struct TrustedPaymentCall {
    pub marketplace: Address,
    pub buyer: Address,
    pub amount: u128,
}

/// A payment of the contract's EGLD to `to`, with the memo `withdraw`.
#[derive(Clone, Copy, PartialEq, Eq, Structural, Debug)]
pub struct Withdrawal {
    pub to: Address,
    pub amount: u128,
}

/// The checkout contract's storage: the status of each checkout by its id.
pub struct CheckoutDeposit {
    pub status: Store<u128, CheckoutStatus>,
}

impl CheckoutDeposit {
    pub open spec fn wf(&self) -> bool {
        self.status.wf()
    }

    pub fn init() -> (r: CheckoutDeposit)
        ensures
            r.wf(),
            r.status.view() == Map::<u128, CheckoutStatus>::empty(),
    {
        CheckoutDeposit { status: Store::new() }
    }

    /// Opens the checkout `checkout_id` as pending and forwards the
    /// caller's payment of `amount` to `marketplace`.
    pub fn pay_checkout(
        &mut self,
        caller: Address,
        marketplace: Address,
        amount: u128,
        checkout_id: u128,
    ) -> (r: TrustedPaymentCall)
        requires
            old(self).wf(),
        ensures
            final(self).wf(),
            final(self).status.view() == old(self).status.view().insert(
                checkout_id,
                CheckoutStatus::Pending,
            ),
            r == (TrustedPaymentCall { marketplace, buyer: caller, amount }),
    {
        self.status.set(checkout_id, CheckoutStatus::Pending);
        TrustedPaymentCall { marketplace, buyer: caller, amount }
    }

    /// Takes the marketplace's answer: the id of a checkout that went
    /// through, which is then successful, or `None` for a failed call,
    /// which changes nothing.
    pub fn pay_checkout_callback(&mut self, result: Option<u128>)
        requires
            old(self).wf(),
        ensures
            final(self).wf(),
            final(self).status.view() == match result {
                Some(checkout_id) => old(self).status.view().insert(
                    checkout_id,
                    CheckoutStatus::Successful,
                ),
                None => old(self).status.view(),
            },
    {
        match result {
            Some(checkout_id) => self.status.set(checkout_id, CheckoutStatus::Successful),
            None => {},
        }
    }

    /// Pays the contract's whole balance to its owner.
    pub fn withdraw(&self, caller: Address, owner: Address, sc_balance: u128) -> (r: Result<
        Withdrawal,
        CheckoutError,
    >)
        ensures
            r == if caller == owner {
                Ok::<Withdrawal, CheckoutError>(Withdrawal { to: caller, amount: sc_balance })
            } else {
                Err(CheckoutError::NotOwner)
            },
    {
        if !caller.same(&owner) {
            return Err(CheckoutError::NotOwner);
        }
        Ok(Withdrawal { to: caller, amount: sc_balance })
    }

    /// The status of `checkout_id`; `None` where no checkout has it.
    pub fn get_status(&self, checkout_id: u128) -> (r: Option<CheckoutStatus>)
        requires
            self.wf(),
        ensures
            r == self.status.view().get(checkout_id),
    {
        match self.status.get(&checkout_id) {
            Some(s) => Some(*s),
            None => None,
        }
    }
}

/// A checkout is pending from its payment until the marketplace's answer,
/// and successful once the answer names it; a failed answer leaves it
/// pending.
pub proof fn law_checkout_settles(
    c0: CheckoutDeposit,
    c1: CheckoutDeposit,
    c2: CheckoutDeposit,
    checkout_id: u128,
    answer: Option<u128>,
)
    requires
        c1.status.view() == c0.status.view().insert(checkout_id, CheckoutStatus::Pending),
        c2.status.view() == match answer {
            Some(id) => c1.status.view().insert(id, CheckoutStatus::Successful),
            None => c1.status.view(),
        },
    ensures
        c1.status.view()[checkout_id] == CheckoutStatus::Pending,
        answer == Some(checkout_id) ==> c2.status.view()[checkout_id] == CheckoutStatus::Successful,
        answer is None ==> c2.status.view()[checkout_id] == CheckoutStatus::Pending,
{
}

} // verus!

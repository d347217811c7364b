use vstd::prelude::*;

use super::contract::MarketplaceContract;
use super::events::{MarketAction, Memo};
use super::storage::{balance, get_balance, get_epoch, get_flag};
use super::validation::{ensure, MarketError};
use crate::types::{value_or, Address};

verus! {

/// The epochs of last withdrawal once `epoch` is recorded for `creator`
/// where none is (an epoch of zero reads as none).
pub open spec fn epoch_if_empty(m: Map<Address, u64>, creator: Address, epoch: u64) -> Map<
    Address,
    u64,
> {
    if value_or(m, creator, 0u64) == 0 {
        m.insert(creator, epoch)
    } else {
        m
    }
}

/// How many epochs remain until a creator whose last withdrawal was in
/// epoch `last` may withdraw again, `waiting` epochs apart, in epoch `curr`;
/// zero for a creator that never withdrew.
pub open spec fn remaining_epochs(curr: u64, last: u64, waiting: u64) -> int {
    if last != 0 {
        (waiting - (curr - last) % (waiting as int)) % (waiting as int)
    } else {
        0
    }
}

impl MarketplaceContract {
    /// The outcome of a creator's withdrawal in epoch `current_epoch`.
    pub open spec fn creator_withdrawal_check(&self, caller: Address, current_epoch: u64) -> Result<
        (),
        MarketError,
    > {
        if value_or(self.creator_blacklist.view(), caller, false) {
            Err(MarketError::Blacklisted)
        } else {
            ensure(
                current_epoch == value_or(self.creator_last_withdrawal_epoch.view(), caller, 0u64)
                    + self.creator_withdrawal_waiting_epochs,
                MarketError::WithdrawalTooEarly,
            )
        }
    }

    /// Pays the platform's royalties out to the owner: `amount_opt`, or all
    /// of them where no amount is given.
    pub fn withdraw_platform_royalties(&mut self, caller: Address, owner: Address, amount_opt: Option<
        u128,
    >) -> (r: Result<Vec<MarketAction>, MarketError>)
        requires
            old(self).wf(),
            caller == owner ==> (amount_opt matches Some(a) ==> a <= old(self).platform_royalties),
        ensures
            final(self).wf(),
            match r {
                Err(e) => e == MarketError::OnlyOwner && caller != owner && *final(self) == *old(self),
                Ok(actions) => {
                    let amount = match amount_opt {
                        Some(a) => a,
                        None => old(self).platform_royalties,
                    };
                    &&& caller == owner
                    &&& *final(self) == (MarketplaceContract {
                        platform_royalties: (old(self).platform_royalties - amount) as u128,
                        ..*old(self)
                    })
                    &&& actions@ == seq![MarketAction::SendEgld { to: caller, amount, memo: Memo::Empty }]
                },
            },
    {
        self.require_owner(&caller, &owner)?;
        let amount = match amount_opt {
            Some(a) => a,
            None => self.platform_royalties,
        };
        let mut actions: Vec<MarketAction> = Vec::new();
        self.send_egld(&mut actions, caller, amount);
        self.platform_royalties = self.platform_royalties - amount;
        Ok(actions)
    }

    /// Pays a creator's royalties out to it, once every configured number of
    /// epochs, and records the epoch of the withdrawal.
    pub fn withdraw_creator_royalties(&mut self, caller: Address, current_epoch: u64) -> (r: Result<
        Vec<MarketAction>,
        MarketError,
    >)
        requires
            old(self).wf(),
            !value_or(old(self).creator_blacklist.view(), caller, false) ==> value_or(
                old(self).creator_last_withdrawal_epoch.view(),
                caller,
                0u64,
            ) + old(self).creator_withdrawal_waiting_epochs <= u64::MAX,
        ensures
            final(self).wf(),
            match r {
                Err(e) => old(self).creator_withdrawal_check(caller, current_epoch) == Err::<
                    (),
                    MarketError,
                >(e) && *final(self) == *old(self),
                Ok(actions) => {
                    &&& old(self).creator_withdrawal_check(caller, current_epoch) is Ok
                    &&& final(self).creator_royalties.view()
                        == old(self).creator_royalties.view().remove(caller)
                    &&& final(self).creator_last_withdrawal_epoch.view()
                        == old(self).creator_last_withdrawal_epoch.view().insert(
                        caller,
                        current_epoch,
                    )
                    &&& *final(self) == (MarketplaceContract {
                        creator_royalties: final(self).creator_royalties,
                        creator_last_withdrawal_epoch: final(self).creator_last_withdrawal_epoch,
                        ..*old(self)
                    })
                    &&& actions@ == seq![
                        MarketAction::SendEgld {
                            to: caller,
                            amount: balance(old(self).creator_royalties.view(), caller),
                            memo: Memo::Empty,
                        },
                    ]
                },
            },
    {
        if !self.creator_not_blacklisted(&caller) {
            return Err(MarketError::Blacklisted);
        }
        let waiting = self.creator_withdrawal_waiting_epochs;
        let last_withdrawal_epoch = get_epoch(&self.creator_last_withdrawal_epoch, &caller);
        if current_epoch != last_withdrawal_epoch + waiting {
            return Err(MarketError::WithdrawalTooEarly);
        }
        let royalties = get_balance(&self.creator_royalties, &caller);
        let mut actions: Vec<MarketAction> = Vec::new();
        self.send_egld(&mut actions, caller, royalties);
        self.creator_royalties.remove(&caller);
        self.creator_last_withdrawal_epoch.set(caller, current_epoch);
        Ok(actions)
    }

    /// How many epochs the caller must still wait before withdrawing its
    /// royalties.
    pub fn get_remaining_epochs_until_claim(&self, caller: Address, curr_epoch: u64) -> (r: Result<
        u64,
        MarketError,
    >)
        requires
            self.wf(),
            ({
                let last = value_or(self.creator_last_withdrawal_epoch.view(), caller, 0u64);
                curr_epoch >= last && last != 0 ==> self.creator_withdrawal_waiting_epochs != 0
            }),
        ensures
            ({
                let last = value_or(self.creator_last_withdrawal_epoch.view(), caller, 0u64);
                match r {
                    Err(e) => e == MarketError::LastEpochAfterCurrent && curr_epoch < last,
                    Ok(n) => curr_epoch >= last && n == remaining_epochs(
                        curr_epoch,
                        last,
                        self.creator_withdrawal_waiting_epochs,
                    ),
                }
            }),
    {
        let last_epoch = get_epoch(&self.creator_last_withdrawal_epoch, &caller);
        let withdrawal_epochs = self.creator_withdrawal_waiting_epochs;
        if curr_epoch < last_epoch {
            return Err(MarketError::LastEpochAfterCurrent);
        }
        let remaining = if last_epoch != 0 {
            (withdrawal_epochs - (curr_epoch - last_epoch) % withdrawal_epochs) % withdrawal_epochs
        } else {
            0
        };
        Ok(remaining)
    }

    pub fn increase_platform_royalties(&mut self, amount: u128)
        requires
            old(self).wf(),
            old(self).platform_royalties + amount <= u128::MAX,
        ensures
            final(self).wf(),
            *final(self) == (MarketplaceContract {
                platform_royalties: (old(self).platform_royalties + amount) as u128,
                ..*old(self)
            }),
    {
        self.platform_royalties = self.platform_royalties + amount;
    }

    pub fn increase_creator_royalties(&mut self, creator: Address, amount: u128)
        requires
            old(self).wf(),
            balance(old(self).creator_royalties.view(), creator) + amount <= u128::MAX,
        ensures
            final(self).wf(),
            final(self).creator_royalties.view() == old(self).creator_royalties.view().insert(
                creator,
                (balance(old(self).creator_royalties.view(), creator) + amount) as u128,
            ),
            *final(self) == (MarketplaceContract {
                creator_royalties: final(self).creator_royalties,
                ..*old(self)
            }),
    {
        let v = get_balance(&self.creator_royalties, &creator) + amount;
        self.creator_royalties.set(creator, v);
    }

    pub fn creator_not_blacklisted(&self, address: &Address) -> (r: bool)
        requires
            self.wf(),
        ensures
            r == !value_or(self.creator_blacklist.view(), *address, false),
    {
        !get_flag(&self.creator_blacklist, address)
    }

    /// Records `current_epoch` as the creator's last withdrawal where none
    /// is recorded (an epoch of zero reads as none).
    pub fn set_creator_last_withdrawal_epoch_if_empty(&mut self, creator: Address, current_epoch: u64)
        requires
            old(self).wf(),
        ensures
            final(self).wf(),
            final(self).creator_last_withdrawal_epoch.view() == epoch_if_empty(
                old(self).creator_last_withdrawal_epoch.view(),
                creator,
                current_epoch,
            ),
            ({
                let m = old(self).creator_last_withdrawal_epoch.view();
                let recorded = m.contains_key(creator) && m[creator] != 0;
                &&& recorded ==> final(self).creator_last_withdrawal_epoch.view() == m
                &&& !recorded ==> final(self).creator_last_withdrawal_epoch.view() == m.insert(
                    creator,
                    current_epoch,
                )
            }),
            *final(self) == (MarketplaceContract {
                creator_last_withdrawal_epoch: final(self).creator_last_withdrawal_epoch,
                ..*old(self)
            }),
    {
        if get_epoch(&self.creator_last_withdrawal_epoch, &creator) == 0 {
            self.creator_last_withdrawal_epoch.set(creator, current_epoch);
        }
    }
}

} // verus!

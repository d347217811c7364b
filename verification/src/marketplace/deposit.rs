use vstd::prelude::*;

use super::contract::MarketplaceContract;
use super::events::{MarketAction, MarketEvent, Memo};
use super::storage::{balance, get_balance};
use super::validation::MarketError;
use crate::types::Address;

verus! {

impl MarketplaceContract {
    /// Credits `amount` to the caller's deposit: the EGLD paid with the call.
    pub fn deposit(&mut self, caller: Address, amount: u128) -> (r: Vec<MarketAction>)
        requires
            old(self).wf(),
            balance(old(self).egld_deposit.view(), caller) + amount <= u128::MAX,
        ensures
            final(self).wf(),
            final(self).egld_deposit.view() == old(self).egld_deposit.view().insert(
                caller,
                (balance(old(self).egld_deposit.view(), caller) + amount) as u128,
            ),
            *final(self) == (MarketplaceContract {
                egld_deposit: final(self).egld_deposit,
                ..*old(self)
            }),
            r@ == seq![
                MarketAction::Log {
                    event: MarketEvent::DepositUpdate {
                        address: caller,
                        amount: (balance(old(self).egld_deposit.view(), caller) + amount) as u128,
                    },
                },
            ],
    {
        let mut actions: Vec<MarketAction> = Vec::new();
        self.increase_deposit(&mut actions, caller, amount);
        actions
    }

    /// Pays out `opt_amount` from the caller's deposit, or the whole deposit
    /// where no amount is given.
    pub fn withdraw(&mut self, caller: Address, opt_amount: Option<u128>) -> (r: Result<
        Vec<MarketAction>,
        MarketError,
    >)
        requires
            old(self).wf(),
        ensures
            final(self).wf(),
            ({
                let old_balance = balance(old(self).egld_deposit.view(), caller);
                let amount = match opt_amount {
                    Some(a) => a,
                    None => old_balance,
                };
                match r {
                    Err(e) => e == MarketError::InsufficientDeposit && old_balance < amount
                        && *final(self) == *old(self),
                    Ok(actions) => {
                        &&& old_balance >= amount
                        &&& final(self).egld_deposit.view() == old(self).egld_deposit.view().insert(
                            caller,
                            (old_balance - amount) as u128,
                        )
                        &&& *final(self) == (MarketplaceContract {
                            egld_deposit: final(self).egld_deposit,
                            ..*old(self)
                        })
                        &&& actions@ == seq![
                            MarketAction::Log {
                                event: MarketEvent::DepositUpdate {
                                    address: caller,
                                    amount: (old_balance - amount) as u128,
                                },
                            },
                            MarketAction::SendEgld { to: caller, amount, memo: Memo::Empty },
                        ]
                    },
                }
            }),
    {
        let amount = match opt_amount {
            Some(a) => a,
            None => get_balance(&self.egld_deposit, &caller),
        };
        let mut actions: Vec<MarketAction> = Vec::new();
        self.try_decrease_deposit(&mut actions, caller, amount)?;
        self.send_egld(&mut actions, caller, amount);
        Ok(actions)
    }

    /// Adds `amount` to the deposit of `address` and logs the new deposit,
    /// which it returns.
    pub fn increase_deposit(
        &mut self,
        actions: &mut Vec<MarketAction>,
        address: Address,
        amount: u128,
    ) -> (r: u128)
        requires
            old(self).wf(),
            balance(old(self).egld_deposit.view(), address) + amount <= u128::MAX,
        ensures
            final(self).wf(),
            r == balance(old(self).egld_deposit.view(), address) + amount,
            final(self).egld_deposit.view() == old(self).egld_deposit.view().insert(address, r),
            *final(self) == (MarketplaceContract {
                egld_deposit: final(self).egld_deposit,
                ..*old(self)
            }),
            final(actions)@ == old(actions)@.push(
                MarketAction::Log { event: MarketEvent::DepositUpdate { address, amount: r } },
            ),
    {
        let deposit = get_balance(&self.egld_deposit, &address) + amount;
        self.egld_deposit.set(address, deposit);
        actions.push(
            MarketAction::Log { event: MarketEvent::DepositUpdate { address, amount: deposit } },
        );
        deposit
    }

    /// Takes `amount` from the deposit of `address` where it holds that much,
    /// and logs the new deposit, which it returns.
    pub fn try_decrease_deposit(
        &mut self,
        actions: &mut Vec<MarketAction>,
        address: Address,
        amount: u128,
    ) -> (r: Result<u128, MarketError>)
        requires
            old(self).wf(),
        ensures
            final(self).wf(),
            match r {
                Err(e) => e == MarketError::InsufficientDeposit && balance(
                    old(self).egld_deposit.view(),
                    address,
                ) < amount && *final(self) == *old(self) && final(actions)@ == old(actions)@,
                Ok(d) => {
                    &&& balance(old(self).egld_deposit.view(), address) >= amount
                    &&& d == balance(old(self).egld_deposit.view(), address) - amount
                    &&& final(self).egld_deposit.view() == old(self).egld_deposit.view().insert(
                        address,
                        d,
                    )
                    &&& *final(self) == (MarketplaceContract {
                        egld_deposit: final(self).egld_deposit,
                        ..*old(self)
                    })
                    &&& final(actions)@ == old(actions)@.push(
                        MarketAction::Log {
                            event: MarketEvent::DepositUpdate { address, amount: d },
                        },
                    )
                },
            },
    {
        let deposit = get_balance(&self.egld_deposit, &address);
        if deposit < amount {
            return Err(MarketError::InsufficientDeposit);
        }
        let deposit = deposit - amount;
        self.egld_deposit.set(address, deposit);
        actions.push(
            MarketAction::Log { event: MarketEvent::DepositUpdate { address, amount: deposit } },
        );
        Ok(deposit)
    }

    /// Adds `to_increase` to the deposit of `address`, then takes
    /// `to_decrease` from it where it holds that much, and logs the new
    /// deposit, which it returns.
    pub fn try_increase_decrease_deposit(
        &mut self,
        actions: &mut Vec<MarketAction>,
        address: Address,
        to_increase: u128,
        to_decrease: u128,
    ) -> (r: Result<u128, MarketError>)
        requires
            old(self).wf(),
            balance(old(self).egld_deposit.view(), address) + to_increase <= u128::MAX,
        ensures
            final(self).wf(),
            ({
                let raised = balance(old(self).egld_deposit.view(), address) + to_increase;
                match r {
                    Err(e) => e == MarketError::InsufficientDeposit && raised < to_decrease
                        && *final(self) == *old(self) && final(actions)@ == old(actions)@,
                    Ok(d) => {
                        &&& raised >= to_decrease
                        &&& d == raised - to_decrease
                        &&& final(self).egld_deposit.view()
                            == old(self).egld_deposit.view().insert(address, d)
                        &&& *final(self) == (MarketplaceContract {
                            egld_deposit: final(self).egld_deposit,
                            ..*old(self)
                        })
                        &&& final(actions)@ == old(actions)@.push(
                            MarketAction::Log {
                                event: MarketEvent::DepositUpdate { address, amount: d },
                            },
                        )
                    },
                }
            }),
    {
        let deposit = get_balance(&self.egld_deposit, &address) + to_increase;
        if deposit < to_decrease {
            return Err(MarketError::InsufficientDeposit);
        }
        let deposit = deposit - to_decrease;
        self.egld_deposit.set(address, deposit);
        actions.push(
            MarketAction::Log { event: MarketEvent::DepositUpdate { address, amount: deposit } },
        );
        Ok(deposit)
    }
}

} // verus!

use vstd::prelude::*;

use super::contract::MarketplaceContract;
use super::validation::{ensure, then, MarketError};
use crate::types::Address;

verus! {

impl MarketplaceContract {
    /// Starts a global operation, during which trading endpoints refuse, at
    /// the owner's call.
    pub fn start_global_op(&mut self, caller: Address, owner: Address) -> (r: Result<(), MarketError>)
        requires
            old(self).wf(),
        ensures
            final(self).wf(),
            r == then(
                ensure(caller == owner, MarketError::OnlyOwner),
                ensure(!old(self).global_op_is_ongoing, MarketError::GlobalOpOngoing),
            ),
            r is Ok ==> *final(self) == (MarketplaceContract {
                global_op_is_ongoing: true,
                ..*old(self)
            }),
            r is Err ==> *final(self) == *old(self),
    {
        self.require_owner(&caller, &owner)?;
        self.require_global_op_not_ongoing()?;
        self.global_op_is_ongoing = true;
        Ok(())
    }

    /// Ends the global operation in progress, at the owner's call.
    pub fn stop_global_op(&mut self, caller: Address, owner: Address) -> (r: Result<(), MarketError>)
        requires
            old(self).wf(),
        ensures
            final(self).wf(),
            r == then(
                ensure(caller == owner, MarketError::OnlyOwner),
                ensure(old(self).global_op_is_ongoing, MarketError::GlobalOpNotOngoing),
            ),
            r is Ok ==> *final(self) == (MarketplaceContract {
                global_op_is_ongoing: false,
                ..*old(self)
            }),
            r is Err ==> *final(self) == *old(self),
    {
        self.require_owner(&caller, &owner)?;
        self.require_global_op_ongoing()?;
        self.global_op_is_ongoing = false;
        Ok(())
    }

    pub fn require_global_op_not_ongoing(&self) -> (r: Result<(), MarketError>)
        ensures
            r == ensure(!self.global_op_is_ongoing, MarketError::GlobalOpOngoing),
    {
        if self.global_op_is_ongoing {
            return Err(MarketError::GlobalOpOngoing);
        }
        Ok(())
    }

    pub fn require_global_op_ongoing(&self) -> (r: Result<(), MarketError>)
        ensures
            r == ensure(self.global_op_is_ongoing, MarketError::GlobalOpNotOngoing),
    {
        if !self.global_op_is_ongoing {
            return Err(MarketError::GlobalOpNotOngoing);
        }
        Ok(())
    }
}

} // verus!

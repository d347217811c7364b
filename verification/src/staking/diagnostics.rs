use vstd::prelude::*;

use super::config::PAYOUT_TIME_BLOCK;
use super::contract::StakingContract;
use super::storage::StakedAddressNFTs;
use crate::types::Address;

verus! {

impl StakingContract {
    /// Adds `reward_amount` to the reward balance of a staking address.
    pub fn test_set_address_reward(&mut self, address: Address, reward_amount: u128)
        requires
            old(self).wf(),
            old(self).staked_address_nfts.view().contains_key(address),
            old(self).staked_address_nfts.view()[address].reward_balance + reward_amount
                <= u128::MAX,
        ensures
            final(self).wf(),
            ({
                let rec = old(self).staked_address_nfts.view()[address];
                final(self).staked_address_nfts.view() == old(self).staked_address_nfts.view().insert(
                    address,
                    StakedAddressNFTs {
                        reward_balance: (rec.reward_balance + reward_amount) as u128,
                        ..rec
                    },
                )
            }),
            *final(self) == (StakingContract {
                staked_address_nfts: final(self).staked_address_nfts,
                ..*old(self)
            }),
    {
        let mut record = self.staked_address_nfts.remove(&address).unwrap();
        record.reward_balance = record.reward_balance + reward_amount;
        self.staked_address_nfts.set(address, record);
        proof {
            assert(self.staked_address_nfts.view().dom() =~= old(self).staked_address_nfts.view().dom());
            assert forall|a: Address| #[trigger] self.staked_address_nfts.view().contains_key(a) implies self.staked_nfts(a)
                == old(self).staked_nfts(a) by {}
        }
    }

    /// Clears the last payout time.
    pub fn test_reset_lastpayoutdatetime(&mut self)
        requires
            old(self).wf(),
        ensures
            final(self).wf(),
            *final(self) == (StakingContract { last_payout_datetime: 0, ..*old(self) }),
    {
        self.last_payout_datetime = 0;
    }

    /// The block's time.
    pub fn test_get_currenttime(&self, now: u64) -> (r: u64)
        ensures
            r == now,
    {
        now
    }

    /// The time since the last payout.
    pub fn test_difference_lastpayoutdatetime_vs_currenttime(&self, now: u64) -> (r: u64)
        requires
            now >= self.last_payout_datetime,
        ensures
            r == now - self.last_payout_datetime,
    {
        now - self.last_payout_datetime
    }

    /// The whole payout blocks since the last payout.
    pub fn test_time_block_calculations(&self, now: u64) -> (r: u64)
        requires
            now >= self.last_payout_datetime,
        ensures
            r == (now - self.last_payout_datetime) / (PAYOUT_TIME_BLOCK as int),
    {
        let time_difference = self.test_difference_lastpayoutdatetime_vs_currenttime(now);
        time_difference / PAYOUT_TIME_BLOCK
    }

    /// The last payout time moved on by the whole payout blocks since it.
    pub fn test_get_new_lastpayoutdatetime(&self, now: u64) -> (r: u64)
        requires
            now >= self.last_payout_datetime,
        ensures
            r == self.last_payout_datetime + (now - self.last_payout_datetime) / (
            PAYOUT_TIME_BLOCK as int) * PAYOUT_TIME_BLOCK,
            r <= now,
    {
        let blocks = self.test_time_block_calculations(now);
        let last = self.last_payout_datetime;
        assert(blocks * PAYOUT_TIME_BLOCK <= now - last) by (nonlinear_arith)
            requires
                blocks == (now - last) / 300,
                now >= last,
        ;
        last + blocks * PAYOUT_TIME_BLOCK
    }
}

} // verus!

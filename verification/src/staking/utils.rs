use vstd::prelude::*;

use super::config::DAY_IN_SECONDS;
use super::contract::{nft_views, StakingAction, StakingContract};
use super::storage::{NftId, StakeKey};
use crate::store::StoreKey;
use crate::types::{bytes_eq, Address, TokenIdentifier};

verus! {

impl StakingContract {
    /// Whether `address` is in the staked pool, by a walk of the pool.
    pub fn does_address_exist_in_staked_pool(&self, address: Address) -> (r: bool)
        requires
            self.wf(),
        ensures
            r == self.pool().contains(address),
    {
        let pool = &self.staked_pool.array_staked_addresses;
        let mut i: usize = 0;
        while i < pool.len()
            invariant
                i <= pool@.len(),
                pool@ == self.pool(),
                forall|j: int| 0 <= j < i ==> pool@[j] != address,
            decreases pool@.len() - i,
        {
            if pool[i].same(&address) {
                assert(self.pool()[i as int] == address);
                return true;
            }
            i = i + 1;
        }
        false
    }

    /// Whether a stake made at `staked_datetime` is more than a day old at
    /// `now`.
    pub fn is_stake_datetime_qualified_for_rewards(&self, staked_datetime: u64, now: u64) -> (r:
        bool)
        requires
            now >= staked_datetime,
        ensures
            r == (now - staked_datetime > DAY_IN_SECONDS),
    {
        now - staked_datetime > DAY_IN_SECONDS
    }

    pub fn send_nft(&self, actions: &mut Vec<StakingAction>, to: Address)
        ensures
            final(actions)@ == old(actions)@.push(StakingAction::SendNft { to }),
    {
        actions.push(StakingAction::SendNft { to });
    }

    pub fn send_egld(&self, actions: &mut Vec<StakingAction>, to: Address, amount: u128)
        ensures
            final(actions)@ == old(actions)@.push(StakingAction::SendEgld { to, amount }),
    {
        actions.push(StakingAction::SendEgld { to, amount });
    }
}


impl StakingContract {
    /// The weight that NFT `n` of address `a` counts for at `now`: its
    /// weighted factor where its staking time is more than a day before
    /// `now`, else nothing.
    pub open spec fn qualified_weight(&self, a: Address, n: (Seq<u8>, u64), now: u64) -> int {
        let s = self.staked_nft_info.view()[(a, n)];
        if now - s.staked_datetime > DAY_IN_SECONDS {
            s.weighted_factor as int
        } else {
            0
        }
    }

    /// The qualified weight of the first `n` NFTs of address `a`.
    pub open spec fn address_weight(&self, a: Address, now: u64, n: nat) -> int
        decreases n,
    {
        if n == 0 {
            0
        } else {
            self.address_weight(a, now, (n - 1) as nat) + self.qualified_weight(
                a,
                self.staked_nfts(a)[n - 1],
                now,
            )
        }
    }

    /// The qualified weight of the NFTs of the first `m` addresses of the
    /// pool.
    pub open spec fn pool_weight(&self, now: u64, m: nat) -> int
        decreases m,
    {
        if m == 0 {
            0
        } else {
            self.pool_weight(now, (m - 1) as nat) + self.address_weight(
                self.pool()[m - 1],
                now,
                self.staked_nfts(self.pool()[m - 1]).len(),
            )
        }
    }

    /// No staking time lies after `now`.
    pub open spec fn staked_before(&self, now: u64) -> bool {
        forall|k: (Address, (Seq<u8>, u64))|
            #[trigger] self.staked_nft_info.view().contains_key(k)
                ==> self.staked_nft_info.view()[k].staked_datetime <= now
    }

    /// Where NFT `(token_id, nonce)` stands in the list of address
    /// `address`; -1 where it is not in it.
    pub fn get_index_of_nft_in_staked_address(
        &self,
        address: Address,
        token_id: TokenIdentifier,
        nonce: u64,
    ) -> (r: i32)
        requires
            self.wf(),
            self.staked_address_nfts.view().contains_key(address),
            self.staked_nfts(address).len() < i32::MAX,
        ensures
            ({
                let l = self.staked_nfts(address);
                let n = (token_id@, nonce);
                &&& -1 <= r < l.len()
                &&& r == -1 <==> !l.contains(n)
                &&& r >= 0 ==> l[r as int] == n
            }),
    {
        let rec = self.staked_address_nfts.get(&address).unwrap();
        let list = &rec.array_staked_nft_ids;
        let ghost l = self.staked_nfts(address);
        let mut current_index: usize = 0;
        while current_index < list.len()
            invariant
                nft_views(list@) == l,
                l == self.staked_nfts(address),
                l.len() < i32::MAX,
                current_index <= list@.len(),
                forall|k: int| 0 <= k < current_index ==> l[k] != (token_id@, nonce),
            decreases list@.len() - current_index,
        {
            assert(l[current_index as int] == list@[current_index as int]@);
            if list[current_index].nonce == nonce && bytes_eq(
                &list[current_index].token_id,
                &token_id,
            ) {
                return current_index as i32;
            }
            current_index = current_index + 1;
        }
        assert(!l.contains((token_id@, nonce)));
        -1
    }

    /// Whether NFT `(token_id, nonce)` is in the list of address `address`.
    pub fn does_nft_exist_in_staked_addresss(
        &self,
        address: Address,
        token_id: TokenIdentifier,
        nonce: u64,
    ) -> (r: bool)
        requires
            self.wf(),
            self.staked_address_nfts.view().contains_key(address),
            self.staked_nfts(address).len() < i32::MAX,
        ensures
            r == self.staked_nfts(address).contains((token_id@, nonce)),
    {
        self.get_index_of_nft_in_staked_address(address, token_id, nonce) >= 0
    }

    /// The total weight of the NFTs of `address` that were staked more than
    /// a day before `now`.
    pub fn get_total_staked_nfts_qualified_for_rewards_by_address(&self, address: Address, now: u64) -> (r:
        u128)
        requires
            self.wf(),
            self.staked_address_nfts.view().contains_key(address),
            self.staked_before(now),
            self.address_weight(address, now, self.staked_nfts(address).len()) <= u128::MAX,
        ensures
            r == self.address_weight(address, now, self.staked_nfts(address).len()),
    {
        let rec = self.staked_address_nfts.get(&address).unwrap();
        let list = &rec.array_staked_nft_ids;
        let ghost l = self.staked_nfts(address);
        let mut total: u128 = 0;
        let mut j: usize = 0;
        while j < list.len()
            invariant
                self.wf(),
                self.staked_address_nfts.view().contains_key(address),
                self.staked_before(now),
                nft_views(list@) == l,
                l == self.staked_nfts(address),
                self.address_weight(address, now, l.len()) <= u128::MAX,
                j <= list@.len(),
                total == self.address_weight(address, now, j as nat),
            decreases list@.len() - j,
        {
            assert(l[j as int] == list@[j as int]@);
            assert(self.staked_nft_info.view().contains_key((address, l[j as int])));
            let key = StakeKey::new(address, &list[j]);
            let staked_nft = *self.staked_nft_info.get(&key).unwrap();
            proof {
                lemma_address_weight_monotone(*self, address, now, (j + 1) as nat, l.len());
            }
            if self.is_stake_datetime_qualified_for_rewards(staked_nft.staked_datetime, now) {
                total = total + staked_nft.weighted_factor;
            }
            j = j + 1;
        }
        total
    }

    /// The total weight of the NFTs of the whole pool that were staked more
    /// than a day before `now`.
    pub fn get_overall_total_staked_nfts_qualified_for_rewards(&self, now: u64) -> (r: u128)
        requires
            self.wf(),
            self.staked_before(now),
            self.pool_weight(now, self.pool().len()) <= u128::MAX,
        ensures
            r == self.pool_weight(now, self.pool().len()),
    {
        let pool_len = self.staked_pool.array_staked_addresses.len();
        let mut total: u128 = 0;
        let mut i: usize = 0;
        while i < pool_len
            invariant
                self.wf(),
                self.staked_before(now),
                pool_len == self.pool().len(),
                self.pool_weight(now, self.pool().len()) <= u128::MAX,
                i <= pool_len,
                total == self.pool_weight(now, i as nat),
            decreases pool_len - i,
        {
            let address = self.staked_pool.array_staked_addresses[i];
            proof {
                lemma_pool_weight_monotone(*self, now, (i + 1) as nat, self.pool().len());
                lemma_pool_weight_monotone(*self, now, 0, i as nat);
                lemma_address_weight_monotone(*self, address, now, 0, self.staked_nfts(address).len());
            }
            total = total + self.get_total_staked_nfts_qualified_for_rewards_by_address(address, now);
            i = i + 1;
        }
        total
    }
}

proof fn lemma_address_weight_monotone(c: StakingContract, a: Address, now: u64, n: nat, m: nat)
    requires
        n <= m,
    ensures
        0 <= c.address_weight(a, now, n) <= c.address_weight(a, now, m),
    decreases m,
{
    if n < m {
        lemma_address_weight_monotone(c, a, now, n, (m - 1) as nat);
    } else if m > 0 {
        lemma_address_weight_monotone(c, a, now, (m - 1) as nat, (m - 1) as nat);
    }
}

proof fn lemma_pool_weight_monotone(c: StakingContract, now: u64, n: nat, m: nat)
    requires
        n <= m,
    ensures
        0 <= c.pool_weight(now, n) <= c.pool_weight(now, m),
    decreases m,
{
    if m > 0 {
        lemma_address_weight_monotone(c, c.pool()[m - 1], now, 0, c.staked_nfts(c.pool()[m - 1]).len());
        if n < m {
            lemma_pool_weight_monotone(c, now, n, (m - 1) as nat);
        } else {
            lemma_pool_weight_monotone(c, now, (m - 1) as nat, (m - 1) as nat);
        }
    }
}

} // verus!

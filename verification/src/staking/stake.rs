use vstd::prelude::*;

use super::contract::{ensure, nft_views, then, StakingAction, StakingContract, StakingError};
use super::storage::{NftId, StakeKey, StakedAddressNFTs, StakedNFT};
use crate::types::{valid_esdt_identifier, value_or, Address, TokenIdentifier};

verus! {

impl StakingContract {
    /// The outcome of a role holder making collection `t` stakable.
    pub open spec fn add_stakable_check(&self, caller: Address, t: Seq<u8>) -> Result<(), StakingError> {
        then(
            ensure(self.role_of(caller) != 0, StakingError::NoRole),
            then(
                ensure(1 <= self.role_of(caller) <= 3, StakingError::CannotMakeStakeable),
                ensure(!self.is_stakable(t), StakingError::AlreadyStakeable),
            ),
        )
    }

    /// The outcome of a role holder making collection `t` no longer stakable.
    pub open spec fn remove_stakable_check(&self, caller: Address, t: Seq<u8>) -> Result<
        (),
        StakingError,
    > {
        then(
            ensure(self.role_of(caller) != 0, StakingError::NoRole),
            then(
                ensure(1 <= self.role_of(caller) <= 3, StakingError::CannotMakeStakeable),
                ensure(self.is_stakable(t), StakingError::NeverStakeable),
            ),
        )
    }

    /// Lets NFTs of collection `token_id` be staked.
    pub fn add_stakable_token_identifier(&mut self, caller: Address, token_id: TokenIdentifier) -> (r:
        Result<(), StakingError>)
        requires
            old(self).wf(),
        ensures
            final(self).wf(),
            r == old(self).add_stakable_check(caller, token_id@),
            r is Err ==> *final(self) == *old(self),
            r is Ok ==> final(self).stakable_token_identifier.view()
                == old(self).stakable_token_identifier.view().insert(token_id@, 1u16)
                && *final(self) == (StakingContract {
                stakable_token_identifier: final(self).stakable_token_identifier,
                ..*old(self)
            }),
    {
        if !self.address_role_exists(&caller) {
            return Err(StakingError::NoRole);
        }
        if !self.address_role_can_edit_stakeable_token_id(&caller) {
            return Err(StakingError::CannotMakeStakeable);
        }
        if self.verify_token_identifier_is_stakable(&token_id) {
            return Err(StakingError::AlreadyStakeable);
        }
        self.stakable_token_identifier.set(token_id, 1u16);
        Ok(())
    }

    /// Stops NFTs of collection `token_id` from being staked.
    pub fn remove_stakable_token_identifier(&mut self, caller: Address, token_id: TokenIdentifier) -> (r:
        Result<(), StakingError>)
        requires
            old(self).wf(),
        ensures
            final(self).wf(),
            r == old(self).remove_stakable_check(caller, token_id@),
            r is Err ==> *final(self) == *old(self),
            r is Ok ==> final(self).stakable_token_identifier.view()
                == old(self).stakable_token_identifier.view().remove(token_id@)
                && *final(self) == (StakingContract {
                stakable_token_identifier: final(self).stakable_token_identifier,
                ..*old(self)
            }),
    {
        if !self.address_role_exists(&caller) {
            return Err(StakingError::NoRole);
        }
        if !self.address_role_can_edit_stakeable_token_id(&caller) {
            return Err(StakingError::CannotMakeStakeable);
        }
        if !self.verify_token_identifier_is_stakable(&token_id) {
            return Err(StakingError::NeverStakeable);
        }
        self.stakable_token_identifier.remove(&token_id);
        Ok(())
    }

    /// Whether `address` has a staking state for the NFT, staked or not.
    pub fn is_nft_staked(&self, address: Address, token_id: TokenIdentifier, nonce: u64) -> (r:
        bool)
        requires
            self.wf(),
        ensures
            r == self.staked_nft_info.view().contains_key((address, (token_id@, nonce))),
    {
        self.does_nft_exist_in_staked_addresss_nfts(address, token_id, nonce)
    }

    /// When `address` staked the NFT; zero where it has no staking state or
    /// the NFT is unstaked.
    pub fn get_staked_nft_staked_datetime(&self, address: Address, token_id: TokenIdentifier, nonce: u64) -> (r:
        u64)
        requires
            self.wf(),
        ensures
            ({
                let k = (address, (token_id@, nonce));
                r == if self.staked_nft_info.view().contains_key(k) {
                    self.staked_nft_info.view()[k].staked_datetime
                } else {
                    0
                }
            }),
    {
        let nft_id = NftId::new(token_id, nonce);
        let key = StakeKey::new(address, &nft_id);
        match self.staked_nft_info.get(&key) {
            Some(info) => info.staked_datetime,
            None => 0,
        }
    }

    /// The staked time of the NFT accrued and not yet paid for; zero where
    /// `address` has no staking state for it.
    pub fn get_staked_nft_rollover_balance(&self, address: Address, token_id: TokenIdentifier, nonce: u64) -> (r:
        u64)
        requires
            self.wf(),
        ensures
            ({
                let k = (address, (token_id@, nonce));
                r == if self.staked_nft_info.view().contains_key(k) {
                    self.staked_nft_info.view()[k].rollover_balance
                } else {
                    0
                }
            }),
    {
        let nft_id = NftId::new(token_id, nonce);
        let key = StakeKey::new(address, &nft_id);
        match self.staked_nft_info.get(&key) {
            Some(info) => info.rollover_balance,
            None => 0,
        }
    }

    /// The outcome of staking an NFT.
    pub open spec fn stake_check(&self, caller: Address, token_id: Seq<u8>, nonce: u64) -> Result<
        (),
        StakingError,
    > {
        let k = (caller, (token_id, nonce));
        then(
            ensure(valid_esdt_identifier(token_id), StakingError::InvalidTokenId),
            then(
                ensure(nonce != 0, StakingError::InvalidNonce),
                then(
                    ensure(self.is_stakable(token_id), StakingError::NotStakeable),
                    then(
                        ensure(
                            self.last_payout_datetime != 0,
                            StakingError::PayoutNeverSetForStaking,
                        ),
                        ensure(
                            !(self.staked_nft_info.view().contains_key(k)
                                && self.staked_nft_info.view()[k].staked_datetime != 0),
                            StakingError::AlreadyStaked,
                        ),
                    ),
                ),
            ),
        )
    }

    /// `new` is `old` once `caller` staked NFT `n` at `now`: the caller is in
    /// the pool with a staking record, whose list of NFTs is left as it was
    /// (an empty one for a new record), and the NFT's staking state holds
    /// `now` as its staking time, with its weight and rollover kept (a first
    /// stake weighs 1 and has no rollover).
    pub open spec fn staked(
        old: StakingContract,
        new: StakingContract,
        caller: Address,
        n: (Seq<u8>, u64),
        now: u64,
    ) -> bool {
        let k = (caller, n);
        let had_record = old.staked_address_nfts.view().contains_key(caller);
        let had_state = old.staked_nft_info.view().contains_key(k);
        &&& new.pool() == if had_record {
            old.pool()
        } else {
            old.pool().push(caller)
        }
        &&& new.staked_address_nfts.view().dom() == old.staked_address_nfts.view().dom().insert(
            caller,
        )
        &&& forall|b: Address|
            b != caller && #[trigger] old.staked_address_nfts.view().contains_key(b)
                ==> new.staked_address_nfts.view()[b] == old.staked_address_nfts.view()[b]
        &&& new.staked_address_nfts.view()[caller].reward_balance == if had_record {
            old.staked_address_nfts.view()[caller].reward_balance
        } else {
            0
        }
        &&& new.staked_address_nfts.view()[caller].last_withdraw_datetime == if had_record {
            old.staked_address_nfts.view()[caller].last_withdraw_datetime
        } else {
            0
        }
        &&& new.staked_nfts(caller) == if had_record {
            old.staked_nfts(caller)
        } else {
            Seq::<(Seq<u8>, u64)>::empty()
        }
        &&& new.staked_nft_info.view() == old.staked_nft_info.view().insert(
            k,
            if had_state {
                StakedNFT { staked_datetime: now, ..old.staked_nft_info.view()[k] }
            } else {
                StakedNFT { weighted_factor: 1, staked_datetime: now, rollover_balance: 0 }
            },
        )
        &&& new == (StakingContract {
            staked_pool: new.staked_pool,
            staked_address_nfts: new.staked_address_nfts,
            staked_nft_info: new.staked_nft_info,
            ..old
        })
    }

    /// Stakes an NFT of a stakable collection for the caller.  Staking an
    /// NFT that was unstaked keeps its weight and accrued rollover.
    pub fn stake_address_nft(&mut self, caller: Address, now: u64, token_id: TokenIdentifier, nonce: u64) -> (r:
        Result<(), StakingError>)
        requires
            old(self).wf(),
        ensures
            final(self).wf(),
            match r {
                Err(e) => old(self).stake_check(caller, token_id@, nonce) == Err::<(), StakingError>(
                    e,
                ) && *final(self) == *old(self),
                Ok(_) => old(self).stake_check(caller, token_id@, nonce) is Ok && Self::staked(
                    *old(self),
                    *final(self),
                    caller,
                    (token_id@, nonce),
                    now,
                ),
            },
    {
        self.require_valid_token_id(&token_id)?;
        self.require_valid_nonce(nonce)?;
        if !self.verify_token_identifier_is_stakable(&token_id) {
            return Err(StakingError::NotStakeable);
        }
        if self.last_payout_datetime == 0 {
            return Err(StakingError::PayoutNeverSetForStaking);
        }
        let nft_id = NftId::new(token_id, nonce);
        let key = StakeKey::new(caller, &nft_id);
        let existing = match self.staked_nft_info.get(&key) {
            Some(info) => Some(*info),
            None => None,
        };
        if let Some(info) = existing {
            if info.staked_datetime != 0 {
                return Err(StakingError::AlreadyStaked);
            }
        }
        let ghost old_self = *self;
        let ghost n = nft_id@;
        // The caller joins the pool on its first stake.
        if !self.does_address_exist_in_staked_address_nfts(caller) {
            self.staked_pool.array_staked_addresses.push(caller);
            self.staked_address_nfts.set(caller, StakedAddressNFTs::new(Vec::new(), 0, 0));
            proof {
                assert(nft_views(Seq::<NftId>::empty()) =~= Seq::<(Seq<u8>, u64)>::empty());
                assert forall|a: Address|
                    #[trigger] self.staked_address_nfts.view().contains_key(a) implies self.pool().contains(
                    a,
                ) by {
                    if a != caller {
                        assert(old_self.pool().contains(a));
                        let i = choose|i: int| 0 <= i < old_self.pool().len() && old_self.pool()[i] == a;
                        assert(self.pool()[i] == a);
                    } else {
                        assert(self.pool()[self.pool().len() - 1] == a);
                    }
                }
                assert(self.pool().no_duplicates()) by {
                    assert(!old_self.pool().contains(caller));
                }
            }
        }
        let ghost mid = *self;
        assert(mid.staked_address_nfts.view().contains_key(caller));
        match existing {
            Some(info) => {
                let updated = StakedNFT { staked_datetime: now, ..info };
                self.staked_nft_info.set(key, updated);
            },
            None => {
                let new_staked_nft = StakedNFT::new(1, now, 0);
                self.staked_nft_info.set(key, new_staked_nft);
            },
        }
        assert(self.staked_address_nfts.view().dom() =~= old_self.staked_address_nfts.view().dom().insert(
            caller,
        ));
        Ok(())
    }
}


impl StakingContract {
    /// The outcome of unstaking an NFT.
    pub open spec fn unstake_check(&self, caller: Address, token_id: Seq<u8>, nonce: u64) -> Result<
        (),
        StakingError,
    > {
        let k = (caller, (token_id, nonce));
        then(
            ensure(valid_esdt_identifier(token_id), StakingError::InvalidTokenId),
            then(
                ensure(nonce != 0, StakingError::InvalidNonce),
                then(
                    ensure(self.is_stakable(token_id), StakingError::NotStakeableForUnstaking),
                    then(
                        ensure(self.staked_nft_info.view().contains_key(k), StakingError::NeverStaked),
                        ensure(
                            self.staked_nft_info.view()[k].staked_datetime != 0,
                            StakingError::AlreadyUnstaked,
                        ),
                    ),
                ),
            ),
        )
    }

    /// `new` is `old` once `caller` unstaked NFT `n` at `now`: the time since
    /// the last payout is added to the NFT's rollover and its staking time
    /// is zero; nothing else changes.
    pub open spec fn unstaked(
        old: StakingContract,
        new: StakingContract,
        caller: Address,
        n: (Seq<u8>, u64),
        now: u64,
    ) -> bool {
        let k = (caller, n);
        let s = old.staked_nft_info.view()[k];
        &&& new.staked_nft_info.view() == old.staked_nft_info.view().insert(
            k,
            StakedNFT {
                staked_datetime: 0,
                rollover_balance: (s.rollover_balance + (now - old.last_payout_datetime)) as u64,
                ..s
            },
        )
        &&& new == (StakingContract { staked_nft_info: new.staked_nft_info, ..old })
    }

    /// Unstakes an NFT: the time since the last payout is added to its
    /// rollover, and its staking time is reset to zero.
    pub fn unstake_address_nft(&mut self, caller: Address, now: u64, token_id: TokenIdentifier, nonce: u64) -> (r:
        Result<(), StakingError>)
        requires
            old(self).wf(),
            old(self).unstake_check(caller, token_id@, nonce) is Ok ==> {
                let s = old(self).staked_nft_info.view()[(caller, (token_id@, nonce))];
                &&& now >= old(self).last_payout_datetime
                &&& s.rollover_balance + (now - old(self).last_payout_datetime) <= u64::MAX
            },
        ensures
            final(self).wf(),
            match r {
                Err(e) => old(self).unstake_check(caller, token_id@, nonce) == Err::<(), StakingError>(
                    e,
                ) && *final(self) == *old(self),
                Ok(_) => old(self).unstake_check(caller, token_id@, nonce) is Ok && Self::unstaked(
                    *old(self),
                    *final(self),
                    caller,
                    (token_id@, nonce),
                    now,
                ) && ({
                    let k = (caller, (token_id@, nonce));
                    &&& final(self).staked_nft_info.view()[k].rollover_balance
                        == old(self).staked_nft_info.view()[k].rollover_balance + (now
                        - old(self).last_payout_datetime)
                    &&& final(self).staked_nft_info.view()[k].staked_datetime == 0
                    &&& final(self).staked_nft_info.view()[k].weighted_factor
                        == old(self).staked_nft_info.view()[k].weighted_factor
                }),
            },
    {
        self.require_valid_token_id(&token_id)?;
        self.require_valid_nonce(nonce)?;
        if !self.verify_token_identifier_is_stakable(&token_id) {
            return Err(StakingError::NotStakeableForUnstaking);
        }
        let nft_id = NftId::new(token_id, nonce);
        let key = StakeKey::new(caller, &nft_id);
        let staked_nft = match self.staked_nft_info.get(&key) {
            Some(info) => *info,
            None => {
                return Err(StakingError::NeverStaked);
            },
        };
        if staked_nft.staked_datetime == 0 {
            return Err(StakingError::AlreadyUnstaked);
        }
        let unstaking_accrued_rollover = now - self.last_payout_datetime;
        let updated = StakedNFT {
            rollover_balance: staked_nft.rollover_balance + unstaking_accrued_rollover,
            staked_datetime: 0,
            ..staked_nft
        };
        self.staked_nft_info.set(key, updated);
        assert(self.staked_nft_info.view().dom() =~= old(self).staked_nft_info.view().dom());
        Ok(())
    }

    /// The caller's reward balance; zero where it has no staking record.
    pub fn get_staking_reward_balanace(&self, caller: Address) -> (r: u128)
        requires
            self.wf(),
        ensures
            r == if self.staked_address_nfts.view().contains_key(caller) {
                self.staked_address_nfts.view()[caller].reward_balance
            } else {
                0
            },
    {
        match self.staked_address_nfts.get(&caller) {
            Some(rec) => rec.reward_balance,
            None => 0,
        }
    }

    /// The outcome of redeeming the caller's rewards.
    pub open spec fn redeem_check(&self, caller: Address) -> Result<(), StakingError> {
        then(
            ensure(self.staked_address_nfts.view().contains_key(caller), StakingError::NoStakedNfts),
            ensure(
                self.staked_address_nfts.view()[caller].reward_balance != 0,
                StakingError::ZeroRewardBalance,
            ),
        )
    }

    /// Pays the caller's reward balance out to it and records when.
    pub fn redeem_staking_rewards(&mut self, caller: Address, now: u64) -> (r: Result<
        Vec<StakingAction>,
        StakingError,
    >)
        requires
            old(self).wf(),
        ensures
            final(self).wf(),
            match r {
                Err(e) => old(self).redeem_check(caller) == Err::<(), StakingError>(e)
                    && *final(self) == *old(self),
                Ok(actions) => {
                    let rec = old(self).staked_address_nfts.view()[caller];
                    &&& old(self).redeem_check(caller) is Ok
                    &&& final(self).staked_address_nfts.view()
                        == old(self).staked_address_nfts.view().insert(
                        caller,
                        StakedAddressNFTs { reward_balance: 0, last_withdraw_datetime: now, ..rec },
                    )
                    &&& *final(self) == (StakingContract {
                        staked_address_nfts: final(self).staked_address_nfts,
                        ..*old(self)
                    })
                    &&& actions@ == seq![
                        StakingAction::SendEgld { to: caller, amount: rec.reward_balance },
                    ]
                },
            },
    {
        let reward = match self.staked_address_nfts.get(&caller) {
            Some(rec) => rec.reward_balance,
            None => {
                return Err(StakingError::NoStakedNfts);
            },
        };
        if reward == 0 {
            return Err(StakingError::ZeroRewardBalance);
        }
        let mut actions: Vec<StakingAction> = Vec::new();
        self.send_egld(&mut actions, caller, reward);
        let mut record = self.staked_address_nfts.remove(&caller).unwrap();
        record.reward_balance = 0;
        record.last_withdraw_datetime = now;
        self.staked_address_nfts.set(caller, record);
        proof {
            assert(self.staked_address_nfts.view().dom() =~= old(self).staked_address_nfts.view().dom());
            assert forall|a: Address| #[trigger] self.staked_address_nfts.view().contains_key(a) implies self.staked_nfts(a)
                == old(self).staked_nfts(a) by {}
        }
        Ok(actions)
    }
}

} // verus!

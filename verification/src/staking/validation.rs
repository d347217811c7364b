use vstd::prelude::*;

use super::contract::{ensure, StakingContract, StakingError};
use super::storage::{NftId, StakeKey};
use crate::types::{is_valid_esdt_identifier, valid_esdt_identifier, value_or, Address, TokenIdentifier};

verus! {

impl StakingContract {
    /// The role of `a`: zero where none is stored.
    pub open spec fn role_of(&self, a: Address) -> u16 {
        value_or(self.address_role.view(), a, 0u16)
    }

    /// Whether NFTs of collection `t` may be staked.
    pub open spec fn is_stakable(&self, t: Seq<u8>) -> bool {
        value_or(self.stakable_token_identifier.view(), t, 0u16) != 0
    }

    fn get_role(&self, address: &Address) -> (r: u16)
        requires
            self.wf(),
        ensures
            r == self.role_of(*address),
    {
        match self.address_role.get(address) {
            Some(v) => *v,
            None => 0,
        }
    }

    /// Whether `address` has a staking record.
    pub fn does_address_exist_in_staked_address_nfts(&self, address: Address) -> (r: bool)
        requires
            self.wf(),
        ensures
            r == self.staked_address_nfts.view().contains_key(address),
            r == self.pool().contains(address),
    {
        self.staked_address_nfts.contains(&address)
    }

    /// Whether `address` has a staking state for the NFT, staked or not.
    pub fn does_nft_exist_in_staked_addresss_nfts(
        &self,
        address: Address,
        token_id: TokenIdentifier,
        nonce: u64,
    ) -> (r: bool)
        requires
            self.wf(),
        ensures
            r == self.staked_nft_info.view().contains_key((address, (token_id@, nonce))),
    {
        let nft_id = NftId::new(token_id, nonce);
        let key = StakeKey::new(address, &nft_id);
        self.staked_nft_info.contains(&key)
    }

    pub fn verify_token_identifier_is_stakable(&self, token_id: &TokenIdentifier) -> (r: bool)
        requires
            self.wf(),
        ensures
            r == self.is_stakable(token_id@),
    {
        match self.stakable_token_identifier.get(token_id) {
            Some(v) => *v != 0,
            None => false,
        }
    }

    pub fn address_role_exists(&self, address: &Address) -> (r: bool)
        requires
            self.wf(),
        ensures
            r == (self.role_of(*address) != 0),
    {
        self.get_role(address) != 0
    }

    pub fn address_role_is_deployer(&self, address: &Address) -> (r: bool)
        requires
            self.wf(),
        ensures
            r == (self.role_of(*address) == 1),
    {
        self.get_role(address) == 1
    }

    pub fn address_role_is_owner(&self, address: &Address) -> (r: bool)
        requires
            self.wf(),
        ensures
            r == (self.role_of(*address) == 2),
    {
        self.get_role(address) == 2
    }

    pub fn address_role_is_admin(&self, address: &Address) -> (r: bool)
        requires
            self.wf(),
        ensures
            r == (self.role_of(*address) == 3),
    {
        self.get_role(address) == 3
    }

    pub fn address_role_can_edit_stakeable_token_id(&self, address: &Address) -> (r: bool)
        requires
            self.wf(),
        ensures
            r == (1 <= self.role_of(*address) <= 3),
    {
        self.address_role_is_deployer(address) || self.address_role_is_owner(address)
            || self.address_role_is_admin(address)
    }

    pub fn address_role_can_disburse_rewards(&self, address: &Address) -> (r: bool)
        requires
            self.wf(),
        ensures
            r == (1 <= self.role_of(*address) <= 3),
    {
        self.address_role_is_deployer(address) || self.address_role_is_owner(address)
            || self.address_role_is_admin(address)
    }

    pub fn require_valid_token_id(&self, token_id: &TokenIdentifier) -> (r: Result<(), StakingError>)
        ensures
            r == ensure(valid_esdt_identifier(token_id@), StakingError::InvalidTokenId),
    {
        if !is_valid_esdt_identifier(token_id) {
            return Err(StakingError::InvalidTokenId);
        }
        Ok(())
    }

    pub fn require_valid_nonce(&self, nonce: u64) -> (r: Result<(), StakingError>)
        ensures
            r == ensure(nonce != 0, StakingError::InvalidNonce),
    {
        if nonce == 0 {
            return Err(StakingError::InvalidNonce);
        }
        Ok(())
    }
}

} // verus!

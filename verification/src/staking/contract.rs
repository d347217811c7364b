use vstd::prelude::*;

use super::storage::{NftId, StakeKey, StakedAddressNFTs, StakedNFT, StakedPool};
use crate::store::Store;
use crate::types::{Address, TokenIdentifier};

verus! {

/// Why the staking contract refuses a call.  A refused call changes nothing.
#[derive(Clone, Copy, PartialEq, Eq, Structural, Debug)]
pub enum StakingError {
    InvalidTokenId,
    InvalidNonce,
    RoleNotValid,
    NoRole,
    CannotMakeStakeable,
    AlreadyStakeable,
    NeverStakeable,
    NotStakeable,
    PayoutNeverSetForStaking,
    AlreadyStaked,
    NotStakeableForUnstaking,
    NeverStaked,
    AlreadyUnstaked,
    NoStakedNfts,
    ZeroRewardBalance,
    CannotDisburse,
    PayoutNeverSetForPayout,
    PayoutPeriodTooShort,
    OnlyOwner,
}

impl StakingError {
    /// The message the contract fails with, as text.
    pub open spec fn message_text(&self) -> Seq<char> {
        match self {
            StakingError::InvalidTokenId => "Invalid token Id"@,
            StakingError::InvalidNonce => "Invalid nonce"@,
            StakingError::RoleNotValid => "Role is not valid."@,
            StakingError::NoRole => "Caller address does not have any role priviledges."@,
            StakingError::CannotMakeStakeable => "Caller address role cannot make token stakeable."@,
            StakingError::AlreadyStakeable => "Token Identifier already register as Stakeable."@,
            StakingError::NeverStakeable => "Token Identifier was NEVER register as Stakeable."@,
            StakingError::NotStakeable => "Token Identifer NOT Stakeable."@,
            StakingError::PayoutNeverSetForStaking =>
                "Last_Payout_Datetime was NEVER setup - Must set prior to staking any NFT."@,
            StakingError::AlreadyStaked => "NFT Already Staked"@,
            StakingError::NotStakeableForUnstaking =>
                "Token Identifer NOT Stakeable - So it is UNSTAKEABLE."@,
            StakingError::NeverStaked => "NFT was NEVER Staked before."@,
            StakingError::AlreadyUnstaked => "NFT is already UnStaked."@,
            StakingError::NoStakedNfts => "Address has NOT staked any NFTs."@,
            StakingError::ZeroRewardBalance => "Staked Reward Balance is ZERO."@,
            StakingError::CannotDisburse => "Caller address role cannot disburse rewards."@,
            StakingError::PayoutNeverSetForPayout =>
                "Last_Payout_Datetime was NEVER setup - Must set prior to doing payout"@,
            StakingError::PayoutPeriodTooShort =>
                "Payout time period is less than required time block - Try at later time."@,
            StakingError::OnlyOwner => "Endpoint can only be called by owner"@,
        }
    }

    /// The message the contract fails with.
    pub fn message(&self) -> (r: &'static str)
        ensures
            r@ == self.message_text(),
    {
        match self {
            StakingError::InvalidTokenId => "Invalid token Id",
            StakingError::InvalidNonce => "Invalid nonce",
            StakingError::RoleNotValid => "Role is not valid.",
            StakingError::NoRole => "Caller address does not have any role priviledges.",
            StakingError::CannotMakeStakeable => "Caller address role cannot make token stakeable.",
            StakingError::AlreadyStakeable => "Token Identifier already register as Stakeable.",
            StakingError::NeverStakeable => "Token Identifier was NEVER register as Stakeable.",
            StakingError::NotStakeable => "Token Identifer NOT Stakeable.",
            StakingError::PayoutNeverSetForStaking =>
                "Last_Payout_Datetime was NEVER setup - Must set prior to staking any NFT.",
            StakingError::AlreadyStaked => "NFT Already Staked",
            StakingError::NotStakeableForUnstaking =>
                "Token Identifer NOT Stakeable - So it is UNSTAKEABLE.",
            StakingError::NeverStaked => "NFT was NEVER Staked before.",
            StakingError::AlreadyUnstaked => "NFT is already UnStaked.",
            StakingError::NoStakedNfts => "Address has NOT staked any NFTs.",
            StakingError::ZeroRewardBalance => "Staked Reward Balance is ZERO.",
            StakingError::CannotDisburse => "Caller address role cannot disburse rewards.",
            StakingError::PayoutNeverSetForPayout =>
                "Last_Payout_Datetime was NEVER setup - Must set prior to doing payout",
            StakingError::PayoutPeriodTooShort =>
                "Payout time period is less than required time block - Try at later time.",
            StakingError::OnlyOwner => "Endpoint can only be called by owner",
        }
    }
}

/// Success where `cond` holds, else the error `e`.
pub open spec fn ensure(cond: bool, e: StakingError) -> Result<(), StakingError> {
    if cond {
        Ok(())
    } else {
        Err(e)
    }
}

/// The first failure of two checks made one after the other.
pub open spec fn then(first: Result<(), StakingError>, second: Result<(), StakingError>) -> Result<
    (),
    StakingError,
> {
    match first {
        Err(e) => Err(e),
        Ok(_) => second,
    }
}

/// What a staking endpoint asks the chain to do once it has succeeded.
#[derive(Clone, Copy, PartialEq, Eq, Structural, Debug)]
pub enum StakingAction {
    /// Sends `amount` EGLD to `to`.
    SendEgld { to: Address, amount: u128 },
    /// Sends the NFT the endpoint was called for to `to`.
    SendNft { to: Address },
}

/// The views of a list of NFT identifiers.
pub open spec fn nft_views(list: Seq<NftId>) -> Seq<(Seq<u8>, u64)> {
    list.map_values(|n: NftId| n@)
}

/// The storage of the staking contract.
pub struct StakingContract {
    pub staked_pool: StakedPool,
    pub staked_address_nfts: Store<Address, StakedAddressNFTs>,
    pub staked_nft_info: Store<StakeKey, StakedNFT>,
    pub last_payout_datetime: u64,
    pub stakable_token_identifier: Store<TokenIdentifier, u16>,
    pub address_role: Store<Address, u16>,
    pub version: Vec<u8>,
}

impl StakingContract {
    /// The NFTs that address `a` ever staked.
    pub open spec fn staked_nfts(&self, a: Address) -> Seq<(Seq<u8>, u64)> {
        nft_views(self.staked_address_nfts.view()[a].array_staked_nft_ids@)
    }

    /// The addresses of the staked pool.
    pub open spec fn pool(&self) -> Seq<Address> {
        self.staked_pool.array_staked_addresses@
    }

    /// What every reachable storage satisfies: the pool lists each staking
    /// address once, exactly the addresses with a staking record; and an
    /// address's list of NFTs holds each NFT once, and only NFTs it has a
    /// staking state for.  Staking records a staking state but does not add
    /// to the list, so the list may leave staked NFTs out.
    pub open spec fn wf(&self) -> bool {
        &&& self.staked_address_nfts.wf()
        &&& self.staked_nft_info.wf()
        &&& self.stakable_token_identifier.wf()
        &&& self.address_role.wf()
        &&& self.pool().no_duplicates()
        &&& forall|i: int|
            0 <= i < self.pool().len() ==> self.staked_address_nfts.view().contains_key(
                #[trigger] self.pool()[i],
            )
        &&& forall|a: Address|
            #[trigger] self.staked_address_nfts.view().contains_key(a) ==> self.pool().contains(a)
        &&& forall|a: Address|
            #[trigger] self.staked_address_nfts.view().contains_key(a) ==> self.staked_nfts(
                a,
            ).no_duplicates()
        &&& forall|a: Address, j: int|
            self.staked_address_nfts.view().contains_key(a) && 0 <= j < self.staked_nfts(a).len()
                ==> self.staked_nft_info.view().contains_key((a, #[trigger] self.staked_nfts(a)[j]))
    }

    /// Deploys the staking contract with an empty pool and no payout time.
    pub fn init(version: Vec<u8>) -> (r: StakingContract)
        ensures
            r.wf(),
            r.pool().len() == 0,
            r.staked_address_nfts.view().is_empty(),
            r.staked_nft_info.view().is_empty(),
            r.stakable_token_identifier.view().is_empty(),
            r.address_role.view().is_empty(),
            r.last_payout_datetime == 0,
            r.version == version,
    {
        StakingContract {
            staked_pool: StakedPool::new(Vec::new()),
            staked_address_nfts: Store::new(),
            staked_nft_info: Store::new(),
            last_payout_datetime: 0,
            stakable_token_identifier: Store::new(),
            address_role: Store::new(),
            version,
        }
    }

    /// Runs the deployment again over existing storage, as an upgrade of
    /// the contract does: the version takes the new value and the pool,
    /// the stakes and the last payout time are kept.
    pub fn upgrade(&mut self, version: Vec<u8>)
        requires
            old(self).wf(),
        ensures
            final(self).wf(),
            final(self).version@ == version@,
            *final(self) == (StakingContract { version: final(self).version, ..*old(self) }),
    {
        self.version = version;
    }

    /// Refuses a call of an owner-only endpoint by anyone but the
    /// contract's owner.
    pub fn require_owner(&self, caller: &Address, owner: &Address) -> (r: Result<(), StakingError>)
        ensures
            r == ensure(*caller == *owner, StakingError::OnlyOwner),
    {
        if !caller.same(owner) {
            return Err(StakingError::OnlyOwner);
        }
        Ok(())
    }

    /// Sets the time from which payouts are counted, at the owner's call.
    pub fn set_last_payout_datetime(&mut self, caller: Address, owner: Address, payout_datetime: u64) -> (r:
        Result<(), StakingError>)
        requires
            old(self).wf(),
        ensures
            final(self).wf(),
            r == ensure(caller == owner, StakingError::OnlyOwner),
            r is Err ==> *final(self) == *old(self),
            r is Ok ==> *final(self) == (StakingContract {
                last_payout_datetime: payout_datetime,
                ..*old(self)
            }),
    {
        self.require_owner(&caller, &owner)?;
        self.last_payout_datetime = payout_datetime;
        Ok(())
    }

    /// Sets the time from which payouts are counted to the block's time, at
    /// the owner's call.
    pub fn set_last_payout_datetime_to_block_timestamp(&mut self, caller: Address, owner: Address, now: u64) -> (r:
        Result<(), StakingError>)
        requires
            old(self).wf(),
        ensures
            final(self).wf(),
            r == ensure(caller == owner, StakingError::OnlyOwner),
            r is Err ==> *final(self) == *old(self),
            r is Ok ==> *final(self) == (StakingContract { last_payout_datetime: now, ..*old(self) }),
    {
        self.require_owner(&caller, &owner)?;
        self.last_payout_datetime = now;
        Ok(())
    }

    /// Gives `address` a role, at the owner's call: 1 for deployer, 2 for
    /// owner, 3 for admin.
    pub fn set_address_role(&mut self, caller: Address, owner: Address, address: Address, role: u16) -> (r:
        Result<(), StakingError>)
        requires
            old(self).wf(),
        ensures
            final(self).wf(),
            r == then(
                ensure(caller == owner, StakingError::OnlyOwner),
                ensure(role == 1 || role == 2 || role == 3, StakingError::RoleNotValid),
            ),
            r is Err ==> *final(self) == *old(self),
            r is Ok ==> final(self).address_role.view() == old(self).address_role.view().insert(
                address,
                role,
            ) && *final(self) == (StakingContract {
                address_role: final(self).address_role,
                ..*old(self)
            }),
    {
        self.require_owner(&caller, &owner)?;
        if role != 1 && role != 2 && role != 3 {
            return Err(StakingError::RoleNotValid);
        }
        self.address_role.set(address, role);
        Ok(())
    }
}

} // verus!

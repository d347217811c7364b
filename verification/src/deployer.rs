//! The deployer: it creates collections from the minting template's code,
//! passing the marketplace admin along, and remembers who created each one
//! so that only that account can take the contract's ownership.

use vstd::prelude::*;

use crate::store::Store;
use crate::types::{Address, TokenIdentifier};

verus! {

/// Why the deployer refuses a call.  A refused call changes nothing.
#[derive(Clone, Copy, PartialEq, Eq, Structural, Debug)]
pub enum DeployerError {
    NotAnOwnedContract,
    NotOwnerOfContract,
    OnlyOwner,
}

impl DeployerError {
    /// The message the contract fails with, as text.
    pub open spec fn message_text(&self) -> Seq<char> {
        match self {
            DeployerError::NotAnOwnedContract => "not an owned contract"@,
            DeployerError::NotOwnerOfContract => "not owner of contract"@,
            DeployerError::OnlyOwner => "Endpoint can only be called by owner"@,
        }
    }

    /// The message the contract fails with.
    pub fn message(&self) -> (r: &'static str)
        ensures
            r@ == self.message_text(),
    {
        match self {
            DeployerError::NotAnOwnedContract => "not an owned contract",
            DeployerError::NotOwnerOfContract => "not owner of contract",
            DeployerError::OnlyOwner => "Endpoint can only be called by owner",
        }
    }
}

/// One argument of the template's constructor.
#[derive(Debug)]
pub enum DeployArg {
    Address(Address),
    Bytes(Vec<u8>),
    Amount(u128),
    Supply(u16),
    Timestamp(u64),
}

/// A deployment that the deployer asks of the chain: a copy of the code at
/// `source`, sent `value` EGLD, with the code metadata flags `payable` and
/// `upgradeable`, built with `args` in order.
#[derive(Debug)]
pub struct DeployRequest {
    pub source: Address,
    pub value: u128,
    pub payable: bool,
    pub upgradeable: bool,
    pub args: Vec<DeployArg>,
}

/// A handover of the ownership of `contract` to `new_owner`.
#[derive(Clone, Copy, PartialEq, Eq, Structural, Debug)]
pub struct OwnerChange {
    pub contract: Address,
    pub new_owner: Address,
}

/// A payment of EGLD to `to`.
#[derive(Clone, Copy, PartialEq, Eq, Structural, Debug)]
pub struct EgldPayment {
    pub to: Address,
    pub amount: u128,
}

/// The deployer's storage.
pub struct Deployer {
    pub marketplace_admin: Address,
    pub nft_template_address: Address,
    /// The account that deployed each contract.
    pub owner_of_contract: Store<Address, Address>,
}

impl Deployer {
    pub open spec fn wf(&self) -> bool {
        self.owner_of_contract.wf()
    }

    /// The deployer of the template at `nft_template_address`, whose
    /// collections sell through `marketplace_admin`.
    pub fn init(nft_template_address: Address, marketplace_admin: Address) -> (r: Deployer)
        ensures
            r.wf(),
            r.nft_template_address == nft_template_address,
            r.marketplace_admin == marketplace_admin,
            r.owner_of_contract.view() == Map::<Address, Address>::empty(),
    {
        Deployer { marketplace_admin, nft_template_address, owner_of_contract: Store::new() }
    }

    /// Runs the deployment again over existing storage, as an upgrade of
    /// the contract does: both addresses take the new values and the
    /// owners of deployed contracts are kept.
    pub fn upgrade(&mut self, nft_template_address: Address, marketplace_admin: Address)
        requires
            old(self).wf(),
        ensures
            final(self).wf(),
            final(self).nft_template_address == nft_template_address,
            final(self).marketplace_admin == marketplace_admin,
            final(self).owner_of_contract == old(self).owner_of_contract,
    {
        self.nft_template_address = nft_template_address;
        self.marketplace_admin = marketplace_admin;
    }

    /// The deployment of a new collection: the template's code, with the
    /// marketplace admin, then the collection's settings in order, then its
    /// metadata URI where one is given.
    pub fn deploy_nft_template_contract(
        &self,
        token_id: TokenIdentifier,
        royalties: u128,
        token_name_base: Vec<u8>,
        image_base_uri: Vec<u8>,
        image_extension: Vec<u8>,
        price: u128,
        max_supply: u16,
        sale_start_timestamp: u64,
        metadata_base_uri_opt: Option<Vec<u8>>,
    ) -> (r: DeployRequest)
        ensures
            r.source == self.nft_template_address,
            r.value == 0,
            r.payable,
            r.upgradeable,
            ({
                let fixed = seq![
                    DeployArg::Address(self.marketplace_admin),
                    DeployArg::Bytes(token_id),
                    DeployArg::Amount(royalties),
                    DeployArg::Bytes(token_name_base),
                    DeployArg::Bytes(image_base_uri),
                    DeployArg::Bytes(image_extension),
                    DeployArg::Amount(price),
                    DeployArg::Supply(max_supply),
                    DeployArg::Timestamp(sale_start_timestamp),
                ];
                r.args@ == match metadata_base_uri_opt {
                    Some(m) => fixed.push(DeployArg::Bytes(m)),
                    None => fixed,
                }
            }),
    {
        let mut args: Vec<DeployArg> = Vec::new();
        args.push(DeployArg::Address(self.marketplace_admin));
        args.push(DeployArg::Bytes(token_id));
        args.push(DeployArg::Amount(royalties));
        args.push(DeployArg::Bytes(token_name_base));
        args.push(DeployArg::Bytes(image_base_uri));
        args.push(DeployArg::Bytes(image_extension));
        args.push(DeployArg::Amount(price));
        args.push(DeployArg::Supply(max_supply));
        args.push(DeployArg::Timestamp(sale_start_timestamp));
        match metadata_base_uri_opt {
            Some(m) => args.push(DeployArg::Bytes(m)),
            None => {},
        }
        DeployRequest {
            source: self.nft_template_address,
            value: 0,
            payable: true,
            upgradeable: true,
            args,
        }
    }

    /// Records `caller` as the owner of the contract just deployed at
    /// `new_address`, and hands the address back.
    pub fn record_deployment(&mut self, new_address: Address, caller: Address) -> (r: Address)
        requires
            old(self).wf(),
        ensures
            final(self).wf(),
            r == new_address,
            final(self).owner_of_contract.view() == old(self).owner_of_contract.view().insert(
                new_address,
                caller,
            ),
            final(self).marketplace_admin == old(self).marketplace_admin,
            final(self).nft_template_address == old(self).nft_template_address,
    {
        self.owner_of_contract.set(new_address, caller);
        new_address
    }

    /// The outcome of a request by `caller` for the ownership of
    /// `sc_address`.
    pub open spec fn change_owner_check(&self, caller: Address, sc_address: Address) -> Result<
        OwnerChange,
        DeployerError,
    > {
        let owners = self.owner_of_contract.view();
        if !owners.contains_key(sc_address) {
            Err(DeployerError::NotAnOwnedContract)
        } else if owners[sc_address] != caller {
            Err(DeployerError::NotOwnerOfContract)
        } else {
            Ok(OwnerChange { contract: sc_address, new_owner: caller })
        }
    }

    /// Hands the ownership of `sc_address` to the caller, where the caller
    /// deployed it through this contract.
    pub fn change_owner(&self, caller: Address, sc_address: Address) -> (r: Result<
        OwnerChange,
        DeployerError,
    >)
        requires
            self.wf(),
        ensures
            r == self.change_owner_check(caller, sc_address),
    {
        match self.owner_of_contract.get(&sc_address) {
            None => Err(DeployerError::NotAnOwnedContract),
            Some(owner) => {
                if !owner.same(&caller) {
                    Err(DeployerError::NotOwnerOfContract)
                } else {
                    Ok(OwnerChange { contract: sc_address, new_owner: caller })
                }
            },
        }
    }

    /// Refuses a call of an owner-only endpoint by anyone but the
    /// contract's owner.
    pub fn require_owner(&self, caller: &Address, owner: &Address) -> (r: Result<(), DeployerError>)
        ensures
            r == (if *caller == *owner {
                Ok::<(), DeployerError>(())
            } else {
                Err(DeployerError::OnlyOwner)
            }),
    {
        if !caller.same(owner) {
            return Err(DeployerError::OnlyOwner);
        }
        Ok(())
    }

    /// Pays `amount_opt` to the owner, or the contract's whole balance.
    pub fn withdraw(&self, caller: Address, owner: Address, amount_opt: Option<u128>, sc_balance: u128) -> (r:
        Result<EgldPayment, DeployerError>)
        ensures
            r == if caller != owner {
                Err(DeployerError::OnlyOwner)
            } else {
                Ok::<EgldPayment, DeployerError>(
                    EgldPayment {
                        to: caller,
                        amount: match amount_opt {
                            Some(a) => a,
                            None => sc_balance,
                        },
                    },
                )
            },
    {
        self.require_owner(&caller, &owner)?;
        let amount = match amount_opt {
            Some(a) => a,
            None => sc_balance,
        };
        Ok(EgldPayment { to: caller, amount })
    }

    /// Sets the marketplace admin passed to new collections, at the owner's
    /// call.
    pub fn set_marketplace_admin(&mut self, caller: Address, owner: Address, sc_address: Address) -> (r:
        Result<(), DeployerError>)
        requires
            old(self).wf(),
        ensures
            final(self).wf(),
            caller != owner ==> r == Err::<(), DeployerError>(DeployerError::OnlyOwner)
                && final(self).marketplace_admin == old(self).marketplace_admin,
            caller == owner ==> r is Ok && final(self).marketplace_admin == sc_address,
            final(self).nft_template_address == old(self).nft_template_address,
            final(self).owner_of_contract == old(self).owner_of_contract,
    {
        self.require_owner(&caller, &owner)?;
        self.marketplace_admin = sc_address;
        Ok(())
    }

    /// Sets the template whose code new collections copy, at the owner's
    /// call.
    pub fn set_nft_template_address(&mut self, caller: Address, owner: Address, sc_address: Address) -> (r:
        Result<(), DeployerError>)
        requires
            old(self).wf(),
        ensures
            final(self).wf(),
            caller != owner ==> r == Err::<(), DeployerError>(DeployerError::OnlyOwner)
                && final(self).nft_template_address == old(self).nft_template_address,
            caller == owner ==> r is Ok && final(self).nft_template_address == sc_address,
            final(self).marketplace_admin == old(self).marketplace_admin,
            final(self).owner_of_contract == old(self).owner_of_contract,
    {
        self.require_owner(&caller, &owner)?;
        self.nft_template_address = sc_address;
        Ok(())
    }

    pub fn get_marketplace_address(&self) -> (r: Address)
        ensures
            r == self.marketplace_admin,
    {
        self.marketplace_admin
    }

    pub fn get_nft_template_address(&self) -> (r: Address)
        ensures
            r == self.nft_template_address,
    {
        self.nft_template_address
    }

    /// The deployer of `sc_address`; `None` where no deployment of this
    /// contract made it.
    pub fn get_owner_of_contract(&self, sc_address: Address) -> (r: Option<Address>)
        requires
            self.wf(),
        ensures
            r == self.owner_of_contract.view().get(sc_address),
    {
        match self.owner_of_contract.get(&sc_address) {
            Some(owner) => Some(*owner),
            None => None,
        }
    }
}

/// The account that deployed a contract through the deployer may take its
/// ownership, and any other account is refused.
pub proof fn law_deployer_may_take_ownership(
    d0: Deployer,
    d1: Deployer,
    new_address: Address,
    deployer_account: Address,
    other: Address,
)
    requires
        d1.owner_of_contract.view() == d0.owner_of_contract.view().insert(
            new_address,
            deployer_account,
        ),
        other != deployer_account,
    ensures
        d1.change_owner_check(deployer_account, new_address) == Ok::<OwnerChange, DeployerError>(
            OwnerChange { contract: new_address, new_owner: deployer_account },
        ),
        d1.change_owner_check(other, new_address) == Err::<OwnerChange, DeployerError>(
            DeployerError::NotOwnerOfContract,
        ),
{
}

} // verus!

use vstd::prelude::*;

use super::minting::ensure;
use crate::store::Store;
use crate::types::Address;

verus! {

/// Why the template refuses a call.  A refused call changes nothing.
#[derive(Clone, Copy, PartialEq, Eq, Structural, Debug)]
pub enum TemplateError {
    SaleNotStarted,
    SalePaused,
    ZeroTokens,
    NoTokensLeftForSale,
    PaymentTooLow,
    UnexpectedNonce,
    NoTokensLeft,
    SaleStarted,
    NotMarketplaceAdmin,
    EndpointDisabled,
    NotWhitelisted,
    BuyLimitExceeded,
    BuyerNotCreated,
    OnlyOwner,
}

impl TemplateError {
    /// The message the contract fails with, as text.
    pub open spec fn message_text(&self) -> Seq<char> {
        match self {
            TemplateError::SaleNotStarted => "sale did not start"@,
            TemplateError::SalePaused => "sale is paused"@,
            TemplateError::ZeroTokens => "cannot mint zero tokens"@,
            TemplateError::NoTokensLeftForSale => "no tokens left for sale"@,
            TemplateError::PaymentTooLow => "payment too low"@,
            TemplateError::UnexpectedNonce => "unexpected nonce"@,
            TemplateError::NoTokensLeft => "no tokens left"@,
            TemplateError::SaleStarted => "sale started"@,
            TemplateError::NotMarketplaceAdmin => "not markeplace admin"@,
            TemplateError::EndpointDisabled => "endpoint disabled"@,
            TemplateError::NotWhitelisted => "Address is NOT part of WHITELIST"@,
            TemplateError::BuyLimitExceeded => "Exceeded the Allowable Buy Limit for WhiteList"@,
            TemplateError::BuyerNotCreated => "Address is NOT CREATED for Buying"@,
            TemplateError::OnlyOwner => "Endpoint can only be called by owner"@,
        }
    }

    /// The message the contract fails with.
    pub fn message(&self) -> (r: &'static str)
        ensures
            r@ == self.message_text(),
    {
        match self {
            TemplateError::SaleNotStarted => "sale did not start",
            TemplateError::SalePaused => "sale is paused",
            TemplateError::ZeroTokens => "cannot mint zero tokens",
            TemplateError::NoTokensLeftForSale => "no tokens left for sale",
            TemplateError::PaymentTooLow => "payment too low",
            TemplateError::UnexpectedNonce => "unexpected nonce",
            TemplateError::NoTokensLeft => "no tokens left",
            TemplateError::SaleStarted => "sale started",
            TemplateError::NotMarketplaceAdmin => "not markeplace admin",
            TemplateError::EndpointDisabled => "endpoint disabled",
            TemplateError::NotWhitelisted => "Address is NOT part of WHITELIST",
            TemplateError::BuyLimitExceeded => "Exceeded the Allowable Buy Limit for WhiteList",
            TemplateError::BuyerNotCreated => "Address is NOT CREATED for Buying",
            TemplateError::OnlyOwner => "Endpoint can only be called by owner",
        }
    }
}

/// The message sent along with an EGLD transfer.
#[derive(Clone, Copy, PartialEq, Eq, Structural, Debug)]
pub enum TemplateMemo {
    Empty,
    Erd721Standard,
    WithdrawMessage,
}

/// A transfer that a template endpoint asks of the chain.
#[derive(Clone, Copy, PartialEq, Eq, Structural, Debug)]
pub struct EgldTransfer {
    pub to: Address,
    pub amount: u128,
    pub memo: TemplateMemo,
}

/// An NFT to create and send: the chain must give it nonce
/// `expected_nonce`, else the call fails.
pub struct MintOrder {
    pub recipient: Address,
    pub expected_nonce: u16,
    pub name: Vec<u8>,
    pub uris: Vec<Vec<u8>>,
}

/// A step of a giveaway: create and send an NFT, or send the zero-EGLD
/// notice of the collection's standard to a recipient.
pub enum GiveawayStep {
    Mint { order: MintOrder },
    Notify { to: Address },
}

/// The storage of the template.  `buyer_whitelist_check` is 1 while the
/// whitelist is enforced.
pub struct NftTemplate {
    pub marketplace_balance: u128,
    pub marketplace_admin: Address,
    pub minting_through_marketplace_denied: bool,
    pub total_sold: u16,
    pub max_supply: u16,
    pub price: u128,
    pub royalties: u128,
    pub image_base_uri: Vec<u8>,
    pub image_extension: Vec<u8>,
    pub metadata_base_uri: Vec<u8>,
    pub token_name_base: Vec<u8>,
    pub token_id: Vec<u8>,
    pub sale_start: u64,
    pub sale_paused: bool,
    pub nonce_to_index: Store<u16, u16>,
    pub admin_pub_key: Vec<u8>,
    pub buy_count: Store<Address, u16>,
    pub buy_limit: Store<Address, u16>,
    pub buyer_whitelist_check: i128,
}

impl NftTemplate {
    /// What every reachable storage satisfies: the maps are well formed and
    /// no more tokens were sold than the supply.
    pub open spec fn wf(&self) -> bool {
        &&& self.nonce_to_index.wf()
        &&& self.buy_count.wf()
        &&& self.buy_limit.wf()
        &&& self.total_sold <= self.max_supply
    }

    /// Deploys the template of a collection.
    pub fn init(
        marketplace_admin: Address,
        token_id: Vec<u8>,
        royalties: u128,
        token_name_base: Vec<u8>,
        image_base_uri: Vec<u8>,
        image_extension: Vec<u8>,
        price: u128,
        max_supply: u16,
        sale_start: u64,
        metadata_base_uri: Option<Vec<u8>>,
        admin_pub_key: Option<Vec<u8>>,
    ) -> (r: NftTemplate)
        ensures
            r.wf(),
            r.marketplace_admin == marketplace_admin,
            r.token_id == token_id,
            r.royalties == royalties,
            r.token_name_base == token_name_base,
            r.image_base_uri == image_base_uri,
            r.image_extension == image_extension,
            r.price == price,
            r.max_supply == max_supply,
            r.sale_start == sale_start,
            metadata_base_uri matches Some(m) ==> r.metadata_base_uri == m,
            metadata_base_uri is None ==> r.metadata_base_uri@.len() == 0,
            admin_pub_key matches Some(k) ==> r.admin_pub_key == k,
            admin_pub_key is None ==> r.admin_pub_key@.len() == 0,
            r.buyer_whitelist_check == 0,
            r.total_sold == 0,
            r.marketplace_balance == 0,
            !r.minting_through_marketplace_denied,
            !r.sale_paused,
            r.nonce_to_index.view().is_empty(),
            r.buy_count.view().is_empty(),
            r.buy_limit.view().is_empty(),
    {
        let metadata = match metadata_base_uri {
            Some(m) => m,
            None => Vec::new(),
        };
        let pub_key = match admin_pub_key {
            Some(k) => k,
            None => Vec::new(),
        };
        NftTemplate {
            marketplace_balance: 0,
            marketplace_admin,
            minting_through_marketplace_denied: false,
            total_sold: 0,
            max_supply,
            price,
            royalties,
            image_base_uri,
            image_extension,
            metadata_base_uri: metadata,
            token_name_base,
            token_id,
            sale_start,
            sale_paused: false,
            nonce_to_index: Store::new(),
            admin_pub_key: pub_key,
            buy_count: Store::new(),
            buy_limit: Store::new(),
            buyer_whitelist_check: 0,
        }
    }

    /// Runs the deployment again over existing storage, as an upgrade of
    /// the contract does: the marketplace admin and the image URI and
    /// extension take the new values; every other setting keeps a value it
    /// already has and takes the new one where it is empty (zero or no
    /// bytes); the whitelist is turned off; nothing else changes.
    pub fn upgrade(
        &mut self,
        marketplace_admin: Address,
        token_id: Vec<u8>,
        royalties: u128,
        token_name_base: Vec<u8>,
        image_base_uri: Vec<u8>,
        image_extension: Vec<u8>,
        price: u128,
        max_supply: u16,
        sale_start: u64,
        metadata_base_uri: Option<Vec<u8>>,
        admin_pub_key: Option<Vec<u8>>,
    )
        requires
            old(self).wf(),
        ensures
            final(self).wf(),
            final(self).marketplace_admin == marketplace_admin,
            final(self).image_base_uri@ == image_base_uri@,
            final(self).image_extension@ == image_extension@,
            final(self).token_id@ == if old(self).token_id@.len() == 0 {
                token_id@
            } else {
                old(self).token_id@
            },
            final(self).royalties == if old(self).royalties == 0 {
                royalties
            } else {
                old(self).royalties
            },
            final(self).token_name_base@ == if old(self).token_name_base@.len() == 0 {
                token_name_base@
            } else {
                old(self).token_name_base@
            },
            final(self).metadata_base_uri@ == if old(self).metadata_base_uri@.len() == 0 {
                match metadata_base_uri {
                    Some(m) => m@,
                    None => Seq::<u8>::empty(),
                }
            } else {
                old(self).metadata_base_uri@
            },
            final(self).price == if old(self).price == 0 {
                price
            } else {
                old(self).price
            },
            final(self).max_supply == if old(self).max_supply == 0 {
                max_supply
            } else {
                old(self).max_supply
            },
            final(self).sale_start == if old(self).sale_start == 0 {
                sale_start
            } else {
                old(self).sale_start
            },
            final(self).admin_pub_key@ == if old(self).admin_pub_key@.len() == 0 {
                match admin_pub_key {
                    Some(k) => k@,
                    None => Seq::<u8>::empty(),
                }
            } else {
                old(self).admin_pub_key@
            },
            final(self).buyer_whitelist_check == 0,
            *final(self) == (NftTemplate {
                marketplace_admin: final(self).marketplace_admin,
                token_id: final(self).token_id,
                royalties: final(self).royalties,
                token_name_base: final(self).token_name_base,
                image_base_uri: final(self).image_base_uri,
                image_extension: final(self).image_extension,
                metadata_base_uri: final(self).metadata_base_uri,
                price: final(self).price,
                max_supply: final(self).max_supply,
                sale_start: final(self).sale_start,
                admin_pub_key: final(self).admin_pub_key,
                buyer_whitelist_check: 0,
                ..*old(self)
            }),
    {
        self.marketplace_admin = marketplace_admin;
        if self.token_id.len() == 0 {
            self.token_id = token_id;
        }
        if self.royalties == 0 {
            self.royalties = royalties;
        }
        if self.token_name_base.len() == 0 {
            self.token_name_base = token_name_base;
        }
        self.image_base_uri = image_base_uri;
        self.image_extension = image_extension;
        if self.metadata_base_uri.len() == 0 {
            match metadata_base_uri {
                Some(m) => {
                    self.metadata_base_uri = m;
                },
                None => {},
            }
        }
        if self.price == 0 {
            self.price = price;
        }
        if self.max_supply == 0 {
            self.max_supply = max_supply;
        }
        if self.sale_start == 0 {
            self.sale_start = sale_start;
        }
        if self.admin_pub_key.len() == 0 {
            match admin_pub_key {
                Some(k) => {
                    self.admin_pub_key = k;
                },
                None => {},
            }
        }
        self.buyer_whitelist_check = 0;
    }

    /// Refuses a call of an owner-only endpoint by anyone but the
    /// contract's owner.
    pub fn require_owner(&self, caller: &Address, owner: &Address) -> (r: Result<(), TemplateError>)
        ensures
            r == ensure(*caller == *owner, TemplateError::OnlyOwner),
    {
        if !caller.same(owner) {
            return Err(TemplateError::OnlyOwner);
        }
        Ok(())
    }

    /// Lets buyers mint through the marketplace, at the owner's call.
    pub fn allow_minting_through_marketplace(&mut self, caller: Address, owner: Address) -> (r: Result<
        (),
        TemplateError,
    >)
        requires
            old(self).wf(),
        ensures
            final(self).wf(),
            r == ensure(caller == owner, TemplateError::OnlyOwner),
            r is Err ==> *final(self) == *old(self),
            r is Ok ==> *final(self) == (NftTemplate { minting_through_marketplace_denied: false, ..*old(self) }),
    {
        self.require_owner(&caller, &owner)?;
        self.minting_through_marketplace_denied = false;
        Ok(())
    }

    /// Stops minting through the marketplace, at the owner's call.
    pub fn deny_minting_through_marketplace(&mut self, caller: Address, owner: Address) -> (r: Result<
        (),
        TemplateError,
    >)
        requires
            old(self).wf(),
        ensures
            final(self).wf(),
            r == ensure(caller == owner, TemplateError::OnlyOwner),
            r is Err ==> *final(self) == *old(self),
            r is Ok ==> *final(self) == (NftTemplate { minting_through_marketplace_denied: true, ..*old(self) }),
    {
        self.require_owner(&caller, &owner)?;
        self.minting_through_marketplace_denied = true;
        Ok(())
    }

    /// Sets the price of a token, at the owner's call.
    pub fn set_price(&mut self, caller: Address, owner: Address, price: u128) -> (r: Result<
        (),
        TemplateError,
    >)
        requires
            old(self).wf(),
        ensures
            final(self).wf(),
            r == ensure(caller == owner, TemplateError::OnlyOwner),
            r is Err ==> *final(self) == *old(self),
            r is Ok ==> *final(self) == (NftTemplate { price, ..*old(self) }),
    {
        self.require_owner(&caller, &owner)?;
        self.price = price;
        Ok(())
    }

    /// Pauses the sale, at the owner's call.
    pub fn pause_sale(&mut self, caller: Address, owner: Address) -> (r: Result<
        (),
        TemplateError,
    >)
        requires
            old(self).wf(),
        ensures
            final(self).wf(),
            r == ensure(caller == owner, TemplateError::OnlyOwner),
            r is Err ==> *final(self) == *old(self),
            r is Ok ==> *final(self) == (NftTemplate { sale_paused: true, ..*old(self) }),
    {
        self.require_owner(&caller, &owner)?;
        self.sale_paused = true;
        Ok(())
    }

    /// Resumes the sale, at the owner's call.
    pub fn resume_sale(&mut self, caller: Address, owner: Address) -> (r: Result<
        (),
        TemplateError,
    >)
        requires
            old(self).wf(),
        ensures
            final(self).wf(),
            r == ensure(caller == owner, TemplateError::OnlyOwner),
            r is Err ==> *final(self) == *old(self),
            r is Ok ==> *final(self) == (NftTemplate { sale_paused: false, ..*old(self) }),
    {
        self.require_owner(&caller, &owner)?;
        self.sale_paused = false;
        Ok(())
    }

    /// How many tokens are left for sale.
    pub fn get_left_for_sale(&self) -> (r: u16)
        requires
            self.wf(),
        ensures
            r == self.max_supply - self.total_sold,
    {
        self.max_supply - self.total_sold
    }

    pub fn get_max_supply_and_total_sold(&self) -> (r: (u16, u16))
        ensures
            r == (self.max_supply, self.total_sold),
    {
        (self.max_supply, self.total_sold)
    }
}

} // verus!

use vstd::prelude::*;

use super::contract::MarketplaceContract;
use super::storage::{NftId, NftSaleInfo};
use super::validation::MarketError;
use crate::types::TokenIdentifier;

verus! {

impl MarketplaceContract {
    /// The price of an NFT that is for sale.
    pub fn get_nft_price(&self, token_id: TokenIdentifier, nonce: u64) -> (r: Result<
        u128,
        MarketError,
    >)
        requires
            self.wf(),
        ensures
            match r {
                Err(e) => e == MarketError::NftNotForSale && !self.nft_sale_info.view().contains_key(
                    (token_id@, nonce),
                ),
                Ok(p) => self.nft_sale_info.view().contains_key((token_id@, nonce))
                    && p == self.nft_sale_info.view()[(token_id@, nonce)].price,
            },
    {
        let nft_id = NftId::new(token_id, nonce);
        self.require_nft_for_sale(&nft_id)?;
        match self.nft_sale_info.get(&nft_id) {
            Some(info) => Ok(info.price),
            None => Err(MarketError::NftNotForSale),
        }
    }

    /// The listing of an NFT that is for sale.
    pub fn get_nft_sale_info(&self, token_id: TokenIdentifier, nonce: u64) -> (r: Result<
        NftSaleInfo,
        MarketError,
    >)
        requires
            self.wf(),
        ensures
            match r {
                Err(e) => e == MarketError::NftNotForSale && !self.nft_sale_info.view().contains_key(
                    (token_id@, nonce),
                ),
                Ok(s) => self.nft_sale_info.view().contains_key((token_id@, nonce)) && s
                    == self.nft_sale_info.view()[(token_id@, nonce)],
            },
    {
        let nft_id = NftId::new(token_id, nonce);
        self.require_nft_for_sale(&nft_id)?;
        match self.nft_sale_info.get(&nft_id) {
            Some(info) => Ok(*info),
            None => Err(MarketError::NftNotForSale),
        }
    }
}

} // verus!

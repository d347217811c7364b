use erdsea::marketplace::contract::MarketplaceContract;
use erdsea::marketplace::events::{MarketAction, MarketEvent, Memo};
use erdsea::marketplace::storage::NftId;
use erdsea::marketplace::utils::{apply_percent, TokenData};
use erdsea::marketplace::validation::MarketError;
use erdsea::types::Address;

fn addr(n: u128) -> Address {
    Address { hi: 0, lo: n }
}

fn own() -> Address {
    addr(500)
}

fn token() -> Vec<u8> {
    b"ERDSEA-a1b2c3".to_vec()
}

fn token_data(royalties: u64) -> TokenData {
    TokenData { creator: addr(77), royalties, uris: vec![b"ipfs://image".to_vec()] }
}

fn market() -> MarketplaceContract {
    MarketplaceContract::init(250, 1_000, 1, 1_000_000, 2, addr(99), b"1".to_vec()).unwrap()
}

#[test]
fn init_rejects_each_bad_setting() {
    let dao = addr(99);
    assert_eq!(
        MarketplaceContract::init(10_000, 1_000, 1, 10, 0, dao, vec![]).err(),
        Some(MarketError::FeePercentTooHigh)
    );
    assert_eq!(
        MarketplaceContract::init(0, 1_000, 1, 10, 0, dao, vec![]).err(),
        Some(MarketError::FeePercentZero)
    );
    assert_eq!(
        MarketplaceContract::init(250, 1_001, 1, 10, 0, dao, vec![]).err(),
        Some(MarketError::RoyaltiesFeeTooHigh)
    );
    assert_eq!(
        MarketplaceContract::init(250, 1_000, 0, 10, 0, dao, vec![]).err(),
        Some(MarketError::MinPriceZero)
    );
    assert_eq!(
        MarketplaceContract::init(250, 1_000, 11, 10, 0, dao, vec![]).err(),
        Some(MarketError::MaxLowerThanMin)
    );
    let m = market();
    assert_eq!(m.platform_fee_percent, 250);
    assert_eq!(m.dao, dao);
    assert!(!m.global_op_is_ongoing);
}

#[test]
fn apply_percent_rounds_down() {
    assert_eq!(apply_percent(12_345, 250), 308);
    assert_eq!(apply_percent(10_000, 10_000), 10_000);
    assert_eq!(apply_percent(9_999, 1), 0);
    assert_eq!(apply_percent(u128::MAX, 10_000), u128::MAX);
}

#[test]
fn cuts_stay_within_price() {
    let price: u128 = 9_999;
    let fee = apply_percent(price, 9_000);
    let royalties = apply_percent(price, 1_000);
    assert_eq!(fee, 8_999);
    assert_eq!(royalties, 999);
    assert!(fee + royalties <= price);
}

#[test]
fn global_op_round_trip() {
    let mut m = market();
    assert_eq!(m.stop_global_op(own(), own()), Err(MarketError::GlobalOpNotOngoing));
    assert_eq!(m.start_global_op(own(), own()), Ok(()));
    assert_eq!(m.start_global_op(own(), own()), Err(MarketError::GlobalOpOngoing));
    assert_eq!(
        m.put_nft_for_sale(addr(1), 10, token(), 1, 1, 100, &token_data(500)).err(),
        Some(MarketError::GlobalOpOngoing)
    );
    assert_eq!(m.stop_global_op(own(), own()), Ok(()));
    assert!(!m.global_op_is_ongoing);
}

#[test]
fn deposit_then_withdraw_restores_balance() {
    let mut m = market();
    let a = addr(5);
    let actions = m.deposit(a, 700);
    assert_eq!(
        actions,
        vec![MarketAction::Log { event: MarketEvent::DepositUpdate { address: a, amount: 700 } }]
    );
    assert_eq!(m.withdraw(a, Some(701)).err(), Some(MarketError::InsufficientDeposit));
    let actions = m.withdraw(a, Some(700)).unwrap();
    assert_eq!(
        actions,
        vec![
            MarketAction::Log { event: MarketEvent::DepositUpdate { address: a, amount: 0 } },
            MarketAction::SendEgld { to: a, amount: 700, memo: Memo::Empty },
        ]
    );
    assert_eq!(m.withdraw(a, None).unwrap().len(), 2);
}

#[test]
fn put_nft_for_sale_checks_in_order() {
    let mut m = market();
    let seller = addr(1);
    assert_eq!(
        m.put_nft_for_sale(seller, 10, b"bad".to_vec(), 1, 1, 100, &token_data(500)).err(),
        Some(MarketError::InvalidTokenId)
    );
    assert_eq!(
        m.put_nft_for_sale(seller, 10, token(), 0, 1, 100, &token_data(500)).err(),
        Some(MarketError::InvalidNonce)
    );
    assert_eq!(
        m.put_nft_for_sale(seller, 10, token(), 1, 2, 100, &token_data(500)).err(),
        Some(MarketError::InvalidAmount)
    );
    assert_eq!(
        m.put_nft_for_sale(seller, 10, token(), 1, 1, 10, &token_data(500)).err(),
        Some(MarketError::InvalidPrice)
    );
    assert_eq!(
        m.put_nft_for_sale(seller, 10, token(), 1, 1, 2_000_000, &token_data(500)).err(),
        Some(MarketError::PriceTooHigh)
    );
    assert_eq!(
        m.put_nft_for_sale(seller, 10, token(), 1, 1, 100, &token_data(1_001)).err(),
        Some(MarketError::RoyaltiesTooBig)
    );
    let no_uris = TokenData { creator: addr(77), royalties: 500, uris: vec![] };
    assert_eq!(
        m.put_nft_for_sale(seller, 10, token(), 1, 1, 100, &no_uris).err(),
        Some(MarketError::EmptyUris)
    );
    let actions = m.put_nft_for_sale(seller, 10, token(), 1, 1, 100, &token_data(500)).unwrap();
    assert_eq!(
        actions,
        vec![MarketAction::Log {
            event: MarketEvent::PutNftForSale {
                caller: seller,
                price: 100,
                royalties_percent: 500,
                timestamp: 10
            }
        }]
    );
    assert_eq!(
        m.put_nft_for_sale(seller, 11, token(), 1, 1, 100, &token_data(500)).err(),
        Some(MarketError::NftForSale)
    );
    assert_eq!(m.get_nft_price(token(), 1), Ok(100));
}

#[test]
fn buy_nft_splits_the_price() {
    let mut m = market();
    let seller = addr(1);
    let buyer = addr(2);
    m.put_nft_for_sale(seller, 10, token(), 7, 1, 10_000, &token_data(500)).unwrap();
    assert_eq!(
        m.buy_nft(seller, 20, 3, 10_000, token(), 7, &token_data(500)).err(),
        Some(MarketError::IsOwner)
    );
    assert_eq!(
        m.buy_nft(buyer, 20, 3, 9_999, token(), 7, &token_data(500)).err(),
        Some(MarketError::WrongPayment)
    );
    let actions = m.buy_nft(buyer, 20, 3, 10_000, token(), 7, &token_data(500)).unwrap();
    assert_eq!(
        actions,
        vec![
            MarketAction::SellNft { buyer, payment_amount: 5_000 },
            MarketAction::SendEgld { to: addr(99), amount: 250, memo: Memo::DaoCut },
            MarketAction::SendEgld { to: seller, amount: 9_250, memo: Memo::SellerCut },
            MarketAction::Log {
                event: MarketEvent::BuyNft { owner: seller, buyer, price: 10_000, timestamp: 20 }
            },
        ]
    );
    assert!(!m.is_nft_for_sale(&NftId::new(token(), 7)));
    assert_eq!(
        m.buy_nft(buyer, 21, 3, 10_000, token(), 7, &token_data(500)).err(),
        Some(MarketError::NftNotForSale)
    );
}

#[test]
fn list_then_withdraw_gives_nft_back() {
    let mut m = market();
    let seller = addr(1);
    m.put_nft_for_sale(seller, 10, token(), 3, 1, 500, &token_data(0)).unwrap();
    assert_eq!(m.withdraw_nft(addr(2), 11, token(), 3).err(), Some(MarketError::NotOwner));
    let actions = m.withdraw_nft(seller, 12, token(), 3).unwrap();
    assert_eq!(
        actions,
        vec![
            MarketAction::SendNft { to: seller },
            MarketAction::Log {
                event: MarketEvent::WithdrawNft { owner: seller, price: 500, timestamp: 12 }
            },
        ]
    );
    assert!(!m.is_nft_for_sale(&NftId::new(token(), 3)));
    assert_eq!(m.withdraw_nft(seller, 13, token(), 3).err(), Some(MarketError::NftNotFound));
}

#[test]
fn offer_needs_deposit_and_listing() {
    let mut m = market();
    let seller = addr(1);
    let bidder = addr(2);
    m.put_nft_for_sale(seller, 10, token(), 4, 1, 1_000, &token_data(500)).unwrap();
    assert_eq!(
        m.make_offers(bidder, 11, token(), 4, 800, Some(100)).err(),
        Some(MarketError::NotEnoughInDeposit)
    );
    m.deposit(bidder, 800);
    assert_eq!(
        m.make_offers(bidder, 11, token(), 4, 800, Some(5)).err(),
        Some(MarketError::ExpireInPast)
    );
    assert_eq!(
        m.make_offers(seller, 11, token(), 4, 800, Some(100)).err(),
        Some(MarketError::NotEnoughInDeposit)
    );
    assert_eq!(
        m.make_offers(bidder, 11, token(), 5, 800, Some(100)).err(),
        Some(MarketError::NftNotFound)
    );
    let actions = m.make_offers(bidder, 11, token(), 4, 800, Some(100)).unwrap();
    assert_eq!(
        actions,
        vec![MarketAction::Log {
            event: MarketEvent::MakeOffer { offeror: bidder, amount: 800, expire: 100, timestamp: 11 }
        }]
    );
}

#[test]
fn remaining_epochs_until_claim() {
    let mut m = market();
    let creator = addr(77);
    assert_eq!(m.get_remaining_epochs_until_claim(creator, 10), Ok(0));
    m.set_creator_last_withdrawal_epoch_if_empty(creator, 10);
    assert_eq!(m.get_remaining_epochs_until_claim(creator, 9), Err(MarketError::LastEpochAfterCurrent));
    assert_eq!(m.get_remaining_epochs_until_claim(creator, 11), Ok(1));
    assert_eq!(m.get_remaining_epochs_until_claim(creator, 12), Ok(0));
    assert_eq!(m.withdraw_creator_royalties(creator, 11).err(), Some(MarketError::WithdrawalTooEarly));
    m.increase_creator_royalties(creator, 40);
    let actions = m.withdraw_creator_royalties(creator, 12).unwrap();
    assert_eq!(actions, vec![MarketAction::SendEgld { to: creator, amount: 40, memo: Memo::Empty }]);
    m.blacklist_creator(own(), own(), creator).unwrap();
    assert_eq!(m.withdraw_creator_royalties(creator, 14).err(), Some(MarketError::Blacklisted));
}

#[test]
fn platform_royalties_withdrawal() {
    let mut m = market();
    m.increase_platform_royalties(300);
    assert_eq!(
        m.withdraw_platform_royalties(addr(9), own(), Some(100)).err(),
        Some(MarketError::OnlyOwner)
    );
    let actions = m.withdraw_platform_royalties(own(), own(), Some(100)).unwrap();
    assert_eq!(actions, vec![MarketAction::SendEgld { to: own(), amount: 100, memo: Memo::Empty }]);
    assert_eq!(m.platform_royalties, 200);
    m.withdraw_platform_royalties(own(), own(), None).unwrap();
    assert_eq!(m.platform_royalties, 0);
}

#[test]
fn config_setters_reject_out_of_range() {
    let mut m = market();
    assert_eq!(m.set_platform_fee_percent(own(), own(), 10_000), Err(MarketError::FeePercentTooHigh));
    assert_eq!(m.set_platform_fee_percent(own(), own(), 300), Ok(()));
    assert_eq!(m.get_platform_fee_percent_or_default(), 300);
    assert_eq!(m.set_royalties_max_fee_percent(own(), own(), 2_000), Err(MarketError::RoyaltiesFeeTooHigh));
    assert_eq!(m.set_asset_price_range(own(), own(), 5, 4), Err(MarketError::MaxLowerThanMin));
    assert_eq!(m.set_asset_price_range(own(), own(), 0, 4), Err(MarketError::MinPriceZero));
    assert_eq!(m.set_asset_price_range(own(), own(), 2, 4), Ok(()));
    assert_eq!(m.asset_min_price, 2);
    assert_eq!(m.asset_max_price, 4);
    assert_eq!(m.set_asset_price_range(own(), own(), 100, 100_000), Ok(()));
    assert_eq!(
        m.put_nft_for_sale(addr(1), 10, token(), 1, 1, 50, &token_data(0)).err(),
        Some(MarketError::PriceTooLow)
    );
    assert_eq!(
        m.put_nft_for_sale(addr(1), 10, token(), 1, 1, 150, &token_data(0)).err(),
        Some(MarketError::PriceNotMultipleOfMin)
    );
}

#[test]
fn auction_bids_refund_and_proceeds_add_up() {
    let mut m = market();
    let owner = addr(1);
    let first = addr(2);
    let second = addr(3);
    let data = token_data(500);
    m.start_auction(owner, 100, token(), 9, 1, 1_000, 200, None, &data).unwrap();
    assert_eq!(
        m.put_nft_for_sale(owner, 101, token(), 9, 1, 1_000, &data).err(),
        Some(MarketError::NftOnAuction)
    );
    assert_eq!(
        m.place_bid(owner, 110, 1_000, token(), 9, 1_000).err(),
        Some(MarketError::IsOwner)
    );
    assert_eq!(
        m.place_bid(first, 110, 500, token(), 9, 1_000).err(),
        Some(MarketError::InsufficientDeposit)
    );
    m.place_bid(first, 110, 1_000, token(), 9, 1_000).unwrap();
    assert_eq!(
        m.place_bid(second, 120, 1_000, token(), 9, 1_000).err(),
        Some(MarketError::LowerThanHighestBid)
    );
    m.place_bid(second, 120, 2_000, token(), 9, 2_000).unwrap();
    let refunded = m.withdraw(first, None).unwrap();
    assert_eq!(refunded[1], MarketAction::SendEgld { to: first, amount: 1_000, memo: Memo::Empty });
    assert_eq!(
        m.end_auction(second, 150, 4, token(), 9, &data).err(),
        Some(MarketError::DeadlineNotPassed)
    );
    assert_eq!(
        m.end_auction(addr(4), 201, 4, token(), 9, &data).err(),
        Some(MarketError::NotOwnerOrWinner)
    );
    let actions = m.end_auction(second, 201, 4, token(), 9, &data).unwrap();
    assert_eq!(actions[1], MarketAction::SendNft { to: second });
    // 2_000 is shared out: 50 to the platform, 100 to the creator, 1_850 to the seller.
    assert_eq!(m.platform_royalties, 50);
    let creator_actions = m.withdraw_creator_royalties(addr(77), 6).unwrap();
    assert_eq!(
        creator_actions,
        vec![MarketAction::SendEgld { to: addr(77), amount: 100, memo: Memo::Empty }]
    );
    let seller = m.withdraw(owner, None).unwrap();
    assert_eq!(seller[1], MarketAction::SendEgld { to: owner, amount: 1_850, memo: Memo::Empty });
    assert!(!m.is_nft_on_auction(&NftId::new(token(), 9)));
}

#[test]
fn offers_accepted_and_cancelled() {
    let mut m = market();
    let seller = addr(1);
    let bidder = addr(2);
    let data = token_data(500);
    m.put_nft_for_sale(seller, 10, token(), 4, 1, 1_000, &data).unwrap();
    m.deposit(bidder, 1_000);
    assert_eq!(
        m.cancel_offers(bidder, 11, token(), 4, 800).err(),
        Some(MarketError::OfferDoesNotExist)
    );
    m.make_offers(bidder, 11, token(), 4, 800, Some(100)).unwrap();
    assert_eq!(
        m.accept_offers(bidder, 12, 3, token(), 4, bidder, 800, &data).err(),
        Some(MarketError::NotOwner)
    );
    assert_eq!(
        m.accept_offers(seller, 12, 3, token(), 4, bidder, 700, &data).err(),
        Some(MarketError::AmountsDiffer)
    );
    assert_eq!(
        m.accept_offers(seller, 101, 3, token(), 4, bidder, 800, &data).err(),
        Some(MarketError::OfferExpired)
    );
    let actions = m.accept_offers(seller, 12, 3, token(), 4, bidder, 800, &data).unwrap();
    assert_eq!(
        actions,
        vec![
            MarketAction::Log { event: MarketEvent::DepositUpdate { address: bidder, amount: 200 } },
            MarketAction::Log { event: MarketEvent::DepositUpdate { address: seller, amount: 740 } },
            MarketAction::SendNft { to: bidder },
            MarketAction::Log {
                event: MarketEvent::AcceptOffer { owner: seller, offeror: bidder, amount: 800, timestamp: 12 }
            },
        ]
    );
    assert_eq!(m.platform_royalties, 20);
    assert!(!m.is_nft_for_sale(&NftId::new(token(), 4)));

    m.put_nft_for_sale(seller, 20, token(), 5, 1, 1_000, &data).unwrap();
    m.make_offers(bidder, 21, token(), 5, 100, None).unwrap();
    let actions = m.cancel_offers(bidder, 22, token(), 5, 100).unwrap();
    assert_eq!(
        actions,
        vec![MarketAction::Log { event: MarketEvent::CancelOffer { owner: bidder, amount: 100, timestamp: 22 } }]
    );
    assert_eq!(
        m.accept_offers(seller, 23, 3, token(), 5, bidder, 100, &data).err(),
        Some(MarketError::OfferDoesNotExist)
    );
}

#[test]
fn auction_refusals() {
    let mut m = market();
    let owner = addr(1);
    let bidder = addr(2);
    let data = token_data(500);
    assert_eq!(
        m.start_auction(owner, 100, token(), 9, 1, 1_000, 90, Some(80), &data).err(),
        Some(MarketError::DeadlineInPast)
    );
    assert_eq!(
        m.start_auction(owner, 100, token(), 9, 1, 1_000, 150, Some(160), &data).err(),
        Some(MarketError::DeadlineBeforeStart)
    );
    assert_eq!(
        m.place_bid(bidder, 100, 1_000, token(), 9, 1_000).err(),
        Some(MarketError::NftNotOnAuction)
    );
    m.start_auction(owner, 100, token(), 9, 1, 1_000, 200, Some(150), &data).unwrap();
    assert_eq!(
        m.place_bid(bidder, 120, 1_000, token(), 9, 1_000).err(),
        Some(MarketError::AuctionNotStarted)
    );
    assert_eq!(
        m.place_bid(bidder, 160, 2_000, token(), 9, 999).err(),
        Some(MarketError::LowerThanMinBid)
    );
    assert_eq!(
        m.place_bid(bidder, 201, 1_000, token(), 9, 1_000).err(),
        Some(MarketError::AuctionEnded)
    );
    assert_eq!(
        m.end_auction(owner, 201, 4, token(), 9, &data).err(),
        Some(MarketError::AuctionHasNoWinner)
    );
    let back = m.withdraw_nft(owner, 201, token(), 9).unwrap();
    assert_eq!(back.len(), 3);
    assert!(!m.is_nft_on_auction(&NftId::new(token(), 9)));
}

#[test]
fn owner_only_endpoints_refuse_others() {
    let mut m = market();
    let other = addr(8);
    assert_eq!(m.start_global_op(other, own()), Err(MarketError::OnlyOwner));
    assert!(!m.global_op_is_ongoing);
    assert_eq!(m.set_platform_fee_percent(other, own(), 300), Err(MarketError::OnlyOwner));
    assert_eq!(m.platform_fee_percent, 250);
    assert_eq!(m.set_royalties_max_fee_percent(other, own(), 2_000), Err(MarketError::OnlyOwner));
    assert_eq!(m.set_asset_price_range(other, own(), 2, 4), Err(MarketError::OnlyOwner));
    assert_eq!(m.set_creator_withdrawal_waiting_epochs(other, own(), 9), Err(MarketError::OnlyOwner));
    assert_eq!(m.set_creator_withdrawal_waiting_epochs(own(), own(), 9), Ok(()));
    assert_eq!(m.creator_withdrawal_waiting_epochs, 9);
    assert_eq!(m.blacklist_creator(other, own(), addr(77)), Err(MarketError::OnlyOwner));
    assert_eq!(m.remove_creator_from_blacklist(own(), own(), addr(77)), Ok(()));
    assert!(m.creator_not_blacklisted(&addr(77)));
    assert_eq!(m.create_staked_pool(other, own()), Err(MarketError::OnlyOwner));
    assert_eq!(m.create_staked_pool(own(), own()), Ok(()));
    assert_eq!(MarketError::OnlyOwner.message(), "Endpoint can only be called by owner");
}

#[test]
fn upgrade_keeps_listings() {
    let mut m = market();
    m.put_nft_for_sale(addr(1), 10, token(), 1, 1, 100, &token_data(500)).unwrap();
    m.deposit(addr(2), 40);
    assert_eq!(
        m.upgrade(0, 1_000, 1, 10, 3, addr(98), b"2".to_vec()),
        Err(MarketError::FeePercentZero)
    );
    assert_eq!(m.platform_fee_percent, 250);
    assert_eq!(m.upgrade(300, 900, 1, 2_000_000, 3, addr(98), b"2".to_vec()), Ok(()));
    assert_eq!(m.platform_fee_percent, 300);
    assert_eq!(m.dao, addr(98));
    assert_eq!(m.version, b"2".to_vec());
    assert_eq!(m.get_nft_price(token(), 1), Ok(100));
    assert_eq!(m.withdraw(addr(2), None).unwrap().len(), 2);
}

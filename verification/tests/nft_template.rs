use erdsea::nft_template::contract::{EgldTransfer, GiveawayStep, NftTemplate, TemplateError, TemplateMemo};
use erdsea::nft_template::random::{Random, SEED_SIZE};
use erdsea::types::Address;

fn addr(n: u128) -> Address {
    Address { hi: 3, lo: n }
}

fn own() -> Address {
    addr(500)
}

fn template(max_supply: u16, metadata: Option<Vec<u8>>) -> NftTemplate {
    NftTemplate::init(
        addr(100),
        b"APES-0a1b2c".to_vec(),
        500,
        b"Ape".to_vec(),
        b"https://img".to_vec(),
        b".png".to_vec(),
        100,
        max_supply,
        1_000,
        metadata,
        None,
    )
}

#[test]
fn non_zero_u64_to_string_test() {
    let t = template(3, None);
    assert_eq!(t.u16_to_string(0), b"0".to_vec());
}

#[test]
fn decimal_strings() {
    let t = template(3, None);
    assert_eq!(t.u16_to_string(7), b"7".to_vec());
    assert_eq!(t.u16_to_string(10), b"10".to_vec());
    assert_eq!(t.u16_to_string(65_535), b"65535".to_vec());
}

#[test]
fn token_names_and_uris() {
    let t = template(3, Some(b"https://meta".to_vec()));
    assert_eq!(t.compute_token_name(&b"Ape".to_vec(), 12), b"Ape #12".to_vec());
    assert_eq!(
        t.compute_token_uris(&t.image_base_uri, &t.image_extension, &t.metadata_base_uri, 2),
        vec![b"https://img/2.png".to_vec(), b"https://meta/2".to_vec()]
    );
    let bare = template(3, None);
    assert_eq!(
        bare.compute_token_uris(&bare.image_base_uri, &bare.image_extension, &bare.metadata_base_uri, 2),
        vec![b"https://img/2.png".to_vec()]
    );
    assert_eq!(bare.get_token_index(2), 2);
}

#[test]
fn mint_checks_in_order() {
    let mut t = template(3, None);
    let buyer = addr(1);
    assert_eq!(t.mint_tokens(buyer, 999, 100, None).err(), Some(TemplateError::SaleNotStarted));
    t.pause_sale(own(), own()).unwrap();
    assert_eq!(t.mint_tokens(buyer, 1_000, 100, None).err(), Some(TemplateError::SalePaused));
    t.resume_sale(own(), own()).unwrap();
    assert_eq!(t.mint_tokens(buyer, 1_000, 100, Some(0)).err(), Some(TemplateError::ZeroTokens));
    assert_eq!(t.mint_tokens(buyer, 1_000, 199, Some(2)).err(), Some(TemplateError::PaymentTooLow));
    assert_eq!(t.get_left_for_sale(), 3);
}

#[test]
fn mint_sells_what_is_left_and_refunds() {
    let mut t = template(3, None);
    let buyer = addr(1);
    let first = t.mint_tokens(buyer, 1_000, 150, None).unwrap();
    assert_eq!(first.spent, 100);
    assert_eq!(first.surplus, EgldTransfer { to: buyer, amount: 50, memo: TemplateMemo::Erd721Standard });
    assert_eq!(first.orders.len(), 1);
    assert_eq!(first.orders[0].expected_nonce, 1);
    assert_eq!(first.orders[0].name, b"Ape #1".to_vec());
    let second = t.mint_tokens(buyer, 1_000, 1_000, Some(5)).unwrap();
    assert_eq!(second.spent, 200);
    assert_eq!(second.surplus.amount, 800);
    let nonces: Vec<u16> = second.orders.iter().map(|o| o.expected_nonce).collect();
    assert_eq!(nonces, vec![2, 3]);
    assert_eq!(t.get_max_supply_and_total_sold(), (3, 3));
    assert_eq!(
        t.mint_tokens(buyer, 1_000, 100, None).err(),
        Some(TemplateError::NoTokensLeftForSale)
    );
}

#[test]
fn giveaway_checks_nonces_and_supply() {
    let mut t = template(4, None);
    let a = addr(1);
    let b = addr(2);
    let entries = vec![(a, 2), (b, 1)];
    assert_eq!(t.giveaway(own(), own(), &entries, &vec![1, 2, 4]).err(), Some(TemplateError::UnexpectedNonce));
    assert_eq!(t.get_max_supply_and_total_sold(), (4, 0));
    let (steps, total) = t.giveaway(own(), own(), &entries, &vec![1, 2, 3]).unwrap();
    assert_eq!(total, 3);
    assert_eq!(steps.len(), 5);
    match &steps[0] {
        GiveawayStep::Mint { order } => {
            assert_eq!(order.recipient, a);
            assert_eq!(order.expected_nonce, 1);
        },
        GiveawayStep::Notify { .. } => panic!("a mint comes first"),
    }
    match &steps[2] {
        GiveawayStep::Notify { to } => assert_eq!(*to, a),
        GiveawayStep::Mint { .. } => panic!("a notice follows the first recipient's tokens"),
    }
    match &steps[3] {
        GiveawayStep::Mint { order } => assert_eq!(order.expected_nonce, 3),
        GiveawayStep::Notify { .. } => panic!("the second recipient's token follows"),
    }
    assert_eq!(t.get_left_for_sale(), 1);
    assert_eq!(
        t.giveaway(own(), own(), &vec![(a, 2)], &vec![4, 5]).err(),
        Some(TemplateError::NoTokensLeft)
    );
    assert_eq!(t.check_created_nonce(65_540, 4), Ok(()));
    assert_eq!(t.check_created_nonce(5, 4), Err(TemplateError::UnexpectedNonce));
}

#[test]
fn whitelisted_marketplace_mint() {
    let mut t = template(10, None);
    let buyer = addr(1);
    t.update_buyer_whitelist_check(own(), own(), 1).unwrap();
    assert_eq!(
        t.mint_tokens_through_marketplace(buyer, 1_000, 1_000, 1).err(),
        Some(TemplateError::NotWhitelisted)
    );
    assert_eq!(t.create_buyer_address(own(), own(), 0, 2, buyer), Ok(()));
    assert_eq!(
        t.mint_tokens_through_marketplace(buyer, 1_000, 1_000, 3).err(),
        Some(TemplateError::BuyLimitExceeded)
    );
    t.deny_minting_through_marketplace(own(), own()).unwrap();
    assert_eq!(
        t.mint_tokens_through_marketplace(buyer, 1_000, 1_000, 2).err(),
        Some(TemplateError::EndpointDisabled)
    );
    t.allow_minting_through_marketplace(own(), own()).unwrap();
    let outcome = t.mint_tokens_through_marketplace(buyer, 1_000, 1_000, 2).unwrap();
    assert_eq!(outcome.spent, 200);
    assert_eq!(t.marketplace_balance, 3);
    assert!(t.check_buy_count_is_greater_than_buy_limit_by_adding_amount(buyer, 1));
    assert_eq!(t.add_to_address_buy_count(addr(9), 1), Err(TemplateError::BuyerNotCreated));
}

#[test]
fn marketplace_withdrawal_is_for_its_admin() {
    let mut t = template(10, None);
    t.mint_tokens_through_marketplace(addr(1), 1_000, 10_000, 10).unwrap();
    assert_eq!(t.marketplace_balance, 15);
    assert_eq!(t.marketplace_withdraw(addr(1), None), Err(TemplateError::NotMarketplaceAdmin));
    assert_eq!(
        t.marketplace_withdraw(addr(100), Some(5)),
        Ok(EgldTransfer { to: addr(100), amount: 5, memo: TemplateMemo::WithdrawMessage })
    );
    assert_eq!(t.marketplace_balance, 10);
    assert_eq!(
        t.withdraw(own(), own(), None, 1_000),
        Ok(EgldTransfer { to: own(), amount: 990, memo: TemplateMemo::Empty })
    );
}

#[test]
fn random_draws_and_reshuffles() {
    let mut r = Random::new([1u8; SEED_SIZE], &[2u8]);
    assert_eq!(r.next_u8(), 3);
    assert_eq!(r.next_u16(), 0x0303);
    for _ in 0..(SEED_SIZE - 3) {
        assert_eq!(r.next_u8(), 3);
    }
    assert_eq!(r.next_u8(), 7);
}

#[test]
fn shuffle_only_before_sale() {
    let mut t = template(5, None);
    assert_eq!(t.shuffle_check(own(), own(), 1_000), Err(TemplateError::SaleStarted));
    assert_eq!(t.shuffle_check(own(), own(), 999), Ok(()));
    let mut r = Random::new([0u8; SEED_SIZE], &[0u8, 1u8]);
    let (n1, n2) = t.shuffle_step(&mut r);
    assert_eq!(n1, 1 % 5 + 1);
    assert_eq!(n2, 1 % 5 + 1);
    assert_eq!(t.get_token_index(n1), n1);
}

#[test]
fn owner_only_template_endpoints() {
    let mut t = template(5, None);
    let other = addr(8);
    assert_eq!(t.set_price(other, own(), 7), Err(TemplateError::OnlyOwner));
    assert_eq!(t.price, 100);
    assert_eq!(t.set_price(own(), own(), 7), Ok(()));
    assert_eq!(t.price, 7);
    assert_eq!(t.pause_sale(other, own()), Err(TemplateError::OnlyOwner));
    assert!(!t.sale_paused);
    assert_eq!(t.update_buyer_whitelist_check(other, own(), 1), Err(TemplateError::OnlyOwner));
    assert_eq!(t.create_buyer_address(other, own(), 0, 2, addr(1)), Err(TemplateError::OnlyOwner));
    assert!(t.is_caller_address_not_part_of_whitelist(addr(1)));
    assert_eq!(t.shuffle_check(other, own(), 10), Err(TemplateError::OnlyOwner));
    assert_eq!(
        t.giveaway(other, own(), &vec![(addr(1), 1)], &vec![1]).err(),
        Some(TemplateError::OnlyOwner)
    );
    assert_eq!(t.withdraw(other, own(), Some(1), 10), Err(TemplateError::OnlyOwner));
    assert_eq!(t.deny_minting_through_marketplace(other, own()), Err(TemplateError::OnlyOwner));
}

#[test]
fn minted_nonces_are_checked() {
    let mut t = template(5, None);
    let outcome = t.mint_tokens(addr(1), 1_000, 300, Some(3)).unwrap();
    assert_eq!(t.check_minted_nonces(&outcome.orders, &vec![1, 2, 3]), Ok(()));
    assert_eq!(t.check_minted_nonces(&outcome.orders, &vec![65_537, 2, 3]), Ok(()));
    assert_eq!(
        t.check_minted_nonces(&outcome.orders, &vec![1, 3, 2]),
        Err(TemplateError::UnexpectedNonce)
    );
}

#[test]
fn upgrade_keeps_settings_already_set() {
    let mut t = template(5, None);
    t.update_buyer_whitelist_check(own(), own(), 1).unwrap();
    t.upgrade(
        addr(101),
        b"OTHER-0a1b2c".to_vec(),
        900,
        b"Other".to_vec(),
        b"https://new".to_vec(),
        b".jpg".to_vec(),
        55,
        9,
        5,
        Some(b"https://meta".to_vec()),
        Some(b"key".to_vec()),
    );
    assert_eq!(t.marketplace_admin, addr(101));
    assert_eq!(t.token_id, b"APES-0a1b2c".to_vec());
    assert_eq!(t.royalties, 500);
    assert_eq!(t.token_name_base, b"Ape".to_vec());
    assert_eq!(t.image_base_uri, b"https://new".to_vec());
    assert_eq!(t.image_extension, b".jpg".to_vec());
    assert_eq!(t.metadata_base_uri, b"https://meta".to_vec());
    assert_eq!(t.price, 100);
    assert_eq!(t.max_supply, 5);
    assert_eq!(t.sale_start, 1_000);
    assert_eq!(t.admin_pub_key, b"key".to_vec());
    assert_eq!(t.buyer_whitelist_check, 0);
}

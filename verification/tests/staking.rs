use erdsea::staking::contract::{StakingAction, StakingContract, StakingError};
use erdsea::staking::storage::{NftId, StakedAddressNFTs, StakedAddressPayoutTallyTracker};
use erdsea::types::Address;

fn addr(n: u128) -> Address {
    Address { hi: 7, lo: n }
}

fn own() -> Address {
    addr(500)
}

fn token() -> Vec<u8> {
    b"APES-0a1b2c".to_vec()
}

fn staking_with_admin() -> (StakingContract, Address) {
    let mut s = StakingContract::init(b"1".to_vec());
    let admin = addr(1);
    assert_eq!(s.set_address_role(own(), own(), admin, 3), Ok(()));
    assert_eq!(s.add_stakable_token_identifier(admin, token()), Ok(()));
    (s, admin)
}

#[test]
fn roles_and_stakable_collections() {
    let mut s = StakingContract::init(b"1".to_vec());
    let admin = addr(1);
    assert_eq!(s.set_address_role(own(), own(), admin, 4), Err(StakingError::RoleNotValid));
    assert_eq!(s.add_stakable_token_identifier(admin, token()), Err(StakingError::NoRole));
    assert_eq!(s.set_address_role(own(), own(), admin, 2), Ok(()));
    assert!(s.address_role_is_owner(&admin));
    assert!(!s.address_role_is_admin(&admin));
    assert_eq!(s.add_stakable_token_identifier(admin, token()), Ok(()));
    assert_eq!(
        s.add_stakable_token_identifier(admin, token()),
        Err(StakingError::AlreadyStakeable)
    );
    assert!(s.verify_token_identifier_is_stakable(&token()));
    assert_eq!(s.remove_stakable_token_identifier(admin, token()), Ok(()));
    assert_eq!(
        s.remove_stakable_token_identifier(admin, token()),
        Err(StakingError::NeverStakeable)
    );
}

#[test]
fn staking_checks_in_order() {
    let (mut s, _) = staking_with_admin();
    let user = addr(2);
    assert_eq!(
        s.stake_address_nft(user, 1_100, b"nope".to_vec(), 1),
        Err(StakingError::InvalidTokenId)
    );
    assert_eq!(s.stake_address_nft(user, 1_100, token(), 0), Err(StakingError::InvalidNonce));
    assert_eq!(
        s.stake_address_nft(user, 1_100, b"OTHER-0a1b2c".to_vec(), 1),
        Err(StakingError::NotStakeable)
    );
    assert_eq!(
        s.stake_address_nft(user, 1_100, token(), 1),
        Err(StakingError::PayoutNeverSetForStaking)
    );
    s.set_last_payout_datetime(own(), own(), 1_000).unwrap();
    assert_eq!(s.stake_address_nft(user, 1_100, token(), 1), Ok(()));
    assert_eq!(s.stake_address_nft(user, 1_200, token(), 1), Err(StakingError::AlreadyStaked));
    assert!(s.is_nft_staked(user, token(), 1));
    assert!(s.does_address_exist_in_staked_pool(user));
    assert_eq!(s.get_index_of_nft_in_staked_address(user, token(), 1), -1);
    assert_eq!(s.get_index_of_nft_in_staked_address(user, token(), 2), -1);
}

#[test]
fn stake_unstake_restake_keeps_rollover() {
    let (mut s, _) = staking_with_admin();
    let user = addr(2);
    s.set_last_payout_datetime(own(), own(), 1_000).unwrap();
    assert_eq!(s.unstake_address_nft(user, 1_050, token(), 1), Err(StakingError::NeverStaked));
    assert_eq!(s.stake_address_nft(user, 1_100, token(), 1), Ok(()));
    assert_eq!(s.get_staked_nft_staked_datetime(user, token(), 1), 1_100);
    assert_eq!(s.unstake_address_nft(user, 1_500, token(), 1), Ok(()));
    assert_eq!(s.get_staked_nft_staked_datetime(user, token(), 1), 0);
    assert_eq!(s.get_staked_nft_rollover_balance(user, token(), 1), 500);
    assert_eq!(
        s.unstake_address_nft(user, 1_600, token(), 1),
        Err(StakingError::AlreadyUnstaked)
    );
    assert_eq!(s.stake_address_nft(user, 1_700, token(), 1), Ok(()));
    assert_eq!(s.get_staked_nft_staked_datetime(user, token(), 1), 1_700);
    assert_eq!(s.get_staked_nft_rollover_balance(user, token(), 1), 500);
    assert_eq!(s.staked_pool.array_staked_addresses.len(), 1);
}

#[test]
fn disburse_tallies_whole_blocks() {
    let (mut s, admin) = staking_with_admin();
    let user = addr(2);
    let other = addr(3);
    assert_eq!(s.disburse_rewards(other, 2_000).err(), Some(StakingError::NoRole));
    assert_eq!(
        s.disburse_rewards(admin, 2_000).err(),
        Some(StakingError::PayoutNeverSetForPayout)
    );
    s.set_last_payout_datetime(own(), own(), 1_000).unwrap();
    s.stake_address_nft(user, 1_100, token(), 1).unwrap();
    assert_eq!(
        s.disburse_rewards(admin, 1_200).err(),
        Some(StakingError::PayoutPeriodTooShort)
    );
    assert_eq!(s.qualified_staked_nfts_for_rewards(1_200), 2);
    // Staking leaves the address's list of NFTs empty, so a payout finds
    // nothing to reward.
    assert_eq!(s.qualified_staked_nfts_for_rewards(1_840), 0);
    let (trackers, overall) = s.disburse_rewards(admin, 1_840).unwrap();
    assert_eq!(
        trackers,
        vec![StakedAddressPayoutTallyTracker { address: user, payout_block_factor_tally: 0 }]
    );
    assert_eq!(overall, 0);
    assert_eq!(s.last_payout_datetime, 1_900);
    assert_eq!(s.get_staked_nft_rollover_balance(user, token(), 1), 0);
    assert_eq!(s.qualified_staked_nfts_for_rewards(1_900), 2);
}

#[test]
fn disburse_counts_accrual_less_last_payout() {
    let (mut s, admin) = staking_with_admin();
    let user = addr(2);
    s.set_last_payout_datetime(own(), own(), 100).unwrap();
    s.stake_address_nft(user, 150, token(), 1).unwrap();
    s.staked_address_nfts.set(user, StakedAddressNFTs::new(vec![NftId::new(token(), 1)], 0, 0));
    assert_eq!(s.qualified_staked_nfts_for_rewards(940), 1);
    let (trackers, overall) = s.disburse_rewards(admin, 940).unwrap();
    // 900 seconds accrued, less the last payout time 100: 800 counted, two
    // whole blocks paid, 200 rolled over.
    assert_eq!(
        trackers,
        vec![StakedAddressPayoutTallyTracker { address: user, payout_block_factor_tally: 2 }]
    );
    assert_eq!(overall, 2);
    assert_eq!(s.last_payout_datetime, 1_000);
    assert_eq!(s.get_staked_nft_rollover_balance(user, token(), 1), 200);
}

#[test]
fn rewards_are_credited_and_redeemed() {
    let (mut s, _) = staking_with_admin();
    let user = addr(2);
    s.set_last_payout_datetime(own(), own(), 1_000).unwrap();
    assert_eq!(s.redeem_staking_rewards(user, 5_000).err(), Some(StakingError::NoStakedNfts));
    s.stake_address_nft(user, 1_100, token(), 1).unwrap();
    assert_eq!(
        s.redeem_staking_rewards(user, 5_000).err(),
        Some(StakingError::ZeroRewardBalance)
    );
    s.credit_reward(user, 42);
    assert_eq!(s.get_staking_reward_balanace(user), 42);
    let actions = s.redeem_staking_rewards(user, 5_000).unwrap();
    assert_eq!(actions, vec![StakingAction::SendEgld { to: user, amount: 42 }]);
    assert_eq!(s.get_staking_reward_balanace(user), 0);
}

#[test]
fn diagnostics_report_payout_blocks() {
    let mut s = StakingContract::init(b"1".to_vec());
    s.set_last_payout_datetime(own(), own(), 1_000).unwrap();
    assert_eq!(s.test_get_currenttime(1_650), 1_650);
    assert_eq!(s.test_difference_lastpayoutdatetime_vs_currenttime(1_650), 650);
    assert_eq!(s.test_time_block_calculations(1_650), 2);
    assert_eq!(s.test_get_new_lastpayoutdatetime(1_650), 1_600);
    s.test_reset_lastpayoutdatetime();
    assert_eq!(s.last_payout_datetime, 0);
}

#[test]
fn owner_only_settings_and_unset_payout() {
    let mut s = StakingContract::init(b"1".to_vec());
    let other = addr(8);
    assert_eq!(s.set_address_role(other, own(), other, 3), Err(StakingError::OnlyOwner));
    assert!(!s.address_role_exists(&other));
    assert_eq!(s.set_last_payout_datetime(other, own(), 1_000), Err(StakingError::OnlyOwner));
    assert_eq!(
        s.set_last_payout_datetime_to_block_timestamp(other, own(), 1_000),
        Err(StakingError::OnlyOwner)
    );
    assert_eq!(s.last_payout_datetime, 0);
    assert_eq!(s.qualified_staked_nfts_for_rewards(5_000), 2);
    assert_eq!(s.set_last_payout_datetime_to_block_timestamp(own(), own(), 4_000), Ok(()));
    assert_eq!(s.qualified_staked_nfts_for_rewards(4_100), 2);
    assert_eq!(s.qualified_staked_nfts_for_rewards(5_000), 0);
    s.upgrade(b"2".to_vec());
    assert_eq!(s.version, b"2".to_vec());
    assert_eq!(s.last_payout_datetime, 4_000);
}

#[test]
fn payout_counts_fit_reports_underflow() {
    let (mut s, _) = staking_with_admin();
    let user = addr(2);
    s.set_last_payout_datetime(own(), own(), 1_000).unwrap();
    s.stake_address_nft(user, 1_100, token(), 1).unwrap();
    assert!(s.payout_counts_fit(1_840));
    s.staked_address_nfts.set(user, StakedAddressNFTs::new(vec![NftId::new(token(), 1)], 0, 0));
    // 900 seconds accrued are fewer than the last payout time 1_000.
    assert!(!s.payout_counts_fit(1_840));
    assert!(s.payout_counts_fit(1_200));
}

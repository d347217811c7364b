//! Properties of staking that span several endpoints, stated over the
//! same spec functions as the endpoints' own contracts.

use vstd::prelude::*;

use super::config::{PAYOUT_TIME_BLOCK, PAYOUT_TIME_BUFFER};
use super::contract::StakingContract;
use crate::types::Address;

verus! {

/// An NFT that was staked can be unstaked, and once unstaked it can be
/// staked again; staking it again keeps its weight and the rollover that
/// unstaking accrued, and records the new staking time.
pub proof fn law_stake_unstake_restake(
    s0: StakingContract,
    s1: StakingContract,
    s2: StakingContract,
    s3: StakingContract,
    caller: Address,
    n: (Seq<u8>, u64),
    staked_at: u64,
    unstaked_at: u64,
    restaked_at: u64,
)
    requires
        s0.stake_check(caller, n.0, n.1) is Ok,
        StakingContract::staked(s0, s1, caller, n, staked_at),
        staked_at != 0,
        StakingContract::unstaked(s1, s2, caller, n, unstaked_at),
        StakingContract::staked(s2, s3, caller, n, restaked_at),
    ensures
        s1.unstake_check(caller, n.0, n.1) is Ok,
        s2.stake_check(caller, n.0, n.1) is Ok,
        ({
            let k = (caller, n);
            &&& s2.staked_nft_info.view()[k].staked_datetime == 0
            &&& s3.staked_nft_info.view()[k].staked_datetime == restaked_at
            &&& s3.staked_nft_info.view()[k].weighted_factor
                == s1.staked_nft_info.view()[k].weighted_factor
            &&& s3.staked_nft_info.view()[k].rollover_balance
                == s2.staked_nft_info.view()[k].rollover_balance
        }),
{
    let k = (caller, n);
    assert(s1.staked_nft_info.view().contains_key(k));
    assert(s2.staked_nft_info.view().contains_key(k));
}

/// Unstaking adds the time since the last payout to the NFT's rollover and
/// keeps what it had: the rollover never shrinks on unstaking.
pub proof fn law_unstake_adds_to_rollover(
    s0: StakingContract,
    s1: StakingContract,
    caller: Address,
    n: (Seq<u8>, u64),
    now: u64,
)
    requires
        s0.staked_nft_info.view().contains_key((caller, n)),
        now >= s0.last_payout_datetime,
        s0.staked_nft_info.view()[(caller, n)].rollover_balance + (now - s0.last_payout_datetime)
            <= u64::MAX,
        StakingContract::unstaked(s0, s1, caller, n, now),
    ensures
        s1.staked_nft_info.view()[(caller, n)].rollover_balance == s0.staked_nft_info.view()[(
            caller,
            n,
        )].rollover_balance + now - s0.last_payout_datetime,
        s1.staked_nft_info.view()[(caller, n)].rollover_balance >= s0.staked_nft_info.view()[(
            caller,
            n,
        )].rollover_balance,
        s1.staked_nft_info.view()[(caller, n)].staked_datetime == 0,
{
}

/// Two rounds of staking and unstaking an NFT, with no payout between,
/// leave its rollover at the sum of the times from the last payout to each
/// unstaking.
pub proof fn law_rollover_accumulates(
    s0: StakingContract,
    s1: StakingContract,
    s2: StakingContract,
    s3: StakingContract,
    s4: StakingContract,
    caller: Address,
    n: (Seq<u8>, u64),
    t1: u64,
    t2: u64,
    t3: u64,
    t4: u64,
)
    requires
        !s0.staked_nft_info.view().contains_key((caller, n)),
        StakingContract::staked(s0, s1, caller, n, t1),
        StakingContract::unstaked(s1, s2, caller, n, t2),
        StakingContract::staked(s2, s3, caller, n, t3),
        StakingContract::unstaked(s3, s4, caller, n, t4),
        t2 >= s0.last_payout_datetime,
        t4 >= s0.last_payout_datetime,
        (t2 - s0.last_payout_datetime) + (t4 - s0.last_payout_datetime) <= u64::MAX,
    ensures
        s4.staked_nft_info.view()[(caller, n)].rollover_balance == (t2 - s0.last_payout_datetime)
            + (t4 - s0.last_payout_datetime),
{
    let k = (caller, n);
    assert(s1.staked_nft_info.view()[k].rollover_balance == 0);
    assert(s2.staked_nft_info.view()[k].rollover_balance == t2 - s0.last_payout_datetime);
    assert(s3.staked_nft_info.view()[k].rollover_balance == t2 - s0.last_payout_datetime);
}

/// A payout is made only once a whole payout block (with the buffer) has
/// passed since the last one, and it accrues a whole number of blocks, as
/// many as have passed: the new last payout time is at most the current
/// time with the buffer, and less than a block before it.
pub proof fn law_payout_accrues_whole_blocks(s: StakingContract, now: u64)
    requires
        now + PAYOUT_TIME_BUFFER <= u64::MAX,
        s.last_payout_datetime != 0 ==> now + PAYOUT_TIME_BUFFER >= s.last_payout_datetime,
    ensures
        match s.payout_window(now) {
            None => s.last_payout_datetime == 0 || now + PAYOUT_TIME_BUFFER - s.last_payout_datetime
                < PAYOUT_TIME_BLOCK,
            Some(acc) => {
                &&& acc % PAYOUT_TIME_BLOCK == 0
                &&& acc >= PAYOUT_TIME_BLOCK
                &&& s.last_payout_datetime + acc <= now + PAYOUT_TIME_BUFFER
                &&& now + PAYOUT_TIME_BUFFER < s.last_payout_datetime + acc + PAYOUT_TIME_BLOCK
            },
        },
{
    if s.payout_window(now) is Some {
        let d = now + PAYOUT_TIME_BUFFER - s.last_payout_datetime;
        let q = d / 300;
        assert(q * 300 <= d < q * 300 + 300) by (nonlinear_arith)
            requires
                q == d / 300,
                d >= 0,
        ;
        assert((q * 300) % 300 == 0) by (nonlinear_arith)
            requires
                q >= 0,
        ;
    }
}

} // verus!

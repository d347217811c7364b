use vstd::prelude::*;

use super::config::{DAY_IN_SECONDS, PAYOUT_TIME_BLOCK, PAYOUT_TIME_BUFFER};
use super::contract::{ensure, nft_views, then, StakingContract, StakingError};
use super::storage::{NftId, StakeKey, StakedAddressPayoutTallyTracker, StakedNFT};
use crate::store::StoreKey;
use crate::types::{Address, TokenIdentifier};

verus! {

/// The staked time that a payout accruing `accrued` seconds since the last
/// payout time `last` counts for an NFT: its rollover, plus, while it is
/// staked, the accrued time less the last payout time.
pub open spec fn counted_rollover(s: StakedNFT, accrued: u64, last: u64) -> int {
    s.rollover_balance + if s.staked_datetime != 0 {
        accrued - last
    } else {
        0
    }
}

/// The counting of an NFT's staked time stays in the range of `u64`: the
/// accrued time less the last payout time does not go below zero, and the
/// sum does not exceed the range.
pub open spec fn accrual_fits(s: StakedNFT, accrued: u64, last: u64) -> bool {
    &&& s.staked_datetime != 0 ==> accrued >= last
    &&& counted_rollover(s, accrued, last) <= u64::MAX
}

/// The whole payout time blocks in the counted staked time of an NFT.
pub open spec fn payout_factor(s: StakedNFT, accrued: u64, last: u64) -> int {
    counted_rollover(s, accrued, last) / (PAYOUT_TIME_BLOCK as int)
}

/// The part of an NFT's payout factor that a payout rewards: the factor
/// where it exceeds one, else nothing.
pub open spec fn rewarded_factor(s: StakedNFT, accrued: u64, last: u64) -> int {
    if payout_factor(s, accrued, last) > 1 {
        payout_factor(s, accrued, last)
    } else {
        0
    }
}

/// An NFT's staking state after a payout: where the payout rewards it, the
/// rewarded blocks leave its counted time, which becomes its rollover;
/// else it is left as it was.
pub open spec fn settle(s: StakedNFT, accrued: u64, last: u64) -> StakedNFT {
    if payout_factor(s, accrued, last) > 1 {
        StakedNFT {
            rollover_balance: (counted_rollover(s, accrued, last) - payout_factor(s, accrued, last)
                * PAYOUT_TIME_BLOCK) as u64,
            ..s
        }
    } else {
        s
    }
}

impl StakingContract {
    /// The staking state of NFT `n` of address `a`.
    pub open spec fn info_of(&self, a: Address, n: (Seq<u8>, u64)) -> StakedNFT {
        self.staked_nft_info.view()[(a, n)]
    }

    /// Whether NFT `n` is in the list of address `a`: the NFTs that a payout
    /// goes over.
    pub open spec fn listed(&self, a: Address, n: (Seq<u8>, u64)) -> bool {
        self.staked_address_nfts.view().contains_key(a) && self.staked_nfts(a).contains(n)
    }

    /// The time, a whole number of payout blocks, that a payout at `now`
    /// accrues since the last one; none where no last payout time is set or
    /// less than a block (with the buffer) has passed.
    pub open spec fn payout_window(&self, now: u64) -> Option<u64> {
        let current = now + PAYOUT_TIME_BUFFER;
        let last = self.last_payout_datetime;
        if last == 0 || current - last < PAYOUT_TIME_BLOCK {
            None
        } else {
            Some((((current - last) / (PAYOUT_TIME_BLOCK as int)) * PAYOUT_TIME_BLOCK) as u64)
        }
    }

    /// The sum of the rewarded factors of the first `n` NFTs of address `a`.
    pub open spec fn address_tally(&self, a: Address, accrued: u64, n: nat) -> int
        decreases n,
    {
        if n == 0 {
            0
        } else {
            self.address_tally(a, accrued, (n - 1) as nat) + rewarded_factor(
                self.info_of(a, self.staked_nfts(a)[n - 1]),
                accrued,
                self.last_payout_datetime,
            )
        }
    }

    /// The sum of the rewarded factors of all NFTs of address `a`.
    pub open spec fn full_address_tally(&self, a: Address, accrued: u64) -> int {
        self.address_tally(a, accrued, self.staked_nfts(a).len())
    }

    /// The sum of the tallies of the first `m` addresses of the pool.
    pub open spec fn pool_tally(&self, accrued: u64, m: nat) -> int
        decreases m,
    {
        if m == 0 {
            0
        } else {
            self.pool_tally(accrued, (m - 1) as nat) + self.full_address_tally(
                self.pool()[m - 1],
                accrued,
            )
        }
    }

    /// The payout factor of the `j`-th NFT of the `i`-th address of the
    /// pool.
    pub open spec fn factor_at(&self, accrued: u64, i: int, j: int) -> int {
        payout_factor(
            self.info_of(self.pool()[i], self.staked_nfts(self.pool()[i])[j]),
            accrued,
            self.last_payout_datetime,
        )
    }

    /// The counting of the `j`-th NFT of the `i`-th address of the pool
    /// stays in the range of `u64`.
    pub open spec fn fits_at(&self, accrued: u64, i: int, j: int) -> bool {
        accrual_fits(
            self.info_of(self.pool()[i], self.staked_nfts(self.pool()[i])[j]),
            accrued,
            self.last_payout_datetime,
        )
    }

    /// `(i, j)` names an NFT of the pool: its `j`-th of the `i`-th address.
    pub open spec fn in_pool(&self, i: int, j: int) -> bool {
        0 <= i < self.pool().len() && 0 <= j < self.staked_nfts(self.pool()[i]).len()
    }

    /// Whether a payout accruing `accrued` seconds rewards some NFT of the
    /// pool.
    pub open spec fn any_qualified(&self, accrued: u64) -> bool {
        exists|i: int, j: int| self.in_pool(i, j) && #[trigger] self.factor_at(accrued, i, j) > 1
    }

    /// The counting of every NFT of the pool stays in the range of `u64`:
    /// a payout goes over all of them.
    pub open spec fn rollovers_fit(&self, accrued: u64) -> bool {
        forall|i: int, j: int| self.in_pool(i, j) ==> #[trigger] self.fits_at(accrued, i, j)
    }

    /// The counting of an NFT of the pool stays in the range of `u64`
    /// wherever no NFT before it, in pool and list order, fits and is
    /// rewarded: the search for a rewarded NFT goes over the NFTs up to the
    /// first one.
    pub open spec fn scan_fits(&self, accrued: u64) -> bool {
        forall|i: int, j: int|
            self.in_pool(i, j) && (forall|i2: int, j2: int|
                self.in_pool(i2, j2) && (i2 < i || (i2 == i && j2 < j)) ==> {
                    &&& #[trigger] self.fits_at(accrued, i2, j2)
                    &&& self.factor_at(accrued, i2, j2) <= 1
                }) ==> #[trigger] self.fits_at(accrued, i, j)
    }

    /// The NFT identifiers that address `a` ever staked.
    fn nft_list(&self, a: Address) -> (r: Vec<NftId>)
        requires
            self.wf(),
            self.staked_address_nfts.view().contains_key(a),
        ensures
            nft_views(r@) == self.staked_nfts(a),
    {
        let rec = self.staked_address_nfts.get(&a).unwrap();
        let list = &rec.array_staked_nft_ids;
        let mut r: Vec<NftId> = Vec::new();
        let mut j: usize = 0;
        while j < list.len()
            invariant
                j <= list@.len(),
                nft_views(list@) == self.staked_nfts(a),
                r@.len() == j,
                forall|k: int| 0 <= k < j ==> #[trigger] r@[k]@ == list@[k]@,
            decreases list@.len() - j,
        {
            let n = list[j].copy_key();
            r.push(n);
            j = j + 1;
        }
        assert(nft_views(r@) =~= nft_views(list@)) by {
            assert forall|k: int| 0 <= k < r@.len() implies #[trigger] nft_views(r@)[k] == nft_views(
                list@,
            )[k] by {
                assert(r@[k]@ == list@[k]@);
            }
        }
        r
    }
}

proof fn lemma_address_tally_monotone(c: StakingContract, a: Address, accrued: u64, n: nat, m: nat)
    requires
        n <= m,
    ensures
        0 <= c.address_tally(a, accrued, n) <= c.address_tally(a, accrued, m),
    decreases m,
{
    if n < m {
        lemma_address_tally_monotone(c, a, accrued, n, (m - 1) as nat);
    } else if m > 0 {
        lemma_address_tally_monotone(c, a, accrued, (m - 1) as nat, (m - 1) as nat);
    }
}

proof fn lemma_pool_tally_monotone(c: StakingContract, accrued: u64, n: nat, m: nat)
    requires
        n <= m,
    ensures
        0 <= c.pool_tally(accrued, n) <= c.pool_tally(accrued, m),
    decreases m,
{
    if m > 0 {
        lemma_address_tally_monotone(c, c.pool()[m - 1], accrued, 0, c.staked_nfts(c.pool()[m - 1]).len());
        if n < m {
            lemma_pool_tally_monotone(c, accrued, n, (m - 1) as nat);
        } else {
            lemma_pool_tally_monotone(c, accrued, (m - 1) as nat, (m - 1) as nat);
        }
    }
}

impl StakingContract {
    /// Tells whether a payout now would reward some NFT: 1 where it would,
    /// 0 where it would not, and 2 where no payout can be made yet, whether
    /// no payout time was ever set or less than one payout block (with the
    /// buffer) has passed since the last payout.  The NFTs of the pool are
    /// gone over in order up to the first one rewarded; one still staked
    /// counts its rollover plus the accrued time less the last payout time.
    pub fn qualified_staked_nfts_for_rewards(&self, now: u64) -> (r: u16)
        requires
            self.wf(),
            now + PAYOUT_TIME_BUFFER <= u64::MAX,
            self.last_payout_datetime != 0 ==> now + PAYOUT_TIME_BUFFER >= self.last_payout_datetime,
            self.payout_window(now) matches Some(acc) ==> self.scan_fits(acc),
        ensures
            r == match self.payout_window(now) {
                None => 2u16,
                Some(acc) => if self.any_qualified(acc) {
                    1u16
                } else {
                    0u16
                },
            },
    {
        let current = now + PAYOUT_TIME_BUFFER;
        let last = self.last_payout_datetime;
        if last == 0 {
            return 2;
        }
        if current - last < PAYOUT_TIME_BLOCK {
            return 2;
        }
        let blocks = (current - last) / PAYOUT_TIME_BLOCK;
        let accrued = blocks * PAYOUT_TIME_BLOCK;
        let ghost acc = accrued;
        assert(self.payout_window(now) == Some(acc));
        let pool_len = self.staked_pool.array_staked_addresses.len();
        let mut i: usize = 0;
        while i < pool_len
            invariant
                self.wf(),
                self.payout_window(now) == Some(acc),
                self.scan_fits(acc),
                accrued == acc,
                last == self.last_payout_datetime,
                pool_len == self.pool().len(),
                i <= pool_len,
                forall|i2: int, j2: int|
                    self.in_pool(i2, j2) && i2 < i ==> {
                        &&& #[trigger] self.fits_at(acc, i2, j2)
                        &&& self.factor_at(acc, i2, j2) <= 1
                    },
            decreases pool_len - i,
        {
            let address = self.staked_pool.array_staked_addresses[i];
            let list = self.nft_list(address);
            let mut j: usize = 0;
            while j < list.len()
                invariant
                    self.wf(),
                    self.payout_window(now) == Some(acc),
                    self.scan_fits(acc),
                    accrued == acc,
                    last == self.last_payout_datetime,
                    pool_len == self.pool().len(),
                    i < pool_len,
                    address == self.pool()[i as int],
                    nft_views(list@) == self.staked_nfts(address),
                    j <= list@.len(),
                    forall|i2: int, j2: int|
                        self.in_pool(i2, j2) && (i2 < i || (i2 == i && j2 < j)) ==> {
                            &&& #[trigger] self.fits_at(acc, i2, j2)
                            &&& self.factor_at(acc, i2, j2) <= 1
                        },
                decreases list@.len() - j,
            {
                let key = StakeKey::new(address, &list[j]);
                assert(self.staked_nfts(address)[j as int] == list@[j as int]@);
                assert(nft_views(list@).len() == list@.len());
                assert(self.in_pool(i as int, j as int));
                assert(self.fits_at(acc, i as int, j as int));
                let staked_nft = *self.staked_nft_info.get(&key).unwrap();
                let counted = if staked_nft.staked_datetime != 0 {
                    staked_nft.rollover_balance + (accrued - last)
                } else {
                    staked_nft.rollover_balance
                };
                let factor = counted / PAYOUT_TIME_BLOCK;
                assert(factor == self.factor_at(acc, i as int, j as int));
                if factor > 1 {
                    return 1;
                }
                j = j + 1;
            }
            proof {
                assert(nft_views(list@).len() == list@.len());
            }
            i = i + 1;
        }
        proof {
            assert forall|i2: int, j2: int| self.in_pool(i2, j2) implies self.factor_at(acc, i2, j2)
                <= 1 by {
                assert(self.fits_at(acc, i2, j2));
            }
        }
        0
    }
}


/// Whether `x` is among the first `i` elements of `s`.
pub open spec fn among_first<T>(s: Seq<T>, i: int, x: T) -> bool {
    exists|k: int| 0 <= k < i && #[trigger] s[k] == x
}

impl StakingContract {
    /// The outcome of disbursing rewards.
    pub open spec fn disburse_check(&self, caller: Address, now: u64) -> Result<(), StakingError> {
        then(
            ensure(self.role_of(caller) != 0, StakingError::NoRole),
            then(
                ensure(1 <= self.role_of(caller) <= 3, StakingError::CannotDisburse),
                then(
                    ensure(self.last_payout_datetime != 0, StakingError::PayoutNeverSetForPayout),
                    ensure(
                        now + PAYOUT_TIME_BUFFER - self.last_payout_datetime >= PAYOUT_TIME_BLOCK,
                        StakingError::PayoutPeriodTooShort,
                    ),
                ),
            ),
        )
    }

    /// The bookkeeping of a payout, at the call of a role holder: the last
    /// payout time moves on by the whole payout blocks passed, every NFT of
    /// the pool whose counted staked time holds more than one block is paid
    /// for that many blocks, and the blocks paid are tallied per address of
    /// the pool, in pool order, and overall.  The reward is then shared out
    /// by tally.  An NFT still staked counts its rollover plus the accrued
    /// time less the last payout time.
    pub fn disburse_rewards(&mut self, caller: Address, now: u64) -> (r: Result<
        (Vec<StakedAddressPayoutTallyTracker>, u64),
        StakingError,
    >)
        requires
            old(self).wf(),
            now + PAYOUT_TIME_BUFFER <= u64::MAX,
            1 <= old(self).role_of(caller) <= 3 && old(self).last_payout_datetime != 0 ==> now
                + PAYOUT_TIME_BUFFER >= old(self).last_payout_datetime,
            old(self).disburse_check(caller, now) is Ok ==> ({
                let acc = old(self).payout_window(now).unwrap();
                old(self).rollovers_fit(acc) && old(self).pool_tally(acc, old(self).pool().len())
                    <= u64::MAX
            }),
        ensures
            final(self).wf(),
            match r {
                Err(e) => old(self).disburse_check(caller, now) == Err::<(), StakingError>(e)
                    && *final(self) == *old(self),
                Ok((trackers, overall)) => {
                    let acc = old(self).payout_window(now).unwrap();
                    let last = old(self).last_payout_datetime;
                    &&& old(self).disburse_check(caller, now) is Ok
                    &&& old(self).payout_window(now) is Some
                    &&& final(self).last_payout_datetime == last + acc
                    &&& (final(self).last_payout_datetime - last) % (PAYOUT_TIME_BLOCK as int) == 0
                    &&& last < final(self).last_payout_datetime <= now + PAYOUT_TIME_BUFFER
                    &&& now + PAYOUT_TIME_BUFFER < final(self).last_payout_datetime + PAYOUT_TIME_BLOCK
                    &&& final(self).staked_nft_info.view().dom() == old(
                        self,
                    ).staked_nft_info.view().dom()
                    &&& forall|k: (Address, (Seq<u8>, u64))|
                        #[trigger] old(self).staked_nft_info.view().contains_key(k)
                            ==> final(self).staked_nft_info.view()[k] == if old(self).listed(
                            k.0,
                            k.1,
                        ) {
                            settle(old(self).staked_nft_info.view()[k], acc, last)
                        } else {
                            old(self).staked_nft_info.view()[k]
                        }
                    &&& *final(self) == (StakingContract {
                        staked_nft_info: final(self).staked_nft_info,
                        last_payout_datetime: final(self).last_payout_datetime,
                        ..*old(self)
                    })
                    &&& trackers@.len() == old(self).pool().len()
                    &&& forall|i: int|
                        0 <= i < trackers@.len() ==> #[trigger] trackers@[i]
                            == (StakedAddressPayoutTallyTracker {
                            address: old(self).pool()[i],
                            payout_block_factor_tally: old(self).full_address_tally(
                                old(self).pool()[i],
                                acc,
                            ) as u64,
                        })
                    &&& overall == old(self).pool_tally(acc, old(self).pool().len())
                },
            },
    {
        if !self.address_role_exists(&caller) {
            return Err(StakingError::NoRole);
        }
        if !self.address_role_can_disburse_rewards(&caller) {
            return Err(StakingError::CannotDisburse);
        }
        let current = now + PAYOUT_TIME_BUFFER;
        let last = self.last_payout_datetime;
        if last == 0 {
            return Err(StakingError::PayoutNeverSetForPayout);
        }
        if current - last < PAYOUT_TIME_BLOCK {
            return Err(StakingError::PayoutPeriodTooShort);
        }
        let blocks = (current - last) / PAYOUT_TIME_BLOCK;
        let accrued = blocks * PAYOUT_TIME_BLOCK;
        let ghost acc = accrued;
        let ghost orig = *self;
        assert(orig.payout_window(now) == Some(acc));
        self.last_payout_datetime = last + accrued;
        let mut overall: u64 = 0;
        let mut trackers: Vec<StakedAddressPayoutTallyTracker> = Vec::new();
        let pool_len = self.staked_pool.array_staked_addresses.len();
        let mut i: usize = 0;
        while i < pool_len
            invariant
                orig.wf(),
                orig.rollovers_fit(acc),
                orig.pool_tally(acc, orig.pool().len()) <= u64::MAX,
                accrued == acc,
                last == orig.last_payout_datetime,
                pool_len == orig.pool().len(),
                i <= pool_len,
                self.wf(),
                *self == (StakingContract {
                    staked_nft_info: self.staked_nft_info,
                    last_payout_datetime: (orig.last_payout_datetime + acc) as u64,
                    ..orig
                }),
                self.staked_nft_info.view().dom() == orig.staked_nft_info.view().dom(),
                forall|b: Address, n: (Seq<u8>, u64)|
                    #[trigger] orig.staked_nft_info.view().contains_key((b, n))
                        ==> self.staked_nft_info.view()[(b, n)] == if among_first(
                        orig.pool(),
                        i as int,
                        b,
                    ) && orig.staked_nfts(b).contains(n) {
                        settle(orig.staked_nft_info.view()[(b, n)], acc, last)
                    } else {
                        orig.staked_nft_info.view()[(b, n)]
                    },
                trackers@.len() == i,
                forall|i2: int|
                    0 <= i2 < i ==> #[trigger] trackers@[i2] == (StakedAddressPayoutTallyTracker {
                        address: orig.pool()[i2],
                        payout_block_factor_tally: orig.full_address_tally(orig.pool()[i2], acc) as u64,
                    }),
                overall == orig.pool_tally(acc, i as nat),
            decreases pool_len - i,
        {
            let address = self.staked_pool.array_staked_addresses[i];
            proof {
                lemma_pool_tally_monotone(orig, acc, (i + 1) as nat, orig.pool().len());
                lemma_address_tally_monotone(orig, address, acc, 0, orig.staked_nfts(address).len());
                assert(!among_first(orig.pool(), i as int, address));
                lemma_pool_tally_monotone(orig, acc, 0, i as nat);
                assert(orig.pool_tally(acc, (i + 1) as nat) == orig.pool_tally(acc, i as nat)
                    + orig.full_address_tally(address, acc));
            }
            let list = self.nft_list(address);
            let mut tally: u64 = 0;
            let mut j: usize = 0;
            while j < list.len()
                invariant
                    orig.wf(),
                    orig.rollovers_fit(acc),
                    orig.pool_tally(acc, orig.pool().len()) <= u64::MAX,
                    orig.pool_tally(acc, (i + 1) as nat) <= orig.pool_tally(acc, orig.pool().len()),
                    0 <= orig.full_address_tally(address, acc) <= u64::MAX,
                    accrued == acc,
                    last == orig.last_payout_datetime,
                    pool_len == orig.pool().len(),
                    i < pool_len,
                    address == orig.pool()[i as int],
                    !among_first(orig.pool(), i as int, address),
                    nft_views(list@) == orig.staked_nfts(address),
                    j <= list@.len(),
                    self.wf(),
                    *self == (StakingContract {
                        staked_nft_info: self.staked_nft_info,
                        last_payout_datetime: (orig.last_payout_datetime + acc) as u64,
                        ..orig
                    }),
                    self.staked_nft_info.view().dom() == orig.staked_nft_info.view().dom(),
                    forall|b: Address, n: (Seq<u8>, u64)|
                        #[trigger] orig.staked_nft_info.view().contains_key((b, n))
                            ==> self.staked_nft_info.view()[(b, n)] == if (among_first(
                            orig.pool(),
                            i as int,
                            b,
                        ) && orig.staked_nfts(b).contains(n)) || (b == address && among_first(
                            orig.staked_nfts(address),
                            j as int,
                            n,
                        )) {
                            settle(orig.staked_nft_info.view()[(b, n)], acc, last)
                        } else {
                            orig.staked_nft_info.view()[(b, n)]
                        },
                    tally == orig.address_tally(address, acc, j as nat),
                    overall == orig.pool_tally(acc, i as nat) + tally,
                decreases list@.len() - j,
            {
                let ghost n = list@[j as int]@;
                assert(orig.staked_nfts(address)[j as int] == n);
                assert(nft_views(list@).len() == list@.len());
                proof {
                    lemma_address_tally_monotone(orig, address, acc, (j + 1) as nat, orig.staked_nfts(address).len());
                    assert(orig.staked_nft_info.view().contains_key((address, n)));
                    assert(!among_first(orig.staked_nfts(address), j as int, n)) by {
                        if among_first(orig.staked_nfts(address), j as int, n) {
                            let k = choose|k: int| 0 <= k < j && #[trigger] orig.staked_nfts(address)[k] == n;
                            assert(orig.staked_nfts(address).no_duplicates());
                        }
                    }
                    assert(orig.in_pool(i as int, j as int));
                    assert(orig.fits_at(acc, i as int, j as int));
                }
                let key = StakeKey::new(address, &list[j]);
                let staked_nft = *self.staked_nft_info.get(&key).unwrap();
                assert(staked_nft == orig.staked_nft_info.view()[(address, n)]);
                let counted = if staked_nft.staked_datetime != 0 {
                    staked_nft.rollover_balance + (accrued - last)
                } else {
                    staked_nft.rollover_balance
                };
                let factor = counted / PAYOUT_TIME_BLOCK;
                if factor > 1 {
                    let settled = StakedNFT {
                        rollover_balance: counted - factor * PAYOUT_TIME_BLOCK,
                        ..staked_nft
                    };
                    self.staked_nft_info.set(key, settled);
                    tally = tally + factor;
                    overall = overall + factor;
                }
                proof {
                    assert(self.staked_nft_info.view().dom() =~= orig.staked_nft_info.view().dom());
                    assert forall|b: Address, m: (Seq<u8>, u64)|
                        #[trigger] orig.staked_nft_info.view().contains_key((b, m)) implies self.staked_nft_info.view()[(
                        b,
                        m,
                    )] == if (among_first(orig.pool(), i as int, b) && orig.staked_nfts(b).contains(m))
                        || (b == address && among_first(orig.staked_nfts(address), j + 1, m)) {
                        settle(orig.staked_nft_info.view()[(b, m)], acc, last)
                    } else {
                        orig.staked_nft_info.view()[(b, m)]
                    } by {
                        if b == address && m == n {
                            assert(orig.staked_nfts(address)[j as int] == m);
                        } else if b == address {
                            if among_first(orig.staked_nfts(address), j + 1, m) {
                                let k = choose|k: int| 0 <= k < j + 1 && #[trigger] orig.staked_nfts(address)[k] == m;
                                assert(k != j);
                                assert(among_first(orig.staked_nfts(address), j as int, m));
                            }
                        }
                    }
                }
                j = j + 1;
            }
            proof {
                assert(list@.len() == orig.staked_nfts(address).len()) by {
                    assert(nft_views(list@).len() == list@.len());
                }
                assert forall|b: Address, n: (Seq<u8>, u64)|
                    #[trigger] orig.staked_nft_info.view().contains_key((b, n)) implies self.staked_nft_info.view()[(
                    b,
                    n,
                )] == if among_first(orig.pool(), i + 1, b) && orig.staked_nfts(b).contains(n) {
                    settle(orig.staked_nft_info.view()[(b, n)], acc, last)
                } else {
                    orig.staked_nft_info.view()[(b, n)]
                } by {
                    if b == address {
                        assert(orig.pool()[i as int] == b);
                        assert(among_first(orig.pool(), i + 1, b));
                        if orig.staked_nfts(b).contains(n) {
                            let k = choose|k: int| 0 <= k < orig.staked_nfts(b).len() && orig.staked_nfts(b)[k] == n;
                            assert(among_first(orig.staked_nfts(address), j as int, n));
                        } else {
                            if among_first(orig.staked_nfts(address), j as int, n) {
                                let k = choose|k: int| 0 <= k < j && #[trigger] orig.staked_nfts(address)[k] == n;
                                assert(orig.staked_nfts(b).contains(n));
                            }
                        }
                    } else if among_first(orig.pool(), i + 1, b) {
                        let k = choose|k: int| 0 <= k < i + 1 && #[trigger] orig.pool()[k] == b;
                        assert(k != i);
                        assert(among_first(orig.pool(), i as int, b));
                    }
                }
            }
            trackers.push(StakedAddressPayoutTallyTracker::new(address, tally));
            i = i + 1;
        }
        proof {
            assert forall|k: (Address, (Seq<u8>, u64))|
                #[trigger] orig.staked_nft_info.view().contains_key(k) implies self.staked_nft_info.view()[k]
                == if orig.listed(k.0, k.1) {
                settle(orig.staked_nft_info.view()[k], acc, last)
            } else {
                orig.staked_nft_info.view()[k]
            } by {
                let (b, n) = k;
                assert(orig.staked_nft_info.view().contains_key((b, n)));
                if orig.staked_address_nfts.view().contains_key(b) {
                    assert(orig.pool().contains(b));
                    let w = choose|w: int| 0 <= w < orig.pool().len() && orig.pool()[w] == b;
                    assert(among_first(orig.pool(), i as int, b));
                } else if among_first(orig.pool(), i as int, b) {
                    let w = choose|w: int| 0 <= w < i && #[trigger] orig.pool()[w] == b;
                    assert(orig.staked_address_nfts.view().contains_key(orig.pool()[w]));
                }
            }
        }
        Ok((trackers, overall))
    }

    /// Whether a payout at `now` can count every NFT of the pool within the
    /// range of `u64`, and tally the rewarded blocks within it: the
    /// condition that `disburse_rewards` asks where its checks pass.
    pub fn payout_counts_fit(&self, now: u64) -> (r: bool)
        requires
            self.wf(),
            now + PAYOUT_TIME_BUFFER <= u64::MAX,
            self.last_payout_datetime != 0 ==> now + PAYOUT_TIME_BUFFER >= self.last_payout_datetime,
        ensures
            r == match self.payout_window(now) {
                None => true,
                Some(acc) => self.rollovers_fit(acc) && self.pool_tally(acc, self.pool().len())
                    <= u64::MAX,
            },
    {
        let current = now + PAYOUT_TIME_BUFFER;
        let last = self.last_payout_datetime;
        if last == 0 || current - last < PAYOUT_TIME_BLOCK {
            return true;
        }
        let blocks = (current - last) / PAYOUT_TIME_BLOCK;
        let accrued = blocks * PAYOUT_TIME_BLOCK;
        let ghost acc = accrued;
        assert(self.payout_window(now) == Some(acc));
        let pool_len = self.staked_pool.array_staked_addresses.len();
        let mut total: u128 = 0;
        let mut i: usize = 0;
        while i < pool_len
            invariant
                self.wf(),
                self.payout_window(now) == Some(acc),
                accrued == acc,
                last == self.last_payout_datetime,
                pool_len == self.pool().len(),
                i <= pool_len,
                forall|i2: int, j2: int|
                    self.in_pool(i2, j2) && i2 < i ==> #[trigger] self.fits_at(acc, i2, j2),
                total == self.pool_tally(acc, i as nat),
                total <= u64::MAX,
            decreases pool_len - i,
        {
            let address = self.staked_pool.array_staked_addresses[i];
            let list = self.nft_list(address);
            proof {
                assert(nft_views(list@).len() == list@.len());
                lemma_pool_tally_monotone(*self, acc, (i + 1) as nat, self.pool().len());
            }
            let mut j: usize = 0;
            while j < list.len()
                invariant
                    self.wf(),
                    self.payout_window(now) == Some(acc),
                    accrued == acc,
                    last == self.last_payout_datetime,
                    pool_len == self.pool().len(),
                    i < pool_len,
                    address == self.pool()[i as int],
                    nft_views(list@) == self.staked_nfts(address),
                    list@.len() == self.staked_nfts(address).len(),
                    self.pool_tally(acc, (i + 1) as nat) <= self.pool_tally(acc, self.pool().len()),
                    j <= list@.len(),
                    forall|i2: int, j2: int|
                        self.in_pool(i2, j2) && (i2 < i || (i2 == i && j2 < j))
                            ==> #[trigger] self.fits_at(acc, i2, j2),
                    total == self.pool_tally(acc, i as nat) + self.address_tally(address, acc, j as nat),
                    total <= u64::MAX,
                decreases list@.len() - j,
            {
                let key = StakeKey::new(address, &list[j]);
                assert(self.staked_nfts(address)[j as int] == list@[j as int]@);
                assert(self.in_pool(i as int, j as int));
                let staked_nft = *self.staked_nft_info.get(&key).unwrap();
                let counted: u128 = if staked_nft.staked_datetime != 0 {
                    if accrued < last {
                        assert(!self.fits_at(acc, i as int, j as int));
                        return false;
                    }
                    staked_nft.rollover_balance as u128 + (accrued - last) as u128
                } else {
                    staked_nft.rollover_balance as u128
                };
                if counted > u64::MAX as u128 {
                    assert(!self.fits_at(acc, i as int, j as int));
                    return false;
                }
                assert(self.fits_at(acc, i as int, j as int));
                let factor = counted / (PAYOUT_TIME_BLOCK as u128);
                let rewarded: u128 = if factor > 1 {
                    factor
                } else {
                    0
                };
                total = total + rewarded;
                proof {
                    lemma_address_tally_monotone(*self, address, acc, (j + 1) as nat, self.staked_nfts(address).len());
                    lemma_pool_tally_monotone(*self, acc, 0, i as nat);
                }
                if total > u64::MAX as u128 {
                    proof {
                        assert(total == self.pool_tally(acc, i as nat) + self.address_tally(
                            address,
                            acc,
                            (j + 1) as nat,
                        ));
                        assert(self.pool_tally(acc, (i + 1) as nat) == self.pool_tally(acc, i as nat)
                            + self.full_address_tally(address, acc));
                    }
                    return false;
                }
                j = j + 1;
            }
            i = i + 1;
        }
        proof {
            assert forall|i2: int, j2: int| self.in_pool(i2, j2) implies #[trigger] self.fits_at(acc, i2, j2) by {}
        }
        true
    }

    /// Credits `amount` to the reward balance of `address` where it is not
    /// zero: one address's share of a disbursed reward.
    pub fn credit_reward(&mut self, address: Address, amount: u64)
        requires
            old(self).wf(),
            old(self).staked_address_nfts.view().contains_key(address),
            old(self).staked_address_nfts.view()[address].reward_balance + amount <= u128::MAX,
        ensures
            final(self).wf(),
            ({
                let rec = old(self).staked_address_nfts.view()[address];
                final(self).staked_address_nfts.view() == old(self).staked_address_nfts.view().insert(
                    address,
                    super::storage::StakedAddressNFTs {
                        reward_balance: (rec.reward_balance + amount) as u128,
                        ..rec
                    },
                )
            }),
            *final(self) == (StakingContract {
                staked_address_nfts: final(self).staked_address_nfts,
                ..*old(self)
            }),
    {
        if amount > 0 {
            let mut record = self.staked_address_nfts.remove(&address).unwrap();
            record.reward_balance = record.reward_balance + amount as u128;
            self.staked_address_nfts.set(address, record);
            proof {
                assert(self.staked_address_nfts.view().dom() =~= old(self).staked_address_nfts.view().dom());
                assert forall|a: Address| #[trigger] self.staked_address_nfts.view().contains_key(a) implies self.staked_nfts(a)
                    == old(self).staked_nfts(a) by {}
            }
        } else {
            let rec = self.staked_address_nfts.get(&address).unwrap();
            assert(self.staked_address_nfts.view().insert(
                address,
                super::storage::StakedAddressNFTs {
                    reward_balance: (rec.reward_balance + amount) as u128,
                    ..*rec
                },
            ) =~= self.staked_address_nfts.view());
        }
    }
}

} // verus!

use vstd::prelude::*;

use super::contract::{
    EgldTransfer, GiveawayStep, MintOrder, NftTemplate, TemplateError, TemplateMemo,
};
use super::naming::{image_uri, metadata_uri, token_name};
use super::random::{after_draw, Random};
use crate::marketplace::utils::{apply_percent, percent_of};
use crate::types::Address;

verus! {

/// The template's fee on a mint through the marketplace, in basis points.
pub const PLATFORM_MINT_DEFAULT_FEE_PERCENT: u64 = 150;

/// Success where `cond` holds, else the error `e`.
pub open spec fn ensure(cond: bool, e: TemplateError) -> Result<(), TemplateError> {
    if cond {
        Ok(())
    } else {
        Err(e)
    }
}

/// The first failure of two checks made one after the other.
pub open spec fn then(first: Result<(), TemplateError>, second: Result<(), TemplateError>) -> Result<
    (),
    TemplateError,
> {
    match first {
        Err(e) => Err(e),
        Ok(_) => second,
    }
}

/// What a mint hands to the chain: the price paid, the NFTs to create and
/// send, in order, and the refund of the surplus payment.
pub struct MintOutcome {
    pub spent: u128,
    pub orders: Vec<MintOrder>,
    pub surplus: EgldTransfer,
}

/// The shape of a giveaway step: to whom an NFT of which nonce goes, or to
/// whom a notice goes.
pub ghost enum StepView {
    Mint { recipient: Address, nonce: int },
    Notify { to: Address },
}

pub open spec fn step_view(s: GiveawayStep) -> StepView {
    match s {
        GiveawayStep::Mint { order } => StepView::Mint {
            recipient: order.recipient,
            nonce: order.expected_nonce as int,
        },
        GiveawayStep::Notify { to } => StepView::Notify { to },
    }
}

/// The number of tokens that a giveaway gives away.
pub open spec fn amount_total(entries: Seq<(Address, u16)>) -> int
    decreases entries.len(),
{
    if entries.len() == 0 {
        0
    } else {
        amount_total(entries.drop_last()) + entries.last().1
    }
}

/// `count` NFTs to `recipient`, of the nonces from `from` on.
pub open spec fn mints(recipient: Address, from: int, count: nat) -> Seq<StepView> {
    Seq::new(count, |k: int| StepView::Mint { recipient, nonce: from + k })
}

/// The steps of a giveaway whose first NFT has nonce `first_nonce`: for
/// each entry in turn its NFTs, then a notice to its address.
pub open spec fn planned_steps(entries: Seq<(Address, u16)>, first_nonce: int) -> Seq<StepView>
    decreases entries.len(),
{
    if entries.len() == 0 {
        Seq::empty()
    } else {
        let (a, n) = entries.last();
        planned_steps(entries.drop_last(), first_nonce) + mints(
            a,
            first_nonce + amount_total(entries.drop_last()),
            n as nat,
        ) + seq![StepView::Notify { to: a }]
    }
}

proof fn lemma_amount_total_nonneg(entries: Seq<(Address, u16)>)
    ensures
        amount_total(entries) >= 0,
    decreases entries.len(),
{
    if entries.len() > 0 {
        lemma_amount_total_nonneg(entries.drop_last());
    }
}

proof fn lemma_amount_total_prefix(entries: Seq<(Address, u16)>, i: int)
    requires
        0 <= i <= entries.len(),
    ensures
        0 <= amount_total(entries.subrange(0, i)) <= amount_total(entries),
    decreases entries.len(),
{
    lemma_amount_total_nonneg(entries.subrange(0, i));
    if i < entries.len() {
        assert(entries.drop_last().subrange(0, i) =~= entries.subrange(0, i));
        lemma_amount_total_prefix(entries.drop_last(), i);
    } else {
        assert(entries.subrange(0, i) =~= entries);
    }
}

impl NftTemplate {
    /// `o` creates the token of nonce `nonce` for `recipient`, with its name
    /// and URIs.
    pub open spec fn is_order(&self, o: MintOrder, recipient: Address, nonce: u16) -> bool {
        &&& o.recipient == recipient
        &&& o.expected_nonce == nonce
        &&& o.name@ == token_name(self.token_name_base@, nonce)
        &&& o.uris@.len() == if self.metadata_base_uri@.len() == 0 {
            1int
        } else {
            2int
        }
        &&& o.uris@[0]@ == image_uri(
            self.image_base_uri@,
            self.image_extension@,
            self.token_index(nonce),
        )
        &&& self.metadata_base_uri@.len() != 0 ==> o.uris@[1]@ == metadata_uri(
            self.metadata_base_uri@,
            self.token_index(nonce),
        )
    }

    fn mint_order(&self, recipient: Address, nonce: u16) -> (r: MintOrder)
        requires
            self.wf(),
        ensures
            self.is_order(r, recipient, nonce),
    {
        let name = self.compute_token_name(&self.token_name_base, nonce);
        let uris = self.compute_token_uris(
            &self.image_base_uri,
            &self.image_extension,
            &self.metadata_base_uri,
            nonce,
        );
        MintOrder { recipient, expected_nonce: nonce, name, uris }
    }

    /// How many tokens a mint of `desired` tokens sells: as many as are
    /// left, at most.
    pub open spec fn tokens_to_sell(&self, desired: u16) -> int {
        let left = self.max_supply - self.total_sold;
        if left < desired {
            left
        } else {
            desired as int
        }
    }

    /// The checks of a mint before the payment is counted.
    pub open spec fn mint_pre_check(&self, now: u64, desired: u16) -> Result<(), TemplateError> {
        then(
            ensure(now >= self.sale_start, TemplateError::SaleNotStarted),
            then(
                ensure(!self.sale_paused, TemplateError::SalePaused),
                then(
                    ensure(desired > 0, TemplateError::ZeroTokens),
                    ensure(self.max_supply - self.total_sold > 0, TemplateError::NoTokensLeftForSale),
                ),
            ),
        )
    }

    /// The outcome of minting `desired` tokens paying `payment`.
    pub open spec fn mint_check(&self, now: u64, payment: u128, desired: u16) -> Result<
        (),
        TemplateError,
    > {
        then(
            self.mint_pre_check(now, desired),
            ensure(
                payment >= self.price * self.tokens_to_sell(desired),
                TemplateError::PaymentTooLow,
            ),
        )
    }

    /// The outcome of a mint: the tokens sold, their orders and the refund.
    pub open spec fn minted(
        old: NftTemplate,
        new: NftTemplate,
        caller: Address,
        payment: u128,
        desired: u16,
        o: MintOutcome,
    ) -> bool {
        let n = old.tokens_to_sell(desired);
        &&& o.spent == old.price * n
        &&& o.orders@.len() == n
        &&& forall|k: int|
            0 <= k < n ==> old.is_order(#[trigger] o.orders@[k], caller, (old.total_sold + 1 + k) as u16)
        &&& o.surplus == (EgldTransfer {
            to: caller,
            amount: (payment - o.spent) as u128,
            memo: TemplateMemo::Erd721Standard,
        })
        &&& new == (NftTemplate { total_sold: (old.total_sold + n) as u16, ..old })
    }

    /// Sells `number_of_tokens_desired_opt` tokens (one where none is
    /// given), or as many as are left, to the caller, who paid `payment`;
    /// the surplus is refunded.
    pub fn mint_tokens(
        &mut self,
        caller: Address,
        now: u64,
        payment: u128,
        number_of_tokens_desired_opt: Option<u16>,
    ) -> (r: Result<MintOutcome, TemplateError>)
        requires
            old(self).wf(),
            ({
                let desired = match number_of_tokens_desired_opt {
                    Some(d) => d,
                    None => 1u16,
                };
                old(self).mint_pre_check(now, desired) is Ok ==> {
                    &&& old(self).total_sold + old(self).tokens_to_sell(desired) < u16::MAX
                }
            }),
        ensures
            final(self).wf(),
            ({
                let desired = match number_of_tokens_desired_opt {
                    Some(d) => d,
                    None => 1u16,
                };
                match r {
                    Err(e) => old(self).mint_check(now, payment, desired) == Err::<(), TemplateError>(e)
                        && *final(self) == *old(self),
                    Ok(o) => old(self).mint_check(now, payment, desired) is Ok && Self::minted(
                        *old(self),
                        *final(self),
                        caller,
                        payment,
                        desired,
                        o,
                    ),
                }
            }),
    {
        if now < self.sale_start {
            return Err(TemplateError::SaleNotStarted);
        }
        if self.sale_paused {
            return Err(TemplateError::SalePaused);
        }
        let number_of_tokens_desired = match number_of_tokens_desired_opt {
            Some(d) => d,
            None => 1,
        };
        if number_of_tokens_desired == 0 {
            return Err(TemplateError::ZeroTokens);
        }
        let tokens_left_for_sale = self.get_left_for_sale();
        if tokens_left_for_sale == 0 {
            return Err(TemplateError::NoTokensLeftForSale);
        }
        let tokens_to_sell = if tokens_left_for_sale < number_of_tokens_desired {
            tokens_left_for_sale
        } else {
            number_of_tokens_desired
        };
        let price_for_tokens_to_sell = match self.price.checked_mul(tokens_to_sell as u128) {
            Some(p) => p,
            None => {
                return Err(TemplateError::PaymentTooLow);
            },
        };
        if payment < price_for_tokens_to_sell {
            return Err(TemplateError::PaymentTooLow);
        }
        let mut orders: Vec<MintOrder> = Vec::new();
        let mut next_expected_nonce: u16 = self.total_sold + 1;
        let mut k: u16 = 0;
        while k < tokens_to_sell
            invariant
                self.wf(),
                *self == *old(self),
                self.total_sold + tokens_to_sell < u16::MAX,
                k <= tokens_to_sell,
                next_expected_nonce == self.total_sold + 1 + k,
                orders@.len() == k,
                forall|j: int|
                    0 <= j < k ==> self.is_order(
                        #[trigger] orders@[j],
                        caller,
                        (self.total_sold + 1 + j) as u16,
                    ),
            decreases tokens_to_sell - k,
        {
            let order = self.mint_order(caller, next_expected_nonce);
            orders.push(order);
            next_expected_nonce = next_expected_nonce + 1;
            k = k + 1;
        }
        let surplus = EgldTransfer {
            to: caller,
            amount: payment - price_for_tokens_to_sell,
            memo: TemplateMemo::Erd721Standard,
        };
        self.total_sold = self.total_sold + tokens_to_sell;
        Ok(MintOutcome { spent: price_for_tokens_to_sell, orders, surplus })
    }

    /// The mint endpoint: `mint_tokens`.
    pub fn mint_tokens_endpoint(
        &mut self,
        caller: Address,
        now: u64,
        payment: u128,
        number_of_tokens_desired_opt: Option<u16>,
    ) -> (r: Result<MintOutcome, TemplateError>)
        requires
            old(self).wf(),
            ({
                let desired = match number_of_tokens_desired_opt {
                    Some(d) => d,
                    None => 1u16,
                };
                old(self).mint_pre_check(now, desired) is Ok ==> {
                    &&& old(self).total_sold + old(self).tokens_to_sell(desired) < u16::MAX
                }
            }),
        ensures
            final(self).wf(),
            ({
                let desired = match number_of_tokens_desired_opt {
                    Some(d) => d,
                    None => 1u16,
                };
                match r {
                    Err(e) => old(self).mint_check(now, payment, desired) == Err::<(), TemplateError>(e)
                        && *final(self) == *old(self),
                    Ok(o) => old(self).mint_check(now, payment, desired) is Ok && Self::minted(
                        *old(self),
                        *final(self),
                        caller,
                        payment,
                        desired,
                        o,
                    ),
                }
            }),
    {
        self.mint_tokens(caller, now, payment, number_of_tokens_desired_opt)
    }

    /// The checks of a mint through the marketplace before the mint's own:
    /// the whitelist, where it is enforced, and the endpoint being allowed.
    pub open spec fn marketplace_mint_pre_check(&self, caller: Address, number: u16) -> Result<
        (),
        TemplateError,
    > {
        then(
            if self.buyer_whitelist_check == 1 {
                then(
                    ensure(self.limit_of(caller) != 0, TemplateError::NotWhitelisted),
                    ensure(
                        self.count_of(caller) + number <= self.limit_of(caller),
                        TemplateError::BuyLimitExceeded,
                    ),
                )
            } else {
                Ok(())
            },
            ensure(!self.minting_through_marketplace_denied, TemplateError::EndpointDisabled),
        )
    }

    /// Mints through the marketplace: as `mint_tokens`, after the whitelist
    /// checks; the template keeps 1.5% of the price for the marketplace and
    /// adds the tokens to the caller's buy count where it is whitelisted.
    pub fn mint_tokens_through_marketplace(
        &mut self,
        caller: Address,
        now: u64,
        payment: u128,
        number_of_tokens_desired: u16,
    ) -> (r: Result<MintOutcome, TemplateError>)
        requires
            old(self).wf(),
            old(self).buyer_whitelist_check == 1 && old(self).limit_of(caller) != 0 ==> old(
                self,
            ).count_of(caller) + number_of_tokens_desired <= u16::MAX,
            then(
                old(self).marketplace_mint_pre_check(caller, number_of_tokens_desired),
                old(self).mint_check(now, payment, number_of_tokens_desired),
            ) is Ok ==> {
                &&& old(self).marketplace_balance + percent_of(
                    old(self).price * old(self).tokens_to_sell(number_of_tokens_desired),
                    PLATFORM_MINT_DEFAULT_FEE_PERCENT as int,
                ) <= u128::MAX
                &&& old(self).limit_of(caller) != 0 ==> old(self).count_of(caller)
                    + number_of_tokens_desired <= u16::MAX
            },
            then(
                old(self).marketplace_mint_pre_check(caller, number_of_tokens_desired),
                old(self).mint_pre_check(now, number_of_tokens_desired),
            ) is Ok ==> {
                &&& old(self).total_sold + old(self).tokens_to_sell(number_of_tokens_desired)
                    < u16::MAX
            },
        ensures
            final(self).wf(),
            ({
                let check = then(
                    old(self).marketplace_mint_pre_check(caller, number_of_tokens_desired),
                    old(self).mint_check(now, payment, number_of_tokens_desired),
                );
                match r {
                    Err(e) => check == Err::<(), TemplateError>(e) && *final(self) == *old(self),
                    Ok(o) => {
                        let n = old(self).tokens_to_sell(number_of_tokens_desired);
                        &&& check is Ok
                        &&& o.spent == old(self).price * n
                        &&& o.orders@.len() == n
                        &&& forall|k: int|
                            0 <= k < n ==> old(self).is_order(
                                #[trigger] o.orders@[k],
                                caller,
                                (old(self).total_sold + 1 + k) as u16,
                            )
                        &&& o.surplus == (EgldTransfer {
                            to: caller,
                            amount: (payment - o.spent) as u128,
                            memo: TemplateMemo::Erd721Standard,
                        })
                        &&& final(self).total_sold == old(self).total_sold + n
                        &&& final(self).marketplace_balance == old(self).marketplace_balance
                            + percent_of(o.spent as int, PLATFORM_MINT_DEFAULT_FEE_PERCENT as int)
                        &&& old(self).limit_of(caller) != 0 ==> final(self).buy_count.view()
                            == old(self).buy_count.view().insert(
                            caller,
                            (old(self).count_of(caller) + number_of_tokens_desired) as u16,
                        )
                        &&& old(self).limit_of(caller) == 0 ==> final(self).buy_count
                            == old(self).buy_count
                        &&& *final(self) == (NftTemplate {
                            total_sold: final(self).total_sold,
                            marketplace_balance: final(self).marketplace_balance,
                            buy_count: final(self).buy_count,
                            ..*old(self)
                        })
                    },
                }
            }),
    {
        if self.is_buyer_whitelist_check_enabled() {
            if self.is_caller_address_not_part_of_whitelist(caller) {
                return Err(TemplateError::NotWhitelisted);
            }
            if self.check_buy_count_is_greater_than_buy_limit_by_adding_amount(
                caller,
                number_of_tokens_desired,
            ) {
                return Err(TemplateError::BuyLimitExceeded);
            }
        }
        if self.minting_through_marketplace_denied {
            return Err(TemplateError::EndpointDisabled);
        }
        let outcome = self.mint_tokens(caller, now, payment, Some(number_of_tokens_desired))?;
        let marketplace_cut = apply_percent(outcome.spent, PLATFORM_MINT_DEFAULT_FEE_PERCENT);
        self.marketplace_balance = self.marketplace_balance + marketplace_cut;
        let _ = self.add_to_address_buy_count(caller, number_of_tokens_desired);
        Ok(outcome)
    }

    /// Checks the nonce that the chain gave a created token: its low 16 bits
    /// must be the expected nonce.
    pub fn check_created_nonce(&self, created_nonce: u64, expected_nonce: u16) -> (r: Result<
        (),
        TemplateError,
    >)
        ensures
            r == ensure(created_nonce as u16 == expected_nonce, TemplateError::UnexpectedNonce),
    {
        if created_nonce as u16 != expected_nonce {
            return Err(TemplateError::UnexpectedNonce);
        }
        Ok(())
    }

    /// Checks the nonces that the chain gave the tokens of a mint, one per
    /// order and in order: each must be the order's expected nonce, in its
    /// low 16 bits, else the mint fails with `UnexpectedNonce`.
    pub fn check_minted_nonces(&self, orders: &Vec<MintOrder>, created_nonces: &Vec<u64>) -> (r:
        Result<(), TemplateError>)
        requires
            created_nonces@.len() == orders@.len(),
        ensures
            r == ensure(
                forall|i: int|
                    0 <= i < orders@.len() ==> (#[trigger] created_nonces@[i]) as u16
                        == orders@[i].expected_nonce,
                TemplateError::UnexpectedNonce,
            ),
    {
        let mut i: usize = 0;
        while i < orders.len()
            invariant
                created_nonces@.len() == orders@.len(),
                i <= orders@.len(),
                forall|j: int|
                    0 <= j < i ==> (#[trigger] created_nonces@[j]) as u16 == orders@[j].expected_nonce,
            decreases orders@.len() - i,
        {
            if self.check_created_nonce(created_nonces[i], orders[i].expected_nonce).is_err() {
                return Err(TemplateError::UnexpectedNonce);
            }
            i = i + 1;
        }
        Ok(())
    }

    /// The steps of a giveaway of the tokens following those sold, to each
    /// address its amount, and the number of tokens given away.
    pub fn giveaway_plan(&self, addr_amount_args: &Vec<(Address, u16)>) -> (r: (
        Vec<GiveawayStep>,
        u16,
    ))
        requires
            self.wf(),
            self.total_sold + amount_total(addr_amount_args@) < u16::MAX,
        ensures
            r.1 == amount_total(addr_amount_args@),
            r.0@.map_values(|s: GiveawayStep| step_view(s)) == planned_steps(
                addr_amount_args@,
                self.total_sold + 1,
            ),
            forall|i: int|
                0 <= i < r.0@.len() ==> (#[trigger] r.0@[i] matches GiveawayStep::Mint { order }
                    ==> self.is_order(order, order.recipient, order.expected_nonce)),
    {
        proof {
            lemma_amount_total_prefix(addr_amount_args@, 0);
            assert(addr_amount_args@.subrange(0, 0) =~= Seq::<(Address, u16)>::empty());
        }
        let mut steps: Vec<GiveawayStep> = Vec::new();
        let mut total_amount: u16 = 0;
        let mut next_expected_nonce: u16 = self.total_sold + 1;
        let mut e: usize = 0;
        while e < addr_amount_args.len()
            invariant
                self.wf(),
                self.total_sold + amount_total(addr_amount_args@) < u16::MAX,
                e <= addr_amount_args@.len(),
                total_amount == amount_total(addr_amount_args@.subrange(0, e as int)),
                next_expected_nonce == self.total_sold + 1 + total_amount,
                steps@.map_values(|s: GiveawayStep| step_view(s)) == planned_steps(
                    addr_amount_args@.subrange(0, e as int),
                    self.total_sold + 1,
                ),
                forall|i: int|
                    0 <= i < steps@.len() ==> (#[trigger] steps@[i] matches GiveawayStep::Mint {
                        order,
                    } ==> self.is_order(order, order.recipient, order.expected_nonce)),
            decreases addr_amount_args@.len() - e,
        {
            let (address, amount) = addr_amount_args[e];
            let ghost prefix = addr_amount_args@.subrange(0, e as int);
            let ghost next = addr_amount_args@.subrange(0, e + 1);
            proof {
                assert(next.drop_last() =~= prefix);
                lemma_amount_total_prefix(addr_amount_args@, e + 1);
            }
            let ghost base_steps = steps@.map_values(|s: GiveawayStep| step_view(s));
            let mut k: u16 = 0;
            while k < amount
                invariant
                    self.wf(),
                    k <= amount,
                    self.total_sold + 1 + total_amount + amount <= u16::MAX,
                    next_expected_nonce == self.total_sold + 1 + total_amount + k,
                    steps@.len() == base_steps.len() + k,
                    steps@.map_values(|s: GiveawayStep| step_view(s)) == base_steps + mints(
                        address,
                        self.total_sold + 1 + total_amount,
                        k as nat,
                    ),
                    forall|i: int|
                        0 <= i < steps@.len() ==> (#[trigger] steps@[i] matches GiveawayStep::Mint {
                            order,
                        } ==> self.is_order(order, order.recipient, order.expected_nonce)),
                decreases amount - k,
            {
                let order = self.mint_order(address, next_expected_nonce);
                let ghost before = steps@;
                let ghost step = GiveawayStep::Mint { order };
                steps.push(GiveawayStep::Mint { order });
                proof {
                    let from = self.total_sold + 1 + total_amount;
                    assert(steps@ =~= before.push(step));
                    assert(steps@.map_values(|s: GiveawayStep| step_view(s)) =~= before.map_values(
                        |s: GiveawayStep| step_view(s),
                    ).push(step_view(step)));
                    assert(mints(address, from, (k + 1) as nat) =~= mints(
                        address,
                        from,
                        k as nat,
                    ).push(StepView::Mint { recipient: address, nonce: from + k }));
                    assert(steps@.map_values(|s: GiveawayStep| step_view(s)) =~= base_steps + mints(
                        address,
                        from,
                        (k + 1) as nat,
                    ));
                }
                next_expected_nonce = next_expected_nonce + 1;
                k = k + 1;
            }
            let ghost with_mints = steps@.map_values(|s: GiveawayStep| step_view(s));
            steps.push(GiveawayStep::Notify { to: address });
            proof {
                assert(steps@.map_values(|s: GiveawayStep| step_view(s)) =~= with_mints + seq![
                    StepView::Notify { to: address },
                ]);
                assert(next.last() == (address, amount));
            }
            total_amount = total_amount + amount;
            e = e + 1;
        }
        proof {
            assert(addr_amount_args@.subrange(0, e as int) =~= addr_amount_args@);
        }
        (steps, total_amount)
    }

    /// Records a giveaway of `total_amount` tokens, where that many are
    /// left.
    pub fn finish_giveaway(&mut self, total_amount: u16) -> (r: Result<u16, TemplateError>)
        requires
            old(self).wf(),
        ensures
            final(self).wf(),
            match r {
                Err(e) => e == TemplateError::NoTokensLeft && old(self).max_supply
                    - old(self).total_sold < total_amount && *final(self) == *old(self),
                Ok(n) => n == total_amount && old(self).max_supply - old(self).total_sold
                    >= total_amount && *final(self) == (NftTemplate {
                    total_sold: (old(self).total_sold + total_amount) as u16,
                    ..*old(self)
                }),
            },
    {
        let tokens_left_for_sale = self.get_left_for_sale();
        if tokens_left_for_sale < total_amount {
            return Err(TemplateError::NoTokensLeft);
        }
        self.total_sold = self.total_sold + total_amount;
        Ok(total_amount)
    }

    /// Each created nonce, in its low 16 bits, is the one expected: the
    /// nonces from `first` on, in order.
    pub open spec fn nonces_match(created: Seq<u64>, first: int) -> bool {
        forall|i: int| 0 <= i < created.len() ==> (#[trigger] created[i]) as u16 == first + i
    }

    /// The giveaway endpoint, at the owner's call: to each address its
    /// amount of new tokens,
    /// then a notice.  `created_nonces` are the nonces that the chain gave
    /// the created tokens, one per token, in order; each must be the one
    /// expected, and as many tokens must be left as are given away.
    pub fn giveaway(
        &mut self,
        caller: Address,
        owner: Address,
        addr_amount_args: &Vec<(Address, u16)>,
        created_nonces: &Vec<u64>,
    ) -> (r: Result<(Vec<GiveawayStep>, u16), TemplateError>)
        requires
            old(self).wf(),
            old(self).total_sold + amount_total(addr_amount_args@) < u16::MAX,
            created_nonces@.len() == amount_total(addr_amount_args@),
        ensures
            final(self).wf(),
            ({
                let total = amount_total(addr_amount_args@);
                let matching = Self::nonces_match(created_nonces@, old(self).total_sold + 1);
                match r {
                    Err(e) => *final(self) == *old(self) && if caller != owner {
                        e == TemplateError::OnlyOwner
                    } else if !matching {
                        e == TemplateError::UnexpectedNonce
                    } else {
                        e == TemplateError::NoTokensLeft && old(self).max_supply
                            - old(self).total_sold < total
                    },
                    Ok((steps, n)) => {
                        &&& caller == owner
                        &&& matching
                        &&& n == total
                        &&& old(self).max_supply - old(self).total_sold >= total
                        &&& steps@.map_values(|s: GiveawayStep| step_view(s)) == planned_steps(
                            addr_amount_args@,
                            old(self).total_sold + 1,
                        )
                        &&& forall|i: int|
                            0 <= i < steps@.len() ==> (#[trigger] steps@[i] matches GiveawayStep::Mint {
                                order,
                            } ==> old(self).is_order(order, order.recipient, order.expected_nonce))
                        &&& *final(self) == (NftTemplate {
                            total_sold: (old(self).total_sold + total) as u16,
                            ..*old(self)
                        })
                    },
                }
            }),
    {
        self.require_owner(&caller, &owner)?;
        proof {
            lemma_amount_total_nonneg(addr_amount_args@);
        }
        let first: u16 = self.total_sold + 1;
        let mut i: usize = 0;
        while i < created_nonces.len()
            invariant
                self.wf(),
                *self == *old(self),
                caller == owner,
                i <= created_nonces@.len(),
                first == old(self).total_sold + 1,
                first + created_nonces@.len() <= u16::MAX,
                forall|j: int| 0 <= j < i ==> (#[trigger] created_nonces@[j]) as u16 == first + j,
            decreases created_nonces@.len() - i,
        {
            let expected: u16 = first + i as u16;
            if self.check_created_nonce(created_nonces[i], expected).is_err() {
                return Err(TemplateError::UnexpectedNonce);
            }
            i = i + 1;
        }
        let (steps, total_amount) = self.giveaway_plan(addr_amount_args);
        let n = self.finish_giveaway(total_amount)?;
        Ok((steps, n))
    }

    /// The outcome of a shuffle at `now`: only at the owner's call, before
    /// the sale starts.
    pub fn shuffle_check(&self, caller: Address, owner: Address, now: u64) -> (r: Result<
        (),
        TemplateError,
    >)
        ensures
            r == then(
                ensure(caller == owner, TemplateError::OnlyOwner),
                ensure(now < self.sale_start, TemplateError::SaleStarted),
            ),
    {
        self.require_owner(&caller, &owner)?;
        if now >= self.sale_start {
            return Err(TemplateError::SaleStarted);
        }
        Ok(())
    }

    /// One round of the shuffle: two nonces are drawn, and each of their
    /// image indexes is recorded as the other's.  Returns the drawn nonces.
    pub fn shuffle_step(&mut self, random: &mut Random) -> (r: (u16, u16))
        requires
            old(self).wf(),
            old(random).wf(),
            old(self).max_supply > 0,
        ensures
            final(self).wf(),
            final(random).wf(),
            ({
                let (p1, q1) = after_draw(old(random).pool(), old(random).position());
                let (p2, q2) = after_draw(p1, q1);
                let (p3, q3) = after_draw(p2, q2);
                let (p4, q4) = after_draw(p3, q3);
                let first = old(random).pool()[old(random).position() as int] as int * 256
                    + p1[q1 as int] as int;
                let second = p2[q2 as int] as int * 256 + p3[q3 as int] as int;
                let index1 = old(self).token_index(r.0);
                let index2 = old(self).token_index(r.1);
                &&& r.0 == first % (old(self).max_supply as int) + 1
                &&& r.1 == second % (old(self).max_supply as int) + 1
                &&& final(random).pool() == p4
                &&& final(random).position() == q4
                &&& final(self).nonce_to_index.view() == old(self).nonce_to_index.view().insert(
                    index1,
                    index2,
                ).insert(index2, index1)
                &&& *final(self) == (NftTemplate {
                    nonce_to_index: final(self).nonce_to_index,
                    ..*old(self)
                })
            }),
    {
        let max_supply = self.max_supply;
        let random1 = random.next_u16() % max_supply + 1;
        let random2 = random.next_u16() % max_supply + 1;
        let index1 = self.get_token_index(random1);
        let index2 = self.get_token_index(random2);
        self.nonce_to_index.set(index1, index2);
        self.nonce_to_index.set(index2, index1);
        (random1, random2)
    }

    /// Pays `amount_opt` out to the owner, or all of the contract's balance
    /// but what is kept for the marketplace.
    pub fn withdraw(&self, caller: Address, owner: Address, amount_opt: Option<u128>, sc_balance: u128) -> (r:
        Result<EgldTransfer, TemplateError>)
        requires
            caller == owner && amount_opt is None ==> sc_balance >= self.marketplace_balance,
        ensures
            r == if caller != owner {
                Err(TemplateError::OnlyOwner)
            } else {
                Ok::<EgldTransfer, TemplateError>(
                    EgldTransfer {
                        to: caller,
                        amount: match amount_opt {
                            Some(a) => a,
                            None => (sc_balance - self.marketplace_balance) as u128,
                        },
                        memo: TemplateMemo::Empty,
                    },
                )
            },
    {
        self.require_owner(&caller, &owner)?;
        let amount = match amount_opt {
            Some(a) => a,
            None => sc_balance - self.marketplace_balance,
        };
        Ok(EgldTransfer { to: caller, amount, memo: TemplateMemo::Empty })
    }

    /// Pays the marketplace's balance, or `amount_opt` of it, out to the
    /// marketplace admin.
    pub fn marketplace_withdraw(&mut self, caller: Address, amount_opt: Option<u128>) -> (r: Result<
        EgldTransfer,
        TemplateError,
    >)
        requires
            old(self).wf(),
            caller == old(self).marketplace_admin ==> (amount_opt matches Some(a) ==> a <= old(
                self,
            ).marketplace_balance),
        ensures
            final(self).wf(),
            match r {
                Err(e) => e == TemplateError::NotMarketplaceAdmin && caller
                    != old(self).marketplace_admin && *final(self) == *old(self),
                Ok(t) => {
                    let amount = match amount_opt {
                        Some(a) => a,
                        None => old(self).marketplace_balance,
                    };
                    &&& caller == old(self).marketplace_admin
                    &&& t == (EgldTransfer {
                        to: caller,
                        amount,
                        memo: TemplateMemo::WithdrawMessage,
                    })
                    &&& *final(self) == (NftTemplate {
                        marketplace_balance: (old(self).marketplace_balance - amount) as u128,
                        ..*old(self)
                    })
                },
            },
    {
        if !caller.same(&self.marketplace_admin) {
            return Err(TemplateError::NotMarketplaceAdmin);
        }
        let amount = match amount_opt {
            Some(a) => a,
            None => self.marketplace_balance,
        };
        self.marketplace_balance = self.marketplace_balance - amount;
        Ok(EgldTransfer { to: caller, amount, memo: TemplateMemo::WithdrawMessage })
    }
}

} // verus!

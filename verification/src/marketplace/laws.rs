//! Properties of the marketplace that span several endpoints, stated over
//! the same spec functions and views as the endpoints' own contracts.

use vstd::prelude::*;

use super::config::BP;
use super::contract::MarketplaceContract;
use super::royalties::remaining_epochs;
use super::storage::{balance, NftSaleInfo};
use super::utils::{percent_of, TokenData};
use super::validation::{ensure, then, MarketError};
use crate::types::{value_or, Address};

verus! {

/// The owner starting a global operation and then stopping it leaves the
/// storage as it was, and each of the two steps is accepted.
pub proof fn law_global_op_round_trip(s: MarketplaceContract, caller: Address, owner: Address)
    requires
        !s.global_op_is_ongoing,
        caller == owner,
    ensures
        then(
            ensure(caller == owner, MarketError::OnlyOwner),
            ensure(!s.global_op_is_ongoing, MarketError::GlobalOpOngoing),
        ) is Ok,
        ({
            let started = MarketplaceContract { global_op_is_ongoing: true, ..s };
            &&& then(
                ensure(caller == owner, MarketError::OnlyOwner),
                ensure(started.global_op_is_ongoing, MarketError::GlobalOpNotOngoing),
            ) is Ok
            &&& (MarketplaceContract { global_op_is_ongoing: false, ..started }) == s
        }),
{
}

/// A deposit followed by a withdrawal of the same amount is accepted and
/// leaves every deposit as it was.
pub proof fn law_deposit_then_withdraw(
    s0: MarketplaceContract,
    s1: MarketplaceContract,
    s2: MarketplaceContract,
    caller: Address,
    amount: u128,
)
    requires
        balance(s0.egld_deposit.view(), caller) + amount <= u128::MAX,
        s1.egld_deposit.view() == s0.egld_deposit.view().insert(
            caller,
            (balance(s0.egld_deposit.view(), caller) + amount) as u128,
        ),
        s1 == (MarketplaceContract { egld_deposit: s1.egld_deposit, ..s0 }),
        s2.egld_deposit.view() == s1.egld_deposit.view().insert(
            caller,
            (balance(s1.egld_deposit.view(), caller) - amount) as u128,
        ),
        s2 == (MarketplaceContract { egld_deposit: s2.egld_deposit, ..s1 }),
    ensures
        balance(s1.egld_deposit.view(), caller) >= amount,
        forall|a: Address| balance(s2.egld_deposit.view(), a) == balance(s0.egld_deposit.view(), a),
        (MarketplaceContract { egld_deposit: s0.egld_deposit, ..s2 }) == s0,
{
}

/// Where the platform fee and the creator's royalties together are at most
/// the whole, their cuts of a price together are at most the price: the
/// seller's share of a sale is never negative.
pub proof fn law_cuts_within_price(price: u128, fee_percent: u64, royalties: u64)
    requires
        fee_percent + royalties <= BP,
    ensures
        percent_of(price as int, fee_percent as int) + percent_of(price as int, royalties as int)
            <= price,
{
    let b = BP as int;
    let p = price as int;
    let x = p * (fee_percent as int);
    let y = p * (royalties as int);
    assert(0 <= x && 0 <= y) by (nonlinear_arith)
        requires
            x == p * (fee_percent as int),
            y == p * (royalties as int),
            0 <= p,
            0 <= fee_percent,
            0 <= royalties,
    ;
    vstd::arithmetic::div_mod::lemma_fundamental_div_mod(x, b);
    vstd::arithmetic::div_mod::lemma_fundamental_div_mod(y, b);
    vstd::arithmetic::div_mod::lemma_fundamental_div_mod(x + y, b);
    assert(x / b + y / b <= (x + y) / b) by (nonlinear_arith)
        requires
            x == b * (x / b) + x % b,
            y == b * (y / b) + y % b,
            x + y == b * ((x + y) / b) + (x + y) % b,
            0 <= x % b < b,
            0 <= y % b < b,
            0 <= (x + y) % b < b,
            b > 0,
    ;
    assert(x + y <= p * b) by (nonlinear_arith)
        requires
            x == p * (fee_percent as int),
            y == p * (royalties as int),
            fee_percent + royalties <= b,
            0 <= p,
    ;
    vstd::arithmetic::div_mod::lemma_div_is_ordered(x + y, p * b, b);
    vstd::arithmetic::div_mod::lemma_div_multiples_vanish(p, b);
}

/// An NFT put up for sale and then withdrawn goes back to its owner: the
/// withdrawal is accepted, and the marketplace holds the listings it held
/// before, with nothing else changed.
pub proof fn law_list_then_withdraw(
    s0: MarketplaceContract,
    s1: MarketplaceContract,
    s2: MarketplaceContract,
    caller: Address,
    listed_at: u64,
    withdrawn_at: u64,
    token_id: Seq<u8>,
    nonce: u64,
    amount: u128,
    price: u128,
    token_data: TokenData,
)
    requires
        s0.put_nft_for_sale_check(token_id, nonce, amount, price, token_data) is Ok,
        s1.nft_sale_info.view() == s0.nft_sale_info.view().insert(
            (token_id, nonce),
            NftSaleInfo { owner: caller, price, timestamp: listed_at },
        ),
        s1 == (MarketplaceContract { nft_sale_info: s1.nft_sale_info, ..s0 }),
        s2.nft_sale_info.view() == s1.nft_sale_info.view().remove((token_id, nonce)),
        s2 == (MarketplaceContract { nft_sale_info: s2.nft_sale_info, ..s1 }),
    ensures
        s1.withdraw_nft_check(caller, withdrawn_at, token_id, nonce) is Ok,
        s1.nft_sale_info.view().contains_key((token_id, nonce)),
        s2.nft_sale_info.view() == s0.nft_sale_info.view(),
        (MarketplaceContract { nft_sale_info: s0.nft_sale_info, ..s2 }) == s0,
{
    assert(s2.nft_sale_info.view() =~= s0.nft_sale_info.view());
}

/// In the epoch in which a creator's withdrawal is accepted, the view of
/// the epochs left until the next claim reports none.
pub proof fn law_claim_epoch_has_none_remaining(s: MarketplaceContract, caller: Address, epoch: u64)
    requires
        s.creator_withdrawal_check(caller, epoch) is Ok,
        s.creator_withdrawal_waiting_epochs > 0,
    ensures
        remaining_epochs(
            epoch,
            value_or(s.creator_last_withdrawal_epoch.view(), caller, 0u64),
            s.creator_withdrawal_waiting_epochs,
        ) == 0,
{
    let w = s.creator_withdrawal_waiting_epochs as int;
    vstd::arithmetic::div_mod::lemma_mod_self_0(w);
}

/// The proceeds of a sale are shared out in full: what the seller's
/// deposit, the creator's royalties and the platform's royalties gain
/// together is the amount paid.
pub proof fn law_proceeds_shared_in_full(
    s0: MarketplaceContract,
    s1: MarketplaceContract,
    amount: u128,
    owner: Address,
    token_data: TokenData,
    epoch: u64,
)
    requires
        s0.proceeds_fit(amount, owner, token_data),
        MarketplaceContract::proceeds_paid(s0, s1, amount, owner, token_data, epoch),
    ensures
        (balance(s1.egld_deposit.view(), owner) - balance(s0.egld_deposit.view(), owner)) + (
        balance(s1.creator_royalties.view(), token_data.creator) - balance(
            s0.creator_royalties.view(),
            token_data.creator,
        )) + (s1.platform_royalties - s0.platform_royalties) == amount,
{
    let a = amount as int;
    let r = token_data.royalties as int;
    let f = s0.platform_fee_or_default() as int;
    assert(a * r / (BP as int) >= 0 && a * f / (BP as int) >= 0) by (nonlinear_arith)
        requires
            a >= 0,
            r >= 0,
            f >= 0,
    ;
}

/// The platform's cut of a price is the configured platform fee of it, in
/// basis points and rounded down; the default fee of 2.5% applies only
/// while no fee is stored.
pub proof fn law_platform_cut_uses_configured_fee(s: MarketplaceContract, price: u128)
    ensures
        s.platform_fee_percent != 0 ==> s.platform_cut(price) == price * s.platform_fee_percent
            / 10_000,
        s.platform_fee_percent == 0 ==> s.platform_cut(price) == price * 250 / 10_000,
{
}

/// A creator's claim epoch is set by its first paid sale and no later
/// sale moves it: after two sales, the recorded epoch is the one recorded
/// before them, or that of the first sale where none was.
pub proof fn law_first_sale_sets_claim_epoch(
    s0: MarketplaceContract,
    s1: MarketplaceContract,
    s2: MarketplaceContract,
    first_amount: u128,
    second_amount: u128,
    first_owner: Address,
    second_owner: Address,
    first_data: TokenData,
    second_data: TokenData,
    first_epoch: u64,
    second_epoch: u64,
)
    requires
        first_data.creator == second_data.creator,
        MarketplaceContract::proceeds_paid(s0, s1, first_amount, first_owner, first_data, first_epoch),
        MarketplaceContract::proceeds_paid(
            s1,
            s2,
            second_amount,
            second_owner,
            second_data,
            second_epoch,
        ),
    ensures
        ({
            let c = first_data.creator;
            let before = s0.creator_last_withdrawal_epoch.view();
            let after = s2.creator_last_withdrawal_epoch.view();
            &&& before.contains_key(c) && before[c] != 0 ==> after[c] == before[c]
            &&& !(before.contains_key(c) && before[c] != 0) && first_epoch != 0 ==> after[c]
                == first_epoch
            &&& forall|a: Address| a != c ==> #[trigger] after.contains_key(a) == before.contains_key(a)
        }),
{
}

} // verus!

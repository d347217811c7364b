//! Properties of the minting template that span several endpoints, stated
//! over the same spec functions as the endpoints' own contracts.

use vstd::prelude::*;

use super::contract::{MintOrder, NftTemplate};
use super::naming::decimal;
use super::minting::{then, MintOutcome};
use crate::types::Address;

verus! {

/// Two mints one after the other never create the same token: every nonce
/// of the second comes after every nonce of the first.
pub proof fn law_successive_mints_distinct_nonces(
    s0: NftTemplate,
    s1: NftTemplate,
    s2: NftTemplate,
    first_buyer: Address,
    second_buyer: Address,
    first_payment: u128,
    second_payment: u128,
    first_desired: u16,
    second_desired: u16,
    first: MintOutcome,
    second: MintOutcome,
)
    requires
        s0.total_sold + s0.tokens_to_sell(first_desired) < u16::MAX,
        s1.total_sold + s1.tokens_to_sell(second_desired) < u16::MAX,
        NftTemplate::minted(s0, s1, first_buyer, first_payment, first_desired, first),
        NftTemplate::minted(s1, s2, second_buyer, second_payment, second_desired, second),
    ensures
        forall|i: int, j: int|
            0 <= i < first.orders@.len() && 0 <= j < second.orders@.len()
                ==> (#[trigger] first.orders@[i]).expected_nonce
                < (#[trigger] second.orders@[j]).expected_nonce,
{
    assert forall|i: int, j: int|
        0 <= i < first.orders@.len() && 0 <= j < second.orders@.len() implies (#[trigger] first.orders@[i]).expected_nonce
        < (#[trigger] second.orders@[j]).expected_nonce by {
        assert(s0.is_order(first.orders@[i], first_buyer, (s0.total_sold + 1 + i) as u16));
        assert(s1.is_order(second.orders@[j], second_buyer, (s1.total_sold + 1 + j) as u16));
    }
}

/// Where the whitelist is enforced, a buyer's count after an accepted mint
/// through the marketplace stays within its limit.
pub proof fn law_whitelist_limit_kept(
    s0: NftTemplate,
    s1: NftTemplate,
    buyer: Address,
    now: u64,
    payment: u128,
    number: u16,
)
    requires
        s0.buyer_whitelist_check == 1,
        then(s0.marketplace_mint_pre_check(buyer, number), s0.mint_check(now, payment, number)) is Ok,
        s1.buy_count.view() == s0.buy_count.view().insert(
            buyer,
            (s0.count_of(buyer) + number) as u16,
        ),
        s1.buy_limit == s0.buy_limit,
    ensures
        s1.count_of(buyer) <= s1.limit_of(buyer),
        s1.count_of(buyer) == s0.count_of(buyer) + number,
{
}

/// A mint, accepted or refused, never lowers the number of tokens sold and
/// never sells more than the supply: after a refused mint the storage is
/// unchanged, and an accepted one sells at most what is left.
pub proof fn law_mint_keeps_supply(
    s0: NftTemplate,
    s1: NftTemplate,
    buyer: Address,
    payment: u128,
    desired: u16,
    outcome: MintOutcome,
    accepted: bool,
)
    requires
        s0.wf(),
        accepted ==> NftTemplate::minted(s0, s1, buyer, payment, desired, outcome),
        !accepted ==> s1 == s0,
    ensures
        s0.total_sold <= s1.total_sold <= s1.max_supply,
        s1.max_supply == s0.max_supply,
{
}

/// The image index of a token is the one the shuffle stored for its nonce,
/// and the nonce itself only where none (or zero) is stored.
pub proof fn law_token_index_follows_shuffle(t: NftTemplate, nonce: u16)
    ensures
        t.nonce_to_index.view().contains_key(nonce) && t.nonce_to_index.view()[nonce] != 0
            ==> t.token_index(nonce) == t.nonce_to_index.view()[nonce],
        !(t.nonce_to_index.view().contains_key(nonce) && t.nonce_to_index.view()[nonce] != 0)
            ==> t.token_index(nonce) == nonce,
{
}

/// A token minted after the shuffle stored image index `index` for its
/// nonce gets the image URI of that index.
pub proof fn law_minted_image_follows_shuffle(
    t: NftTemplate,
    order: MintOrder,
    recipient: Address,
    nonce: u16,
    index: u16,
)
    requires
        t.nonce_to_index.view().contains_key(nonce),
        t.nonce_to_index.view()[nonce] == index,
        index != 0,
        t.is_order(order, recipient, nonce),
    ensures
        order.uris@[0]@ == t.image_base_uri@ + seq![47u8] + decimal(index as nat)
            + t.image_extension@,
{
}

} // verus!

use vstd::prelude::*;

use super::contract::NftTemplate;
use crate::types::{append_bytes, value_or};

verus! {

/// The decimal digits of `n`, most significant first, as ASCII bytes.
pub open spec fn decimal(n: nat) -> Seq<u8>
    decreases n,
{
    if n < 10 {
        seq![(48 + n) as u8]
    } else {
        decimal(n / 10).push((48 + n % 10) as u8)
    }
}

/// The decimal digits of `n`, least significant first.
pub open spec fn decimal_reversed(n: nat) -> Seq<u8>
    decreases n,
{
    if n < 10 {
        seq![(48 + n) as u8]
    } else {
        seq![(48 + n % 10) as u8] + decimal_reversed(n / 10)
    }
}

proof fn lemma_decimal_reversed(n: nat)
    ensures
        decimal_reversed(n).reverse() == decimal(n),
    decreases n,
{
    if n >= 10 {
        lemma_decimal_reversed(n / 10);
        let d = seq![(48 + n % 10) as u8];
        assert((d + decimal_reversed(n / 10)).reverse() =~= decimal_reversed(n / 10).reverse() + d);
        assert(decimal(n) =~= decimal(n / 10) + d);
    } else {
        assert(seq![(48 + n) as u8].reverse() =~= seq![(48 + n) as u8]);
    }
}

/// The value of a string of decimal digits.
pub open spec fn decimal_value(s: Seq<u8>) -> int
    decreases s.len(),
{
    if s.len() == 0 {
        0
    } else {
        decimal_value(s.drop_last()) * 10 + (s.last() - 48)
    }
}

/// Reading back the decimal digits of a number gives the number, every byte
/// is an ASCII digit, and there is no leading zero but for zero itself.
pub proof fn lemma_decimal_round_trip(n: nat)
    ensures
        decimal_value(decimal(n)) == n,
        forall|i: int| 0 <= i < decimal(n).len() ==> 48 <= #[trigger] decimal(n)[i] <= 57,
        decimal(n).len() >= 1,
        n >= 10 ==> decimal(n)[0] != 48,
    decreases n,
{
    if n >= 10 {
        lemma_decimal_round_trip(n / 10);
        assert(decimal(n).drop_last() =~= decimal(n / 10));
        assert(decimal(n).last() as int == 48 + n % 10);
        assert(decimal_value(decimal(n)) == decimal_value(decimal(n).drop_last()) * 10 + (
        decimal(n).last() - 48));
        assert((n / 10) * 10 + n % 10 == n);
        assert forall|i: int| 0 <= i < decimal(n).len() implies 48 <= #[trigger] decimal(n)[i] <= 57 by {
            if i < decimal(n).len() - 1 {
                assert(decimal(n)[i] == decimal(n / 10)[i]);
            }
        }
        assert(decimal(n)[0] == decimal(n / 10)[0]);
    } else {
        assert(decimal(n).drop_last() =~= Seq::<u8>::empty());
        assert(decimal(n).last() as int == 48 + n);
        assert(decimal_value(decimal(n)) == decimal_value(decimal(n).drop_last()) * 10 + (
        decimal(n).last() - 48));
    }
}

impl NftTemplate {
    /// The decimal representation of `a`, as ASCII bytes.
    pub fn u16_to_string(&self, a: u16) -> (r: Vec<u8>)
        ensures
            r@ == decimal(a as nat),
    {
        let ascii_zero_char: u8 = 48;
        let mut digits: Vec<u8> = Vec::new();
        let mut num: u16 = a;
        loop
            invariant_except_break
                ascii_zero_char == 48,
                digits@ + decimal_reversed(num as nat) == decimal_reversed(a as nat),
            ensures
                digits@ == decimal_reversed(a as nat),
            decreases num,
        {
            let ghost before = digits@;
            let ghost n0 = num as nat;
            assert(num % 10 < 10);
            let digit: u8 = ascii_zero_char + (num % 10) as u8;
            assert(digit == (48 + n0 % 10) as u8);
            digits.push(digit);
            num = num / 10;
            if num == 0 {
                assert(n0 < 10);
                assert(n0 % 10 == n0);
                assert(digits@ =~= before + decimal_reversed(n0));
                break;
            }
            assert(n0 >= 10);
            assert(num as nat == n0 / 10);
            assert(digits@ + decimal_reversed(num as nat) =~= before + decimal_reversed(n0));
        }
        let mut result: Vec<u8> = Vec::new();
        let mut i: usize = digits.len();
        while i > 0
            invariant
                i <= digits@.len(),
                result@ == digits@.subrange(i as int, digits@.len() as int).reverse(),
            decreases i,
        {
            i = i - 1;
            result.push(digits[i]);
            assert(result@ =~= digits@.subrange(i as int, digits@.len() as int).reverse());
        }
        proof {
            assert(digits@.subrange(0, digits@.len() as int) =~= digits@);
            lemma_decimal_reversed(a as nat);
        }
        result
    }
}


/// The name of the token with nonce `nonce`: the base, `" #"` and the
/// nonce in decimal.
pub open spec fn token_name(base: Seq<u8>, nonce: u16) -> Seq<u8> {
    base + seq![32u8, 35u8] + decimal(nonce as nat)
}

/// The URI of the image at `index`: the base URI, `"/"`, the index in
/// decimal and the extension.
pub open spec fn image_uri(image_base_uri: Seq<u8>, image_extension: Seq<u8>, index: u16) -> Seq<u8> {
    image_base_uri + seq![47u8] + decimal(index as nat) + image_extension
}

/// The URI of the metadata at `index`: the base URI, `"/"` and the index in
/// decimal.
pub open spec fn metadata_uri(metadata_base_uri: Seq<u8>, index: u16) -> Seq<u8> {
    metadata_base_uri + seq![47u8] + decimal(index as nat)
}

impl NftTemplate {
    /// The image index of the token with nonce `nonce`: the one the shuffle
    /// gave it, or the nonce itself where it gave none.
    pub open spec fn token_index(&self, nonce: u16) -> u16 {
        let index = value_or(self.nonce_to_index.view(), nonce, 0u16);
        if index == 0 {
            nonce
        } else {
            index
        }
    }

    pub fn get_token_index(&self, nonce: u16) -> (r: u16)
        requires
            self.wf(),
        ensures
            r == self.token_index(nonce),
            self.nonce_to_index.view().contains_key(nonce) && self.nonce_to_index.view()[nonce]
                != 0 ==> r == self.nonce_to_index.view()[nonce],
            !(self.nonce_to_index.view().contains_key(nonce) && self.nonce_to_index.view()[nonce]
                != 0) ==> r == nonce,
    {
        let index = match self.nonce_to_index.get(&nonce) {
            Some(i) => *i,
            None => 0,
        };
        if index == 0 {
            nonce
        } else {
            index
        }
    }

    pub fn compute_token_name(&self, token_name_base: &Vec<u8>, expected_nonce: u16) -> (r: Vec<u8>)
        ensures
            r@ == token_name(token_name_base@, expected_nonce),
    {
        let mut delimiter: Vec<u8> = Vec::new();
        delimiter.push(32);
        delimiter.push(35);
        let expected_nonce_string = self.u16_to_string(expected_nonce);
        let mut name: Vec<u8> = Vec::new();
        append_bytes(&mut name, token_name_base);
        append_bytes(&mut name, &delimiter);
        append_bytes(&mut name, &expected_nonce_string);
        assert(delimiter@ =~= seq![32u8, 35u8]);
        assert(name@ =~= token_name(token_name_base@, expected_nonce));
        name
    }

    /// The URIs of the token with nonce `expected_nonce`: that of its image
    /// and, where a metadata base URI is set, that of its metadata.
    pub fn compute_token_uris(
        &self,
        image_base_uri: &Vec<u8>,
        image_extension: &Vec<u8>,
        metadata_base_uri: &Vec<u8>,
        expected_nonce: u16,
    ) -> (r: Vec<Vec<u8>>)
        requires
            self.wf(),
        ensures
            r@.len() == if metadata_base_uri@.len() == 0 {
                1int
            } else {
                2int
            },
            r@[0]@ == image_uri(image_base_uri@, image_extension@, self.token_index(expected_nonce)),
            metadata_base_uri@.len() != 0 ==> r@[1]@ == metadata_uri(
                metadata_base_uri@,
                self.token_index(expected_nonce),
            ),
    {
        let mut result: Vec<Vec<u8>> = Vec::new();
        let mut delimiter: Vec<u8> = Vec::new();
        delimiter.push(47);
        assert(delimiter@ =~= seq![47u8]);
        let index = self.get_token_index(expected_nonce);
        let index_string = self.u16_to_string(index);
        let mut own_image_uri: Vec<u8> = Vec::new();
        append_bytes(&mut own_image_uri, image_base_uri);
        append_bytes(&mut own_image_uri, &delimiter);
        append_bytes(&mut own_image_uri, &index_string);
        append_bytes(&mut own_image_uri, image_extension);
        assert(own_image_uri@ =~= image_uri(image_base_uri@, image_extension@, index));
        result.push(own_image_uri);
        if metadata_base_uri.len() != 0 {
            let mut own_metadata_uri: Vec<u8> = Vec::new();
            append_bytes(&mut own_metadata_uri, metadata_base_uri);
            append_bytes(&mut own_metadata_uri, &delimiter);
            append_bytes(&mut own_metadata_uri, &index_string);
            assert(own_metadata_uri@ =~= metadata_uri(metadata_base_uri@, index));
            result.push(own_metadata_uri);
        }
        result
    }
}

} // verus!

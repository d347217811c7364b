use vstd::prelude::*;

verus! {

/// A 32-byte account address, held as its first and last 16 bytes read
/// big-endian.
#[derive(Clone, Copy, PartialEq, Eq, Structural, Debug)]
pub struct Address {
    pub hi: u128,
    pub lo: u128,
}

impl Address {
    /// The address made of 32 zero bytes.
    pub open spec fn zero_spec() -> Address {
        Address { hi: 0, lo: 0 }
    }

    pub fn zero() -> (r: Address)
        ensures
            r == Address::zero_spec(),
    {
        Address { hi: 0, lo: 0 }
    }

    pub fn is_zero(&self) -> (r: bool)
        ensures
            r == (*self == Address::zero_spec()),
    {
        self.hi == 0 && self.lo == 0
    }

    pub fn same(&self, other: &Address) -> (r: bool)
        ensures
            r == (*self == *other),
    {
        self.hi == other.hi && self.lo == other.lo
    }
}

impl View for Address {
    type V = Address;

    open spec fn view(&self) -> Address {
        *self
    }
}

/// An ESDT token identifier, such as `ERDSEA-a1b2c3`, as its bytes.
pub type TokenIdentifier = Vec<u8>;

/// The value a storage map gives for `k`: the stored one, or `default` where
/// nothing is stored.
pub open spec fn value_or<K, V>(m: Map<K, V>, k: K, default: V) -> V {
    if m.contains_key(k) {
        m[k]
    } else {
        default
    }
}

/// An upper-case letter or a digit.
pub open spec fn is_upper_alnum(c: u8) -> bool {
    (65 <= c <= 90) || (48 <= c <= 57)
}

/// A lower-case letter or a digit.
pub open spec fn is_lower_alnum(c: u8) -> bool {
    (97 <= c <= 122) || (48 <= c <= 57)
}

/// The form of an ESDT token identifier: a ticker of 3 to 10 upper-case
/// letters and digits, a dash (byte 45), and 6 lower-case letters and digits.
pub open spec fn valid_esdt_identifier(s: Seq<u8>) -> bool {
    &&& 10 <= s.len() <= 17
    &&& forall|i: int| 0 <= i < s.len() - 7 ==> is_upper_alnum(#[trigger] s[i])
    &&& s[s.len() - 7] == 45
    &&& forall|i: int| s.len() - 6 <= i < s.len() ==> is_lower_alnum(#[trigger] s[i])
}

/// Tells whether `id` has the form of an ESDT token identifier.
pub fn is_valid_esdt_identifier(id: &Vec<u8>) -> (r: bool)
    ensures
        r == valid_esdt_identifier(id@),
{
    let n = id.len();
    if n < 10 || n > 17 {
        return false;
    }
    let ticker_len = n - 7;
    let mut i: usize = 0;
    while i < ticker_len
        invariant
            n == id@.len(),
            10 <= n <= 17,
            ticker_len == n - 7,
            i <= ticker_len,
            forall|j: int| 0 <= j < i ==> is_upper_alnum(#[trigger] id@[j]),
        decreases ticker_len - i,
    {
        let c = id[i];
        if !((65 <= c && c <= 90) || (48 <= c && c <= 57)) {
            assert(!is_upper_alnum(id@[i as int]));
            return false;
        }
        i = i + 1;
    }
    if id[ticker_len] != 45 {
        return false;
    }
    let mut k: usize = n - 6;
    while k < n
        invariant
            n == id@.len(),
            10 <= n <= 17,
            n - 6 <= k <= n,
            forall|j: int| 0 <= j < n - 7 ==> is_upper_alnum(#[trigger] id@[j]),
            id@[n - 7] == 45,
            forall|j: int| n - 6 <= j < k ==> is_lower_alnum(#[trigger] id@[j]),
        decreases n - k,
    {
        let c = id[k];
        if !((97 <= c && c <= 122) || (48 <= c && c <= 57)) {
            assert(!is_lower_alnum(id@[k as int]));
            return false;
        }
        k = k + 1;
    }
    true
}

/// Byte-wise equality of two byte strings.
pub fn bytes_eq(a: &Vec<u8>, b: &Vec<u8>) -> (r: bool)
    ensures
        r == (a@ == b@),
{
    if a.len() != b.len() {
        return false;
    }
    let mut i: usize = 0;
    while i < a.len()
        invariant
            a@.len() == b@.len(),
            i <= a@.len(),
            forall|j: int| 0 <= j < i ==> a@[j] == b@[j],
        decreases a@.len() - i,
    {
        if a[i] != b[i] {
            return false;
        }
        i = i + 1;
    }
    assert(a@ =~= b@);
    true
}

/// Appends the bytes of `src` to `dst`.
pub fn append_bytes(dst: &mut Vec<u8>, src: &Vec<u8>)
    ensures
        final(dst)@ == old(dst)@ + src@,
{
    let mut i: usize = 0;
    while i < src.len()
        invariant
            i <= src@.len(),
            dst@ == old(dst)@ + src@.subrange(0, i as int),
        decreases src@.len() - i,
    {
        dst.push(src[i]);
        i = i + 1;
        assert(dst@ =~= old(dst)@ + src@.subrange(0, i as int));
    }
    assert(src@.subrange(0, i as int) =~= src@);
}

/// Copies a byte string.
pub fn bytes_copy(a: &Vec<u8>) -> (r: Vec<u8>)
    ensures
        r@ == a@,
{
    let mut r: Vec<u8> = Vec::new();
    let mut i: usize = 0;
    while i < a.len()
        invariant
            i <= a@.len(),
            r@ == a@.subrange(0, i as int),
        decreases a@.len() - i,
    {
        r.push(a[i]);
        i = i + 1;
        assert(r@ =~= a@.subrange(0, i as int));
    }
    assert(r@ =~= a@);
    r
}

} // verus!

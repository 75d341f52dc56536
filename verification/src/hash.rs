use vstd::prelude::*;

verus! {

/// The SHA3-256 digest of a byte string.
pub uninterp spec fn sha3_256_digest(data: Seq<u8>) -> Seq<u8>;

/// Calls `sha3::Digest::digest` for `sha3::Sha3_256` on `data`.
/// Assumed, not proved: the result is `sha3_256_digest(data@)`, so it depends
/// on the bytes alone. What the digest is, beyond being 32 bytes (the result
/// type), is left unsaid.
#[verifier::external_body]
fn sha3_256(data: &[u8]) -> (digest: [u8; 32])
    ensures
        digest@ == sha3_256_digest(data@),
{
    <sha3::Sha3_256 as sha3::Digest>::digest(data).into()
}

/// A 256-bit hash value.
#[derive(Clone, Copy, Debug, PartialEq, Eq)]
pub struct Hash256 {
    pub hash: [u8; 32],
}

impl View for Hash256 {
    type V = Seq<u8>;

    open spec fn view(&self) -> Seq<u8> {
        self.hash@
    }
}

/// The all-zero hash value.
pub open spec fn zero_hash() -> Seq<u8> {
    Seq::new(32, |i: int| 0u8)
}

impl Hash256 {
    /// The all-zero hash.
    pub fn zero() -> (h: Hash256)
        ensures
            h@ == zero_hash(),
    {
        let h = Hash256 { hash: [0u8; 32] };
        assert(h@ =~= zero_hash());
        h
    }

    /// Hashes `data`.
    pub fn hash(data: &[u8]) -> (h: Hash256)
        ensures
            h@ == sha3_256_digest(data@),
    {
        Hash256 { hash: sha3_256(data) }
    }

    /// Hashes the concatenation of `self` and `other`.
    pub fn aggregate(&self, other: &Hash256) -> (h: Hash256)
        ensures
            h@ == aggregate_hash(self@, other@),
    {
        let mut data: Vec<u8> = Vec::new();
        let mut i: usize = 0;
        while i < 32
            invariant
                0 <= i <= 32,
                data@ == self@.take(i as int),
            decreases 32 - i,
        {
            data.push(self.hash[i]);
            i = i + 1;
            assert(data@ =~= self@.take(i as int));
        }
        let mut j: usize = 0;
        while j < 32
            invariant
                0 <= j <= 32,
                data@ == self@ + other@.take(j as int),
            decreases 32 - j,
        {
            data.push(other.hash[j]);
            j = j + 1;
            assert(data@ =~= self@ + other@.take(j as int));
        }
        assert(self@.take(32) =~= self@);
        assert(other@.take(32) =~= other@);
        Hash256::hash(data.as_slice())
    }
}

/// The hash of the concatenation of two hashes.
pub open spec fn aggregate_hash(a: Seq<u8>, b: Seq<u8>) -> Seq<u8> {
    sha3_256_digest(a + b)
}

/// The ASCII decimal digits of `n`, without leading zeros.
pub open spec fn decimal_digits(n: nat) -> Seq<u8>
    decreases n,
{
    if n < 10 {
        seq![(48 + n) as u8]
    } else {
        decimal_digits(n / 10).push((48 + n % 10) as u8)
    }
}

/// The ASCII decimal representation of `n`, as `format!("{}", n)` writes it.
pub fn decimal_bytes(n: u64) -> (digits: Vec<u8>)
    ensures
        digits@ == decimal_digits(n as nat),
{
    if n == 0 {
        return vec![48u8];
    }
    let mut m: u64 = n;
    let mut digits: Vec<u8> = Vec::new();
    while m > 0
        invariant
            m > 0 ==> decimal_digits(n as nat) == decimal_digits(m as nat) + digits@,
            m == 0 ==> decimal_digits(n as nat) == digits@,
        decreases m,
    {
        let d: u8 = (m % 10) as u8;
        let ghost old_digits = digits@;
        let ghost old_m = m;
        digits.insert(0, 48 + d);
        m = m / 10;
        proof {
            if old_m < 10 {
                assert(decimal_digits(old_m as nat) =~= seq![(48 + old_m) as u8]);
                assert(digits@ =~= seq![(48 + d) as u8] + old_digits);
            } else {
                assert(decimal_digits(old_m as nat) == decimal_digits(m as nat).push(
                    (48 + old_m % 10) as u8,
                ));
                assert(digits@ =~= seq![(48 + d) as u8] + old_digits);
                assert(decimal_digits(m as nat) + digits@ =~= decimal_digits(m as nat).push(
                    (48 + old_m % 10) as u8,
                ) + old_digits);
            }
        }
    }
    digits
}

} // verus!

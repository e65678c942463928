//! Fixed-width byte words: 256-bit integers, addresses and digests.
//!
//! A 256-bit integer is held as 32 little-endian bytes, an address as 20
//! bytes, a digest as 32 bytes. The mathematical value of a little-endian
//! byte string is given by [`le_value`], and every contract in the crate that
//! speaks of a numeric field speaks through it.

use vstd::prelude::*;

verus! {

use vstd::arithmetic::power::pow;
use vstd::arithmetic::power::lemma_pow_increases;
use vstd::arithmetic::div_mod::lemma_fundamental_div_mod;

/// Number of bytes in a 256-bit word.
pub const WORD_WIDTH: usize = 32;

/// Number of bytes in an EVM-style address.
pub const ADDRESS_WIDTH: usize = 20;

/// Numeric value of a little-endian byte string.
pub open spec fn le_value(s: Seq<u8>) -> nat
    decreases s.len(),
{
    if s.len() == 0 {
        0
    } else {
        s[0] as nat + 256 * le_value(s.skip(1))
    }
}

/// The powers of 256 up to the width of a 128-bit integer, as numbers.
pub proof fn lemma_pow256_values()
    ensures
        pow(256, 0) == 1,
        pow(256, 1) == 0x100,
        pow(256, 2) == 0x10000,
        pow(256, 3) == 0x1000000,
        pow(256, 4) == 0x100000000,
        pow(256, 5) == 0x10000000000,
        pow(256, 6) == 0x1000000000000,
        pow(256, 7) == 0x100000000000000,
        pow(256, 8) == 0x10000000000000000,
        pow(256, 16) == 0x100000000000000000000000000000000,
{
    reveal(pow);
    assert(pow(256, 0) == 1);
    assert(pow(256, 1) == 256 * pow(256, 0));
    assert(pow(256, 2) == 256 * pow(256, 1));
    assert(pow(256, 3) == 256 * pow(256, 2));
    assert(pow(256, 4) == 256 * pow(256, 3));
    assert(pow(256, 5) == 256 * pow(256, 4));
    assert(pow(256, 6) == 256 * pow(256, 5));
    assert(pow(256, 7) == 256 * pow(256, 6));
    assert(pow(256, 8) == 256 * pow(256, 7));
    assert(pow(256, 9) == 256 * pow(256, 8));
    assert(pow(256, 10) == 256 * pow(256, 9));
    assert(pow(256, 11) == 256 * pow(256, 10));
    assert(pow(256, 12) == 256 * pow(256, 11));
    assert(pow(256, 13) == 256 * pow(256, 12));
    assert(pow(256, 14) == 256 * pow(256, 13));
    assert(pow(256, 15) == 256 * pow(256, 14));
    assert(pow(256, 16) == 256 * pow(256, 15));
}

/// Splitting a little-endian byte string splits its value.
pub proof fn lemma_le_value_split(s: Seq<u8>, n: int)
    requires
        0 <= n <= s.len(),
    ensures
        le_value(s) == le_value(s.take(n)) + pow(256, n as nat) * le_value(s.skip(n)),
    decreases n,
{
    reveal(pow);
    if n == 0 {
        assert(s.skip(0) =~= s);
        assert(s.take(0).len() == 0);
        assert(pow(256, 0) == 1);
    } else {
        let t = s.skip(1);
        lemma_le_value_split(t, n - 1);
        assert(t.take(n - 1) =~= s.take(n).skip(1));
        assert(t.skip(n - 1) =~= s.skip(n));
        assert(s.take(n)[0] == s[0]);
        assert(le_value(s.take(n)) == s[0] as nat + 256 * le_value(t.take(n - 1)));
        assert(pow(256, n as nat) == 256 * pow(256, (n - 1) as nat));
        let a = le_value(t.take(n - 1));
        let p = pow(256, (n - 1) as nat);
        let b = le_value(t.skip(n - 1));
        assert(256 * (a + p * b) == 256 * a + (256 * p) * b) by (nonlinear_arith);
    }
}

/// The value of a byte string is below 256 to its length.
pub proof fn lemma_le_value_bound(s: Seq<u8>)
    ensures
        le_value(s) < pow(256, s.len()),
    decreases s.len(),
{
    reveal(pow);
    if s.len() == 0 {
        assert(pow(256, 0) == 1);
    } else {
        let t = s.skip(1);
        lemma_le_value_bound(t);
        assert(pow(256, s.len()) == 256 * pow(256, t.len()));
        let v = le_value(t);
        let p = pow(256, t.len());
        assert(v < p && s[0] < 256 ==> s[0] as nat + 256 * v < 256 * p) by (nonlinear_arith);
    }
}

/// A byte string whose bytes are all zero has value zero.
pub proof fn lemma_le_value_zero(s: Seq<u8>)
    requires
        forall|i: int| 0 <= i < s.len() ==> s[i] == 0,
    ensures
        le_value(s) == 0,
    decreases s.len(),
{
    if s.len() > 0 {
        lemma_le_value_zero(s.skip(1));
    }
}

/// A byte string whose tail from position `n` on is all zero has the value
/// of its first `n` bytes.
pub proof fn lemma_le_value_zero_tail(s: Seq<u8>, n: int)
    requires
        0 <= n <= s.len(),
        forall|i: int| n <= i < s.len() ==> s[i] == 0,
    ensures
        le_value(s) == le_value(s.take(n)),
{
    lemma_le_value_split(s, n);
    assert(forall|i: int| 0 <= i < s.skip(n).len() ==> s.skip(n)[i] == 0);
    lemma_le_value_zero(s.skip(n));
}

/// A nonzero byte at position `i` forces the value up to at least 256^i.
pub proof fn lemma_le_value_nonzero_byte(s: Seq<u8>, i: int)
    requires
        0 <= i < s.len(),
        s[i] != 0,
    ensures
        le_value(s) >= pow(256, i as nat),
{
    lemma_le_value_split(s, i);
    let tail = s.skip(i);
    assert(tail[0] == s[i]);
    assert(le_value(tail) >= 1);
    let p = pow(256, i as nat);
    vstd::arithmetic::power::lemma_pow_positive(256, i as nat);
    assert(le_value(tail) >= 1 && p >= 1 ==> p * le_value(tail) >= p) by (nonlinear_arith);
}

/// Byte `j` of a little-endian byte string is digit `j` of its value in
/// base 256.
pub proof fn lemma_le_value_digit(s: Seq<u8>, j: int)
    requires
        0 <= j < s.len(),
    ensures
        (le_value(s) as int / pow(256, j as nat)) % 256 == s[j] as int,
{
    let p = pow(256, j as nat);
    vstd::arithmetic::power::lemma_pow_positive(256, j as nat);
    lemma_le_value_split(s, j);
    let head = le_value(s.take(j));
    let tail = le_value(s.skip(j));
    lemma_le_value_bound(s.take(j));
    vstd::arithmetic::div_mod::lemma_div_multiples_vanish_fancy(tail as int, head as int, p);
    assert(p * (tail as int) + head == le_value(s) as int);
    assert(le_value(s) as int / p == tail as int);
    let rest = le_value(s.skip(j).skip(1));
    assert(s.skip(j)[0] == s[j]);
    assert(tail == s[j] as nat + 256 * rest);
    vstd::arithmetic::div_mod::lemma_mod_multiples_vanish(rest as int, s[j] as int, 256);
    vstd::arithmetic::div_mod::lemma_small_mod(s[j] as nat, 256);
}

/// A 256-bit unsigned integer, stored as 32 little-endian bytes.
#[derive(Clone, Debug, PartialEq, Eq)]
pub struct U256 {
    pub bytes: Vec<u8>,
}

impl View for U256 {
    type V = Seq<u8>;

    open spec fn view(&self) -> Seq<u8> {
        self.bytes@
    }
}

impl U256 {
    /// Well-formed: exactly 32 bytes.
    pub open spec fn wf(&self) -> bool {
        self@.len() == WORD_WIDTH
    }

    /// The number this word stands for.
    pub open spec fn value(&self) -> nat {
        le_value(self@)
    }

    /// The zero word.
    pub fn zero() -> (r: U256)
        ensures
            r.wf(),
            r.value() == 0,
    {
        U256::from_u128(0)
    }

    /// The word holding a 64-bit value.
    pub fn from_u64(x: u64) -> (r: U256)
        ensures
            r.wf(),
            r.value() == x as nat,
    {
        U256::from_u128(x as u128)
    }

    /// The word holding a 128-bit value.
    pub fn from_u128(x: u128) -> (r: U256)
        ensures
            r.wf(),
            r.value() == x as nat,
    {
        let mut bytes: Vec<u8> = Vec::new();
        let mut v: u128 = x;
        let mut i: usize = 0;
        proof {
            lemma_pow256_values();
        }
        while i < 16
            invariant
                i <= 16,
                bytes@.len() == i,
                le_value(bytes@) + pow(256, i as nat) * (v as nat) == x as nat,
            decreases 16 - i,
        {
            let ghost old_bytes = bytes@;
            let ghost old_v = v as nat;
            let b: u8 = (v % 256) as u8;
            bytes.push(b);
            v = v / 256;
            i = i + 1;
            proof {
                reveal(pow);
                let p = pow(256, (i - 1) as nat);
                vstd::arithmetic::power::lemma_pow_positive(256, (i - 1) as nat);
                lemma_le_value_split(bytes@, i - 1);
                assert(bytes@.take(i - 1) =~= old_bytes);
                let tail = bytes@.skip(i - 1);
                assert(tail.len() == 1 && tail[0] == b);
                assert(tail.skip(1).len() == 0);
                assert(le_value(tail.skip(1)) == 0);
                assert(le_value(tail) == b as nat);
                assert(le_value(bytes@) == le_value(old_bytes) + p * (b as nat));
                lemma_fundamental_div_mod(old_v as int, 256);
                assert(old_v == 256 * (v as nat) + (b as nat));
                assert(pow(256, i as nat) == 256 * p);
                assert(p * (256 * (v as nat) + (b as nat)) == (256 * p) * (v as nat) + p * (
                b as nat)) by (nonlinear_arith);
            }
        }
        proof {
            lemma_pow256_values();
            assert(pow(256, 16) * (v as nat) <= x as nat);
            assert(v as nat <= x as nat);
            if v as nat > 0 {
                assert(pow(256, 16) * (v as nat) >= pow(256, 16)) by (nonlinear_arith)
                    requires
                        v as nat >= 1,
                        pow(256, 16) > 0,
                ;
            }
            assert(v == 0);
        }
        while i < 32
            invariant
                16 <= i <= 32,
                bytes@.len() == i,
                le_value(bytes@) == x as nat,
            decreases 32 - i,
        {
            let ghost old_bytes = bytes@;
            bytes.push(0);
            i = i + 1;
            proof {
                lemma_le_value_zero_tail(bytes@, i - 1);
                assert(bytes@.take(i - 1) =~= old_bytes);
            }
        }
        U256 { bytes }
    }

    /// A word read from exactly 32 little-endian bytes; anything of another
    /// length is refused.
    pub fn from_le_bytes(bytes: Vec<u8>) -> (r: Option<U256>)
        ensures
            r is Some <==> bytes@.len() == WORD_WIDTH,
            r matches Some(w) ==> w.wf() && w@ == bytes@,
    {
        if bytes.len() == WORD_WIDTH {
            Some(U256 { bytes })
        } else {
            None
        }
    }

    /// Narrow the word to 64 bits; refused exactly when the value does not
    /// fit, never truncated.
    pub fn try_to_u64(&self) -> (r: Option<u64>)
        requires
            self.wf(),
        ensures
            r is Some <==> self.value() < 0x10000000000000000,
            r matches Some(x) ==> x as nat == self.value(),
    {
        let mut i: usize = 8;
        while i < 32
            invariant
                8 <= i <= 32,
                self.wf(),
                forall|j: int| 8 <= j < i ==> self@[j] == 0,
            decreases 32 - i,
        {
            if self.bytes[i] != 0 {
                proof {
                    lemma_le_value_nonzero_byte(self@, i as int);
                    lemma_pow256_values();
                    lemma_pow_increases(256, 8, i as nat);
                }
                return None;
            }
            i = i + 1;
        }
        let mut x: u64 = 0;
        let mut k: usize = 8;
        while k > 0
            invariant
                k <= 8,
                self.wf(),
                x as nat == le_value(self@.subrange(k as int, 8)),
            decreases k,
        {
            proof {
                lemma_le_value_bound(self@.subrange(k as int, 8));
                lemma_pow256_values();
                lemma_pow_increases(256, (8 - k as int) as nat, 7);
            }
            k = k - 1;
            x = x * 256 + (self.bytes[k] as u64);
            proof {
                let sub = self@.subrange(k as int, 8);
                assert(sub[0] == self@[k as int]);
                assert(sub.skip(1) =~= self@.subrange(k as int + 1, 8));
            }
        }
        proof {
            assert(self@.subrange(0, 8) =~= self@.take(8));
            lemma_le_value_zero_tail(self@, 8);
            lemma_le_value_bound(self@.take(8));
            lemma_pow256_values();
        }
        Some(x)
    }
}

/// An EVM-style address: exactly 20 bytes.
#[derive(Clone, Debug, PartialEq, Eq)]
pub struct H160 {
    pub bytes: Vec<u8>,
}

impl View for H160 {
    type V = Seq<u8>;

    open spec fn view(&self) -> Seq<u8> {
        self.bytes@
    }
}

impl H160 {
    /// Well-formed: exactly 20 bytes.
    pub open spec fn wf(&self) -> bool {
        self@.len() == ADDRESS_WIDTH
    }

    /// An address read from exactly 20 bytes; anything of another length is
    /// refused.
    pub fn from_bytes(bytes: Vec<u8>) -> (r: Option<H160>)
        ensures
            r is Some <==> bytes@.len() == ADDRESS_WIDTH,
            r matches Some(a) ==> a.wf() && a@ == bytes@,
    {
        if bytes.len() == ADDRESS_WIDTH {
            Some(H160 { bytes })
        } else {
            None
        }
    }
}

/// A 256-bit digest, such as a state root: exactly 32 bytes.
#[derive(Clone, Debug, PartialEq, Eq)]
pub struct H256 {
    pub bytes: Vec<u8>,
}

impl View for H256 {
    type V = Seq<u8>;

    open spec fn view(&self) -> Seq<u8> {
        self.bytes@
    }
}

impl H256 {
    /// Well-formed: exactly 32 bytes.
    pub open spec fn wf(&self) -> bool {
        self@.len() == WORD_WIDTH
    }

    /// A digest read from exactly 32 bytes; anything of another length is
    /// refused.
    pub fn from_bytes(bytes: Vec<u8>) -> (r: Option<H256>)
        ensures
            r is Some <==> bytes@.len() == WORD_WIDTH,
            r matches Some(d) ==> d.wf() && d@ == bytes@,
    {
        if bytes.len() == WORD_WIDTH {
            Some(H256 { bytes })
        } else {
            None
        }
    }
}

/// Byte-for-byte equality of two byte vectors.
pub fn eq_bytes(a: &Vec<u8>, b: &Vec<u8>) -> (r: bool)
    ensures
        r <==> a@ == b@,
{
    if a.len() != b.len() {
        return false;
    }
    let mut i: usize = 0;
    while i < a.len()
        invariant
            i <= a@.len(),
            a@.len() == b@.len(),
            forall|j: int| 0 <= j < i ==> a@[j] == b@[j],
        decreases a@.len() - i,
    {
        if a[i] != b[i] {
            return false;
        }
        i = i + 1;
    }
    proof {
        assert(a@ =~= b@);
    }
    true
}

/// The bytes of `src` from `start` on, `n` of them, as a fresh vector.
pub fn copy_range(src: &Vec<u8>, start: usize, n: usize) -> (r: Vec<u8>)
    requires
        start + n <= src@.len(),
    ensures
        r@ == src@.subrange(start as int, start as int + n),
{
    let total = src.len();
    let mut r: Vec<u8> = Vec::new();
    let mut i: usize = 0;
    while i < n
        invariant
            i <= n,
            start + n <= total == src@.len(),
            r@ == src@.subrange(start as int, start as int + i),
        decreases n - i,
    {
        r.push(src[start + i]);
        i = i + 1;
        proof {
            assert(r@ =~= src@.subrange(start as int, start as int + i));
        }
    }
    r
}

} // verus!

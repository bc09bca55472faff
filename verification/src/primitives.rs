//! Fixed-width values of the virtual machine: addresses, hashes and words.
//!
//! Each is a tuple of unsigned integers, most significant part first, so that
//! the order std gives to tuples is the numeric order and the values can key
//! an ordered map whose behaviour vstd specifies.

use vstd::prelude::*;

verus! {

/// A 160-bit address: the first 4 bytes and the last 16, each read big-endian.
pub type H160 = (u32, u128);

/// A 256-bit hash: its first and its last 16 bytes, each read big-endian.
pub type H256 = (u128, u128);

/// An unsigned 256-bit word as four 64-bit limbs, most significant first.
pub type U256 = (u64, u64, u64, u64);

/// The number that a word stands for.
pub open spec fn u256_value(a: U256) -> nat {
    (a.0 * 0x1_0000_0000_0000_0000_0000_0000_0000_0000_0000_0000_0000_0000int
        + a.1 * 0x1_0000_0000_0000_0000_0000_0000_0000_0000int
        + a.2 * 0x1_0000_0000_0000_0000int
        + a.3) as nat
}

/// The hash whose bytes are all zero.
#[verifier::allow_in_spec]
pub fn h256_zero() -> H256
    returns
        (0u128, 0u128),
{
    (0, 0)
}

/// The word that stands for zero.
#[verifier::allow_in_spec]
pub fn u256_zero() -> U256
    returns
        (0u64, 0u64, 0u64, 0u64),
{
    (0, 0, 0, 0)
}

/// The word that stands for one.
#[verifier::allow_in_spec]
pub fn u256_one() -> U256
    returns
        (0u64, 0u64, 0u64, 1u64),
{
    (0, 0, 0, 1)
}

/// Whether two hashes are the same.
pub fn h256_eq(a: H256, b: H256) -> (same: bool)
    ensures
        same == (a == b),
{
    a.0 == b.0 && a.1 == b.1
}

/// Whether a hash is the zero hash.
pub fn h256_is_zero(a: H256) -> (zero: bool)
    ensures
        zero == (a == h256_zero()),
{
    a.0 == 0 && a.1 == 0
}

/// Whether two words are the same.
pub fn u256_eq(a: U256, b: U256) -> (same: bool)
    ensures
        same == (a == b),
        same == (u256_value(a) == u256_value(b)),
{
    a.0 == b.0 && a.1 == b.1 && a.2 == b.2 && a.3 == b.3
}

/// Whether a word stands for zero.
pub fn u256_is_zero(a: U256) -> (zero: bool)
    ensures
        zero == (a == u256_zero()),
        zero == (u256_value(a) == 0),
{
    a.0 == 0 && a.1 == 0 && a.2 == 0 && a.3 == 0
}

/// A word is determined by the number it stands for.
pub proof fn lemma_u256_value_injective(a: U256, b: U256)
    requires
        u256_value(a) == u256_value(b),
    ensures
        a == b,
{
}

/// Whether `a` is at least `b`, by the `>=` of `primitive_types::U256`,
/// which compares the limbs from the most significant down and so orders
/// words as the numbers they stand for.
#[verifier::external_body]
pub(crate) fn u256_ge(a: U256, b: U256) -> (ge: bool)
    ensures
        ge == (u256_value(a) >= u256_value(b)),
{
    primitive_types::U256([a.3, a.2, a.1, a.0]) >= primitive_types::U256([b.3, b.2, b.1, b.0])
}

/// The difference of two words, by the `-` of `primitive_types::U256`. That
/// operator panics when the result would be negative, so the call asks for
/// `a` to be at least `b`; the result then stands for the exact difference.
#[verifier::external_body]
pub(crate) fn u256_sub(a: U256, b: U256) -> (d: U256)
    requires
        u256_value(a) >= u256_value(b),
    ensures
        u256_value(d) == u256_value(a) - u256_value(b),
{
    let d = primitive_types::U256([a.3, a.2, a.1, a.0]) - primitive_types::U256([b.3, b.2, b.1, b.0]);
    (d.0[3], d.0[2], d.0[1], d.0[0])
}

/// The word that stands for `n`, by `primitive_types::U256::from`, which
/// puts `n` in the least significant limb and zero in the others.
#[verifier::external_body]
pub(crate) fn u256_from_usize(n: usize) -> (w: U256)
    ensures
        u256_value(w) == n,
{
    let w = primitive_types::U256::from(n);
    (w.0[3], w.0[2], w.0[1], w.0[0])
}

/// The number that a word stands for, by `primitive_types::U256::as_usize`.
/// That method panics when the number does not fit, so the call asks for it
/// to fit.
#[verifier::external_body]
pub(crate) fn u256_as_usize(a: U256) -> (n: usize)
    requires
        u256_value(a) <= usize::MAX,
    ensures
        n == u256_value(a),
{
    primitive_types::U256([a.3, a.2, a.1, a.0]).as_usize()
}

/// The number that a byte string stands for when read big-endian.
pub open spec fn be_value(bytes: Seq<u8>) -> nat
    decreases bytes.len(),
{
    if bytes.len() == 0 {
        0
    } else {
        be_value(bytes.drop_last()) * 256 + bytes.last() as nat
    }
}

/// 256 to the power `n`.
pub open spec fn pow256(n: nat) -> nat
    decreases n,
{
    if n == 0 {
        1
    } else {
        256 * pow256((n - 1) as nat)
    }
}

/// A big-endian byte string of length `n` stands for a number below 256^n.
pub proof fn lemma_be_value_bound(bytes: Seq<u8>)
    ensures
        be_value(bytes) < pow256(bytes.len()),
    decreases bytes.len(),
{
    if bytes.len() > 0 {
        lemma_be_value_bound(bytes.drop_last());
    }
}

/// The hash with the given 32 bytes.
pub open spec fn h256_of_bytes(bytes: Seq<u8>) -> H256 {
    (be_value(bytes.subrange(0, 16)) as u128, be_value(bytes.subrange(16, 32)) as u128)
}

proof fn lemma_pow256_16()
    ensures
        pow256(16) == 0x1_0000_0000_0000_0000_0000_0000_0000_0000int,
{
    reveal_with_fuel(pow256, 17);
}

proof fn lemma_pow256_monotonic(i: nat, j: nat)
    requires
        i <= j,
    ensures
        pow256(i) <= pow256(j),
    decreases j,
{
    if i < j {
        lemma_pow256_monotonic(i, (j - 1) as nat);
    }
}

/// Reads 16 bytes of `bytes`, from index `start` on, as a big-endian number.
fn be_u128(bytes: &[u8; 32], start: usize) -> (v: u128)
    requires
        start + 16 <= 32,
    ensures
        v == be_value(bytes@.subrange(start as int, start + 16)),
{
    let mut acc: u128 = 0;
    let mut i: usize = 0;
    while i < 16
        invariant
            i <= 16,
            start + 16 <= 32,
            acc == be_value(bytes@.subrange(start as int, start + i)),
        decreases 16 - i,
    {
        let ghost before = bytes@.subrange(start as int, start + i);
        let ghost after = bytes@.subrange(start as int, start + i + 1);
        proof {
            assert(after.drop_last() == before);
            assert(after.last() == bytes@[start + i]);
            lemma_be_value_bound(after);
            lemma_pow256_monotonic(after.len(), 16);
            lemma_pow256_16();
        }
        acc = acc * 256 + bytes[start + i] as u128;
        i = i + 1;
    }
    acc
}

/// The hash with the given bytes.
pub fn h256_from_bytes(bytes: &[u8; 32]) -> (h: H256)
    ensures
        h == h256_of_bytes(bytes@),
{
    (be_u128(bytes, 0), be_u128(bytes, 16))
}

} // verus!

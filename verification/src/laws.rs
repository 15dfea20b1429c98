//! Proved properties of the mixer: determinism, injectivity of the keying
//! and diffusion steps, length sensitivity, and the relation between the
//! scalar and slice write paths.

use vstd::prelude::*;

use vstd::arithmetic::div_mod::{
    lemma_mod_multiples_vanish, lemma_mul_mod_noop_left, lemma_small_mod,
};
use vstd::arithmetic::mul::{
    lemma_mul_is_associative, lemma_mul_is_commutative, lemma_mul_is_distributive_add,
};

use crate::mixing::{
    le_u16, le_u32, le_u64, mix, rotl23, spec_finish, spec_hash, spec_new, spec_ordered_update,
    spec_update, spec_write, MULTIPLE,
};

verus! {

/// Multiplicative inverse of `MULTIPLE` modulo 2^64.  `MULTIPLE` is odd, so
/// it has one; its existence is what makes every mixing step a bijection of
/// the accumulator.
const MULTIPLE_INVERSE: u64 = 13877824140714322085;

/// Multiplying by `MULTIPLE` and then by its inverse gives the word back:
/// `MULTIPLE * MULTIPLE_INVERSE` is `1 + 4787856489426250814 * 2^64`.
proof fn lemma_mul_inverse_cancels(x: u64)
    ensures
        x.wrapping_mul(MULTIPLE).wrapping_mul(MULTIPLE_INVERSE) == x,
{
    let r: int = 0x1_0000_0000_0000_0000;
    let xi = x as int;
    let m = MULTIPLE as int;
    let minv = MULTIPLE_INVERSE as int;
    let q: int = 4787856489426250814;
    let a = x.wrapping_mul(MULTIPLE);
    assert(a as int == (xi * m) % r);
    assert(a.wrapping_mul(MULTIPLE_INVERSE) as int == ((a as int) * minv) % r);
    lemma_mul_mod_noop_left(xi * m, minv, r);
    assert(((a as int) * minv) % r == ((xi * m) * minv) % r);
    lemma_mul_is_associative(xi, m, minv);
    assert(m * minv == 1 + q * r);
    lemma_mul_is_distributive_add(xi, 1, q * r);
    lemma_mul_is_associative(xi, q, r);
    lemma_mul_is_commutative(xi * q, r);
    lemma_mod_multiples_vanish(xi * q, xi, r);
    assert((r * (xi * q) + xi) % r == xi % r);
    lemma_small_mod(x as nat, r as nat);
    assert(((a as int) * minv) % r == xi);
}

/// Wrapping multiplication by the odd constant `MULTIPLE` is injective.
pub proof fn lemma_multiply_injective(x: u64, y: u64)
    requires
        x.wrapping_mul(MULTIPLE) == y.wrapping_mul(MULTIPLE),
    ensures
        x == y,
{
    lemma_mul_inverse_cancels(x);
    lemma_mul_inverse_cancels(y);
}

/// Rotation by a fixed amount is injective.
proof fn lemma_rotl23_injective(x: u64, y: u64)
    requires
        rotl23(x) == rotl23(y),
    ensures
        x == y,
{
    assert(((x << 23) | (x >> 41)) == ((y << 23) | (y >> 41)) ==> x == y) by (bit_vector);
}

/// Xoring with a fixed mask is injective.
proof fn lemma_xor_cancel(a: u64, b: u64, mask: u64)
    requires
        a ^ mask == b ^ mask,
    ensures
        a == b,
{
    assert(a ^ mask == b ^ mask ==> a == b) by (bit_vector);
}

/// The diffusion step `mix` is a composition of bijections and therefore
/// injective: distinct accumulators diffuse to distinct words.
pub proof fn lemma_mix_injective(x: u64, y: u64)
    requires
        mix(x) == mix(y),
    ensures
        x == y,
{
    lemma_multiply_injective(
        rotl23(x.wrapping_mul(MULTIPLE)),
        rotl23(y.wrapping_mul(MULTIPLE)),
    );
    lemma_rotl23_injective(x.wrapping_mul(MULTIPLE), y.wrapping_mul(MULTIPLE));
    lemma_multiply_injective(x, y);
}

/// Determinism: hashing the same byte stream under the same keys always
/// yields the same digest.
pub proof fn lemma_determinism(key0: u64, key1: u64, data: Seq<u8>, digest1: u64, digest2: u64)
    requires
        digest1 == spec_hash(key0, key1, data),
        digest2 == spec_hash(key0, key1, data),
    ensures
        digest1 == digest2,
{
}

/// Key sensitivity of the keying step, first coordinate: with the second
/// key fixed, distinct first keys seed distinct accumulators.  (That two
/// distinct key pairs give different digests for a whole input holds only
/// with overwhelming probability, not universally; what is provable is that
/// keying itself never conflates keys in either coordinate.)
pub proof fn lemma_new_injective_key0(key0a: u64, key0b: u64, key1: u64)
    requires
        key0a != key0b,
    ensures
        spec_new(key0a, key1) != spec_new(key0b, key1),
{
    if spec_new(key0a, key1) == spec_new(key0b, key1) {
        lemma_xor_cancel(key0a, key0b, rotl23(key1));
    }
}

/// Key sensitivity of the keying step, second coordinate: with the first
/// key fixed, distinct second keys seed distinct accumulators.
pub proof fn lemma_new_injective_key1(key0: u64, key1a: u64, key1b: u64)
    requires
        key1a != key1b,
    ensures
        spec_new(key0, key1a) != spec_new(key0, key1b),
{
    if spec_new(key0, key1a) == spec_new(key0, key1b) {
        let ra = rotl23(key1a);
        let rb = rotl23(key1b);
        assert(key0 ^ ra == key0 ^ rb ==> ra == rb) by (bit_vector);
        lemma_rotl23_injective(key1a, key1b);
    }
}

/// Length sensitivity: under every key pair, the digest of the single zero
/// byte differs from the digest of two zero bytes.  Both streams mix the
/// zero word, but the lengths 1 and 2 are folded into the accumulator by a
/// wrapping add, and everything downstream of that add is injective.
pub proof fn lemma_length_sensitivity(key0: u64, key1: u64)
    ensures
        spec_hash(key0, key1, seq![0u8]) != spec_hash(key0, key1, seq![0u8, 0u8]),
{
    let acc = spec_new(key0, key1);
    let one = seq![0u8];
    let two = seq![0u8, 0u8];
    let acc1 = acc.wrapping_add(1);
    let acc2 = acc.wrapping_add(2);
    assert(spec_write(acc, one) == spec_update(acc1, 0));
    assert(two.subrange(0, 2) =~= two);
    assert(le_u16(two) == 0) by {
        assert(((0u8 as u16) | ((0u8 as u16) << 8)) == 0) by (bit_vector);
    };
    assert((((0u16 as u32) | ((0u16 as u32) << 16)) as u64) == 0) by (bit_vector);
    assert(spec_write(acc, two) == spec_update(acc2, 0));
    let d1 = mix(acc1);
    let d2 = mix(acc2);
    assert(d1 ^ 0u64 == d1 && d2 ^ 0u64 == d2) by (bit_vector);
    if spec_hash(key0, key1, one) == spec_hash(key0, key1, two) {
        lemma_mix_injective(d1, d2);
        lemma_mix_injective(acc1, acc2);
        assert(false);
    }
}

/// Why the ordering key must advance between consecutive blocks: under one
/// fixed key, the ordered transform commits blocks by xor alone, so two
/// adjacent blocks could always be swapped without changing the
/// accumulator.  The key threaded through the bulk loop (advanced by
/// `INCREMENT` after every block) is what breaks this symmetry; the
/// order sensitivity of long inputs rests on it.
pub proof fn lemma_fixed_key_blocks_commute(buffer: u64, x: u64, y: u64, key: u64)
    ensures
        spec_ordered_update(spec_ordered_update(buffer, x, key), y, key) == spec_ordered_update(
            spec_ordered_update(buffer, y, key),
            x,
            key,
        ),
{
    let mx = mix(x ^ key);
    let my = mix(y ^ key);
    assert((buffer ^ mx) ^ my == (buffer ^ my) ^ mx) by (bit_vector);
}

/// Relation between the scalar write path and the slice path on an 8-byte
/// stream: the slice path packs the two overlapping 4-byte windows back
/// into exactly the word the eight bytes encode, so it equals the scalar
/// transform of that word on an accumulator first advanced by the length 8.
/// The two paths are deliberately different: because of that length add,
/// their digests differ for every accumulator.
pub proof fn lemma_scalar_slice_relation(buffer: u64, data: Seq<u8>)
    requires
        data.len() == 8,
    ensures
        spec_write(buffer, data) == spec_update(buffer.wrapping_add(8), le_u64(data)),
        spec_finish(spec_write(buffer, data)) != spec_finish(spec_update(buffer, le_u64(data))),
{
    let b0 = data[0];
    let b1 = data[1];
    let b2 = data[2];
    let b3 = data[3];
    let b4 = data[4];
    let b5 = data[5];
    let b6 = data[6];
    let b7 = data[7];
    assert(data.subrange(data.len() - 4, data.len() as int) =~= data.subrange(4, 8));
    let lo = le_u32(data.subrange(0, 4));
    let hi = le_u32(data.subrange(4, 8));
    let w = le_u64(data);
    assert(lo == (b0 as u32) | ((b1 as u32) << 8) | ((b2 as u32) << 16) | ((b3 as u32) << 24));
    assert(hi == (b4 as u32) | ((b5 as u32) << 8) | ((b6 as u32) << 16) | ((b7 as u32) << 24));
    assert((lo as u64) | ((hi as u64) << 32) == w) by (bit_vector)
        requires
            lo == (b0 as u32) | ((b1 as u32) << 8) | ((b2 as u32) << 16) | ((b3 as u32) << 24),
            hi == (b4 as u32) | ((b5 as u32) << 8) | ((b6 as u32) << 16) | ((b7 as u32) << 24),
            w == (b0 as u64) | ((b1 as u64) << 8) | ((b2 as u64) << 16) | ((b3 as u64) << 24)
                | ((b4 as u64) << 32) | ((b5 as u64) << 40) | ((b6 as u64) << 48)
                | ((b7 as u64) << 56),
    ;
    let shifted = buffer.wrapping_add(8);
    assert(spec_write(buffer, data) == spec_update(shifted, w));
    if spec_finish(spec_write(buffer, data)) == spec_finish(spec_update(buffer, w)) {
        lemma_mix_injective(spec_update(shifted, w), spec_update(buffer, w));
        lemma_xor_cancel(mix(shifted), mix(buffer), w);
        lemma_mix_injective(shifted, buffer);
        assert(false);
    }
}

} // verus!

//! Mathematical model of the keyed streaming mixer.
//!
//! The hasher owns a single 64-bit accumulator; every operation on it is a
//! pure function of the accumulator and the input words, and this module
//! states those functions.  The executable methods in `hasher` are verified
//! against them, and the lemmas in `laws` are stated over them.

use vstd::prelude::*;

verus! {

/// Odd 64-bit multiplier used by every mixing step.  The constant comes from
/// Knuth's linear congruential generator; being odd, multiplying by it is a
/// bijection on 64-bit words.
pub const MULTIPLE: u64 = 6364136223846793005;

/// Additive increment that advances the ordering key between consecutive
/// blocks of the bulk path, so that block order affects the digest.
pub const INCREMENT: u64 = 1442695040888963407;

/// Left rotation of a 64-bit word by the fixed rotation amount 23.
pub open spec fn rotl23(x: u64) -> u64 {
    (x << 23) | (x >> 41)
}

/// The multiply-rotate-multiply diffusion step.  A single multiply never
/// moves information to lower bit positions; rotating and multiplying again
/// spreads every input bit's influence across the whole word.
pub open spec fn mix(x: u64) -> u64 {
    rotl23(x.wrapping_mul(MULTIPLE)).wrapping_mul(MULTIPLE)
}

/// Accumulator of a fresh session keyed with the two given keys.
pub open spec fn spec_new(key0: u64, key1: u64) -> u64 {
    key0 ^ rotl23(key1)
}

/// Scalar transform: the diffusion deferred from the previous call is
/// performed on the accumulator and the new word is folded in by xor.
pub open spec fn spec_update(buffer: u64, word: u64) -> u64 {
    mix(buffer) ^ word
}

/// Ordered transform of the bulk loop: the block is masked with the running
/// ordering key, diffused independently of the accumulator, and committed by
/// a single xor.
pub open spec fn spec_ordered_update(buffer: u64, word: u64, key: u64) -> u64 {
    buffer ^ mix(word ^ key)
}

/// The ordering key that follows `key` in the bulk loop.
pub open spec fn next_key(key: u64) -> u64 {
    key.wrapping_add(INCREMENT)
}

/// Digest of an accumulator: the diffusion deferred by the last transform,
/// performed here because no further call will perform it.
pub open spec fn spec_finish(buffer: u64) -> u64 {
    mix(buffer)
}

/// Little-endian reinterpretation of two bytes as a 16-bit word.
pub open spec fn le_u16(s: Seq<u8>) -> u16
    recommends
        s.len() == 2,
{
    (s[0] as u16) | ((s[1] as u16) << 8)
}

/// Little-endian reinterpretation of four bytes as a 32-bit word.
pub open spec fn le_u32(s: Seq<u8>) -> u32
    recommends
        s.len() == 4,
{
    (s[0] as u32) | ((s[1] as u32) << 8) | ((s[2] as u32) << 16) | ((s[3] as u32) << 24)
}

/// Little-endian reinterpretation of eight bytes as a 64-bit word.
pub open spec fn le_u64(s: Seq<u8>) -> u64
    recommends
        s.len() == 8,
{
    (s[0] as u64) | ((s[1] as u64) << 8) | ((s[2] as u64) << 16) | ((s[3] as u64) << 24)
        | ((s[4] as u64) << 32) | ((s[5] as u64) << 40) | ((s[6] as u64) << 48)
        | ((s[7] as u64) << 56)
}

/// Low 64-bit word of a 128-bit value.
pub open spec fn low_word(v: u128) -> u64 {
    (v & 0xffff_ffff_ffff_ffff) as u64
}

/// High 64-bit word of a 128-bit value.
pub open spec fn high_word(v: u128) -> u64 {
    (v >> 64) as u64
}

/// Accumulator after the bulk path consumes `data`, threading the ordering
/// key through one ordered transform per leading 8-byte block.  When 16 or
/// fewer bytes remain, the first 8 of them take one last ordered transform
/// and the final 8 bytes of the tail take a scalar transform; the two
/// windows overlap when 9 to 15 bytes remain, which covers every byte
/// without a variable-width remainder branch.
pub open spec fn spec_bulk(buffer: u64, key: u64, data: Seq<u8>) -> u64
    recommends
        data.len() >= 9,
    decreases data.len(),
{
    if data.len() > 16 {
        spec_bulk(
            spec_ordered_update(buffer, le_u64(data.subrange(0, 8)), key),
            next_key(key),
            data.skip(8),
        )
    } else {
        spec_update(
            spec_ordered_update(buffer, le_u64(data.subrange(0, 8)), key),
            le_u64(data.subrange(data.len() - 8, data.len() as int)),
        )
    }
}

/// Accumulator after the variable-length write protocol consumes `data`: the
/// length is folded in by a wrapping add, then the bytes are mixed by the
/// band their count falls in.  Short bands read an overlapping pair of
/// fixed-width windows, the first packed into the low half of the mixed
/// word and the last into the high half.
pub open spec fn spec_write(buffer: u64, data: Seq<u8>) -> u64
    recommends
        data.len() <= u64::MAX,
{
    let keyed = buffer.wrapping_add(data.len() as u64);
    if data.len() > 8 {
        spec_bulk(keyed, keyed, data)
    } else if data.len() >= 4 {
        let word = (le_u32(data.subrange(0, 4)) as u64)
            | ((le_u32(data.subrange(data.len() - 4, data.len() as int)) as u64) << 32);
        spec_update(keyed, word)
    } else if data.len() >= 2 {
        let word = (le_u16(data.subrange(0, 2)) as u32)
            | ((le_u16(data.subrange(data.len() - 2, data.len() as int)) as u32) << 16);
        spec_update(keyed, word as u64)
    } else if data.len() == 1 {
        spec_update(keyed, data[0] as u64)
    } else {
        keyed
    }
}

/// Digest of a whole byte stream hashed in one session under the given keys.
pub open spec fn spec_hash(key0: u64, key1: u64, data: Seq<u8>) -> u64
    recommends
        data.len() <= u64::MAX,
{
    spec_finish(spec_write(spec_new(key0, key1), data))
}

} // verus!

//! The keyed streaming mixer: executable code verified against the model in
//! [`crate::mixing`].

use vstd::prelude::*;

use crate::mixing::{
    high_word, le_u16, le_u32, le_u64, low_word, next_key, rotl23, spec_bulk, spec_finish,
    spec_new, spec_ordered_update, spec_update, spec_write, INCREMENT, MULTIPLE,
};

verus! {

/// Left rotation of a 64-bit word by the fixed rotation amount 23.
fn rotl23_word(x: u64) -> (rotated: u64)
    ensures
        rotated == rotl23(x),
{
    (x << 23) | (x >> 41)
}

/// Little-endian reinterpretation of the two bytes of `data` at `start`.
pub fn load_u16_le(data: &[u8], start: usize) -> (word: u16)
    requires
        start + 2 <= data@.len(),
    ensures
        word == le_u16(data@.subrange(start as int, start as int + 2)),
{
    (data[start] as u16) | ((data[start + 1] as u16) << 8)
}

/// Little-endian reinterpretation of the four bytes of `data` at `start`.
pub fn load_u32_le(data: &[u8], start: usize) -> (word: u32)
    requires
        start + 4 <= data@.len(),
    ensures
        word == le_u32(data@.subrange(start as int, start as int + 4)),
{
    (data[start] as u32) | ((data[start + 1] as u32) << 8) | ((data[start + 2] as u32) << 16)
        | ((data[start + 3] as u32) << 24)
}

/// Little-endian reinterpretation of the eight bytes of `data` at `start`.
pub fn load_u64_le(data: &[u8], start: usize) -> (word: u64)
    requires
        start + 8 <= data@.len(),
    ensures
        word == le_u64(data@.subrange(start as int, start as int + 8)),
{
    (data[start] as u64) | ((data[start + 1] as u64) << 8) | ((data[start + 2] as u64) << 16)
        | ((data[start + 3] as u64) << 24) | ((data[start + 4] as u64) << 32)
        | ((data[start + 5] as u64) << 40) | ((data[start + 6] as u64) << 48)
        | ((data[start + 7] as u64) << 56)
}

/// A hasher for an arbitrary stream of bytes.
///
/// An `AHasher` holds the accumulator of one hashing session.  Each write
/// method folds new data into it; `finish` reads the digest off it without
/// mutating it.  The type is `Copy`, so a session can be duplicated to hash
/// divergent continuations of a shared prefix; the copies never alias.
#[derive(Debug, Clone, Copy)]
pub struct AHasher {
    buffer: u64,
}

impl View for AHasher {
    type V = u64;

    closed spec fn view(&self) -> u64 {
        self.buffer
    }
}

impl AHasher {
    /// Creates a new hasher keyed to the provided keys.
    pub fn new_with_keys(key0: u64, key1: u64) -> (hasher: AHasher)
        ensures
            hasher@ == spec_new(key0, key1),
    {
        AHasher { buffer: key0 ^ rotl23_word(key1) }
    }

    /// Reads the current accumulator without mutating it.
    pub fn buffer(&self) -> (buffer: u64)
        ensures
            buffer == self@,
    {
        self.buffer
    }

    /// Folds one 64-bit word into the accumulator: the diffusion deferred
    /// from the previous call is performed first, then the word is xored in.
    /// The diffusion of this word itself is left for the next call, or for
    /// `finish`.
    pub fn update(&mut self, new_data: u64)
        ensures
            final(self)@ == spec_update(old(self)@, new_data),
    {
        let existing = rotl23_word(self.buffer.wrapping_mul(MULTIPLE)).wrapping_mul(MULTIPLE);
        self.buffer = existing ^ new_data;
    }

    /// Folds one 8-byte block into the accumulator under the running
    /// ordering key and returns the advanced key.  The diffusion here is
    /// independent of the accumulator's prior value, so consecutive blocks
    /// can be mixed in parallel; the xor alone commits them.
    pub fn ordered_update(&mut self, new_data: u64, key: u64) -> (advanced: u64)
        ensures
            final(self)@ == spec_ordered_update(old(self)@, new_data, key),
            advanced == next_key(key),
    {
        self.buffer = self.buffer ^ rotl23_word(
            (new_data ^ key).wrapping_mul(MULTIPLE),
        ).wrapping_mul(MULTIPLE);
        key.wrapping_add(INCREMENT)
    }

    /// Hashes one byte, zero-extended to a 64-bit word.
    pub fn write_u8(&mut self, i: u8)
        ensures
            final(self)@ == spec_update(old(self)@, i as u64),
    {
        self.update(i as u64);
    }

    /// Hashes one 16-bit value, zero-extended to a 64-bit word.
    pub fn write_u16(&mut self, i: u16)
        ensures
            final(self)@ == spec_update(old(self)@, i as u64),
    {
        self.update(i as u64);
    }

    /// Hashes one 32-bit value, zero-extended to a 64-bit word.
    pub fn write_u32(&mut self, i: u32)
        ensures
            final(self)@ == spec_update(old(self)@, i as u64),
    {
        self.update(i as u64);
    }

    /// Hashes one 64-bit value.
    pub fn write_u64(&mut self, i: u64)
        ensures
            final(self)@ == spec_update(old(self)@, i as u64),
    {
        self.update(i as u64);
    }

    /// Hashes one 128-bit value as two 64-bit words, low word first.
    pub fn write_u128(&mut self, i: u128)
        ensures
            final(self)@ == spec_update(spec_update(old(self)@, low_word(i)), high_word(i)),
    {
        proof {
            assert(i & 0xffff_ffff_ffff_ffff <= 0xffff_ffff_ffff_ffff) by (bit_vector);
            assert(i >> 64 <= 0xffff_ffff_ffff_ffff) by (bit_vector);
        }
        self.update((i & 0xffff_ffff_ffff_ffff) as u64);
        self.update((i >> 64) as u64);
    }

    /// Hashes one pointer-sized value, widened to a 64-bit word.
    pub fn write_usize(&mut self, i: usize)
        ensures
            final(self)@ == spec_update(old(self)@, i as u64),
    {
        self.write_u64(i as u64);
    }

    /// Hashes a byte slice of any length.  The length itself is folded in by
    /// a wrapping add, then the bytes are mixed by the band their count
    /// falls in: slices longer than 8 bytes go through the bulk loop under
    /// an ordering key seeded from the accumulator, shorter ones through a
    /// single scalar transform of one or two overlapping windows.
    pub fn write(&mut self, input: &[u8])
        ensures
            final(self)@ == spec_write(old(self)@, input@),
    {
        let n = input.len();
        let length = n as u64;
        self.buffer = self.buffer.wrapping_add(length);
        let ghost keyed = self@;
        if n > 8 {
            let mut key: u64 = self.buffer;
            let mut pos: usize = 0;
            proof {
                assert(input@.skip(0) =~= input@);
            }
            while n - pos > 16
                invariant
                    pos <= n,
                    n == input@.len(),
                    n - pos >= 9,
                    spec_bulk(self@, key, input@.skip(pos as int)) == spec_bulk(
                        keyed,
                        keyed,
                        input@,
                    ),
                decreases n - pos,
            {
                let val = load_u64_le(input, pos);
                proof {
                    assert(input@.skip(pos as int).subrange(0, 8) =~= input@.subrange(
                        pos as int,
                        pos as int + 8,
                    ));
                    assert(input@.skip(pos as int).skip(8) =~= input@.skip(pos as int + 8));
                }
                key = self.ordered_update(val, key);
                pos = pos + 8;
            }
            proof {
                let remaining = input@.skip(pos as int);
                assert(remaining.subrange(0, 8) =~= input@.subrange(pos as int, pos as int + 8));
                assert(remaining.subrange(remaining.len() - 8, remaining.len() as int)
                    =~= input@.subrange(n as int - 8, n as int));
            }
            let val = load_u64_le(input, pos);
            self.ordered_update(val, key);
            let tail = load_u64_le(input, n - 8);
            self.update(tail);
        } else {
            if n >= 2 {
                if n >= 4 {
                    let lo = load_u32_le(input, 0);
                    let hi = load_u32_le(input, n - 4);
                    self.update((lo as u64) | ((hi as u64) << 32));
                } else {
                    let lo = load_u16_le(input, 0);
                    let hi = load_u16_le(input, n - 2);
                    let word = (lo as u32) | ((hi as u32) << 16);
                    self.update(word as u64);
                }
            } else {
                if n >= 1 {
                    self.update(input[0] as u64);
                }
            }
        }
    }

    /// Returns the digest of everything written so far, without mutating
    /// the accumulator: the diffusion the last write deferred is performed
    /// here, since no further write will perform it.
    pub fn finish(&self) -> (digest: u64)
        ensures
            digest == spec_finish(self@),
    {
        rotl23_word(self.buffer.wrapping_mul(MULTIPLE)).wrapping_mul(MULTIPLE)
    }
}

} // verus!

use ahash::load_u16_le;
use ahash::load_u32_le;
use ahash::load_u64_le;
use ahash::AHasher;

#[test]
fn test_hash() {
    let mut hasher = AHasher::new_with_keys(0, 0);
    let value: u64 = 1 << 32;
    hasher.update(value);
    let result = hasher.buffer();
    let mut hasher = AHasher::new_with_keys(0, 0);
    let value2: u64 = 1;
    hasher.update(value2);
    let result2 = hasher.buffer();
    let result: [u8; 8] = result.to_le_bytes();
    let result2: [u8; 8] = result2.to_le_bytes();
    assert_ne!(hex::encode(result), hex::encode(result2));
}

#[test]
fn test_conversion() {
    let input: &[u8] = "dddddddd".as_bytes();
    let bytes: u64 = load_u64_le(input, 0);
    assert_eq!(bytes, 0x6464646464646464);
}

#[test]
fn small_window_conversions() {
    let input: &[u8] = b"\x01\x02\x03\x04\x05";
    assert_eq!(load_u16_le(input, 0), 0x0201);
    assert_eq!(load_u16_le(input, 3), 0x0504);
    assert_eq!(load_u32_le(input, 0), 0x04030201);
    assert_eq!(load_u32_le(input, 1), 0x05040302);
}

fn hash_of(key0: u64, key1: u64, data: &[u8]) -> u64 {
    let mut hasher = AHasher::new_with_keys(key0, key1);
    hasher.write(data);
    hasher.finish()
}

#[test]
fn determinism_same_digest_twice() {
    let data: &[u8] = b"0123456789abcdef0";
    let first = hash_of(7, 8, data);
    let second = hash_of(7, 8, data);
    assert_eq!(first, second);
    assert_eq!(first, 0xb75929d488720e7e);
}

#[test]
fn key_sensitivity_distinct_key_pairs() {
    let data: &[u8] = b"the same input";
    assert_ne!(hash_of(1, 2, data), hash_of(3, 4, data));
    assert_ne!(hash_of(1, 2, data), hash_of(1, 3, data));
    assert_ne!(hash_of(1, 2, data), hash_of(2, 2, data));
}

#[test]
fn length_sensitivity_zero_bytes() {
    let one = hash_of(0, 0, b"\x00");
    let two = hash_of(0, 0, b"\x00\x00");
    assert_ne!(one, two);
    assert_eq!(one, 0x51abf85c0bb9e652);
    assert_eq!(two, 0xe5039a25cd894bd1);
}

#[test]
fn order_sensitivity_permuted_blocks() {
    let forward = hash_of(0, 0, b"AAAAAAAABBBBBBBBCCCCCCCC");
    let swapped = hash_of(0, 0, b"BBBBBBBBAAAAAAAACCCCCCCC");
    assert_ne!(forward, swapped);
    assert_eq!(forward, 0x976d1ea8022384e4);
    assert_eq!(swapped, 0x4bc395cdb39ce270);
}

#[test]
fn scalar_and_slice_paths() {
    let value: u64 = 0xdeadbeef12345678;
    // The slice path folds in the length 8 first, then mixes the very word
    // the bytes encode: it matches the scalar path started on an
    // accumulator advanced by 8 ...
    let mut slice_path = AHasher::new_with_keys(12345, 0);
    slice_path.write(&value.to_le_bytes());
    let mut shifted_scalar = AHasher::new_with_keys(12345 + 8, 0);
    shifted_scalar.update(value);
    assert_eq!(slice_path.finish(), shifted_scalar.finish());
    assert_eq!(slice_path.finish(), 0x2e2a11a16f293b75);
    // ... and therefore never matches the scalar path on the same keys.
    let mut scalar_path = AHasher::new_with_keys(12345, 0);
    scalar_path.write_u64(value);
    assert_ne!(slice_path.finish(), scalar_path.finish());
    assert_eq!(scalar_path.finish(), 0x1c1a5e4a633d7bab);
}

#[test]
fn bulk_long_input_no_truncation() {
    let data = [0x55u8; 130];
    assert_eq!(hash_of(9, 10, &data), 0xbf1beaff41296c1d);
}

#[test]
fn empty_slice_only_mixes_length() {
    let mut written = AHasher::new_with_keys(0, 0);
    written.write(b"");
    let untouched = AHasher::new_with_keys(0, 0);
    assert_eq!(written.finish(), untouched.finish());
    assert_eq!(written.finish(), 0);
}

#[test]
fn single_byte_band() {
    assert_eq!(hash_of(1, 2, b"\x42"), 0x4832af01e82ca1fa);
}

#[test]
fn three_byte_band() {
    assert_eq!(hash_of(3, 4, b"abc"), 0x2c920c6b1ea2496e);
}

#[test]
fn short_window_band() {
    assert_eq!(hash_of(5, 6, b"hello"), 0x4adf935361ee2d7a);
}

#[test]
fn overlapping_tail_band() {
    assert_eq!(hash_of(0, 0, b"hello world!"), 0xf216e4eb7e830e9c);
}

#[test]
fn write_u128_matches_two_u64_writes() {
    let value: u128 = 0x0123456789abcdef_fedcba9876543210;
    let mut wide = AHasher::new_with_keys(11, 12);
    wide.write_u128(value);
    let mut split = AHasher::new_with_keys(11, 12);
    split.write_u64(value as u64);
    split.write_u64((value >> 64) as u64);
    assert_eq!(wide.finish(), split.finish());
    assert_eq!(wide.finish(), 0x6b997862ecf0ef29);
}

#[test]
fn fixed_width_writes_zero_extend() {
    let mut narrow = AHasher::new_with_keys(21, 22);
    narrow.write_u8(0x42);
    let mut wide = AHasher::new_with_keys(21, 22);
    wide.write_u64(0x42);
    assert_eq!(narrow.finish(), wide.finish());

    let mut narrow = AHasher::new_with_keys(21, 22);
    narrow.write_u16(0x4243);
    let mut wide = AHasher::new_with_keys(21, 22);
    wide.write_u64(0x4243);
    assert_eq!(narrow.finish(), wide.finish());

    let mut narrow = AHasher::new_with_keys(21, 22);
    narrow.write_u32(0x42434445);
    let mut wide = AHasher::new_with_keys(21, 22);
    wide.write_u64(0x42434445);
    assert_eq!(narrow.finish(), wide.finish());

    let mut sized = AHasher::new_with_keys(21, 22);
    sized.write_usize(0x42434445);
    let mut wide = AHasher::new_with_keys(21, 22);
    wide.write_u64(0x42434445);
    assert_eq!(sized.finish(), wide.finish());
}

#[test]
fn cloned_session_diverges_independently() {
    let mut original = AHasher::new_with_keys(1, 2);
    original.write(b"shared prefix");
    let mut branch = original.clone();
    original.write(b"left");
    branch.write(b"right");
    assert_ne!(original.finish(), branch.finish());

    // The branch behaves exactly like a fresh session fed the whole stream.
    let mut replay = AHasher::new_with_keys(1, 2);
    replay.write(b"shared prefix");
    replay.write(b"right");
    assert_eq!(branch.finish(), replay.finish());
}

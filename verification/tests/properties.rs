use ipcrypt::{decrypt, encrypt, Key, State};

// A small deterministic pseudo-random stream for sampling values and keys.
fn lcg(x: u64) -> u64 {
    x.wrapping_mul(6364136223846793005).wrapping_add(1442695040888963407)
}

fn sample_key(seed: &mut u64) -> Key {
    let mut key = [0u8; 16];
    for chunk in key.chunks_mut(8) {
        *seed = lcg(*seed);
        chunk.copy_from_slice(&seed.to_le_bytes()[..chunk.len()]);
    }
    key
}

#[test]
fn round_trip_sampled_pairs() {
    let mut seed: u64 = 0x1234_5678_9ABC_DEF0;
    for _ in 0..4000 {
        seed = lcg(seed);
        let v = (seed >> 16) as u32;
        let key = sample_key(&mut seed);
        assert_eq!(decrypt(encrypt(v, &key), &key), v);
    }
}

#[test]
fn round_trip_value_sweep_fixed_key() {
    let key: &Key = b"some 16-byte key";
    // A strided sweep across the whole 32-bit value space.
    let mut v: u32 = 0;
    loop {
        assert_eq!(decrypt(encrypt(v, key), key), v);
        match v.checked_add(65_537) {
            Some(next) => v = next,
            None => break,
        }
    }
}

#[test]
fn permutation_inverse_sweep() {
    // Exhaustive over two of the four words, sampled over the others.
    for a in 0..=255u8 {
        for b in 0..=255u8 {
            let s = State(a, b, a ^ 0x5A, b.wrapping_add(17));
            assert_eq!(s.permute().permute_inverse(), s);
        }
    }
}

#[test]
fn encryption_is_deterministic() {
    let mut seed: u64 = 0xFEED_F00D_CAFE_BABE;
    for _ in 0..200 {
        seed = lcg(seed);
        let v = (seed >> 8) as u32;
        let key = sample_key(&mut seed);
        let first: u32 = encrypt(v, &key);
        let second: u32 = encrypt(v, &key);
        assert_eq!(first, second);
    }
}

#[test]
fn distinct_keys_give_distinct_ciphertexts() {
    // Statistical key sensitivity, checked by sampling: for each sampled
    // value, encryptions under two distinct sampled keys differ.
    let mut seed: u64 = 0x0123_4567_89AB_CDEF;
    for _ in 0..500 {
        seed = lcg(seed);
        let v = (seed >> 24) as u32;
        let key1 = sample_key(&mut seed);
        let key2 = sample_key(&mut seed);
        assert_ne!(key1, key2);
        let c1: u32 = encrypt(v, &key1);
        let c2: u32 = encrypt(v, &key2);
        assert_ne!(c1, c2);
    }
}

#[test]
fn single_byte_key_change_changes_output() {
    let key1: &Key = b"some 16-byte key";
    let mut key2 = *key1;
    key2[0] ^= 1;
    let v: u32 = 0x7F00_0001;
    let c1: u32 = encrypt(v, key1);
    let c2: u32 = encrypt(v, &key2);
    assert_ne!(c1, c2);
}

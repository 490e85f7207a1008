use ipcrypt::{decrypt, encrypt, Key, KeyStates, State};

static KEY: &Key = b"some 16-byte key";

fn check(key: &Key, plain: [u8; 4], cipher: [u8; 4]) {
    assert_eq!(encrypt(plain, key), cipher);

    assert_eq!(decrypt(cipher, key), plain);
}

fn check_u32(key: &Key, plain: u32, cipher: u32) {
    assert_eq!(encrypt(plain, key), cipher);

    assert_eq!(decrypt(cipher, key), plain);
}

#[test]
fn test_a() {
    check(KEY, [127, 0, 0, 1], [114, 62, 227, 59]);
}

#[test]
fn test_b() {
    check(KEY, [8, 8, 8, 8], [46, 48, 51, 50]);
}

#[test]
fn test_c() {
    check(KEY, [1, 2, 3, 4], [171, 238, 15, 199]);
}

// The same published vectors through the big-endian `u32` shape: the
// address 127.0.0.1 is 0x7F00_0001 in network order, and its ciphertext
// 114.62.227.59 is 0x723E_E33B.
#[test]
fn lib_test_a() {
    check_u32(KEY, 0x7F00_0001, 0x723E_E33B);
}

#[test]
fn lib_test_b() {
    check_u32(KEY, 0x0808_0808, 0x2E30_3332);
}

#[test]
fn lib_test_c() {
    check_u32(KEY, 0x0102_0304, 0xABEE_0FC7);
}

#[test]
fn state_methods_match_vectors() {
    let s = State(127, 0, 0, 1);
    let e = s.encrypt(KEY);
    assert_eq!(e, State(114, 62, 227, 59));
    assert_eq!(e.decrypt(KEY), s);
}

#[test]
fn key_schedule_is_plain_slicing() {
    let KeyStates(a, b, c, d) = KeyStates::from_key(KEY);
    assert_eq!(a, State(b's', b'o', b'm', b'e'));
    assert_eq!(b, State(b' ', b'1', b'6', b'-'));
    assert_eq!(c, State(b'b', b'y', b't', b'e'));
    assert_eq!(d, State(b' ', b'k', b'e', b'y'));
}

#[test]
fn u32_and_bytes_shapes_agree() {
    let v: u32 = 0xC0A8_0001;
    let bytes = [0xC0, 0xA8, 0x00, 0x01];
    let e_v: u32 = encrypt(v, KEY);
    let e_bytes: [u8; 4] = encrypt(bytes, KEY);
    assert_eq!(e_v.to_be_bytes(), e_bytes);
}

#[test]
fn xor_whitening_cancels() {
    let s = State(0xDE, 0xAD, 0xBE, 0xEF);
    let t = State(0x12, 0x34, 0x56, 0x78);
    assert_eq!(s.xor(t).xor(t), s);
}

//! The cipher ladder: key schedule, whitening, and the encrypt/decrypt
//! entry points over [`State`].

use crate::permute::lemma_permute_inverse;
use crate::permute::permute_inverse_spec;
use crate::permute::permute_spec;
use crate::state::lemma_xor_cancel;
use crate::state::xor_spec;
use crate::state::Key;
use crate::state::State;
use vstd::prelude::*;

verus! {

/// The four round subkeys: the 16-byte key read as four consecutive
/// 4-byte states, in key byte order.
#[derive(Clone, Copy, PartialEq, Eq, Structural, Debug)]
pub struct KeyStates(pub State, pub State, pub State, pub State);

/// The key schedule: pure slicing of the key into four consecutive,
/// non-overlapping 4-byte groups, with no mixing.
pub open spec fn key_states_spec(key: Seq<u8>) -> KeyStates {
    KeyStates(
        State(key[0], key[1], key[2], key[3]),
        State(key[4], key[5], key[6], key[7]),
        State(key[8], key[9], key[10], key[11]),
        State(key[12], key[13], key[14], key[15]),
    )
}

impl KeyStates {
    /// Read the 16-byte key as four round subkeys.
    pub fn from_key(key: &Key) -> (r: KeyStates)
        ensures
            r == key_states_spec(key@),
    {
        KeyStates(
            State(key[0], key[1], key[2], key[3]),
            State(key[4], key[5], key[6], key[7]),
            State(key[8], key[9], key[10], key[11]),
            State(key[12], key[13], key[14], key[15]),
        )
    }
}

/// The encrypt ladder: four whitening steps interleaved with three
/// forward permutation layers, in a fixed order; no permutation follows
/// the final whitening.
pub open spec fn encrypt_spec(s: State, key: Seq<u8>) -> State {
    let ks = key_states_spec(key);
    let s = permute_spec(xor_spec(s, ks.0));
    let s = permute_spec(xor_spec(s, ks.1));
    let s = permute_spec(xor_spec(s, ks.2));
    xor_spec(s, ks.3)
}

/// The decrypt ladder: the encrypt ladder mirrored, with the inverse
/// permutation and the subkeys applied in reverse order.
pub open spec fn decrypt_spec(s: State, key: Seq<u8>) -> State {
    let ks = key_states_spec(key);
    let s = permute_inverse_spec(xor_spec(s, ks.3));
    let s = permute_inverse_spec(xor_spec(s, ks.2));
    let s = permute_inverse_spec(xor_spec(s, ks.1));
    xor_spec(s, ks.0)
}

impl State {
    /// Encrypt this state under a 16-byte key.
    pub fn encrypt(self, key: &Key) -> (r: State)
        ensures
            r == encrypt_spec(self, key@),
    {
        let KeyStates(a, b, c, d) = KeyStates::from_key(key);
        let mut s = self;

        s = s.xor(a);
        s = s.permute();
        s = s.xor(b);
        s = s.permute();
        s = s.xor(c);
        s = s.permute();
        s = s.xor(d);

        s
    }

    /// Decrypt this state under a 16-byte key, recovering exactly the
    /// state that was encrypted.
    pub fn decrypt(self, key: &Key) -> (r: State)
        ensures
            r == decrypt_spec(self, key@),
    {
        let KeyStates(a, b, c, d) = KeyStates::from_key(key);
        let mut s = self;

        s = s.xor(d);
        s = s.permute_inverse();
        s = s.xor(c);
        s = s.permute_inverse();
        s = s.xor(b);
        s = s.permute_inverse();
        s = s.xor(a);

        s
    }
}

/// Round trip: for every state `s` and every key, decryption exactly
/// undoes encryption, so for a fixed key the cipher is a bijection over
/// the 2^32 possible states.
pub proof fn lemma_round_trip(s: State, key: Seq<u8>)
    ensures
        decrypt_spec(encrypt_spec(s, key), key) == s,
{
    let ks = key_states_spec(key);
    let s1 = permute_spec(xor_spec(s, ks.0));
    let s2 = permute_spec(xor_spec(s1, ks.1));
    let s3 = permute_spec(xor_spec(s2, ks.2));
    lemma_xor_cancel(s3, ks.3);
    lemma_permute_inverse(xor_spec(s2, ks.2));
    lemma_xor_cancel(s2, ks.2);
    lemma_permute_inverse(xor_spec(s1, ks.1));
    lemma_xor_cancel(s1, ks.1);
    lemma_permute_inverse(xor_spec(s, ks.0));
    lemma_xor_cancel(s, ks.0);
}

/// Determinism: the ciphertext is a function of the plaintext and the key
/// alone, with no hidden randomness or state carried across calls; two
/// encryptions of equal values under equal keys agree.
pub proof fn lemma_encrypt_deterministic(s1: State, s2: State, key1: Seq<u8>, key2: Seq<u8>)
    requires
        s1 == s2,
        key1 == key2,
    ensures
        encrypt_spec(s1, key1) == encrypt_spec(s2, key2),
{
}

} // verus!

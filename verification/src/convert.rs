//! Conversion between external 4-byte value shapes and the internal
//! [`State`], and the generic encrypt/decrypt entry points.

use crate::cipher::decrypt_spec;
use crate::cipher::encrypt_spec;
use crate::cipher::lemma_round_trip;
use crate::state::Key;
use crate::state::State;
use vstd::prelude::*;

verus! {

/// An external representation of the cipher's 4-byte working value.
///
/// Each implementation is a lossless, order-preserving pairing between
/// its own shape and [`State`]: the two conversion directions are exact
/// inverses, so the cipher's round-trip guarantee carries over to the
/// external shape unchanged. This layer performs no cryptographic work.
pub trait FourBytes: Sized {
    /// The state this value denotes.
    spec fn to_state_spec(self) -> State;

    /// The value a state denotes.
    spec fn of_state_spec(s: State) -> Self;

    /// Reading a value into a state and back is the identity.
    proof fn lemma_of_to(self)
        ensures
            Self::of_state_spec(self.to_state_spec()) == self,
    ;

    /// Writing a state out as a value and reading it back is the identity.
    proof fn lemma_to_of(s: State)
        ensures
            Self::of_state_spec(s).to_state_spec() == s,
    ;

    /// Convert this value into the internal state.
    fn to_state(self) -> (r: State)
        ensures
            r == self.to_state_spec(),
    ;

    /// Convert an internal state back into this value shape.
    fn of_state(s: State) -> (r: Self)
        ensures
            r == Self::of_state_spec(s),
    ;
}

impl FourBytes for [u8; 4] {
    /// The four bytes, in order.
    open spec fn to_state_spec(self) -> State {
        State(self[0], self[1], self[2], self[3])
    }

    open spec fn of_state_spec(s: State) -> Self {
        [s.0, s.1, s.2, s.3]
    }

    proof fn lemma_of_to(self) {
    }

    proof fn lemma_to_of(s: State) {
    }

    fn to_state(self) -> (r: State) {
        State(self[0], self[1], self[2], self[3])
    }

    fn of_state(s: State) -> (r: Self) {
        [s.0, s.1, s.2, s.3]
    }
}

impl FourBytes for u32 {
    /// Big-endian (network order) bytes of the 32-bit value, consistent
    /// with how IPv4 addresses are represented as `u32`.
    open spec fn to_state_spec(self) -> State {
        State((self >> 24) as u8, (self >> 16) as u8, (self >> 8) as u8, self as u8)
    }

    open spec fn of_state_spec(s: State) -> Self {
        ((s.0 as u32) << 24) | ((s.1 as u32) << 16) | ((s.2 as u32) << 8) | (s.3 as u32)
    }

    proof fn lemma_of_to(self) {
        let v = self;
        assert((((v >> 24) as u8) as u32) << 24 | (((v >> 16) as u8) as u32) << 16 | (((v
            >> 8) as u8) as u32) << 8 | ((v as u8) as u32) == v) by (bit_vector);
    }

    proof fn lemma_to_of(s: State) {
        lemma_to_of_words(s.0, s.1, s.2, s.3);
    }

    fn to_state(self) -> (r: State) {
        State(
            #[verifier::truncate] ((self >> 24) as u8),
            #[verifier::truncate] ((self >> 16) as u8),
            #[verifier::truncate] ((self >> 8) as u8),
            #[verifier::truncate] (self as u8),
        )
    }

    fn of_state(s: State) -> (r: Self) {
        ((s.0 as u32) << 24) | ((s.1 as u32) << 16) | ((s.2 as u32) << 8) | (s.3 as u32)
    }
}

proof fn lemma_to_of_words(a: u8, b: u8, c: u8, d: u8)
    by (bit_vector)
    ensures
        ((((a as u32) << 24 | (b as u32) << 16 | (c as u32) << 8 | (d as u32)) >> 24) as u8) == a,
        ((((a as u32) << 24 | (b as u32) << 16 | (c as u32) << 8 | (d as u32)) >> 16) as u8) == b,
        ((((a as u32) << 24 | (b as u32) << 16 | (c as u32) << 8 | (d as u32)) >> 8) as u8) == c,
        (((a as u32) << 24 | (b as u32) << 16 | (c as u32) << 8 | (d as u32)) as u8) == d,
{
}

/// Encrypt a 4-byte value with the given 16-byte key, in whatever
/// external shape the value comes.
pub fn encrypt<T: FourBytes>(v: T, key: &Key) -> (r: T)
    ensures
        r == T::of_state_spec(encrypt_spec(v.to_state_spec(), key@)),
{
    T::of_state(v.to_state().encrypt(key))
}

/// Decrypt a 4-byte value with the given 16-byte key, in whatever
/// external shape the value comes.
pub fn decrypt<T: FourBytes>(v: T, key: &Key) -> (r: T)
    ensures
        r == T::of_state_spec(decrypt_spec(v.to_state_spec(), key@)),
{
    T::of_state(v.to_state().decrypt(key))
}

/// Round trip at the external value level: decrypting the encryption of
/// any value under the same key recovers that value, in any shape.
pub proof fn lemma_value_round_trip<T: FourBytes>(v: T, key: Seq<u8>)
    ensures
        T::of_state_spec(
            decrypt_spec(T::of_state_spec(encrypt_spec(v.to_state_spec(), key)).to_state_spec(), key),
        ) == v,
{
    let e = encrypt_spec(v.to_state_spec(), key);
    T::lemma_to_of(e);
    lemma_round_trip(v.to_state_spec(), key);
    v.lemma_of_to();
}

} // verus!

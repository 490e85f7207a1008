//! The cipher's working value: four independent 8-bit words.

use vstd::prelude::*;

verus! {

/// A 16-byte cipher key: an opaque, externally supplied secret, read only
/// for the duration of a single encrypt or decrypt call.
pub type Key = [u8; 16];

/// The inner state the permutation and the cipher ladder are built on:
/// four independent unsigned 8-bit words, copied by value everywhere.
#[derive(Clone, Copy, PartialEq, Eq, Structural, Debug)]
pub struct State(pub u8, pub u8, pub u8, pub u8);

/// Word-wise XOR of two states, the cipher's whitening step.
pub open spec fn xor_spec(s: State, t: State) -> State {
    State(s.0 ^ t.0, s.1 ^ t.1, s.2 ^ t.2, s.3 ^ t.3)
}

impl State {
    /// XOR each word of `self` with the matching word of `other`.
    pub fn xor(self, other: State) -> (r: State)
        ensures
            r == xor_spec(self, other),
    {
        State(self.0 ^ other.0, self.1 ^ other.1, self.2 ^ other.2, self.3 ^ other.3)
    }
}

/// XOR-ing the same state in twice is the identity: whitening a value and
/// then whitening it again with the same key material restores it.
pub proof fn lemma_xor_cancel(s: State, t: State)
    ensures
        xor_spec(xor_spec(s, t), t) == s,
{
    lemma_xor_word_cancel(s.0, t.0);
    lemma_xor_word_cancel(s.1, t.1);
    lemma_xor_word_cancel(s.2, t.2);
    lemma_xor_word_cancel(s.3, t.3);
}

proof fn lemma_xor_word_cancel(x: u8, y: u8)
    by (bit_vector)
    ensures
        (x ^ y) ^ y == x,
{
}

} // verus!

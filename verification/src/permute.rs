//! One ARX mixing round over a [`State`] and its exact algebraic inverse.

use crate::state::State;
use vstd::prelude::*;

verus! {

/// Circular left rotation of an 8-bit word by `n` bits, `0 < n < 8`.
pub open spec fn rotl_spec(x: u8, n: u8) -> u8
    recommends
        0 < n < 8,
{
    (x << n) | (x >> ((8 - n) as u8))
}

/// Circular left rotation of an 8-bit word by `n` bits.
pub fn rotl(x: u8, n: u8) -> (r: u8)
    requires
        0 < n < 8,
    ensures
        r == rotl_spec(x, n),
{
    (x << n) | (x >> (8 - n))
}

/// One forward ARX round: the exact operation sequence, word by word,
/// with `wrapping_add` for addition modulo 256.
pub open spec fn permute_spec(s: State) -> State {
    let a = s.0.wrapping_add(s.1);
    let c = s.2.wrapping_add(s.3);
    let b = rotl_spec(s.1, 2);
    let d = rotl_spec(s.3, 5);
    let b = b ^ a;
    let d = d ^ c;
    let a = rotl_spec(a, 4);
    let a = a.wrapping_add(d);
    let c = c.wrapping_add(b);
    let b = rotl_spec(b, 3);
    let d = rotl_spec(d, 7);
    let b = b ^ c;
    let d = d ^ a;
    let c = rotl_spec(c, 4);
    State(a, b, c, d)
}

/// The inverse round: the forward operation sequence reversed, with
/// subtraction where the forward round added and the complementary
/// rotation amounts.
pub open spec fn permute_inverse_spec(s: State) -> State {
    let a = s.0;
    let b = s.1;
    let c = s.2;
    let d = s.3;
    let c = rotl_spec(c, 4);
    let b = b ^ c;
    let d = d ^ a;
    let b = rotl_spec(b, 5);
    let d = rotl_spec(d, 1);
    let a = a.wrapping_sub(d);
    let c = c.wrapping_sub(b);
    let a = rotl_spec(a, 4);
    let b = b ^ a;
    let d = d ^ c;
    let b = rotl_spec(b, 6);
    let d = rotl_spec(d, 3);
    let a = a.wrapping_sub(b);
    let c = c.wrapping_sub(d);
    State(a, b, c, d)
}

impl State {
    /// Apply one forward ARX mixing round.
    pub fn permute(self) -> (r: State)
        ensures
            r == permute_spec(self),
    {
        let State(mut a, mut b, mut c, mut d) = self;

        a = a.wrapping_add(b);
        c = c.wrapping_add(d);
        b = rotl(b, 2);
        d = rotl(d, 5);
        b ^= a;
        d ^= c;
        a = rotl(a, 4);
        a = a.wrapping_add(d);
        c = c.wrapping_add(b);
        b = rotl(b, 3);
        d = rotl(d, 7);
        b ^= c;
        d ^= a;
        c = rotl(c, 4);

        State(a, b, c, d)
    }

    /// Apply the inverse ARX round.
    pub fn permute_inverse(self) -> (r: State)
        ensures
            r == permute_inverse_spec(self),
    {
        let State(mut a, mut b, mut c, mut d) = self;

        c = rotl(c, 4);
        b ^= c;
        d ^= a;
        b = rotl(b, 5);
        d = rotl(d, 1);
        a = a.wrapping_sub(d);
        c = c.wrapping_sub(b);
        a = rotl(a, 4);
        b ^= a;
        d ^= c;
        b = rotl(b, 6);
        d = rotl(d, 3);
        a = a.wrapping_sub(b);
        c = c.wrapping_sub(d);

        State(a, b, c, d)
    }
}

// Word-level wiring of the forward round, one spec function per
// intermediate value, for the bit-vector proof below: the solver works
// on 8-bit words, not on `State` values.
spec fn fwd_a1(a: u8, b: u8) -> u8 {
    a.wrapping_add(b)
}

spec fn fwd_c1(c: u8, d: u8) -> u8 {
    c.wrapping_add(d)
}

spec fn fwd_b2(a: u8, b: u8) -> u8 {
    rotl_spec(b, 2) ^ fwd_a1(a, b)
}

spec fn fwd_d2(c: u8, d: u8) -> u8 {
    rotl_spec(d, 5) ^ fwd_c1(c, d)
}

spec fn fwd_a2(a: u8, b: u8) -> u8 {
    rotl_spec(fwd_a1(a, b), 4)
}

spec fn fwd_a3(a: u8, b: u8, c: u8, d: u8) -> u8 {
    fwd_a2(a, b).wrapping_add(fwd_d2(c, d))
}

spec fn fwd_c2(a: u8, b: u8, c: u8, d: u8) -> u8 {
    fwd_c1(c, d).wrapping_add(fwd_b2(a, b))
}

spec fn fwd_b4(a: u8, b: u8, c: u8, d: u8) -> u8 {
    rotl_spec(fwd_b2(a, b), 3) ^ fwd_c2(a, b, c, d)
}

spec fn fwd_c3(a: u8, b: u8, c: u8, d: u8) -> u8 {
    rotl_spec(fwd_c2(a, b, c, d), 4)
}

spec fn fwd_d4(a: u8, b: u8, c: u8, d: u8) -> u8 {
    rotl_spec(fwd_d2(c, d), 7) ^ fwd_a3(a, b, c, d)
}

// Word-level wiring of the inverse round, over the four permuted words.
spec fn inv_c1(c: u8) -> u8 {
    rotl_spec(c, 4)
}

spec fn inv_b2(b: u8, c: u8) -> u8 {
    rotl_spec(b ^ inv_c1(c), 5)
}

spec fn inv_d2(a: u8, d: u8) -> u8 {
    rotl_spec(d ^ a, 1)
}

spec fn inv_a2(a: u8, d: u8) -> u8 {
    rotl_spec(a.wrapping_sub(inv_d2(a, d)), 4)
}

spec fn inv_c2(b: u8, c: u8) -> u8 {
    inv_c1(c).wrapping_sub(inv_b2(b, c))
}

spec fn inv_b4(a: u8, b: u8, c: u8, d: u8) -> u8 {
    rotl_spec(inv_b2(b, c) ^ inv_a2(a, d), 6)
}

spec fn inv_d4(a: u8, b: u8, c: u8, d: u8) -> u8 {
    rotl_spec(inv_d2(a, d) ^ inv_c2(b, c), 3)
}

spec fn inv_a3(a: u8, b: u8, c: u8, d: u8) -> u8 {
    inv_a2(a, d).wrapping_sub(inv_b4(a, b, c, d))
}

spec fn inv_c3(a: u8, b: u8, c: u8, d: u8) -> u8 {
    inv_c2(b, c).wrapping_sub(inv_d4(a, b, c, d))
}

proof fn lemma_words_inverse(a: u8, b: u8, c: u8, d: u8)
    by (bit_vector)
    ensures
        inv_a3(fwd_a3(a, b, c, d), fwd_b4(a, b, c, d), fwd_c3(a, b, c, d), fwd_d4(a, b, c, d))
            == a,
        inv_b4(fwd_a3(a, b, c, d), fwd_b4(a, b, c, d), fwd_c3(a, b, c, d), fwd_d4(a, b, c, d))
            == b,
        inv_c3(fwd_a3(a, b, c, d), fwd_b4(a, b, c, d), fwd_c3(a, b, c, d), fwd_d4(a, b, c, d))
            == c,
        inv_d4(fwd_a3(a, b, c, d), fwd_b4(a, b, c, d), fwd_c3(a, b, c, d), fwd_d4(a, b, c, d))
            == d,
{
}

/// The inverse round undoes the forward round: for every state `s`,
/// `permute_inverse_spec(permute_spec(s)) == s`.
pub proof fn lemma_permute_inverse(s: State)
    ensures
        permute_inverse_spec(permute_spec(s)) == s,
{
    let t = permute_spec(s);
    assert(t == State(
        fwd_a3(s.0, s.1, s.2, s.3),
        fwd_b4(s.0, s.1, s.2, s.3),
        fwd_c3(s.0, s.1, s.2, s.3),
        fwd_d4(s.0, s.1, s.2, s.3),
    ));
    assert(permute_inverse_spec(t) == State(
        inv_a3(t.0, t.1, t.2, t.3),
        inv_b4(t.0, t.1, t.2, t.3),
        inv_c3(t.0, t.1, t.2, t.3),
        inv_d4(t.0, t.1, t.2, t.3),
    ));
    lemma_words_inverse(s.0, s.1, s.2, s.3);
}

} // verus!

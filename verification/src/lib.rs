//! `ipcrypt` encrypts IPv4-sized values with 16-byte keys, where the result
//! is again an IPv4-sized value: a deterministic, invertible,
//! format-preserving cipher over 4-byte blocks, built from one ARX
//! (add-rotate-xor) permutation round sandwiched between key-whitening
//! steps in an Even-Mansour-style ladder.
//!
//! The cipher core works on [`State`], four independent 8-bit words.
//! Callers may work directly on a `State`, or pass any type that
//! implements [`FourBytes`] (provided here for `[u8; 4]` and for `u32`
//! read in big-endian, network order) to [`encrypt`] and [`decrypt`].

pub mod cipher;
pub mod convert;
pub mod permute;
pub mod state;

pub use crate::cipher::KeyStates;
pub use crate::convert::decrypt;
pub use crate::convert::encrypt;
pub use crate::convert::FourBytes;
pub use crate::state::Key;
pub use crate::state::State;

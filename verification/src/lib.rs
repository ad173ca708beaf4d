//! A small pseudo-random number generation library built from two
//! bit-manipulation generators and a weighted index sampler.
//!
//! [`xorshift::Xorshift64`] advances a 64-bit state by three chained
//! shift-and-xor steps; [`pcg::Pcg32`] combines a linear-congruential state
//! update with an xorshift-and-rotate output permutation. Both are plain
//! deterministic state machines: every contract pins the next state and the
//! returned draw exactly, as a function of the state before the call.
//! [`uniform`] holds the range mapping the generators share, and [`sampler`]
//! the cumulative-weight binary search that turns one draw into a weighted
//! index choice.
//!
//! These generators are not cryptographically secure, and the range mapping
//! keeps the classic modulo bias on purpose: both are part of the stated
//! behaviour, not defects.

pub mod pcg;
pub mod sampler;
pub mod uniform;
pub mod xorshift;

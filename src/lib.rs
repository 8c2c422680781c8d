//! A Schnorr proof of knowledge of a discrete logarithm over a prime
//! modulus, with verified modular arithmetic underneath.
pub mod arith;
pub mod laws;
pub mod schnorr;
pub mod comparison;

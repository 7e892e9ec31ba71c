//! Asymmetric message franking over the Ristretto255 group.
//!
//! The crate builds a signature proof of knowledge for the franking relation
//! out of small pieces: atomic sigma protocols (Schnorr, Chaum-Pedersen),
//! AND / OR combinators, and the Fiat-Shamir transform.

pub mod group;
pub mod linear_sigma;
pub mod schnorr;
pub mod chaum_pedersen;
pub mod and_proof;
pub mod or_proof;
pub mod fiat_shamir;
pub mod spok_amf;
pub mod franking;
pub mod codec;

pub use franking::{frank, judge, keygen, verify};
pub use group::{GroupPoint, GroupScalar};

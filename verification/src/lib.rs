//! Verified core of an age-attestation proving system.
//!
//! The library computes EIP-712 structured-signing digests, verifies a
//! signed age attestation (signature recovery plus an age-threshold
//! policy), and models the proof pipeline that turns a successful
//! verification run into a journal/seal pair fit for on-chain checking.

pub mod attestation;
pub mod boundary;
pub mod calldata;
pub mod decode;
pub mod errors;
pub mod hashing;
pub mod parse;
pub mod pipeline;
pub mod recover;
pub mod structs;
pub mod types;
pub mod words;

//! Decoding of Litchi mission exports and their conversion into flight plans.
//!
//! Floating-point fields are carried as their IEEE 754 bit patterns, so that
//! every value the decoder hands out is an integer the verifier can reason
//! about exactly.

pub mod error;
pub mod flightplan;
pub mod ieee;
pub mod litchi;
pub mod mtp;
pub mod text;

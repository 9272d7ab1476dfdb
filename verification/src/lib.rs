//! Typed messages over ARINC 653 queuing and sampling ports.
//!
//! A port moves bytes; a partition wants values. Between the two stand a
//! codec (postcard) and a few rules: what is handed to the port after an
//! encoding, what a send or a receive returns once the port has answered,
//! what is handed to the caller after a decoding, and which bytes are kept
//! when a message does not decode. This crate holds those rules. It encodes
//! and decodes nothing itself and knows no port: each function takes what the
//! codec and the port returned, a send also the transmission to make, and
//! says what follows.

pub mod buffer;
pub mod error;
pub mod queuing;
pub mod sampling;
pub mod send;

//! Command-processing core of a hardware-wallet application that takes part in
//! a threshold (FROST) signing ceremony.
//!
//! The library covers the security-critical logic of the device: chunked
//! command accumulation, the bounds-checked wire-format parser for the
//! reassembled signing payload, the hash-approval gate that couples the parsed
//! transaction hash with the independently approved one, deterministic nonce
//! derivation, and the chunked response encoder. The threshold-signature
//! primitives themselves are consumed from `ironfish_frost` as an opaque
//! capability; transport, the secure key store and the confirmation UI are the
//! caller's concern.

use vstd::prelude::*;

pub mod errors;
pub mod buffer;
pub mod context;
pub mod accumulator;
pub mod frost;
pub mod parser;
pub mod chunker;
pub mod handlers;

verus! {

/// Fixed capacity of the session buffer: the maximum payload a single
/// ceremony may deliver, imposed by the device.
pub const BUFFER_CAPACITY: usize = 4096;

/// Length in bytes of a transaction hash.
pub const TX_HASH_LEN: usize = 32;

} // verus!

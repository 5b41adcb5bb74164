//! The error taxonomy of the core. Every failure terminates the current
//! ceremony; the caller reacts to the distinguishable kinds differently.

use vstd::prelude::*;

verus! {

/// Status of a failed operation, surfaced to the transport layer.
#[derive(Clone, Copy, Debug, PartialEq, Eq, Structural)]
pub enum AppSW {
    /// The user explicitly denied a confirmation prompt.
    Deny,
    /// No transaction hash was approved, or the approved hash does not match
    /// the hash carried by the signing payload.
    InvalidTxHash,
    /// The randomizer field of the signing payload failed to deserialize.
    InvalidRandomizer,
    /// The signing-package field of the signing payload failed to deserialize.
    InvalidSigningPackage,
    /// A bounds violation while parsing, or trailing bytes after a full
    /// parse, or accumulated data running past the declared total.
    InvalidPayload,
    /// The threshold-signing capability rejected its inputs.
    TxSignFail,
    /// Accumulated or stored data would exceed the fixed buffer capacity.
    CapacityError,
    /// The secure key store handed over unavailable or corrupt material.
    StoreError,
}

} // verus!

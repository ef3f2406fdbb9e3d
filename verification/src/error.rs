//! Error kinds surfaced by the attestation and command layers.

use vstd::prelude::*;

verus! {

/// Every failure this library can report.
///
/// Verification failures are binary: a report is either trusted or it is
/// not, so no variant carries partial results.
#[derive(Debug, Clone, Copy, PartialEq, Eq, Structural)]
pub enum Error {
    /// The hash primitive failed at runtime.
    DigestError,
    /// A cryptographic check (nonce, MAC, or ECDSA signature) did not match.
    BadSignature,
    /// A public key or certificate was malformed or could not be used.
    KeyError,
    /// Encoding the signed payload failed.
    IoError,
    /// An opaque firmware-reported error code from the dispatch boundary.
    TransportError(u32),
}

} // verus!

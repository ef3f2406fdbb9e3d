//! Userspace trust layer for a hardware-rooted confidential-computing
//! platform: request/response structures for attestation reports, the
//! obfuscation scheme protecting signer evidence in transit, trust-chain
//! verification, and the typed command envelope for the privileged driver
//! boundary.

use vstd::prelude::*;

pub mod bytes;
pub mod chain;
pub mod error;
pub mod ioctl;
pub mod policy;
pub mod report;
pub mod request;
pub mod signer;

verus! {

} // verus!

//! The typed command envelope for the privileged driver boundary.
//!
//! A static binding associates each logical operation with a unique
//! numeric opcode and exactly one payload type, so a payload can never be
//! dispatched under another operation's opcode: the pairing is fixed by
//! the type system, not checked at runtime.  The envelope carries the
//! opcode, the payload's memory address, and a zero-initialized slot the
//! transport fills with a firmware-reported error code on failure.

use vstd::prelude::*;
use core::marker::PhantomData;

verus! {

/// The binding between a payload type and its operation's opcode.  Each
/// payload type is bound to exactly one opcode; the opcode values are
/// fixed by the kernel's driver interface and never vary by call site.
pub trait Id: Sized {
    /// The opcode bound to this payload type.
    spec fn spec_id() -> u32;

    /// Returns the opcode bound to this payload type.
    fn id() -> (r: u32)
        ensures
            r == Self::spec_id(),
    ;
}

/// Payload of the operation that resets the platform's persistent state.
pub struct PlatformReset;

impl Id for PlatformReset {
    open spec fn spec_id() -> u32 {
        0x0
    }

    fn id() -> u32 {
        0x0
    }
}

/// Payload of the operation that gathers a status report from the
/// firmware; the firmware writes the fields.
pub struct PlatformStatus {
    /// Major version of the firmware interface.
    pub api_major: u8,
    /// Minor version of the firmware interface.
    pub api_minor: u8,
    /// The platform's current state.
    pub state: u8,
    /// The firmware build number.
    pub build: u32,
    /// Number of guests currently managed.
    pub guest_count: u32,
}

impl Id for PlatformStatus {
    open spec fn spec_id() -> u32 {
        0x1
    }

    fn id() -> u32 {
        0x1
    }
}

/// Payload of the operation that generates a new platform endorsement
/// key.
pub struct PekGen;

impl Id for PekGen {
    open spec fn spec_id() -> u32 {
        0x2
    }

    fn id() -> u32 {
        0x2
    }
}

/// Payload of the operation that exports a certificate-signing request
/// for the platform endorsement key into a caller buffer.
pub struct PekCsr {
    /// Address of the caller buffer the firmware writes the request to.
    pub address: u64,
    /// Length of that buffer in bytes.
    pub length: u32,
}

impl Id for PekCsr {
    open spec fn spec_id() -> u32 {
        0x3
    }

    fn id() -> u32 {
        0x3
    }
}

/// Payload of the operation that regenerates the platform Diffie-Hellman
/// key.
pub struct PdhGen;

impl Id for PdhGen {
    open spec fn spec_id() -> u32 {
        0x4
    }

    fn id() -> u32 {
        0x4
    }
}

/// Payload of the operation that exports the platform Diffie-Hellman key
/// and the platform certificate chain.
pub struct PdhCertExport {
    /// Address of the caller buffer for the key certificate.
    pub pdh_cert_address: u64,
    /// Length of that buffer in bytes.
    pub pdh_cert_len: u32,
    /// Address of the caller buffer for the certificate chain.
    pub cert_chain_address: u64,
    /// Length of that buffer in bytes.
    pub cert_chain_len: u32,
}

impl Id for PdhCertExport {
    open spec fn spec_id() -> u32 {
        0x5
    }

    fn id() -> u32 {
        0x5
    }
}

/// Payload of the operation that imports a signed platform endorsement
/// key certificate, joining the platform to a domain.
pub struct PekCertImport {
    /// Address of the signed certificate.
    pub pek_cert_address: u64,
    /// Length of the signed certificate in bytes.
    pub pek_cert_len: u32,
    /// Address of the owner's certificate.
    pub oca_cert_address: u64,
    /// Length of the owner's certificate in bytes.
    pub oca_cert_len: u32,
}

impl Id for PekCertImport {
    open spec fn spec_id() -> u32 {
        0x6
    }

    fn id() -> u32 {
        0x6
    }
}

/// Payload of the operation that reads the processor's unique identity,
/// used to obtain a chip endorsement key certificate.
pub struct GetId {
    /// Address of the caller buffer the firmware writes the identity to.
    pub id_address: u64,
    /// Length of that buffer in bytes.
    pub id_len: u32,
}

impl Id for GetId {
    open spec fn spec_id() -> u32 {
        0x8
    }

    fn id() -> u32 {
        0x8
    }
}

/// Relies on `core::ptr::from_ref`: the returned word is the referent's
/// machine address, about which no contract can promise anything.
#[verifier::external_body]
fn ref_addr<T>(r: &T) -> u64 {
    core::ptr::from_ref(r).addr() as u64
}

/// The transport envelope handed across the driver boundary: an opcode,
/// the bound payload's address, and an error slot.  The borrow of the
/// payload lives as long as the envelope, so the address stays valid
/// until the envelope is dropped.
pub struct Command<'a, T: Id> {
    /// The opcode of the bound operation.
    pub code: u32,
    /// Address of the payload in the caller's address space.
    pub data: u64,
    /// Zero-initialized; the transport stores a firmware-reported error
    /// code here on failure.
    pub error: u32,
    /// Marks the envelope as borrowing its payload.
    pub _phantom: PhantomData<&'a T>,
}

impl<'a, T: Id> Command<'a, T> {
    /// Binds a mutable payload: the firmware may write into the payload's
    /// memory through the carried address.
    pub fn from_mut(subcmd: &'a mut T) -> (r: Self)
        ensures
            r.code == T::spec_id(),
            r.error == 0,
    {
        Command { code: T::id(), data: ref_addr(&*subcmd), error: 0, _phantom: PhantomData }
    }

    /// Binds an immutable payload: no firmware-side mutation is expected.
    /// Advisory only — the transport cannot hold a misbehaving firmware
    /// to it.
    pub fn from(subcmd: &'a T) -> (r: Self)
        ensures
            r.code == T::spec_id(),
            r.error == 0,
    {
        Command { code: T::id(), data: ref_addr(subcmd), error: 0, _phantom: PhantomData }
    }
}

} // verus!

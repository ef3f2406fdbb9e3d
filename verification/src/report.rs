//! The attestation report: the measurement body the firmware signs, the
//! signature around it, and the fixed one-page response bundle that
//! carries report and signer evidence back from the firmware.

use vstd::prelude::*;

use crate::bytes::{push_bytes, zero_bytes};
use crate::policy::GuestPolicy;
use crate::signer::ReportSigner;

verus! {

/// Size in bytes of the whole firmware response: exactly one memory page.
pub const PAGE_SIZE: usize = 4096;

/// Size in bytes of the signed measurement body.
pub const BODY_SIZE: usize = 180;

/// Size in bytes of an ECDSA signature: two 72-byte big-number components.
pub const SIG_SIZE: usize = 144;

/// Size in bytes of a whole attestation report.
pub const REPORT_SIZE: usize = BODY_SIZE + 12 + SIG_SIZE;

/// Size in bytes of the signer-evidence block.
pub const SIGNER_SIZE: usize = 2084 + 64 + 32 + 32;

/// Size in bytes of the padding that stretches the response to one page.
pub const RSP_PAD_SIZE: usize = PAGE_SIZE - REPORT_SIZE - SIGNER_SIZE;

/// An ECDSA signature as the firmware lays it out: the two components as
/// fixed-width big-endian numbers.
#[derive(Debug, Copy, Clone)]
pub struct EcdsaSig {
    /// The signature's first component.
    pub r: [u8; 72],
    /// The signature's second component.
    pub s: [u8; 72],
}

impl Default for EcdsaSig {
    /// An all-zero signature, as the response buffer starts out.
    fn default() -> (r: Self)
        ensures
            r.r@ == zero_bytes(72),
            r.s@ == zero_bytes(72),
    {
        let r = Self { r: [0u8; 72], s: [0u8; 72] };
        proof {
            assert(r.r@ =~= zero_bytes(72));
            assert(r.s@ =~= zero_bytes(72));
        }
        r
    }
}

/// The measurement body of an attestation report: the exact byte region
/// the firmware's signature covers.
#[derive(Debug, Copy, Clone)]
pub struct Body {
    /// Digest of the guest owner's public key.
    pub user_pubkey_digest: [u8; 32],
    /// The virtual machine's identity.
    pub vm_id: [u8; 16],
    /// The virtual machine's version.
    pub vm_version: [u8; 16],
    /// The guest-owner data carried into the report.
    pub report_data: [u8; 64],
    /// The guest-owner nonce carried into the report.
    pub mnonce: [u8; 16],
    /// The launch measurement.
    pub measure: [u8; 32],
    /// The guest policy word, masked with the session nonce in transit.
    pub policy: GuestPolicy,
}

/// The byte layout of a measurement body: every field in declaration
/// order, the policy word as a little-endian 32-bit word.
pub open spec fn spec_body_bytes(b: Body) -> Seq<u8> {
    b.user_pubkey_digest@ + b.vm_id@ + b.vm_version@ + b.report_data@ + b.mnonce@ + b.measure@
        + vstd::bytes::spec_u32_to_le_bytes(b.policy.0)
}

impl Body {
    /// Serializes the body to its fixed byte layout: the payload over
    /// which report signatures are made and checked.
    pub fn encode_bytes(&self) -> (r: Vec<u8>)
        ensures
            r@ == spec_body_bytes(*self),
            r@.len() == BODY_SIZE,
    {
        let mut out: Vec<u8> = Vec::new();
        push_bytes(&mut out, self.user_pubkey_digest.as_slice());
        push_bytes(&mut out, self.vm_id.as_slice());
        push_bytes(&mut out, self.vm_version.as_slice());
        push_bytes(&mut out, self.report_data.as_slice());
        push_bytes(&mut out, self.mnonce.as_slice());
        push_bytes(&mut out, self.measure.as_slice());
        let policy_word: Vec<u8> = vstd::bytes::u32_to_le_bytes(self.policy.0);
        push_bytes(&mut out, policy_word.as_slice());
        out
    }
}

impl Default for Body {
    /// An all-zero body, as the response buffer is handed to the firmware.
    fn default() -> (r: Self)
        ensures
            r.user_pubkey_digest@ == zero_bytes(32),
            r.vm_id@ == zero_bytes(16),
            r.vm_version@ == zero_bytes(16),
            r.report_data@ == zero_bytes(64),
            r.mnonce@ == zero_bytes(16),
            r.measure@ == zero_bytes(32),
            r.policy.0 == 0u32,
    {
        let r = Self {
            user_pubkey_digest: [0u8; 32],
            vm_id: [0u8; 16],
            vm_version: [0u8; 16],
            report_data: [0u8; 64],
            mnonce: [0u8; 16],
            measure: [0u8; 32],
            policy: GuestPolicy(0),
        };
        proof {
            assert(r.user_pubkey_digest@ =~= zero_bytes(32));
            assert(r.vm_id@ =~= zero_bytes(16));
            assert(r.vm_version@ =~= zero_bytes(16));
            assert(r.report_data@ =~= zero_bytes(64));
            assert(r.mnonce@ =~= zero_bytes(16));
            assert(r.measure@ =~= zero_bytes(32));
        }
        r
    }
}

/// The firmware-signed attestation report.  The signature covers only
/// `body`; `anonce` is the per-session nonce the firmware chose to mask
/// the signer evidence and the policy word, not part of the signed region.
#[derive(Debug)]
pub struct AttestationReport {
    /// The signed measurement body.
    pub body: Body,
    /// Usage tag of the signing key.
    pub sig_usage: u32,
    /// Algorithm tag of the signature.
    pub sig_algo: u32,
    /// The firmware's session nonce, seed of the obfuscation keystream.
    pub anonce: u32,
    /// The ECDSA signature over the body.
    pub sig: EcdsaSig,
}

impl AttestationReport {
    /// Serializes the signed region of the report: exactly the body's
    /// bytes, nothing of the tags, session nonce or signature.
    pub fn encode(&self) -> (r: Vec<u8>)
        ensures
            r@ == spec_body_bytes(self.body),
            r@.len() == BODY_SIZE,
    {
        self.body.encode_bytes()
    }
}

impl Default for AttestationReport {
    /// An all-zero report, as the response buffer is handed to the
    /// firmware.
    fn default() -> (r: Self)
        ensures
            r.body.user_pubkey_digest@ == zero_bytes(32),
            r.body.vm_id@ == zero_bytes(16),
            r.body.vm_version@ == zero_bytes(16),
            r.body.report_data@ == zero_bytes(64),
            r.body.mnonce@ == zero_bytes(16),
            r.body.measure@ == zero_bytes(32),
            r.body.policy.0 == 0u32,
            r.sig_usage == 0u32,
            r.sig_algo == 0u32,
            r.anonce == 0u32,
            r.sig.r@ == zero_bytes(72),
            r.sig.s@ == zero_bytes(72),
    {
        Self {
            body: Default::default(),
            sig_usage: 0,
            sig_algo: 0,
            anonce: 0,
            sig: Default::default(),
        }
    }
}

/// The firmware's response to a report request: the attestation report,
/// the signer evidence, and padding that stretches the whole structure to
/// exactly one memory page.
pub struct ReportRsp {
    /// The attestation report generated by the firmware.
    pub report: AttestationReport,
    /// The evidence needed to verify the report's signature.
    pub signer: ReportSigner,
    /// Padding up to the page boundary.
    pub reserved: [u8; RSP_PAD_SIZE],
}

/// Law: the declared sizes of report, signer evidence and padding tile
/// one memory page exactly — the response's size is a structural
/// invariant of the layout constants, not a property of one build.
pub proof fn lemma_response_page_size()
    ensures
        REPORT_SIZE + SIGNER_SIZE + RSP_PAD_SIZE == PAGE_SIZE,
        BODY_SIZE == 32 + 16 + 16 + 64 + 16 + 32 + 4,
        REPORT_SIZE == BODY_SIZE + 12 + SIG_SIZE,
{
}

impl Default for ReportRsp {
    /// An all-zero response buffer for the firmware to fill: every byte
    /// of the page, padding included, starts out zero.
    fn default() -> (r: Self)
        ensures
            r.report.body.user_pubkey_digest@ == zero_bytes(32),
            r.report.body.vm_id@ == zero_bytes(16),
            r.report.body.vm_version@ == zero_bytes(16),
            r.report.body.report_data@ == zero_bytes(64),
            r.report.body.mnonce@ == zero_bytes(16),
            r.report.body.measure@ == zero_bytes(32),
            r.report.body.policy.0 == 0u32,
            r.report.sig_usage == 0u32,
            r.report.sig_algo == 0u32,
            r.report.anonce == 0u32,
            r.report.sig.r@ == zero_bytes(72),
            r.report.sig.s@ == zero_bytes(72),
            r.signer.pek_cert@ == zero_bytes(2084),
            r.signer.sn@ == zero_bytes(64),
            r.signer.reserved@ == zero_bytes(32),
            r.signer.mac@ == zero_bytes(32),
            r.reserved@ == zero_bytes(RSP_PAD_SIZE as nat),
    {
        let r = Self {
            report: Default::default(),
            signer: Default::default(),
            reserved: [0u8; RSP_PAD_SIZE],
        };
        proof {
            assert(r.reserved@ =~= zero_bytes(RSP_PAD_SIZE as nat));
        }
        r
    }
}

} // verus!

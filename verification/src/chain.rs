//! Trust-chain verification: a certificate's signature is checked against
//! its issuer's public key, and an attestation report's signature against
//! the leaf certificate's public key.
//!
//! Chain verification is a caller-driven sequence — each link is verified
//! explicitly and the topology (who issues whom) is caller knowledge, not
//! enforced by these structures.

use vstd::prelude::*;
use vstd::slice::slice_subrange;

use crate::bytes::push_bytes;
use crate::error::Error;
use crate::report::{AttestationReport, EcdsaSig, spec_body_bytes};
use crate::request::{sm3_digest, sm3_of};

verus! {

/// Usage tag of a hardware root key certificate.
pub const USAGE_HRK: u32 = 0x0;

/// Usage tag of a hardware signing key certificate.
pub const USAGE_HSK: u32 = 0x13;

/// Usage tag of a platform endorsement key certificate.
pub const USAGE_PEK: u32 = 0x1002;

/// Usage tag of a platform Diffie-Hellman key certificate.
pub const USAGE_PDH: u32 = 0x1003;

/// Usage tag of a chip endorsement key certificate.
pub const USAGE_CEK: u32 = 0x1004;

/// Identifier of the elliptic curve every key in the chain lives on.
pub const CURVE_SM2: u32 = 3;

/// The public-key material and identity a certificate carries.
#[derive(Debug, Copy, Clone)]
pub struct CertData {
    /// Usage tag of the certified key.
    pub key_usage: u32,
    /// Identifier of the curve the public key lives on.
    pub curve: u32,
    /// The public key's first affine coordinate, big-endian.
    pub qx: [u8; 32],
    /// The public key's second affine coordinate, big-endian.
    pub qy: [u8; 32],
    /// Number of meaningful leading bytes of `user_id`.
    pub uid_size: u32,
    /// The certificate holder's identity, length-prefixed by `uid_size`.
    pub user_id: [u8; 64],
}

/// The signed region of a certificate.
#[derive(Debug, Copy, Clone)]
pub struct CertBody {
    /// Certificate format version.
    pub ver: u32,
    /// The certified key and identity.
    pub data: CertData,
}

/// A certificate in the trust chain: a signed body naming a public key,
/// and its issuer's signature.  Terminal certificates are self-signed or
/// hardware-rooted.
#[derive(Debug, Copy, Clone)]
pub struct Certificate {
    /// The signed region.
    pub body: CertBody,
    /// Usage tag of the key that signed this certificate.
    pub sig_usage: u32,
    /// Algorithm tag of the signature.
    pub sig_algo: u32,
    /// The issuer's signature over the body.
    pub sig: EcdsaSig,
}

/// A signature detached from the structure that carried it, as handed to
/// the verification primitive.
#[derive(Debug, Clone)]
pub struct Signature {
    /// The raw signature: both components, fixed-width big-endian.
    pub sig: Vec<u8>,
    /// Identity of the signer, when one is known.
    pub id: Option<[u8; 64]>,
    /// Usage tag of the signing key.
    pub usage: u32,
    /// Algorithm tag, when one is known.
    pub algo: Option<u32>,
}

impl Signature {
    /// Detaches the ECDSA signature from an attestation report.  Report
    /// signatures are always made by the platform endorsement key.
    pub fn from_report(report: &AttestationReport) -> (r: Result<Signature, Error>)
        ensures
            r matches Ok(s) ==> ({
                &&& s.sig@ == report.sig.r@ + report.sig.s@
                &&& s.id is None
                &&& s.usage == USAGE_PEK
                &&& s.algo is None
            }),
            r is Ok,
    {
        let mut sig: Vec<u8> = Vec::new();
        push_bytes(&mut sig, report.sig.r.as_slice());
        push_bytes(&mut sig, report.sig.s.as_slice());
        Ok(Signature { sig, id: None, usage: USAGE_PEK, algo: None })
    }
}

/// The byte layout of a certificate's signed region: every field in
/// declaration order, words little-endian.
pub open spec fn spec_cert_body_bytes(b: CertBody) -> Seq<u8> {
    vstd::bytes::spec_u32_to_le_bytes(b.ver) + vstd::bytes::spec_u32_to_le_bytes(b.data.key_usage)
        + vstd::bytes::spec_u32_to_le_bytes(b.data.curve) + b.data.qx@ + b.data.qy@
        + vstd::bytes::spec_u32_to_le_bytes(b.data.uid_size) + b.data.user_id@
}

impl CertBody {
    /// Serializes the signed region to its fixed byte layout: the payload
    /// over which certificate signatures are made and checked.
    pub fn encode_bytes(&self) -> (r: Vec<u8>)
        ensures
            r@ == spec_cert_body_bytes(*self),
    {
        let mut out: Vec<u8> = Vec::new();
        let ver: Vec<u8> = vstd::bytes::u32_to_le_bytes(self.ver);
        push_bytes(&mut out, ver.as_slice());
        let key_usage: Vec<u8> = vstd::bytes::u32_to_le_bytes(self.data.key_usage);
        push_bytes(&mut out, key_usage.as_slice());
        let curve: Vec<u8> = vstd::bytes::u32_to_le_bytes(self.data.curve);
        push_bytes(&mut out, curve.as_slice());
        push_bytes(&mut out, self.data.qx.as_slice());
        push_bytes(&mut out, self.data.qy.as_slice());
        let uid_size: Vec<u8> = vstd::bytes::u32_to_le_bytes(self.data.uid_size);
        push_bytes(&mut out, uid_size.as_slice());
        push_bytes(&mut out, self.data.user_id.as_slice());
        out
    }
}

/// Names the verdict of openssl's ECDSA verification on the SM2 curve:
/// for a well-formed key it is a function of key, digest and signature
/// alone.
pub uninterp spec fn sm2_verifies(
    qx: Seq<u8>,
    qy: Seq<u8>,
    digest: Seq<u8>,
    sig_r: Seq<u8>,
    sig_s: Seq<u8>,
) -> bool;

/// Relies on openssl's `EcKey::from_public_key_affine_coordinates` and
/// `EcdsaSig::verify` on the SM2 curve: the verdict depends on the key
/// coordinates, the digest and the signature components alone.  `None`
/// when the coordinates name no usable point on the curve.
/// `BigNum::from_slice` and `EcdsaSig::verify` refuse by panic a buffer
/// longer than the FFI boundary's signed 32-bit length, so such buffers
/// are left out.
#[verifier::external_body]
fn sm2_verify(qx: &[u8], qy: &[u8], digest: &Vec<u8>, sig_r: &[u8], sig_s: &[u8]) -> (r: Option<
    bool,
>)
    requires
        qx@.len() <= 0x7fff_ffff,
        qy@.len() <= 0x7fff_ffff,
        digest@.len() <= 0x7fff_ffff,
        sig_r@.len() <= 0x7fff_ffff,
        sig_s@.len() <= 0x7fff_ffff,
    ensures
        r matches Some(b) ==> b == sm2_verifies(qx@, qy@, digest@, sig_r@, sig_s@),
{
    let run = || -> Result<bool, openssl::error::ErrorStack> {
        let group = openssl::ec::EcGroup::from_curve_name(openssl::nid::Nid::SM2)?;
        let x = openssl::bn::BigNum::from_slice(qx)?;
        let y = openssl::bn::BigNum::from_slice(qy)?;
        let key = openssl::ec::EcKey::from_public_key_affine_coordinates(&group, &x, &y)?;
        let r = openssl::bn::BigNum::from_slice(sig_r)?;
        let s = openssl::bn::BigNum::from_slice(sig_s)?;
        let sig = openssl::ecdsa::EcdsaSig::from_private_components(r, s)?;
        sig.verify(digest, &key)
    };
    run().ok()
}

/// Maps the primitive's verdict to this library's errors: success exactly
/// on a positive verdict, `KeyError` exactly when the key was unusable,
/// `BadSignature` exactly on a negative verdict.
pub fn outcome_to_result(outcome: Option<bool>) -> (r: Result<(), Error>)
    ensures
        r is Ok <==> outcome == Some(true),
        r == Err::<(), Error>(Error::BadSignature) <==> outcome == Some(false),
        r == Err::<(), Error>(Error::KeyError) <==> outcome is None,
{
    match outcome {
        Some(true) => Ok(()),
        Some(false) => Err(Error::BadSignature),
        None => Err(Error::KeyError),
    }
}

/// Verifies a subject certificate against its issuer: the issuer's public
/// key must verify the signature over the subject's signed body.
pub fn verify_cert(issuer: &Certificate, subject: &Certificate) -> (r: Result<(), Error>)
    ensures
        issuer.body.data.curve != CURVE_SM2 ==> r == Err::<(), Error>(Error::KeyError),
        r is Ok ==> issuer.body.data.curve == CURVE_SM2 && sm2_verifies(
            issuer.body.data.qx@,
            issuer.body.data.qy@,
            sm3_of(spec_cert_body_bytes(subject.body)),
            subject.sig.r@,
            subject.sig.s@,
        ),
        r == Err::<(), Error>(Error::BadSignature) ==> issuer.body.data.curve == CURVE_SM2
            && !sm2_verifies(
            issuer.body.data.qx@,
            issuer.body.data.qy@,
            sm3_of(spec_cert_body_bytes(subject.body)),
            subject.sig.r@,
            subject.sig.s@,
        ),
        r matches Err(e) ==> (e is KeyError || e is BadSignature || e is DigestError),
{
    if issuer.body.data.curve != CURVE_SM2 {
        return Err(Error::KeyError);
    }

    let msg: Vec<u8> = subject.body.encode_bytes();
    let digest: Vec<u8> = match sm3_digest(&msg) {
        Ok(d) => d,
        Err(e) => {
            return Err(e);
        },
    };

    let outcome = sm2_verify(
        issuer.body.data.qx.as_slice(),
        issuer.body.data.qy.as_slice(),
        &digest,
        subject.sig.r.as_slice(),
        subject.sig.s.as_slice(),
    );
    outcome_to_result(outcome)
}

/// The byte string an attestation report's signature is checked over: the
/// leaf certificate's declared identity (its `uid_size`-byte prefix of
/// `user_id`) as authenticated context, then the report's body bytes.
pub open spec fn spec_report_message(cert: Certificate, report: AttestationReport) -> Seq<u8> {
    cert.body.data.user_id@.subrange(0, cert.body.data.uid_size as int) + spec_body_bytes(
        report.body,
    )
}

/// Verifies an attestation report against the leaf certificate: the
/// certificate's public key must verify the report's ECDSA signature over
/// the report's body bytes, bound to the certificate's declared identity.
/// The signature covers nothing of the report's tags or session nonce.
pub fn verify_report(cert: &Certificate, report: &AttestationReport) -> (r: Result<(), Error>)
    ensures
        cert.body.data.curve != CURVE_SM2 ==> r == Err::<(), Error>(Error::KeyError),
        cert.body.data.uid_size > 64 ==> r == Err::<(), Error>(Error::KeyError),
        r is Ok ==> cert.body.data.curve == CURVE_SM2 && cert.body.data.uid_size <= 64
            && sm2_verifies(
            cert.body.data.qx@,
            cert.body.data.qy@,
            sm3_of(spec_report_message(*cert, *report)),
            report.sig.r@,
            report.sig.s@,
        ),
        r == Err::<(), Error>(Error::BadSignature) ==> cert.body.data.curve == CURVE_SM2
            && cert.body.data.uid_size <= 64 && !sm2_verifies(
            cert.body.data.qx@,
            cert.body.data.qy@,
            sm3_of(spec_report_message(*cert, *report)),
            report.sig.r@,
            report.sig.s@,
        ),
        r matches Err(e) ==> (e is KeyError || e is BadSignature || e is DigestError),
{
    if cert.body.data.curve != CURVE_SM2 {
        return Err(Error::KeyError);
    }
    if cert.body.data.uid_size > 64 {
        return Err(Error::KeyError);
    }

    let uid_len: usize = cert.body.data.uid_size as usize;
    let uid_prefix: &[u8] = slice_subrange(cert.body.data.user_id.as_slice(), 0, uid_len);

    let mut msg: Vec<u8> = Vec::new();
    push_bytes(&mut msg, uid_prefix);
    let body_bytes: Vec<u8> = report.encode();
    push_bytes(&mut msg, body_bytes.as_slice());

    let digest: Vec<u8> = match sm3_digest(&msg) {
        Ok(d) => d,
        Err(e) => {
            return Err(e);
        },
    };

    let outcome = sm2_verify(
        cert.body.data.qx.as_slice(),
        cert.body.data.qy.as_slice(),
        &digest,
        report.sig.r.as_slice(),
        report.sig.s.as_slice(),
    );
    outcome_to_result(outcome)
}

} // verus!

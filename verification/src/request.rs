//! The attestation report request: guest-owner data and nonce, bound
//! together by an integrity digest that is recomputed on every
//! construction and never accepted from an untrusted source.

use vstd::prelude::*;

use crate::bytes::{bytes_eq, push_bytes, zero_bytes};
use crate::error::Error;

verus! {

/// Names the digest that openssl's SM3 hash returns: a function of the
/// input bytes alone.
pub uninterp spec fn sm3_of(msg: Seq<u8>) -> Seq<u8>;

/// Relies on openssl's `Hasher` with the SM3 digest: the 32-byte digest
/// depends on the input bytes alone.
#[verifier::external_body]
pub(crate) fn sm3_digest(msg: &Vec<u8>) -> (r: Result<Vec<u8>, Error>)
    ensures
        r matches Ok(d) ==> d@ == sm3_of(msg@) && d@.len() == 32,
        r matches Err(e) ==> e is DigestError,
{
    let run = || -> Result<Vec<u8>, openssl::error::ErrorStack> {
        let mut hasher = openssl::hash::Hasher::new(openssl::hash::MessageDigest::sm3())?;
        hasher.update(msg)?;
        Ok(hasher.finish()?.as_ref().to_vec())
    };
    run().map_err(|_| Error::DigestError)
}

/// Data the guest owner provides to request an attestation report from the
/// secure processor.
#[derive(Debug)]
pub struct ReportReq {
    /// Guest-provided data to be included in the attestation report.
    pub data: [u8; 64],
    /// Guest-provided nonce placed in the report for replay protection.
    pub mnonce: [u8; 16],
    /// Digest of `data` and `mnonce`, binding them together.
    pub hash: [u8; 32],
}

impl ReportReq {
    /// Builds a request from optional data (absent means a zero buffer)
    /// and a nonce, and computes the binding digest over both.
    pub fn new(data: Option<[u8; 64]>, mnonce: [u8; 16]) -> (r: Result<Self, Error>)
        ensures
            r matches Ok(req) ==> ({
                &&& req.data@ == (match data {
                    Some(d) => d@,
                    None => zero_bytes(64),
                })
                &&& req.mnonce@ == mnonce@
                &&& req.hash@ == sm3_of(req.data@ + req.mnonce@)
            }),
            r matches Err(e) ==> e is DigestError,
    {
        let mut request = Self::default();

        if let Some(data) = data {
            request.data = data;
        }

        request.mnonce = mnonce;

        request.calculate_hash()?;

        Ok(request)
    }

    /// Recomputes the binding digest over the current data and nonce.
    fn calculate_hash(&mut self) -> (r: Result<(), Error>)
        ensures
            final(self).data == old(self).data,
            final(self).mnonce == old(self).mnonce,
            r is Ok ==> final(self).hash@ == sm3_of(old(self).data@ + old(self).mnonce@),
            r matches Err(e) ==> e is DigestError && *final(self) == *old(self),
    {
        let mut msg: Vec<u8> = Vec::new();
        push_bytes(&mut msg, self.data.as_slice());
        push_bytes(&mut msg, self.mnonce.as_slice());

        let digest: Vec<u8> = match sm3_digest(&msg) {
            Ok(d) => d,
            Err(e) => {
                return Err(e);
            },
        };

        let mut i: usize = 0;
        while i < 32
            invariant
                0 <= i <= 32,
                digest@.len() == 32,
                digest@ == sm3_of(old(self).data@ + old(self).mnonce@),
                self.data == old(self).data,
                self.mnonce == old(self).mnonce,
                forall|j: int| 0 <= j < i ==> self.hash@[j] == digest@[j],
            decreases 32 - i,
        {
            self.hash[i] = digest[i];
            i += 1;
        }
        proof {
            assert(self.hash@ =~= digest@);
        }

        Ok(())
    }
}

impl Default for ReportReq {
    /// An all-zero request, before data, nonce and digest are filled in.
    fn default() -> (r: Self)
        ensures
            r.data@ == zero_bytes(64),
            r.mnonce@ == zero_bytes(16),
            r.hash@ == zero_bytes(32),
    {
        let r = Self { data: [0u8; 64], mnonce: [0u8; 16], hash: [0u8; 32] };
        proof {
            assert(r.data@ =~= zero_bytes(64));
            assert(r.mnonce@ =~= zero_bytes(16));
            assert(r.hash@ =~= zero_bytes(32));
        }
        r
    }
}

impl PartialEq for ReportReq {
    /// Structural equality over all three fields.  Used only by tests; an
    /// attacker-controlled request is never compared against an expected
    /// value in production.
    fn eq(&self, other: &Self) -> (r: bool) {
        bytes_eq(self.data.as_slice(), other.data.as_slice()) && bytes_eq(
            self.mnonce.as_slice(),
            other.mnonce.as_slice(),
        ) && bytes_eq(self.hash.as_slice(), other.hash.as_slice())
    }
}

impl vstd::std_specs::cmp::PartialEqSpecImpl for ReportReq {
    open spec fn obeys_eq_spec() -> bool {
        true
    }

    open spec fn eq_spec(&self, other: &ReportReq) -> bool {
        self.data@ == other.data@ && self.mnonce@ == other.mnonce@ && self.hash@ == other.hash@
    }
}

} // verus!

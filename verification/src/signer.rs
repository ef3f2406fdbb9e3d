//! Signer evidence: the certificate and serial-number bundle proving which
//! key signed an attestation report.  It travels XOR-obfuscated under a
//! firmware-chosen session nonce and is authenticated by an HMAC computed
//! over the still-obfuscated bytes (authenticate-then-decrypt).

use vstd::prelude::*;
use vstd::slice::SliceAdditionalExecFns;
use vstd::slice::slice_to_vec;

use crate::bytes::{bytes_eq, push_bytes, zero_bytes};
use crate::error::Error;

verus! {

/// Byte `i` of the keystream derived from a session nonce: the nonce's
/// little-endian bytes, repeated with period four.
pub open spec fn anonce_byte(anonce: u32, i: int) -> u8 {
    if i % 4 == 0 {
        (anonce & 0xff) as u8
    } else if i % 4 == 1 {
        ((anonce >> 8) & 0xff) as u8
    } else if i % 4 == 2 {
        ((anonce >> 16) & 0xff) as u8
    } else {
        ((anonce >> 24) & 0xff) as u8
    }
}

/// A byte string XOR-masked with the keystream of a session nonce.
pub open spec fn xor_keystream(s: Seq<u8>, anonce: u32) -> Seq<u8> {
    Seq::new(s.len(), |i: int| s[i] ^ anonce_byte(anonce, i))
}

/// Law: masking with the same session nonce twice restores the original
/// bytes — obfuscation and restoration are one reversible transform.
pub proof fn lemma_xor_keystream_involutive(s: Seq<u8>, anonce: u32)
    ensures
        xor_keystream(xor_keystream(s, anonce), anonce) == s,
{
    let t = xor_keystream(xor_keystream(s, anonce), anonce);
    assert forall|i: int| 0 <= i < s.len() implies t[i] == s[i] by {
        let b = s[i];
        let k = anonce_byte(anonce, i);
        assert((b ^ k) ^ k == b) by (bit_vector);
    }
    assert(t =~= s);
}

/// XOR-masks a buffer in place with the 4-byte little-endian repeating
/// keystream derived from `anonce`.
pub fn xor_with_anonce(data: &mut [u8], anonce: &u32) -> (r: Result<(), Error>)
    ensures
        r is Ok,
        final(data)@ == xor_keystream(old(data)@, *anonce),
{
    let a0: u8 = (*anonce & 0xff) as u8;
    let a1: u8 = ((*anonce >> 8) & 0xff) as u8;
    let a2: u8 = ((*anonce >> 16) & 0xff) as u8;
    let a3: u8 = ((*anonce >> 24) & 0xff) as u8;
    let n: usize = data.len();
    let mut i: usize = 0;
    while i < n
        invariant
            0 <= i <= n,
            n == data@.len(),
            n == old(data)@.len(),
            a0 == anonce_byte(*anonce, 0),
            a1 == anonce_byte(*anonce, 1),
            a2 == anonce_byte(*anonce, 2),
            a3 == anonce_byte(*anonce, 3),
            forall|j: int| 0 <= j < i ==> data@[j] == xor_keystream(old(data)@, *anonce)[j],
            forall|j: int| i <= j < n ==> data@[j] == old(data)@[j],
        decreases n - i,
    {
        let b: u8 = data[i];
        let r: usize = i % 4;
        let k: u8 = if r == 0 {
            a0
        } else if r == 1 {
            a1
        } else if r == 2 {
            a2
        } else {
            a3
        };
        proof {
            assert(anonce_byte(*anonce, i as int) == (if i as int % 4 == 0 {
                anonce_byte(*anonce, 0)
            } else if i as int % 4 == 1 {
                anonce_byte(*anonce, 1)
            } else if i as int % 4 == 2 {
                anonce_byte(*anonce, 2)
            } else {
                anonce_byte(*anonce, 3)
            }));
        }
        data[i] = b ^ k;
        proof {
            assert(data@[i as int] == xor_keystream(old(data)@, *anonce)[i as int]);
        }
        i += 1;
    }
    proof {
        assert(data@ =~= xor_keystream(old(data)@, *anonce));
    }
    Ok(())
}

/// Names the tag that openssl's HMAC with the SM3 digest returns: a
/// function of the key and message alone.
pub uninterp spec fn hmac_sm3_of(key: Seq<u8>, msg: Seq<u8>) -> Seq<u8>;

/// Relies on openssl's `PKey::hmac` and `Signer::sign_to_vec` with the SM3
/// digest: the tag depends on the key and the message alone.  `PKey::hmac`
/// refuses by panic a key longer than the FFI boundary's signed 32-bit
/// length, so such keys are left out.
#[verifier::external_body]
fn hmac_sm3(key: &[u8], msg: &Vec<u8>) -> (r: Result<Vec<u8>, Error>)
    requires
        key@.len() <= 0x7fff_ffff,
    ensures
        r matches Ok(t) ==> t@ == hmac_sm3_of(key@, msg@),
        r matches Err(e) ==> e is DigestError,
{
    let run = || -> Result<Vec<u8>, openssl::error::ErrorStack> {
        let pkey = openssl::pkey::PKey::hmac(key)?;
        let mut signer = openssl::sign::Signer::new(openssl::hash::MessageDigest::sm3(), &pkey)?;
        signer.update(msg)?;
        signer.sign_to_vec()
    };
    run().map_err(|_| Error::DigestError)
}

/// The obfuscated certificate and serial-number bundle the firmware embeds
/// in an attestation response, with its MAC.
pub struct ReportSigner {
    /// The signing certificate, XOR-obfuscated at rest.
    pub pek_cert: [u8; 2084],
    /// The chip serial number, XOR-obfuscated at rest.
    pub sn: [u8; 64],
    /// Reserved bytes; covered by the MAC, zeroed on restoration.
    pub reserved: [u8; 32],
    /// HMAC over the obfuscated certificate, serial number and reserved
    /// region, keyed with the restored plaintext nonce.
    pub mac: [u8; 32],
}

impl ReportSigner {
    /// The byte string the MAC covers: certificate, serial number and
    /// reserved region, all still in obfuscated form.
    pub open spec fn obfuscated_cat(self) -> Seq<u8> {
        self.pek_cert@ + self.sn@ + self.reserved@
    }

    /// Authenticates the evidence, then de-obfuscates it in place.
    ///
    /// Recomputes the plaintext nonce by masking `mnonce` with the
    /// keystream of `anonce`, demands that it equal `input_mnonce`, keys an
    /// HMAC with it over the obfuscated bytes, demands that the tag equal
    /// the stored MAC, and only then restores the certificate and serial
    /// number.  Single-use: a second call would re-obfuscate the restored
    /// fields, so the evidence must be verified exactly once.
    pub fn verify(&mut self, input_mnonce: &[u8], mnonce: &[u8], anonce: &u32) -> (r: Result<
        (),
        Error,
    >)
        requires
            mnonce@.len() <= 0x7fff_ffff,
        ensures
            r is Ok ==> ({
                &&& xor_keystream(mnonce@, *anonce) == input_mnonce@
                &&& hmac_sm3_of(input_mnonce@, old(self).obfuscated_cat()) == old(self).mac@
                &&& final(self).pek_cert@ == xor_keystream(old(self).pek_cert@, *anonce)
                &&& final(self).sn@ == xor_keystream(old(self).sn@, *anonce)
                &&& final(self).reserved@ == zero_bytes(32)
                &&& final(self).mac@ == old(self).mac@
            }),
            r is Err ==> *final(self) == *old(self),
            r matches Err(e) ==> (e is BadSignature || e is DigestError),
            xor_keystream(mnonce@, *anonce) != input_mnonce@ ==> r == Err::<(), Error>(
                Error::BadSignature,
            ),
            (xor_keystream(mnonce@, *anonce) == input_mnonce@ && r == Err::<(), Error>(
                Error::BadSignature,
            ))
                ==> hmac_sm3_of(input_mnonce@, old(self).obfuscated_cat()) != old(self).mac@,
    {
        let mut real_mnonce: Vec<u8> = slice_to_vec(mnonce);
        xor_with_anonce(real_mnonce.as_mut_slice(), anonce)?;

        if !bytes_eq(real_mnonce.as_slice(), input_mnonce) {
            return Err(Error::BadSignature);
        }

        let mut covered: Vec<u8> = Vec::new();
        push_bytes(&mut covered, self.pek_cert.as_slice());
        push_bytes(&mut covered, self.sn.as_slice());
        push_bytes(&mut covered, self.reserved.as_slice());

        let tag: Vec<u8> = match hmac_sm3(real_mnonce.as_slice(), &covered) {
            Ok(t) => t,
            Err(e) => {
                return Err(e);
            },
        };

        if !bytes_eq(tag.as_slice(), self.mac.as_slice()) {
            return Err(Error::BadSignature);
        }

        self.restore(anonce)?;

        Ok(())
    }

    /// De-obfuscates the certificate and serial number in place with the
    /// keystream of `anonce`, and zeroes the reserved region.
    pub fn restore(&mut self, anonce: &u32) -> (r: Result<(), Error>)
        ensures
            r is Ok,
            final(self).pek_cert@ == xor_keystream(old(self).pek_cert@, *anonce),
            final(self).sn@ == xor_keystream(old(self).sn@, *anonce),
            final(self).reserved@ == zero_bytes(32),
            final(self).mac@ == old(self).mac@,
    {
        xor_with_anonce(&mut self.pek_cert, anonce)?;
        xor_with_anonce(&mut self.sn, anonce)?;

        self.reserved = [0u8; 32];
        proof {
            assert(self.reserved@ =~= zero_bytes(32));
        }

        Ok(())
    }
}

impl Default for ReportSigner {
    /// All-zero evidence, as the response buffer is handed to the firmware.
    fn default() -> (r: Self)
        ensures
            r.pek_cert@ == zero_bytes(2084),
            r.sn@ == zero_bytes(64),
            r.reserved@ == zero_bytes(32),
            r.mac@ == zero_bytes(32),
    {
        let r = Self { pek_cert: [0u8; 2084], sn: [0u8; 64], reserved: [0u8; 32], mac: [0u8; 32] };
        proof {
            assert(r.pek_cert@ =~= zero_bytes(2084));
            assert(r.sn@ =~= zero_bytes(64));
            assert(r.reserved@ =~= zero_bytes(32));
            assert(r.mac@ =~= zero_bytes(32));
        }
        r
    }
}

} // verus!

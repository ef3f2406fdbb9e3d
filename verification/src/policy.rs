//! The guest policy word: a packed 32-bit bitfield of launch and migration
//! restrictions, bound to a guest for its lifetime.
//!
//! Every 32-bit value is a legal policy word at this layer; each accessor is
//! pure bit extraction and validates nothing.

use vstd::prelude::*;

verus! {

/// The guest policy the guest owner provides at launch.  The firmware binds
/// it to the guest and enforces it for the guest's lifetime; it migrates
/// with the guest.
///
/// | Bit(s) | Name        | Meaning when set                                            |
/// |--------|-------------|-------------------------------------------------------------|
/// | 0      | NODBG       | Debugging of the guest is disallowed                        |
/// | 1      | NOKS        | Sharing keys with other guests is disallowed                |
/// | 2      | ES          | CSV2 is required                                            |
/// | 3      | NOSEND      | Sending the guest to another platform is disallowed         |
/// | 4      | DOMAIN      | The guest must stay inside the domain                       |
/// | 5      | CSV         | The guest must stay on CSV-capable platforms                |
/// | 6      | CSV3        | The guest must stay on CSV3-capable platforms               |
/// | 7      | ASID_REUSE  | Sharing asids with guests of the same owner is allowed      |
/// | 11:8   | HSK_VERSION | Minimum HSK version of a receiving platform                 |
/// | 15:12  | CEK_VERSION | Minimum CEK version of a receiving platform                 |
/// | 23:16  | API_MAJOR   | Minimum platform major version                              |
/// | 31:24  | API_MINOR   | Minimum platform minor version                              |
#[derive(Debug, Copy, Clone, PartialEq, Eq, Structural)]
pub struct GuestPolicy(pub u32);

pub open spec fn spec_nodbg(w: u32) -> u32 {
    (w >> 0) & 0x1
}

pub open spec fn spec_noks(w: u32) -> u32 {
    (w >> 1) & 0x1
}

pub open spec fn spec_es(w: u32) -> u32 {
    (w >> 2) & 0x1
}

pub open spec fn spec_nosend(w: u32) -> u32 {
    (w >> 3) & 0x1
}

pub open spec fn spec_domain(w: u32) -> u32 {
    (w >> 4) & 0x1
}

pub open spec fn spec_csv(w: u32) -> u32 {
    (w >> 5) & 0x1
}

pub open spec fn spec_csv3(w: u32) -> u32 {
    (w >> 6) & 0x1
}

pub open spec fn spec_asid_reuse(w: u32) -> u32 {
    (w >> 7) & 0x1
}

pub open spec fn spec_hsk_version(w: u32) -> u32 {
    (w >> 8) & 0xf
}

pub open spec fn spec_cek_version(w: u32) -> u32 {
    (w >> 12) & 0xf
}

pub open spec fn spec_api_major(w: u32) -> u32 {
    (w >> 16) & 0xff
}

pub open spec fn spec_api_minor(w: u32) -> u32 {
    (w >> 24) & 0xff
}

impl GuestPolicy {
    /// Bit 0: debugging of the guest is disallowed when set.
    pub fn nodbg(&self) -> (r: u32)
        ensures
            r == spec_nodbg(self.0),
    {
        (self.0 >> 0) & 0x1
    }

    /// Bit 1: sharing keys with other guests is disallowed when set.
    pub fn noks(&self) -> (r: u32)
        ensures
            r == spec_noks(self.0),
    {
        (self.0 >> 1) & 0x1
    }

    /// Bit 2: CSV2 is required when set.
    pub fn es(&self) -> (r: u32)
        ensures
            r == spec_es(self.0),
    {
        (self.0 >> 2) & 0x1
    }

    /// Bit 3: sending the guest to another platform is disallowed when set.
    pub fn nosend(&self) -> (r: u32)
        ensures
            r == spec_nosend(self.0),
    {
        (self.0 >> 3) & 0x1
    }

    /// Bit 4: the guest must not leave the domain when set.
    pub fn domain(&self) -> (r: u32)
        ensures
            r == spec_domain(self.0),
    {
        (self.0 >> 4) & 0x1
    }

    /// Bit 5: the guest must stay on CSV-capable platforms when set.
    pub fn csv(&self) -> (r: u32)
        ensures
            r == spec_csv(self.0),
    {
        (self.0 >> 5) & 0x1
    }

    /// Bit 6: the guest must stay on CSV3-capable platforms when set.
    pub fn csv3(&self) -> (r: u32)
        ensures
            r == spec_csv3(self.0),
    {
        (self.0 >> 6) & 0x1
    }

    /// Bit 7: sharing asids with guests of the same owner is allowed when set.
    pub fn asid_reuse(&self) -> (r: u32)
        ensures
            r == spec_asid_reuse(self.0),
    {
        (self.0 >> 7) & 0x1
    }

    /// Bits 11:8: the minimum HSK version of a receiving platform.
    pub fn hsk_version(&self) -> (r: u32)
        ensures
            r == spec_hsk_version(self.0),
    {
        (self.0 >> 8) & 0xf
    }

    /// Bits 15:12: the minimum CEK version of a receiving platform.
    pub fn cek_version(&self) -> (r: u32)
        ensures
            r == spec_cek_version(self.0),
    {
        (self.0 >> 12) & 0xf
    }

    /// Bits 23:16: the minimum platform major version.
    pub fn api_major(&self) -> (r: u32)
        ensures
            r == spec_api_major(self.0),
    {
        (self.0 >> 16) & 0xff
    }

    /// Bits 31:24: the minimum platform minor version.
    pub fn api_minor(&self) -> (r: u32)
        ensures
            r == spec_api_minor(self.0),
    {
        (self.0 >> 24) & 0xff
    }

    /// Masks the policy word with a session nonce.  A reversible bitwise
    /// transform used when the firmware embeds the word in the measurement
    /// body, not a security protection by itself.
    pub fn xor(&self, anonce: &u32) -> (r: Self)
        ensures
            r.0 == self.0 ^ *anonce,
    {
        Self(self.0 ^ *anonce)
    }
}

impl Default for GuestPolicy {
    /// An empty policy word: no restriction set, all version floors zero.
    fn default() -> (r: Self)
        ensures
            r.0 == 0u32,
    {
        Self(0)
    }
}

/// Law: reassembling the twelve fields at their declared offsets reproduces
/// the policy word exactly, for every 32-bit word.  Decoding loses nothing
/// and the declared ranges tile the word.
pub proof fn lemma_policy_round_trip(w: u32)
    by (bit_vector)
    ensures
        spec_nodbg(w) | (spec_noks(w) << 1) | (spec_es(w) << 2) | (spec_nosend(w) << 3)
            | (spec_domain(w) << 4) | (spec_csv(w) << 5) | (spec_csv3(w) << 6)
            | (spec_asid_reuse(w) << 7) | (spec_hsk_version(w) << 8)
            | (spec_cek_version(w) << 12) | (spec_api_major(w) << 16)
            | (spec_api_minor(w) << 24) == w,
{
}

/// Law: each field reads only its declared bit range — masking away all
/// other bits of the word leaves every accessor's value unchanged.
pub proof fn lemma_policy_fields_independent(w: u32)
    by (bit_vector)
    ensures
        spec_nodbg(w) == spec_nodbg(w & 0x0000_0001),
        spec_noks(w) == spec_noks(w & 0x0000_0002),
        spec_es(w) == spec_es(w & 0x0000_0004),
        spec_nosend(w) == spec_nosend(w & 0x0000_0008),
        spec_domain(w) == spec_domain(w & 0x0000_0010),
        spec_csv(w) == spec_csv(w & 0x0000_0020),
        spec_csv3(w) == spec_csv3(w & 0x0000_0040),
        spec_asid_reuse(w) == spec_asid_reuse(w & 0x0000_0080),
        spec_hsk_version(w) == spec_hsk_version(w & 0x0000_0f00),
        spec_cek_version(w) == spec_cek_version(w & 0x0000_f000),
        spec_api_major(w) == spec_api_major(w & 0x00ff_0000),
        spec_api_minor(w) == spec_api_minor(w & 0xff00_0000),
{
}

/// Law: masking with the same session nonce twice restores the original
/// policy word.
pub proof fn lemma_policy_xor_involutive(w: u32, anonce: u32)
    by (bit_vector)
    ensures
        (w ^ anonce) ^ anonce == w,
{
}

} // verus!

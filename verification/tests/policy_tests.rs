use csv_attest::policy::GuestPolicy;

#[test]
fn test_policy_field_extraction() {
    // api_minor = 0x9A, api_major = 0x78, cek = 0x5, hsk = 0x6,
    // low bits = 0xB1 = 1011_0001.
    let p = GuestPolicy(0x9A78_56B1);
    assert_eq!(p.nodbg(), 1);
    assert_eq!(p.noks(), 0);
    assert_eq!(p.es(), 0);
    assert_eq!(p.nosend(), 0);
    assert_eq!(p.domain(), 1);
    assert_eq!(p.csv(), 1);
    assert_eq!(p.csv3(), 0);
    assert_eq!(p.asid_reuse(), 1);
    assert_eq!(p.hsk_version(), 0x6);
    assert_eq!(p.cek_version(), 0x5);
    assert_eq!(p.api_major(), 0x78);
    assert_eq!(p.api_minor(), 0x9A);
}

#[test]
fn test_policy_round_trip() {
    // Reassembling the fields at their declared offsets reproduces the word.
    for w in [0u32, 0xFFFF_FFFF, 0x9A78_56B1, 0x0000_0100, 0x8000_0001] {
        let p = GuestPolicy(w);
        let rebuilt = p.nodbg()
            | (p.noks() << 1)
            | (p.es() << 2)
            | (p.nosend() << 3)
            | (p.domain() << 4)
            | (p.csv() << 5)
            | (p.csv3() << 6)
            | (p.asid_reuse() << 7)
            | (p.hsk_version() << 8)
            | (p.cek_version() << 12)
            | (p.api_major() << 16)
            | (p.api_minor() << 24);
        assert_eq!(rebuilt, w);
    }
}

#[test]
fn test_policy_xor_round_trip() {
    let p = GuestPolicy(0x1234_5678);
    let anonce: u32 = 0xDEAD_BEEF;
    let masked = p.xor(&anonce);
    assert_eq!(masked.0, 0x1234_5678 ^ 0xDEAD_BEEF);
    assert_eq!(masked.xor(&anonce), p);
}

#[test]
fn test_policy_default_is_empty() {
    let p: GuestPolicy = Default::default();
    assert_eq!(p.0, 0);
    assert_eq!(p.nodbg(), 0);
    assert_eq!(p.api_minor(), 0);
}

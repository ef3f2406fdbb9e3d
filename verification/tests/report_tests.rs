use csv_attest::policy::GuestPolicy;
use csv_attest::report::{
    AttestationReport, Body, ReportRsp, BODY_SIZE, PAGE_SIZE, REPORT_SIZE, RSP_PAD_SIZE, SIGNER_SIZE,
};

#[test]
fn test_body_encoding_layout() {
    let body = Body {
        user_pubkey_digest: [0x11; 32],
        vm_id: [0x22; 16],
        vm_version: [0x33; 16],
        report_data: [0x44; 64],
        mnonce: [0x55; 16],
        measure: [0x66; 32],
        policy: GuestPolicy(0x0403_0201),
    };
    let bytes = body.encode_bytes();
    assert_eq!(bytes.len(), BODY_SIZE);

    let mut expected = Vec::new();
    expected.extend_from_slice(&[0x11; 32]);
    expected.extend_from_slice(&[0x22; 16]);
    expected.extend_from_slice(&[0x33; 16]);
    expected.extend_from_slice(&[0x44; 64]);
    expected.extend_from_slice(&[0x55; 16]);
    expected.extend_from_slice(&[0x66; 32]);
    // The policy word is serialized little-endian.
    expected.extend_from_slice(&[0x01, 0x02, 0x03, 0x04]);
    assert_eq!(bytes, expected);
}

#[test]
fn test_report_encode_covers_only_the_body() {
    let mut report = AttestationReport::default();
    report.body.measure = [9u8; 32];
    let encoded = report.encode();
    assert_eq!(encoded, report.body.encode_bytes());

    // Fields outside the body leave the signed region unchanged.
    report.sig_usage = 7;
    report.sig_algo = 8;
    report.anonce = 9;
    report.sig.r[0] = 1;
    assert_eq!(report.encode(), encoded);
}

#[test]
fn test_response_sizes_tile_one_page() {
    assert_eq!(REPORT_SIZE + SIGNER_SIZE + RSP_PAD_SIZE, PAGE_SIZE);
    assert_eq!(PAGE_SIZE, 4096);
    assert_eq!(REPORT_SIZE, 336);
    assert_eq!(SIGNER_SIZE, 2212);
}

#[test]
fn test_response_default_is_zeroed() {
    let rsp = ReportRsp::default();
    assert_eq!(rsp.report.body.report_data, [0u8; 64]);
    assert_eq!(rsp.report.body.mnonce, [0u8; 16]);
    assert_eq!(rsp.report.anonce, 0);
    assert_eq!(rsp.signer.sn, [0u8; 64]);
    assert_eq!(rsp.signer.mac, [0u8; 32]);
}

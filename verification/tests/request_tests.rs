use csv_attest::request::ReportReq;

#[test]
pub fn test_new() {
    let data: [u8; 64] = [
        103, 198, 105, 115, 81, 255, 74, 236, 41, 205, 186, 171, 242, 251, 227, 70, 124, 194, 84,
        248, 27, 232, 231, 141, 118, 90, 46, 99, 51, 159, 201, 154, 102, 50, 13, 183, 49, 88, 163,
        90, 37, 93, 5, 23, 88, 233, 94, 212, 171, 178, 205, 198, 155, 180, 84, 17, 14, 130, 116,
        65, 33, 61, 220, 135,
    ];
    let mnonce: [u8; 16] = [112, 233, 62, 161, 65, 225, 252, 103, 62, 1, 126, 151, 234, 220, 107, 150];
    let hash: [u8; 32] = [
        19, 76, 8, 98, 33, 246, 247, 155, 28, 21, 245, 185, 118, 74, 162, 128, 82, 15, 160, 233,
        212, 130, 106, 177, 89, 6, 119, 243, 130, 21, 3, 153,
    ];
    let expected: ReportReq = ReportReq { data, mnonce, hash };

    let actual: ReportReq = ReportReq::new(Some(data), mnonce).unwrap();

    assert_eq!(expected, actual);
}

#[test]
#[should_panic]
pub fn test_new_error() {
    let data: [u8; 64] = [
        103, 198, 105, 115, 81, 255, 74, 236, 41, 205, 186, 171, 242, 251, 227, 70, 124, 194, 84,
        248, 27, 232, 231, 141, 118, 90, 46, 99, 51, 159, 201, 154, 102, 50, 13, 183, 49, 88, 163,
        90, 37, 93, 5, 23, 88, 233, 94, 212, 171, 178, 205, 198, 155, 180, 84, 17, 14, 130, 116,
        65, 33, 61, 220, 135,
    ];
    let mnonce: [u8; 16] = [112, 233, 62, 161, 65, 225, 252, 103, 62, 1, 126, 151, 234, 220, 107, 150];
    let wrong_mnonce: [u8; 16] = [0, 233, 62, 161, 65, 225, 252, 103, 62, 1, 126, 151, 234, 220, 107, 150];
    let hash: [u8; 32] = [
        19, 76, 8, 98, 33, 246, 247, 155, 28, 21, 245, 185, 118, 74, 162, 128, 82, 15, 160, 233,
        212, 130, 106, 177, 89, 6, 119, 243, 130, 21, 3, 153,
    ];
    let expected: ReportReq = ReportReq { data, mnonce, hash };

    let actual: ReportReq = ReportReq::new(Some(data), wrong_mnonce).unwrap();

    assert_eq!(expected, actual);
}

#[test]
fn test_new_default_data_is_zero() {
    let mnonce: [u8; 16] = [9; 16];
    let req = ReportReq::new(None, mnonce).unwrap();
    assert_eq!(req.data, [0u8; 64]);
    assert_eq!(req.mnonce, mnonce);

    // The digest must equal the digest of an explicit zero buffer.
    let explicit = ReportReq::new(Some([0u8; 64]), mnonce).unwrap();
    assert_eq!(req.hash, explicit.hash);
}

#[test]
fn test_hash_depends_on_every_input() {
    let mnonce: [u8; 16] = [1; 16];
    let base = ReportReq::new(Some([7u8; 64]), mnonce).unwrap();

    let mut other_data = [7u8; 64];
    other_data[63] ^= 0x80;
    let changed_data = ReportReq::new(Some(other_data), mnonce).unwrap();
    assert_ne!(base.hash, changed_data.hash);

    let mut other_nonce = mnonce;
    other_nonce[0] ^= 1;
    let changed_nonce = ReportReq::new(Some([7u8; 64]), other_nonce).unwrap();
    assert_ne!(base.hash, changed_nonce.hash);
}

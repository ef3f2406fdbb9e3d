use csv_attest::ioctl::{
    Command, GetId, PdhCertExport, PdhGen, PekCertImport, PekCsr, PekGen, PlatformReset,
    PlatformStatus,
};

#[test]
fn test_pek_csr_carries_its_opcode() {
    let mut payload = PekCsr { address: 0, length: 0 };
    let cmd = Command::from_mut(&mut payload);
    assert_eq!(cmd.code, 0x3);
    assert_eq!(cmd.error, 0);
    assert_ne!(cmd.data, 0);
}

#[test]
fn test_platform_status_carries_its_opcode() {
    let mut payload = PlatformStatus { api_major: 0, api_minor: 0, state: 0, build: 0, guest_count: 0 };
    let cmd = Command::from_mut(&mut payload);
    assert_eq!(cmd.code, 0x1);
    assert_eq!(cmd.error, 0);
    assert_ne!(cmd.data, 0);
}

#[test]
fn test_immutable_binding_carries_same_opcode() {
    let payload = PekCsr { address: 16, length: 32 };
    let cmd = Command::from(&payload);
    assert_eq!(cmd.code, 0x3);
    assert_eq!(cmd.error, 0);
}

#[test]
fn test_every_operation_has_a_fixed_distinct_opcode() {
    let mut reset = PlatformReset;
    let mut status = PlatformStatus { api_major: 0, api_minor: 0, state: 0, build: 0, guest_count: 0 };
    let mut pek_gen = PekGen;
    let mut pek_csr = PekCsr { address: 0, length: 0 };
    let mut pdh_gen = PdhGen;
    let mut pdh_export = PdhCertExport {
        pdh_cert_address: 0,
        pdh_cert_len: 0,
        cert_chain_address: 0,
        cert_chain_len: 0,
    };
    let mut pek_import = PekCertImport {
        pek_cert_address: 0,
        pek_cert_len: 0,
        oca_cert_address: 0,
        oca_cert_len: 0,
    };
    let mut get_id = GetId { id_address: 0, id_len: 0 };

    let codes = [
        Command::from_mut(&mut reset).code,
        Command::from_mut(&mut status).code,
        Command::from_mut(&mut pek_gen).code,
        Command::from_mut(&mut pek_csr).code,
        Command::from_mut(&mut pdh_gen).code,
        Command::from_mut(&mut pdh_export).code,
        Command::from_mut(&mut pek_import).code,
        Command::from_mut(&mut get_id).code,
    ];
    assert_eq!(codes, [0x0, 0x1, 0x2, 0x3, 0x4, 0x5, 0x6, 0x8]);
}

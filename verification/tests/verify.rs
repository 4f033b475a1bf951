use attestation_portal::cert::extract_quote_from_app_cert;
use attestation_portal::hex::{hex_eq, hex_lower};
use attestation_portal::onchain::{approval_contract, rpc_url};
use attestation_portal::report::{Measurements, Role};
use attestation_portal::verify::measurements_eq;

#[test]
fn hex_lower_roundtrip() {
    assert_eq!(hex_lower(&[0x00, 0x0f, 0xff, 0xab]), "000fffab");
    assert_eq!(hex_lower(&[0u8; 48]).len(), 96);
}

#[test]
fn hex_eq_is_case_insensitive() {
    assert!(hex_eq("ABCDEF", "abcdef"));
    assert!(!hex_eq("abcd", "abce"));
}

#[test]
fn approval_contract_by_role() {
    assert_eq!(
        approval_contract(Role::Worker, "mainnet").as_deref(),
        Some("worker.outlayer.near")
    );
    assert_eq!(
        approval_contract(Role::Worker, "testnet").as_deref(),
        Some("worker.outlayer.testnet")
    );
    assert_eq!(
        approval_contract(Role::Keystore, "mainnet").as_deref(),
        Some("dao.outlayer.near")
    );
    assert_eq!(
        approval_contract(Role::Keystore, "testnet").as_deref(),
        Some("dao.outlayer.testnet")
    );
    assert_eq!(approval_contract(Role::Kms, "mainnet"), None);
    assert_eq!(approval_contract(Role::Gateway, "mainnet"), None);
    assert_eq!(approval_contract(Role::Unknown, "testnet"), None);
}

#[test]
fn rpc_url_known_networks_only() {
    assert!(rpc_url("mainnet").is_some());
    assert!(rpc_url("testnet").is_some());
    assert!(rpc_url("devnet").is_none());
}

#[test]
fn extract_quote_rejects_non_pem() {
    assert!(extract_quote_from_app_cert("not a pem").is_err());
}

#[test]
fn measurements_eq_compares_all_registers() {
    let base = Measurements {
        mrtd: "AA".into(),
        rtmr0: "bb".into(),
        rtmr1: "cc".into(),
        rtmr2: "dd".into(),
        rtmr3: "ee".into(),
    };
    let same = Measurements {
        mrtd: "aa".into(),
        rtmr0: "BB".into(),
        rtmr1: "cc".into(),
        rtmr2: "dd".into(),
        rtmr3: "ee".into(),
    };
    assert!(measurements_eq(&base, &same));
    let diff = Measurements {
        rtmr3: "ef".into(),
        ..same.clone()
    };
    assert!(!measurements_eq(&base, &diff));
}

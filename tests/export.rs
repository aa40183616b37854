use tlsplus::builtin::chrome_131;
use tlsplus::client_hello::HelloError;
use tlsplus::export::{available_profiles, get_fingerprints, prepare_connection, stop_server, PrepareError};
use tlsplus::catalog::Catalog;

#[test]
fn fingerprints_list_shipped_profiles() {
    let names = get_fingerprints();
    assert_eq!(names[0], "Safari18_1_1_iOS");
    assert_eq!(names, available_profiles(&Catalog::builtin()));
    assert!(Catalog::builtin().get(&names[0]).is_ok());
}

#[test]
fn no_server_to_stop() {
    assert_eq!(stop_server(), None);
}

#[test]
fn prepare_builds_both_artifacts() {
    let h = prepare_connection(&chrome_131(), "example.com", &vec![], &vec![0u8; 32], &vec![], 0x3a3a).unwrap();
    assert_eq!(h.client_hello[0], 1);
    assert_eq!(h.preface_writes.len(), 1);
}

#[test]
fn prepare_surfaces_profile_errors() {
    let mut p = chrome_131();
    p.cipher_suites.clear();
    let r = prepare_connection(&p, "example.com", &vec![], &vec![0u8; 32], &vec![], 0x3a3a);
    assert!(matches!(r, Err(PrepareError::Hello(HelloError::InvalidProfile))));
}

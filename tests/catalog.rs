use tlsplus::catalog::{Catalog, CatalogError};
use tlsplus::builtin::{chrome_131, firefox_133, safari_18_1_1_ios};

#[test]
fn every_listed_profile_is_consistent() {
    let c = Catalog::builtin();
    for name in c.list() {
        let p = c.get(&name).expect("listed profile");
        assert_eq!(p.name, name);
        assert!(!p.cipher_suites.is_empty());
        assert!(!p.extensions.is_empty());
        assert!(p.check());
    }
}

#[test]
fn list_is_stable() {
    let c = Catalog::builtin();
    assert_eq!(c.list(), c.list());
}

#[test]
fn unknown_names_are_not_found() {
    let c = Catalog::builtin();
    assert!(matches!(c.get(""), Err(CatalogError::NotFound)));
    assert!(matches!(c.get("__nonexistent__"), Err(CatalogError::NotFound)));
}

#[test]
fn builtin_order_and_safari_alpn() {
    let c = Catalog::builtin();
    let names = c.list();
    assert_eq!(names, vec!["Safari18_1_1_iOS", "Chrome131", "Firefox133"]);
    let p = c.get("Safari18_1_1_iOS").unwrap();
    assert_eq!(p.alpn, vec!["h2".to_string(), "http/1.1".to_string()]);
    assert_eq!(c.len(), 3);
}

#[test]
fn duplicate_names_are_refused() {
    let r = Catalog::from_profiles(vec![chrome_131(), firefox_133(), chrome_131()]);
    assert!(matches!(r, Err(CatalogError::DuplicateName)));
}

#[test]
fn invalid_profile_is_refused() {
    let mut p = safari_18_1_1_ios();
    p.cipher_suites.clear();
    let r = Catalog::from_profiles(vec![chrome_131(), p]);
    assert!(matches!(r, Err(CatalogError::InvalidProfile)));
}

#[test]
fn tls13_extension_without_tls13_is_invalid() {
    let mut p = firefox_133();
    p.tls_versions = vec![0x0303];
    assert!(!p.check());
    p.extensions = vec![0, 10, 16];
    assert!(p.check());
    p.extensions = vec![51];
    assert!(!p.check());
}

#[test]
fn non_ascii_alpn_is_invalid() {
    let mut p = chrome_131();
    p.alpn = vec!["h\u{e9}".to_string()];
    assert!(!p.check());
    p.alpn = vec![String::new()];
    assert!(!p.check());
}

#[test]
fn from_profiles_keeps_order() {
    let c = Catalog::from_profiles(vec![firefox_133(), safari_18_1_1_ios()]).unwrap();
    assert_eq!(c.list(), vec!["Firefox133", "Safari18_1_1_iOS"]);
    assert!(Catalog::empty().list().is_empty());
}

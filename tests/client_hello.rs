use tlsplus::client_hello::{build_client_hello, with_grease, HelloError, KeyShare};
use tlsplus::hello_format::parse_client_hello;
use tlsplus::builtin::{chrome_131, firefox_133};
use tlsplus::profile::{grease_value, requires_tls13, Profile, PseudoHeader};

fn small_profile() -> Profile {
    Profile {
        name: "Small".to_string(),
        cipher_suites: vec![0x0a0a, 0x1301],
        extensions: vec![0x0a0a, 43, 16],
        tls_versions: vec![0x0a0a, 0x0304],
        groups: vec![],
        signature_algorithms: vec![],
        cert_compression: vec![],
        delegated_credentials: vec![],
        record_size_limit: 0,
        alpn: vec!["h2".to_string()],
        alps: vec![],
        h2_settings: vec![],
        pseudo_order: vec![PseudoHeader::Method],
        window_increment: 0,
        coalesce_window_update: false,
    }
}

#[test]
fn small_hello_bytes() {
    let random = vec![7u8; 32];
    let b = build_client_hello(&small_profile(), "a", &vec![], &random, &vec![], 0x1a1a).unwrap();
    let mut want: Vec<u8> = vec![0x01, 0x00, 0x00, 0x43, 0x03, 0x03];
    want.extend(vec![7u8; 32]);
    want.extend([0x00, 0x00, 0x04, 0x1a, 0x1a, 0x13, 0x01, 0x01, 0x00, 0x00, 0x16]);
    want.extend([0x1a, 0x1a, 0x00, 0x00]);
    want.extend([0x00, 0x2b, 0x00, 0x05, 0x04, 0x1a, 0x1a, 0x03, 0x04]);
    want.extend([0x00, 0x10, 0x00, 0x05, 0x00, 0x03, 0x02, 0x68, 0x32]);
    assert_eq!(b, want);
}

#[test]
fn round_trip_keeps_orders() {
    let p = chrome_131();
    let b = build_client_hello(&p, "example.com", &vec![], &vec![1u8; 32], &vec![9u8; 32], 0x2a2a).unwrap();
    let h = parse_client_hello(&b).unwrap();
    assert_eq!(h.cipher_suites, with_grease(&p.cipher_suites, 0x2a2a));
    assert_eq!(h.extension_types(), with_grease(&p.extensions, 0x2a2a));
    assert_eq!(h.cipher_suites[0], 0x2a2a);
    assert_eq!(h.random, vec![1u8; 32]);
    assert_eq!(h.session_id, vec![9u8; 32]);
    let sni = h.extensions.iter().find(|e| e.ext_type == 0).unwrap();
    assert_eq!(sni.body, [&[0u8, 14, 0, 0, 11][..], b"example.com"].concat());
}

#[test]
fn round_trip_small() {
    let b = build_client_hello(&small_profile(), "a", &vec![], &vec![0u8; 32], &vec![], 0xfafa).unwrap();
    let h = parse_client_hello(&b).unwrap();
    assert_eq!(h.cipher_suites, vec![0xfafa, 0x1301]);
    assert_eq!(h.extension_types(), vec![0xfafa, 43, 16]);
}

#[test]
fn key_shares_and_signature_algorithms_are_sent() {
    let mut p = small_profile();
    p.extensions = vec![51, 13, 45];
    p.signature_algorithms = vec![0x0403, 0x0804];
    let shares = vec![
        KeyShare { group: 0x1a1a, key: vec![0] },
        KeyShare { group: 0x001d, key: vec![5u8; 32] },
    ];
    let b = build_client_hello(&p, "a", &shares, &vec![0u8; 32], &vec![], 0x1a1a).unwrap();
    let h = parse_client_hello(&b).unwrap();
    assert_eq!(h.extension_types(), vec![51, 13, 45]);
    let mut ks = vec![0, 41, 0x1a, 0x1a, 0, 1, 0, 0x00, 0x1d, 0, 32];
    ks.extend(vec![5u8; 32]);
    assert_eq!(h.extensions[0].body, ks);
    assert_eq!(h.extensions[1].body, vec![0, 4, 0x04, 0x03, 0x08, 0x04]);
    assert_eq!(h.extensions[2].body, vec![1, 1]);
}

#[test]
fn fixed_and_compression_bodies() {
    let p = chrome_131();
    let b = build_client_hello(&p, "a", &vec![], &vec![0u8; 32], &vec![], 0x0a0a).unwrap();
    let h = parse_client_hello(&b).unwrap();
    let body = |t: u16| h.extensions.iter().find(|e| e.ext_type == t).unwrap().body.clone();
    assert_eq!(body(27), vec![2, 0, 2]);
    assert_eq!(body(5), vec![1, 0, 0, 0, 0]);
    assert_eq!(body(11), vec![1, 0]);
    assert_eq!(body(65281), vec![0]);
    assert_eq!(body(43), vec![6, 0x0a, 0x0a, 0x03, 0x04, 0x03, 0x03]);
    assert_eq!(body(23), Vec::<u8>::new());
}

#[test]
fn profile_driven_bodies() {
    let f = firefox_133();
    let b = build_client_hello(&f, "a", &vec![], &vec![0u8; 32], &vec![], 0x0a0a).unwrap();
    let h = parse_client_hello(&b).unwrap();
    let body = |t: u16| h.extensions.iter().find(|e| e.ext_type == t).unwrap().body.clone();
    assert_eq!(body(28), vec![0x40, 0x01]);
    assert_eq!(body(34), vec![0, 8, 0x04, 0x03, 0x05, 0x03, 0x06, 0x03, 0x02, 0x03]);
    assert_eq!(body(27), vec![6, 0, 1, 0, 2, 0, 3]);
    let c = chrome_131();
    let b = build_client_hello(&c, "a", &vec![], &vec![0u8; 32], &vec![], 0x0a0a).unwrap();
    let h = parse_client_hello(&b).unwrap();
    let alps = h.extensions.iter().find(|e| e.ext_type == 17613).unwrap();
    assert_eq!(alps.body, vec![0, 3, 2, b'h', b'2']);
}

#[test]
fn bodies_that_cannot_be_filled_are_invalid() {
    let mut p = small_profile();
    p.extensions = vec![34];
    assert!(!p.check());
    p.delegated_credentials = vec![0x0403];
    assert!(p.check());
    p.extensions = vec![28];
    assert!(!p.check());
    p.record_size_limit = 64;
    assert!(p.check());
    p.extensions = vec![65037];
    assert!(!p.check());
    p.extensions = vec![17613];
    assert!(!p.check());
    p.alps = vec!["h2".to_string()];
    assert!(p.check());
    p.extensions = vec![23, 35, 0x0a0a];
    assert!(p.check());
}

#[test]
fn large_lists_within_length_fields_are_valid() {
    let mut p = small_profile();
    p.cipher_suites = vec![0x1301; 32767];
    assert!(p.check());
    p.cipher_suites = vec![0x1301; 32768];
    assert!(!p.check());
    p.cipher_suites = vec![0x1301];
    p.tls_versions = vec![0x0304; 127];
    assert!(p.check());
    p.tls_versions = vec![0x0304; 128];
    assert!(!p.check());
}

#[test]
fn every_builtin_profile_round_trips() {
    for p in [tlsplus::builtin::safari_18_1_1_ios(), chrome_131(), firefox_133()] {
        let b = build_client_hello(&p, "example.com", &vec![], &vec![3u8; 32], &vec![], 0x0a0a).unwrap();
        let h = parse_client_hello(&b).unwrap();
        assert_eq!(h.cipher_suites, p.cipher_suites);
        assert_eq!(h.extension_types(), p.extensions);
    }
}

#[test]
fn version_fallback() {
    let c = chrome_131();
    assert!(c.accepts_version(0x0304));
    assert!(c.accepts_version(0x0303));
    assert!(!c.accepts_version(0x0302));
    assert!(!c.accepts_version(0x0a0a));
    let mut p = small_profile();
    p.tls_versions = vec![0x0304];
    assert!(!p.accepts_version(0x0303));
}

#[test]
fn empty_cipher_list_is_invalid_profile() {
    let mut p = firefox_133();
    p.cipher_suites.clear();
    let r = build_client_hello(&p, "a", &vec![], &vec![0u8; 32], &vec![], 0x0a0a);
    assert_eq!(r, Err(HelloError::InvalidProfile));
}

#[test]
fn bad_parameters_are_refused() {
    let p = firefox_133();
    let r = vec![0u8; 32];
    assert_eq!(build_client_hello(&p, "a", &vec![], &r, &vec![], 0x1234), Err(HelloError::InvalidParameter));
    assert_eq!(build_client_hello(&p, "a", &vec![], &vec![0u8; 31], &vec![], 0x0a0a), Err(HelloError::InvalidParameter));
    assert_eq!(build_client_hello(&p, "", &vec![], &r, &vec![], 0x0a0a), Err(HelloError::InvalidParameter));
    assert_eq!(build_client_hello(&p, "a", &vec![], &r, &vec![0u8; 33], 0x0a0a), Err(HelloError::InvalidParameter));
}

#[test]
fn oversized_extensions_are_refused() {
    let mut p = small_profile();
    p.extensions = vec![16; 10];
    p.tls_versions = vec![0x0303];
    p.alpn = vec!["x".repeat(255); 32];
    assert_eq!(build_client_hello(&p, "a", &vec![], &vec![0u8; 32], &vec![], 0x0a0a), Err(HelloError::TooLarge));
}

#[test]
fn parser_refuses_malformed_input() {
    assert!(parse_client_hello(&vec![]).is_none());
    let mut b = build_client_hello(&small_profile(), "a", &vec![], &vec![0u8; 32], &vec![], 0x0a0a).unwrap();
    b.push(0);
    assert!(parse_client_hello(&b).is_none());
    b.pop();
    b[0] = 2;
    assert!(parse_client_hello(&b).is_none());
}

#[test]
fn grease_and_version_rules() {
    assert!(grease_value(0x0a0a));
    assert!(grease_value(0xfafa));
    assert!(!grease_value(0x0a1a));
    assert!(!grease_value(0x1301));
    assert!(requires_tls13(51));
    assert!(requires_tls13(43));
    assert!(!requires_tls13(0));
    assert!(!requires_tls13(16));
}

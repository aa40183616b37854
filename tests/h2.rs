use tlsplus::builtin::{chrome_131, firefox_133, safari_18_1_1_ios};
use tlsplus::h2::{connection_preface, pseudo_header_order, settings_frame_bytes, window_update_bytes, FrameError};
use tlsplus::profile::Setting;

const PREFACE: &[u8] = b"PRI * HTTP/2.0\r\n\r\nSM\r\n\r\n";

#[test]
fn chrome_writes_one_coalesced_chunk() {
    let w = connection_preface(&chrome_131()).unwrap();
    assert_eq!(w.len(), 1);
    let mut want = PREFACE.to_vec();
    want.extend([0, 0, 24, 4, 0, 0, 0, 0, 0]);
    want.extend([0, 1, 0, 1, 0, 0, 0, 2, 0, 0, 0, 0, 0, 4, 0, 0x60, 0, 0, 0, 6, 0, 4, 0, 0]);
    want.extend([0, 0, 4, 8, 0, 0, 0, 0, 0, 0x00, 0xef, 0x00, 0x01]);
    assert_eq!(w[0], want);
}

#[test]
fn firefox_writes_window_update_apart() {
    let w = connection_preface(&firefox_133()).unwrap();
    assert_eq!(w.len(), 2);
    assert!(w[0].starts_with(PREFACE));
    assert_eq!(w[1], window_update_bytes(12517377));
    assert_eq!(w[1], vec![0, 0, 4, 8, 0, 0, 0, 0, 0, 0x00, 0xbf, 0x00, 0x01]);
}

#[test]
fn settings_frame_layout() {
    let f = settings_frame_bytes(&vec![Setting { id: 3, value: 100 }]);
    assert_eq!(f, vec![0, 0, 6, 4, 0, 0, 0, 0, 0, 0, 3, 0, 0, 0, 100]);
    assert_eq!(settings_frame_bytes(&vec![]), vec![0, 0, 0, 4, 0, 0, 0, 0, 0]);
}

#[test]
fn zero_window_sends_no_update() {
    let mut p = safari_18_1_1_ios();
    p.window_increment = 0;
    let w = connection_preface(&p).unwrap();
    assert_eq!(w.len(), 1);
    assert_eq!(w[0].len(), 24 + 9 + 24);
}

#[test]
fn oversized_window_is_refused() {
    let mut p = safari_18_1_1_ios();
    p.window_increment = 0x8000_0000;
    assert_eq!(connection_preface(&p), Err(FrameError::InvalidWindow));
    p.extensions.clear();
    assert_eq!(connection_preface(&p), Err(FrameError::InvalidProfile));
}

#[test]
fn pseudo_header_orders_differ() {
    assert_eq!(pseudo_header_order(&chrome_131()), vec![":method", ":authority", ":scheme", ":path"]);
    assert_eq!(pseudo_header_order(&safari_18_1_1_ios()), vec![":method", ":scheme", ":path", ":authority"]);
    assert_eq!(pseudo_header_order(&firefox_133()), vec![":method", ":path", ":authority", ":scheme"]);
}

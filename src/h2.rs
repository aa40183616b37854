//! The bytes a profile writes when it opens an HTTP/2 connection, and the
//! order of its request pseudo-headers.

use vstd::prelude::*;
use vstd::string::*;
use crate::profile::{Profile, PseudoHeader, Setting, MAX_SETTINGS};
use crate::wire::{be16, be24, be32, push_u16, push_u32, push_bytes};

verus! {

/// Why the HTTP/2 preface could not be produced.
#[derive(Clone, Copy, Debug, PartialEq, Eq, Structural)]
pub enum FrameError {
    /// The profile is not valid.
    InvalidProfile,
    /// The window increment exceeds the largest one HTTP/2 allows.
    InvalidWindow,
}

/// The SETTINGS frame type.
pub const SETTINGS: u8 = 4;

/// The WINDOW_UPDATE frame type.
pub const WINDOW_UPDATE: u8 = 8;

/// The largest window increment HTTP/2 allows.
pub const MAX_WINDOW_INCREMENT: u32 = 0x7fff_ffff;

/// The client connection preface, `PRI * HTTP/2.0\r\n\r\nSM\r\n\r\n`.
pub open spec fn preface() -> Seq<u8> {
    seq![
        0x50u8, 0x52, 0x49, 0x20, 0x2a, 0x20, 0x48, 0x54, 0x54, 0x50, 0x2f, 0x32, 0x2e, 0x30,
        0x0d, 0x0a, 0x0d, 0x0a, 0x53, 0x4d, 0x0d, 0x0a, 0x0d, 0x0a,
    ]
}

/// A frame header: payload length, type, flags, stream id.
pub open spec fn frame_header(len: nat, ty: u8, flags: u8, stream: u32) -> Seq<u8> {
    be24(len) + seq![ty, flags] + be32(stream)
}

/// One SETTINGS parameter on the wire.
pub open spec fn setting_bytes(s: Setting) -> Seq<u8> {
    be16(s.id) + be32(s.value)
}

/// A SETTINGS frame on stream zero carrying `s` in order.
pub open spec fn settings_frame(s: Seq<Setting>) -> Seq<u8> {
    frame_header(6 * s.len(), SETTINGS, 0, 0) + s.map_values(|x: Setting| setting_bytes(x)).flatten()
}

/// A WINDOW_UPDATE frame on stream zero.
pub open spec fn window_update_frame(inc: u32) -> Seq<u8> {
    frame_header(4, WINDOW_UPDATE, 0, 0) + be32(inc)
}

/// What the profile writes when a connection opens, one entry per write:
/// the preface with SETTINGS, then the WINDOW_UPDATE either in the same
/// write or in one of its own; none when the increment is zero.
pub open spec fn connection_writes(p: Profile) -> Seq<Seq<u8>> {
    let first = preface() + settings_frame(p.h2_settings@);
    if p.window_increment == 0 {
        seq![first]
    } else if p.coalesce_window_update {
        seq![first + window_update_frame(p.window_increment)]
    } else {
        seq![first, window_update_frame(p.window_increment)]
    }
}

/// The name of a pseudo-header.
pub open spec fn pseudo_name(h: PseudoHeader) -> Seq<char> {
    match h {
        PseudoHeader::Method => ":method"@,
        PseudoHeader::Authority => ":authority"@,
        PseudoHeader::Scheme => ":scheme"@,
        PseudoHeader::Path => ":path"@,
    }
}

/// Appends a frame header on stream zero with no flags.
fn push_frame_header(out: &mut Vec<u8>, len: usize, ty: u8)
    requires
        len < 16777216,
    ensures
        final(out)@ == old(out)@ + frame_header(len as nat, ty, 0, 0),
{
    out.push(((len / 65536) % 256) as u8);
    out.push(((len / 256) % 256) as u8);
    out.push((len % 256) as u8);
    out.push(ty);
    out.push(0u8);
    push_u32(out, 0);
    assert(final(out)@ =~= old(out)@ + frame_header(len as nat, ty, 0, 0));
}

/// Appends the client connection preface.
fn push_preface(out: &mut Vec<u8>)
    ensures
        final(out)@ == old(out)@ + preface(),
{
    let bytes: [u8; 24] = [
        0x50u8, 0x52, 0x49, 0x20, 0x2a, 0x20, 0x48, 0x54, 0x54, 0x50, 0x2f, 0x32, 0x2e, 0x30,
        0x0d, 0x0a, 0x0d, 0x0a, 0x53, 0x4d, 0x0d, 0x0a, 0x0d, 0x0a,
    ];
    let ghost start = out@;
    let mut i: usize = 0;
    while i < 24
        invariant
            i <= 24,
            bytes@ == preface(),
            out@ == start + preface().take(i as int),
        decreases 24 - i,
    {
        out.push(bytes[i]);
        assert(preface().take(i + 1) =~= preface().take(i as int).push(preface()[i as int]));
        i += 1;
    }
    assert(preface().take(24) =~= preface());
}

/// A SETTINGS frame carrying `s` in order.
pub fn settings_frame_bytes(s: &Vec<Setting>) -> (r: Vec<u8>)
    requires
        s@.len() <= MAX_SETTINGS,
    ensures
        r@ == settings_frame(s@),
{
    let mut out: Vec<u8> = Vec::new();
    push_frame_header(&mut out, 6 * s.len(), SETTINGS);
    let ghost head = out@;
    let ghost parts = s@.map_values(|x: Setting| setting_bytes(x));
    let mut i: usize = 0;
    while i < s.len()
        invariant
            i <= s@.len(),
            parts == s@.map_values(|x: Setting| setting_bytes(x)),
            out@ == head + parts.take(i as int).flatten(),
        decreases s@.len() - i,
    {
        let ghost before = out@;
        push_u16(&mut out, s[i].id);
        push_u32(&mut out, s[i].value);
        proof {
            assert(parts.take(i + 1) =~= parts.take(i as int).push(parts[i as int]));
            parts.take(i as int).lemma_flatten_push(parts[i as int]);
            assert(out@ =~= before + parts[i as int]);
        }
        i += 1;
    }
    assert(parts.take(s@.len() as int) =~= parts);
    out
}

/// A WINDOW_UPDATE frame on stream zero.
pub fn window_update_bytes(inc: u32) -> (r: Vec<u8>)
    ensures
        r@ == window_update_frame(inc),
{
    let mut out: Vec<u8> = Vec::new();
    push_frame_header(&mut out, 4, WINDOW_UPDATE);
    push_u32(&mut out, inc);
    out
}

/// The writes that open an HTTP/2 connection the way `p` does. Fails with
/// `InvalidProfile` when `p` is not valid and with `InvalidWindow` when its
/// window increment is above `MAX_WINDOW_INCREMENT`.
pub fn connection_preface(p: &Profile) -> (r: Result<Vec<Vec<u8>>, FrameError>)
    ensures
        !p.valid() ==> r == Err::<Vec<Vec<u8>>, FrameError>(FrameError::InvalidProfile),
        p.valid() && p.window_increment > MAX_WINDOW_INCREMENT ==> r == Err::<
            Vec<Vec<u8>>,
            FrameError,
        >(FrameError::InvalidWindow),
        p.valid() && p.window_increment <= MAX_WINDOW_INCREMENT ==> (r matches Ok(w)
            && w@.map_values(|b: Vec<u8>| b@) == connection_writes(*p)),
{
    if !p.check() {
        return Err(FrameError::InvalidProfile);
    }
    if p.window_increment > MAX_WINDOW_INCREMENT {
        return Err(FrameError::InvalidWindow);
    }
    let mut first: Vec<u8> = Vec::new();
    push_preface(&mut first);
    push_bytes(&mut first, &settings_frame_bytes(&p.h2_settings));
    let mut writes: Vec<Vec<u8>> = Vec::new();
    if p.window_increment == 0 {
        writes.push(first);
    } else if p.coalesce_window_update {
        push_bytes(&mut first, &window_update_bytes(p.window_increment));
        writes.push(first);
    } else {
        writes.push(first);
        writes.push(window_update_bytes(p.window_increment));
    }
    assert(writes@.map_values(|b: Vec<u8>| b@) =~= connection_writes(*p));
    Ok(writes)
}

/// The name of `h`.
pub fn pseudo_header_name(h: PseudoHeader) -> (r: String)
    ensures
        r@ == pseudo_name(h),
{
    match h {
        PseudoHeader::Method => String::from_str(":method"),
        PseudoHeader::Authority => String::from_str(":authority"),
        PseudoHeader::Scheme => String::from_str(":scheme"),
        PseudoHeader::Path => String::from_str(":path"),
    }
}

/// The pseudo-header names in the order the profile emits them.
pub fn pseudo_header_order(p: &Profile) -> (r: Vec<String>)
    ensures
        r@.map_values(|s: String| s@) == p.pseudo_order@.map_values(|h: PseudoHeader| pseudo_name(h)),
{
    let mut out: Vec<String> = Vec::new();
    let mut i: usize = 0;
    while i < p.pseudo_order.len()
        invariant
            i <= p.pseudo_order@.len(),
            out@.len() == i,
            forall|k: int| 0 <= k < i ==> (#[trigger] out@[k])@ == pseudo_name(p.pseudo_order@[k]),
        decreases p.pseudo_order@.len() - i,
    {
        out.push(pseudo_header_name(p.pseudo_order[i]));
        i += 1;
    }
    assert(out@.map_values(|s: String| s@) =~= p.pseudo_order@.map_values(
        |h: PseudoHeader| pseudo_name(h),
    ));
    out
}

} // verus!

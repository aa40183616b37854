//! The TLS ClientHello that a profile sends.

use vstd::prelude::*;
use vstd::utf8::{encode_utf8, is_ascii_chars_encode_utf8};
use crate::profile::{Profile, GREASE_PLACEHOLDER, TLS1_2, alpn_name_ok, is_grease, grease_value};
use crate::wire::{be16, u16s_bytes, push_u16, push_u16s, push_bytes};
use crate::hello_format::{
    HelloParts, CLIENT_HELLO, MAX_U16, ext_bytes, exts_bytes, hello_body, hello_head,
    hello_ciphers, hello_tail, hello_message, parse_hello, lemma_parse_hello,
};

verus! {

/// Why a ClientHello could not be built.
#[derive(Clone, Copy, Debug, PartialEq, Eq, Structural)]
pub enum HelloError {
    /// The profile is not valid (for instance its cipher list is empty).
    InvalidProfile,
    /// The host, random, session id or GREASE value cannot be sent.
    InvalidParameter,
    /// The extensions do not fit their 16-bit length field.
    TooLarge,
}

/// One key share offered in the ClientHello: a group and its public key.
pub struct KeyShare {
    pub group: u16,
    pub key: Vec<u8>,
}

/// The key shares as group and key bytes.
pub open spec fn shares_view(ks: Seq<KeyShare>) -> Seq<(u16, Seq<u8>)> {
    ks.map_values(|k: KeyShare| (k.group, k.key@))
}

/// `x`, or the GREASE value `g` where `x` is the placeholder.
pub open spec fn grease_in(x: u16, g: u16) -> u16 {
    if x == GREASE_PLACEHOLDER {
        g
    } else {
        x
    }
}

/// `s` with every placeholder replaced by `g`.
pub open spec fn grease_all(s: Seq<u16>, g: u16) -> Seq<u16> {
    s.map_values(|x: u16| grease_in(x, g))
}

/// One ALPN protocol name on the wire: its length, then its bytes.
pub open spec fn alpn_entry(s: String) -> Seq<u8> {
    seq![encode_utf8(s@).len() as u8] + encode_utf8(s@)
}

/// A protocol name list on the wire, without its length field.
pub open spec fn names_list(names: Seq<String>) -> Seq<u8> {
    names.map_values(|s: String| alpn_entry(s)).flatten()
}

/// The profile's ALPN protocol list on the wire, without its length field.
pub open spec fn alpn_list(p: Profile) -> Seq<u8> {
    names_list(p.alpn@)
}

/// The body the profile gives extension `t`. Server name, supported groups,
/// signature algorithms, ALPN, certificate compression, record size limit,
/// delegated credentials, supported versions, key shares and application
/// settings carry the profile's lists and the connection's values; status
/// request, point formats, PSK modes and renegotiation info carry the fixed
/// bodies browsers send; every other extension is sent empty (a valid profile
/// lists only those whose body is empty by definition).
pub open spec fn ext_body(
    p: Profile,
    t: u16,
    host: Seq<u8>,
    ks: Seq<(u16, Seq<u8>)>,
    g: u16,
) -> Seq<u8> {
    if t == 0 {
        be16((host.len() + 3) as u16) + seq![0u8] + be16(host.len() as u16) + host
    } else if t == 5 {
        seq![1u8, 0u8, 0u8, 0u8, 0u8]
    } else if t == 10 {
        be16((2 * p.groups@.len()) as u16) + u16s_bytes(grease_all(p.groups@, g))
    } else if t == 11 {
        seq![1u8, 0u8]
    } else if t == 13 {
        be16((2 * p.signature_algorithms@.len()) as u16) + u16s_bytes(p.signature_algorithms@)
    } else if t == 16 {
        be16(alpn_list(p).len() as u16) + alpn_list(p)
    } else if t == 27 {
        seq![(2 * p.cert_compression@.len()) as u8] + u16s_bytes(p.cert_compression@)
    } else if t == 28 {
        be16(p.record_size_limit)
    } else if t == 34 {
        be16((2 * p.delegated_credentials@.len()) as u16) + u16s_bytes(p.delegated_credentials@)
    } else if t == 43 {
        seq![(2 * p.tls_versions@.len()) as u8] + u16s_bytes(grease_all(p.tls_versions@, g))
    } else if t == 45 {
        seq![1u8, 1u8]
    } else if t == 51 {
        be16(exts_bytes(ks).len() as u16) + exts_bytes(ks)
    } else if t == 17613 {
        be16(names_list(p.alps@).len() as u16) + names_list(p.alps@)
    } else if t == 65281 {
        seq![0u8]
    } else {
        Seq::empty()
    }
}

/// The extensions the profile sends, in its order.
pub open spec fn profile_extensions(
    p: Profile,
    host: Seq<u8>,
    ks: Seq<(u16, Seq<u8>)>,
    g: u16,
) -> Seq<(u16, Seq<u8>)> {
    p.extensions@.map_values(|t: u16| (grease_in(t, g), ext_body(p, t, host, ks, g)))
}

/// The ClientHello fields the profile sends.
pub open spec fn profile_hello(
    p: Profile,
    host: Seq<u8>,
    ks: Seq<(u16, Seq<u8>)>,
    random: Seq<u8>,
    session_id: Seq<u8>,
    g: u16,
) -> HelloParts {
    HelloParts {
        random,
        session_id,
        cipher_suites: grease_all(p.cipher_suites@, g),
        extensions: profile_extensions(p, host, ks, g),
    }
}

/// The connection parameters can be put on the wire.
pub open spec fn params_ok(host: Seq<u8>, random: Seq<u8>, session_id: Seq<u8>, g: u16) -> bool {
    &&& 1 <= host.len() <= 255
    &&& random.len() == 32
    &&& session_id.len() <= 32
    &&& is_grease(g)
}

/// `xs` with every placeholder replaced by `g`.
pub fn with_grease(xs: &Vec<u16>, g: u16) -> (r: Vec<u16>)
    ensures
        r@ == grease_all(xs@, g),
{
    let mut out: Vec<u16> = Vec::new();
    let mut i: usize = 0;
    while i < xs.len()
        invariant
            i <= xs@.len(),
            out@ == grease_all(xs@.take(i as int), g),
        decreases xs@.len() - i,
    {
        let x = xs[i];
        out.push(if x == GREASE_PLACEHOLDER { g } else { x });
        assert(grease_all(xs@.take(i + 1), g) =~= grease_all(xs@.take(i as int), g).push(
            grease_in(x, g),
        ));
        i += 1;
    }
    assert(xs@.take(xs@.len() as int) =~= xs@);
    out
}

/// A protocol name list as sent, without its length field.
fn names_list_bytes(names: &Vec<String>) -> (r: Vec<u8>)
    ensures
        r@ == names_list(names@),
{
    let mut out: Vec<u8> = Vec::new();
    let ghost entries = names@.map_values(|s: String| alpn_entry(s));
    let mut i: usize = 0;
    while i < names.len()
        invariant
            i <= names@.len(),
            entries == names@.map_values(|s: String| alpn_entry(s)),
            out@ == entries.take(i as int).flatten(),
        decreases names@.len() - i,
    {
        let name = names[i].as_str().as_bytes_vec();
        let ghost before = out@;
        out.push(name.len() as u8);
        push_bytes(&mut out, &name);
        proof {
            assert(entries.take(i + 1) =~= entries.take(i as int).push(entries[i as int]));
            entries.take(i as int).lemma_flatten_push(entries[i as int]);
            assert(out@ =~= before + alpn_entry(names@[i as int]));
        }
        i += 1;
    }
    assert(entries.take(names@.len() as int) =~= entries);
    out
}

/// The body the profile gives extension `t`.
fn ext_body_bytes(p: &Profile, t: u16, host: &Vec<u8>, ks: &Vec<u8>, g: u16) -> (r: Vec<u8>)
    requires
        p.valid(),
        host@.len() <= 255,
    ensures
        forall|shares: Seq<(u16, Seq<u8>)>|
            ks@ == exts_bytes(shares) ==> r@ == #[trigger] ext_body(*p, t, host@, shares, g),
{
    let mut out: Vec<u8> = Vec::new();
    if t == 0 {
        push_u16(&mut out, (host.len() + 3) as u16);
        out.push(0u8);
        push_u16(&mut out, host.len() as u16);
        push_bytes(&mut out, host);
    } else if t == 5 {
        out.push(1u8);
        out.push(0u8);
        out.push(0u8);
        out.push(0u8);
        out.push(0u8);
    } else if t == 10 {
        push_u16(&mut out, (2 * p.groups.len()) as u16);
        push_u16s(&mut out, &with_grease(&p.groups, g));
    } else if t == 11 {
        out.push(1u8);
        out.push(0u8);
    } else if t == 13 {
        push_u16(&mut out, (2 * p.signature_algorithms.len()) as u16);
        push_u16s(&mut out, &p.signature_algorithms);
    } else if t == 16 {
        let list = names_list_bytes(&p.alpn);
        push_u16(&mut out, list.len() as u16);
        push_bytes(&mut out, &list);
    } else if t == 27 {
        out.push((2 * p.cert_compression.len()) as u8);
        push_u16s(&mut out, &p.cert_compression);
    } else if t == 28 {
        push_u16(&mut out, p.record_size_limit);
    } else if t == 34 {
        push_u16(&mut out, (2 * p.delegated_credentials.len()) as u16);
        push_u16s(&mut out, &p.delegated_credentials);
    } else if t == 43 {
        out.push((2 * p.tls_versions.len()) as u8);
        push_u16s(&mut out, &with_grease(&p.tls_versions, g));
    } else if t == 45 {
        out.push(1u8);
        out.push(1u8);
    } else if t == 51 {
        push_u16(&mut out, ks.len() as u16);
        push_bytes(&mut out, ks);
    } else if t == 17613 {
        let list = names_list_bytes(&p.alps);
        push_u16(&mut out, list.len() as u16);
        push_bytes(&mut out, &list);
    } else if t == 65281 {
        out.push(0u8);
    }
    assert forall|shares: Seq<(u16, Seq<u8>)>|
        ks@ == exts_bytes(shares) implies out@ == #[trigger] ext_body(*p, t, host@, shares, g) by {
        assert(out@ =~= ext_body(*p, t, host@, shares, g));
    }
    out
}

/// The profile's extension block, without its length field.
fn extensions_bytes(
    p: &Profile,
    host: &Vec<u8>,
    ks: &Vec<u8>,
    Ghost(shares): Ghost<Seq<(u16, Seq<u8>)>>,
    g: u16,
) -> (r: Vec<u8>)
    requires
        p.valid(),
        host@.len() <= 255,
        ks@ == exts_bytes(shares),
    ensures
        r@ == exts_bytes(profile_extensions(*p, host@, shares, g)),
{
    let ghost es = profile_extensions(*p, host@, shares, g);
    let ghost parts = es.map_values(|e: (u16, Seq<u8>)| ext_bytes(e));
    let mut out: Vec<u8> = Vec::new();
    let mut i: usize = 0;
    while i < p.extensions.len()
        invariant
            p.valid(),
            host@.len() <= 255,
            ks@ == exts_bytes(shares),
            i <= p.extensions@.len(),
            es == profile_extensions(*p, host@, shares, g),
            parts == es.map_values(|e: (u16, Seq<u8>)| ext_bytes(e)),
            out@ == parts.take(i as int).flatten(),
        decreases p.extensions@.len() - i,
    {
        let t = p.extensions[i];
        let ghost before = out@;
        push_u16(&mut out, if t == GREASE_PLACEHOLDER { g } else { t });
        let body = ext_body_bytes(p, t, host, ks, g);
        push_u16(&mut out, body.len() as u16);
        push_bytes(&mut out, &body);
        proof {
            assert(es[i as int] == (grease_in(t, g), ext_body(*p, t, host@, shares, g)));
            assert(parts.take(i + 1) =~= parts.take(i as int).push(parts[i as int]));
            parts.take(i as int).lemma_flatten_push(parts[i as int]);
            assert(out@ =~= before + parts[i as int]);
        }
        i += 1;
    }
    assert(parts.take(p.extensions@.len() as int) =~= parts);
    out
}

/// The key share list on the wire, without its length field.
fn key_shares_bytes(ks: &Vec<KeyShare>) -> (r: Vec<u8>)
    ensures
        r@ == exts_bytes(shares_view(ks@)),
{
    let ghost parts = shares_view(ks@).map_values(|e: (u16, Seq<u8>)| ext_bytes(e));
    let mut out: Vec<u8> = Vec::new();
    let mut i: usize = 0;
    while i < ks.len()
        invariant
            i <= ks@.len(),
            parts == shares_view(ks@).map_values(|e: (u16, Seq<u8>)| ext_bytes(e)),
            out@ == parts.take(i as int).flatten(),
        decreases ks@.len() - i,
    {
        let ghost before = out@;
        push_u16(&mut out, ks[i].group);
        push_u16(&mut out, ks[i].key.len() as u16);
        push_bytes(&mut out, &ks[i].key);
        proof {
            assert(parts.take(i + 1) =~= parts.take(i as int).push(parts[i as int]));
            parts.take(i as int).lemma_flatten_push(parts[i as int]);
            assert(out@ =~= before + parts[i as int]);
        }
        i += 1;
    }
    assert(parts.take(ks@.len() as int) =~= parts);
    out
}

/// Builds the ClientHello handshake message that `p` sends to `host`, with
/// the given key shares, random, session id and GREASE value. Fails with
/// `InvalidProfile` when `p` is not valid (an empty cipher list among
/// others), with `InvalidParameter` when the host, random, session id or
/// GREASE value cannot be sent, and with `TooLarge` when the extensions
/// overflow their length field.
pub fn build_client_hello(
    p: &Profile,
    host: &str,
    key_shares: &Vec<KeyShare>,
    random: &Vec<u8>,
    session_id: &Vec<u8>,
    grease: u16,
) -> (r: Result<Vec<u8>, HelloError>)
    ensures
        !p.valid() ==> r == Err::<Vec<u8>, HelloError>(HelloError::InvalidProfile),
        p.valid() && !params_ok(encode_utf8(host@), random@, session_id@, grease) ==> r == Err::<
            Vec<u8>,
            HelloError,
        >(HelloError::InvalidParameter),
        p.valid() && params_ok(encode_utf8(host@), random@, session_id@, grease) ==> {
            let parts = profile_hello(
                *p,
                encode_utf8(host@),
                shares_view(key_shares@),
                random@,
                session_id@,
                grease,
            );
            if exts_bytes(parts.extensions).len() > MAX_U16 {
                r == Err::<Vec<u8>, HelloError>(HelloError::TooLarge)
            } else {
                r matches Ok(b) && b@ == hello_message(parts)
            }
        },
{
    if !p.check() {
        return Err(HelloError::InvalidProfile);
    }
    let host_bytes = host.as_bytes_vec();
    if host_bytes.len() == 0 || host_bytes.len() > 255 || random.len() != 32
        || session_id.len() > 32 || !grease_value(grease) {
        return Err(HelloError::InvalidParameter);
    }
    let ghost shares = shares_view(key_shares@);
    let ghost parts = profile_hello(*p, host_bytes@, shares, random@, session_id@, grease);
    let ks = key_shares_bytes(key_shares);
    let exts = extensions_bytes(p, &host_bytes, &ks, Ghost(shares), grease);
    if exts.len() > MAX_U16 {
        return Err(HelloError::TooLarge);
    }
    let mut body: Vec<u8> = Vec::new();
    push_u16(&mut body, TLS1_2);
    push_bytes(&mut body, random);
    body.push(session_id.len() as u8);
    push_bytes(&mut body, session_id);
    push_u16(&mut body, (2 * p.cipher_suites.len()) as u16);
    push_u16s(&mut body, &with_grease(&p.cipher_suites, grease));
    body.push(1u8);
    body.push(0u8);
    push_u16(&mut body, exts.len() as u16);
    push_bytes(&mut body, &exts);
    proof {
        reveal(hello_head);
        reveal(hello_ciphers);
        reveal(hello_tail);
    }
    assert(body@ =~= hello_body(parts));
    let n = body.len();
    let mut out: Vec<u8> = Vec::new();
    out.push(CLIENT_HELLO);
    out.push(((n / 65536) % 256) as u8);
    out.push(((n / 256) % 256) as u8);
    out.push((n % 256) as u8);
    push_bytes(&mut out, &body);
    assert(out@ =~= hello_message(parts));
    Ok(out)
}

/// No single extension is longer than the block that holds them all.
proof fn lemma_ext_within_block(es: Seq<(u16, Seq<u8>)>, i: int)
    requires
        0 <= i < es.len(),
    ensures
        es[i].1.len() <= exts_bytes(es).len(),
{
    let parts = es.map_values(|e: (u16, Seq<u8>)| ext_bytes(e));
    parts.lemma_flatten_and_flatten_alt_are_equivalent();
    parts.lemma_flatten_length_ge_single_element_length(i);
}

/// A ClientHello built from a profile and parsed back offers the profile's
/// cipher suites and extensions in the profile's order, each GREASE
/// placeholder holding the GREASE value.
pub proof fn lemma_hello_round_trip(
    p: Profile,
    host: Seq<u8>,
    ks: Seq<(u16, Seq<u8>)>,
    random: Seq<u8>,
    session_id: Seq<u8>,
    g: u16,
)
    requires
        p.valid(),
        params_ok(host, random, session_id, g),
        exts_bytes(profile_extensions(p, host, ks, g)).len() <= MAX_U16,
    ensures
        parse_hello(hello_message(profile_hello(p, host, ks, random, session_id, g))) matches Some(h)
            && h.cipher_suites == grease_all(p.cipher_suites@, g) && h.extensions.map_values(
            |e: (u16, Seq<u8>)| e.0,
        ) == grease_all(p.extensions@, g),
{
    let h = profile_hello(p, host, ks, random, session_id, g);
    assert forall|i: int| 0 <= i < h.extensions.len() implies (#[trigger] h.extensions[i]).1.len()
        <= MAX_U16 by {
        lemma_ext_within_block(h.extensions, i);
    }
    lemma_parse_hello(h);
    assert(h.extensions.map_values(|e: (u16, Seq<u8>)| e.0) =~= grease_all(p.extensions@, g));
}

/// Most key share bytes that `compact` profiles are proved to fit with.
pub const MAX_KEY_SHARE_BYTES: usize = 2048;

/// A profile small enough that its extension block fits for every host and
/// every key share list of up to `MAX_KEY_SHARE_BYTES` bytes: at most 20
/// extensions, 64 entries per list and 8 ALPN or ALPS names.
pub open spec fn compact(p: Profile) -> bool {
    &&& p.extensions@.len() <= 20
    &&& p.groups@.len() <= 64
    &&& p.signature_algorithms@.len() <= 64
    &&& p.tls_versions@.len() <= 64
    &&& p.cert_compression@.len() <= 64
    &&& p.delegated_credentials@.len() <= 64
    &&& p.alpn@.len() <= 8
    &&& p.alps@.len() <= 8
}

/// A list of at most 8 valid protocol names takes at most 2048 bytes.
proof fn lemma_names_list_len(names: Seq<String>)
    requires
        names.len() <= 8,
        forall|i: int| 0 <= i < names.len() ==> alpn_name_ok((#[trigger] names[i])@),
    ensures
        names_list(names).len() <= 2048,
{
    let entries = names.map_values(|s: String| alpn_entry(s));
    assert forall|i: int| 0 <= i < entries.len() implies (#[trigger] entries[i]).len() <= 256 by {
        is_ascii_chars_encode_utf8(names[i]@);
    }
    entries.lemma_flatten_and_flatten_alt_are_equivalent();
    entries.lemma_flatten_length_le_mul(256);
    let n = entries.len() as int;
    assert(n * 256 <= 2048) by (nonlinear_arith)
        requires
            0 <= n <= 8,
    ;
}

/// Every extension body of a valid compact profile takes at most 2050 bytes.
proof fn lemma_body_len(p: Profile, t: u16, host: Seq<u8>, ks: Seq<(u16, Seq<u8>)>, g: u16)
    requires
        p.valid(),
        compact(p),
        host.len() <= 255,
        exts_bytes(ks).len() <= MAX_KEY_SHARE_BYTES,
    ensures
        ext_body(p, t, host, ks, g).len() <= 2050,
{
    if t == 16 {
        lemma_names_list_len(p.alpn@);
    } else if t == 17613 {
        lemma_names_list_len(p.alps@);
    }
}

/// The extension block of a valid compact profile fits its length field.
pub proof fn lemma_compact_fits(p: Profile, host: Seq<u8>, ks: Seq<(u16, Seq<u8>)>, g: u16)
    requires
        p.valid(),
        compact(p),
        host.len() <= 255,
        exts_bytes(ks).len() <= MAX_KEY_SHARE_BYTES,
    ensures
        exts_bytes(profile_extensions(p, host, ks, g)).len() <= MAX_U16,
{
    let es = profile_extensions(p, host, ks, g);
    let parts = es.map_values(|e: (u16, Seq<u8>)| ext_bytes(e));
    assert forall|i: int| 0 <= i < parts.len() implies (#[trigger] parts[i]).len() <= 2054 by {
        lemma_body_len(p, p.extensions@[i], host, ks, g);
    }
    parts.lemma_flatten_and_flatten_alt_are_equivalent();
    parts.lemma_flatten_length_le_mul(2054);
    let n = parts.len() as int;
    assert(n * 2054 <= MAX_U16) by (nonlinear_arith)
        requires
            0 <= n <= 20,
    ;
}

/// A ClientHello built from a valid compact profile always fits, and parsed
/// back it offers the profile's cipher suites and extensions in the
/// profile's order, each GREASE placeholder holding the GREASE value; with
/// the placeholder itself as GREASE value the lists are the declared ones.
pub proof fn lemma_compact_round_trip(
    p: Profile,
    host: Seq<u8>,
    ks: Seq<(u16, Seq<u8>)>,
    random: Seq<u8>,
    session_id: Seq<u8>,
    g: u16,
)
    requires
        p.valid(),
        compact(p),
        params_ok(host, random, session_id, g),
        exts_bytes(ks).len() <= MAX_KEY_SHARE_BYTES,
    ensures
        exts_bytes(profile_extensions(p, host, ks, g)).len() <= MAX_U16,
        parse_hello(hello_message(profile_hello(p, host, ks, random, session_id, g))) matches Some(h)
            && h.cipher_suites == grease_all(p.cipher_suites@, g) && h.extensions.map_values(
            |e: (u16, Seq<u8>)| e.0,
        ) == grease_all(p.extensions@, g),
        g == GREASE_PLACEHOLDER ==> (parse_hello(
            hello_message(profile_hello(p, host, ks, random, session_id, g)),
        ) matches Some(h) && h.cipher_suites == p.cipher_suites@ && h.extensions.map_values(
            |e: (u16, Seq<u8>)| e.0,
        ) == p.extensions@),
{
    lemma_compact_fits(p, host, ks, g);
    lemma_hello_round_trip(p, host, ks, random, session_id, g);
    if g == GREASE_PLACEHOLDER {
        assert(grease_all(p.cipher_suites@, g) =~= p.cipher_suites@);
        assert(grease_all(p.extensions@, g) =~= p.extensions@);
    }
}

} // verus!

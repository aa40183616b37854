//! The ClientHello wire format: its encoding and a parser for it.

use vstd::prelude::*;
use crate::profile::TLS1_2;
use crate::wire::{
    be16, be24, read16, read24, read_u16s, u16s_bytes, get_u16, lemma_read16_be16, lemma_read_u16s,
    lemma_read24_be24,
};

verus! {

/// The fields of a ClientHello that a fingerprint depends on.
pub struct HelloParts {
    pub random: Seq<u8>,
    pub session_id: Seq<u8>,
    pub cipher_suites: Seq<u16>,
    /// Each extension as its type and its body.
    pub extensions: Seq<(u16, Seq<u8>)>,
}

/// The handshake type code of a ClientHello.
pub const CLIENT_HELLO: u8 = 1;

/// Most bytes an extension block (or one extension's body) may hold.
pub const MAX_U16: usize = 65535;

/// One extension on the wire: type, body length, body.
pub open spec fn ext_bytes(e: (u16, Seq<u8>)) -> Seq<u8> {
    be16(e.0) + be16(e.1.len() as u16) + e.1
}

/// The extensions on the wire, one after another.
pub open spec fn exts_bytes(es: Seq<(u16, Seq<u8>)>) -> Seq<u8> {
    es.map_values(|e: (u16, Seq<u8>)| ext_bytes(e)).flatten()
}

/// Version, random and session id: the start of a ClientHello body.
#[verifier::opaque]
pub open spec fn hello_head(h: HelloParts) -> Seq<u8> {
    be16(TLS1_2) + h.random + seq![h.session_id.len() as u8] + h.session_id
}

/// The cipher suite list with its length field.
#[verifier::opaque]
pub open spec fn hello_ciphers(h: HelloParts) -> Seq<u8> {
    be16((2 * h.cipher_suites.len()) as u16) + u16s_bytes(h.cipher_suites)
}

/// The null compression method and the extension block with its length.
#[verifier::opaque]
pub open spec fn hello_tail(h: HelloParts) -> Seq<u8> {
    seq![1u8, 0u8] + be16(exts_bytes(h.extensions).len() as u16) + exts_bytes(h.extensions)
}

/// The body of a ClientHello message.
pub open spec fn hello_body(h: HelloParts) -> Seq<u8> {
    hello_head(h) + hello_ciphers(h) + hello_tail(h)
}

/// A ClientHello handshake message: type, 24-bit length, body.
pub open spec fn hello_message(h: HelloParts) -> Seq<u8> {
    seq![CLIENT_HELLO] + be24(hello_body(h).len()) + hello_body(h)
}

/// Every field fits its length field.
pub open spec fn parts_fit(h: HelloParts) -> bool {
    &&& h.random.len() == 32
    &&& h.session_id.len() <= 32
    &&& 0 < h.cipher_suites.len() <= 32767
    &&& exts_bytes(h.extensions).len() <= MAX_U16
    &&& forall|i: int| 0 <= i < h.extensions.len() ==> (#[trigger] h.extensions[i]).1.len() <= MAX_U16
}

/// The extensions parsed from `b`, which holds nothing else.
pub open spec fn parse_exts(b: Seq<u8>) -> Option<Seq<(u16, Seq<u8>)>>
    decreases b.len(),
{
    if b.len() == 0 {
        Some(Seq::empty())
    } else if b.len() < 4 || b.len() < 4 + read16(b, 2) {
        None
    } else {
        let l = read16(b, 2) as int;
        match parse_exts(b.subrange(4 + l, b.len() as int)) {
            Some(rest) => Some(seq![(read16(b, 0), b.subrange(4, 4 + l))] + rest),
            None => None,
        }
    }
}

/// A ClientHello body parsed from `m`, which holds nothing else.
#[verifier::opaque]
pub open spec fn parse_body(m: Seq<u8>) -> Option<HelloParts> {
    if m.len() < 35 || read16(m, 0) != TLS1_2 {
        None
    } else {
        let sl = m[34] as int;
        let p = 35 + sl;
        if sl > 32 || m.len() < p + 2 {
            None
        } else {
            let cl = read16(m, p) as int;
            let q = p + 2 + cl;
            if cl == 0 || cl % 2 != 0 || m.len() < q + 4 || m[q] != 1 || m[q + 1] != 0 {
                None
            } else {
                let el = read16(m, q + 2) as int;
                if m.len() != q + 4 + el {
                    None
                } else {
                    match parse_exts(m.subrange(q + 4, m.len() as int)) {
                        Some(es) => Some(
                            HelloParts {
                                random: m.subrange(2, 34),
                                session_id: m.subrange(35, p),
                                cipher_suites: read_u16s(m.subrange(p + 2, p + 2 + cl)),
                                extensions: es,
                            },
                        ),
                        None => None,
                    }
                }
            }
        }
    }
}

/// A ClientHello message parsed from `b`, which holds nothing else.
pub open spec fn parse_hello(b: Seq<u8>) -> Option<HelloParts> {
    if b.len() < 4 || b[0] != CLIENT_HELLO || read24(b, 1) != b.len() - 4 {
        None
    } else {
        parse_body(b.subrange(4, b.len() as int))
    }
}

/// Parsing the encoding of a list of extensions gives the list back.
pub proof fn lemma_parse_exts(es: Seq<(u16, Seq<u8>)>)
    requires
        forall|i: int| 0 <= i < es.len() ==> (#[trigger] es[i]).1.len() <= MAX_U16,
    ensures
        parse_exts(exts_bytes(es)) == Some(es),
    decreases es.len(),
{
    let b = exts_bytes(es);
    if es.len() > 0 {
        let e = es[0];
        let rest = es.drop_first();
        let m = es.map_values(|e: (u16, Seq<u8>)| ext_bytes(e));
        assert(m.drop_first() =~= rest.map_values(|e: (u16, Seq<u8>)| ext_bytes(e)));
        assert(b == ext_bytes(e) + exts_bytes(rest));
        assert forall|i: int| 0 <= i < rest.len() implies (#[trigger] rest[i]).1.len()
            <= MAX_U16 by {
            assert(rest[i] == es[i + 1]);
        }
        lemma_parse_exts(rest);
        let l = e.1.len() as int;
        lemma_read16_be16(e.0, Seq::empty(), be16(l as u16) + e.1 + exts_bytes(rest));
        assert(Seq::<u8>::empty() + be16(e.0) + (be16(l as u16) + e.1 + exts_bytes(rest)) =~= b);
        lemma_read16_be16(l as u16, be16(e.0), e.1 + exts_bytes(rest));
        assert(be16(e.0) + be16(l as u16) + (e.1 + exts_bytes(rest)) =~= b);
        assert(read16(b, 2) as int == l);
        assert(b.subrange(4 + l, b.len() as int) =~= exts_bytes(rest));
        assert(b.subrange(4, 4 + l) =~= e.1);
        assert(seq![(read16(b, 0), b.subrange(4, 4 + l))] + rest =~= es);
    } else {
        assert(b =~= Seq::<u8>::empty());
    }
}

/// Where the version, random and session id sit in the head.
proof fn lemma_head(h: HelloParts)
    requires
        parts_fit(h),
    ensures
        hello_head(h).len() == 35 + h.session_id.len(),
        read16(hello_head(h), 0) == TLS1_2,
        hello_head(h)[34] == h.session_id.len() as u8,
        hello_head(h).subrange(2, 34) == h.random,
        hello_head(h).subrange(35, hello_head(h).len() as int) == h.session_id,
{
    reveal(hello_head);
    let head = hello_head(h);
    lemma_read16_be16(TLS1_2, Seq::empty(), head.subrange(2, head.len() as int));
    assert(Seq::<u8>::empty() + be16(TLS1_2) + head.subrange(2, head.len() as int) =~= head);
    assert(head.subrange(2, 34) =~= h.random);
    assert(head.subrange(35, head.len() as int) =~= h.session_id);
}

/// Where the cipher list and its length sit.
proof fn lemma_ciphers(h: HelloParts)
    requires
        parts_fit(h),
    ensures
        hello_ciphers(h).len() == 2 + 2 * h.cipher_suites.len(),
        read16(hello_ciphers(h), 0) == 2 * h.cipher_suites.len(),
        read_u16s(hello_ciphers(h).subrange(2, hello_ciphers(h).len() as int))
            == h.cipher_suites,
{
    reveal(hello_ciphers);
    let cp = hello_ciphers(h);
    let cl = (2 * h.cipher_suites.len()) as u16;
    lemma_read_u16s(h.cipher_suites);
    lemma_read16_be16(cl, Seq::empty(), u16s_bytes(h.cipher_suites));
    assert(Seq::<u8>::empty() + be16(cl) + u16s_bytes(h.cipher_suites) =~= cp);
    assert(cp.subrange(2, cp.len() as int) =~= u16s_bytes(h.cipher_suites));
}

/// Where the compression method and the extension block sit.
proof fn lemma_tail(h: HelloParts)
    requires
        parts_fit(h),
    ensures
        hello_tail(h).len() == 4 + exts_bytes(h.extensions).len(),
        hello_tail(h)[0] == 1,
        hello_tail(h)[1] == 0,
        read16(hello_tail(h), 2) == exts_bytes(h.extensions).len(),
        hello_tail(h).subrange(4, hello_tail(h).len() as int) == exts_bytes(h.extensions),
{
    reveal(hello_tail);
    let tail = hello_tail(h);
    let xb = exts_bytes(h.extensions);
    lemma_read16_be16(xb.len() as u16, seq![1u8, 0u8], xb);
    assert(tail.subrange(4, tail.len() as int) =~= xb);
}

/// Parsing a ClientHello body gives back its fields.
proof fn lemma_parse_body(h: HelloParts)
    requires
        parts_fit(h),
    ensures
        parse_body(hello_body(h)) == Some(h),
        hello_body(h).len() < 16777216,
{
    reveal(parse_body);
    let head = hello_head(h);
    let cp = hello_ciphers(h);
    let tail = hello_tail(h);
    let m = hello_body(h);
    let p = head.len() as int;
    let cl = 2 * h.cipher_suites.len() as int;
    let q = p + 2 + cl;
    let xb = exts_bytes(h.extensions);
    lemma_head(h);
    lemma_ciphers(h);
    lemma_tail(h);
    lemma_parse_exts(h.extensions);
    assert(m.len() == q + 4 + xb.len());
    assert(read16(m, 0) == TLS1_2) by {
        assert(m[0] == head[0] && m[1] == head[1]);
    }
    assert(m[34] == h.session_id.len() as u8);
    assert(read16(m, p) == cl) by {
        assert(m[p] == cp[0] && m[p + 1] == cp[1]);
    }
    assert(read16(m, q + 2) == xb.len()) by {
        assert(m[q + 2] == tail[2] && m[q + 3] == tail[3]);
    }
    assert(m[q] == 1 && m[q + 1] == 0) by {
        assert(m[q] == tail[0] && m[q + 1] == tail[1]);
    }
    assert(m.subrange(2, 34) == h.random) by {
        assert(m.subrange(2, 34) =~= head.subrange(2, 34));
    }
    assert(m.subrange(35, p) == h.session_id) by {
        assert(m.subrange(35, p) =~= head.subrange(35, p));
    }
    assert(read_u16s(m.subrange(p + 2, p + 2 + cl)) == h.cipher_suites) by {
        assert(m.subrange(p + 2, p + 2 + cl) =~= cp.subrange(2, 2 + cl));
    }
    assert(parse_exts(m.subrange(q + 4, m.len() as int)) == Some(h.extensions)) by {
        assert(m.subrange(q + 4, m.len() as int) =~= tail.subrange(4, tail.len() as int));
    }
}

/// Parsing a ClientHello message gives back the fields it was made of.
pub proof fn lemma_parse_hello(h: HelloParts)
    requires
        parts_fit(h),
    ensures
        parse_hello(hello_message(h)) == Some(h),
{
    let body = hello_body(h);
    let b = hello_message(h);
    lemma_parse_body(h);
    assert(b.subrange(4, b.len() as int) =~= body);
    lemma_read24_be24(body.len(), seq![CLIENT_HELLO], body);
}

/// One extension as read from the wire.
pub struct Extension {
    pub ext_type: u16,
    pub body: Vec<u8>,
}

/// A ClientHello as read from the wire.
pub struct ParsedHello {
    pub random: Vec<u8>,
    pub session_id: Vec<u8>,
    pub cipher_suites: Vec<u16>,
    pub extensions: Vec<Extension>,
}

/// The extensions as type and body.
pub open spec fn exts_view(es: Seq<Extension>) -> Seq<(u16, Seq<u8>)> {
    es.map_values(|e: Extension| (e.ext_type, e.body@))
}

impl ParsedHello {
    /// The fields as plain values.
    pub open spec fn parts(&self) -> HelloParts {
        HelloParts {
            random: self.random@,
            session_id: self.session_id@,
            cipher_suites: self.cipher_suites@,
            extensions: exts_view(self.extensions@),
        }
    }

    /// The extension types in the order they were sent.
    pub fn extension_types(&self) -> (r: Vec<u16>)
        ensures
            r@ == exts_view(self.extensions@).map_values(|e: (u16, Seq<u8>)| e.0),
    {
        let mut out: Vec<u16> = Vec::new();
        let mut i: usize = 0;
        while i < self.extensions.len()
            invariant
                i <= self.extensions@.len(),
                out@.len() == i,
                forall|k: int| 0 <= k < i ==> out@[k] == (#[trigger] self.extensions@[k]).ext_type,
            decreases self.extensions@.len() - i,
        {
            out.push(self.extensions[i].ext_type);
            i += 1;
        }
        assert(out@ =~= exts_view(self.extensions@).map_values(|e: (u16, Seq<u8>)| e.0));
        out
    }
}

/// `acc` followed by what `rest` parsed to, if it parsed.
pub open spec fn then_exts(
    acc: Seq<(u16, Seq<u8>)>,
    rest: Option<Seq<(u16, Seq<u8>)>>,
) -> Option<Seq<(u16, Seq<u8>)>> {
    match rest {
        Some(r) => Some(acc + r),
        None => None,
    }
}

/// The bytes `b[from..to]`.
fn copy_range(b: &Vec<u8>, from: usize, to: usize) -> (r: Vec<u8>)
    requires
        from <= to <= b@.len(),
    ensures
        r@ == b@.subrange(from as int, to as int),
{
    let mut out: Vec<u8> = Vec::new();
    let mut i: usize = from;
    while i < to
        invariant
            from <= i <= to <= b@.len(),
            out@ == b@.subrange(from as int, i as int),
        decreases to - i,
    {
        out.push(b[i]);
        assert(b@.subrange(from as int, i + 1) =~= b@.subrange(from as int, i as int).push(
            b@[i as int],
        ));
        i += 1;
    }
    out
}

/// The 16-bit values stored pairwise in `b[from..to]`.
fn read_u16_range(b: &Vec<u8>, from: usize, to: usize) -> (r: Vec<u16>)
    requires
        from <= to <= b@.len(),
        (to - from) % 2 == 0,
    ensures
        r@ == read_u16s(b@.subrange(from as int, to as int)),
{
    let ghost s = b@.subrange(from as int, to as int);
    let mut out: Vec<u16> = Vec::new();
    let mut i: usize = from;
    while i < to
        invariant
            from <= i <= to <= b@.len(),
            (to - from) % 2 == 0,
            (i - from) % 2 == 0,
            s == b@.subrange(from as int, to as int),
            out@.len() == (i - from) / 2,
            forall|k: int| 0 <= k < out@.len() ==> #[trigger] out@[k] == read16(s, 2 * k),
        decreases to - i,
    {
        let x = get_u16(b, i);
        proof {
            let k = (i - from) / 2;
            assert(2 * k == i - from);
            assert(s[2 * k] == b@[i as int] && s[2 * k + 1] == b@[i + 1]);
        }
        out.push(x);
        i += 2;
    }
    assert(out@ =~= read_u16s(s));
    out
}

/// The extensions in `b[from..]`, which holds nothing else.
fn parse_extensions(b: &Vec<u8>, from: usize) -> (r: Option<Vec<Extension>>)
    requires
        from <= b@.len(),
    ensures
        match r {
            Some(es) => parse_exts(b@.subrange(from as int, b@.len() as int)) == Some(
                exts_view(es@),
            ),
            None => parse_exts(b@.subrange(from as int, b@.len() as int)) is None,
        },
{
    let n = b.len();
    let ghost whole = b@.subrange(from as int, n as int);
    let mut out: Vec<Extension> = Vec::new();
    let mut pos: usize = from;
    while pos < n
        invariant
            from <= pos <= n,
            n == b@.len(),
            whole == b@.subrange(from as int, n as int),
            parse_exts(whole) == then_exts(
                exts_view(out@),
                parse_exts(b@.subrange(pos as int, n as int)),
            ),
        decreases n - pos,
    {
        let ghost cur = b@.subrange(pos as int, n as int);
        if n - pos < 4 {
            return None;
        }
        let t = get_u16(b, pos);
        let l = get_u16(b, pos + 2);
        assert(read16(cur, 0) == t && read16(cur, 2) == l);
        if n - pos - 4 < l as usize {
            return None;
        }
        let next = pos + 4 + l as usize;
        let body = copy_range(b, pos + 4, next);
        proof {
            assert(cur.subrange(4 + l, cur.len() as int) =~= b@.subrange(next as int, n as int));
            assert(cur.subrange(4, 4 + l) =~= body@);
            let ghost old_view = exts_view(out@);
            let ghost e = Extension { ext_type: t, body };
            assert(exts_view(out@.push(e)) =~= old_view.push((t, body@)));
            match parse_exts(b@.subrange(next as int, n as int)) {
                Some(rest) => {
                    assert(old_view + (seq![(t, body@)] + rest) =~= old_view.push((t, body@))
                        + rest);
                },
                None => {},
            }
        }
        out.push(Extension { ext_type: t, body });
        pos = next;
    }
    assert(exts_view(out@) + Seq::empty() =~= exts_view(out@));
    Some(out)
}

/// Reads a ClientHello handshake message; `None` when `b` is not exactly one
/// well-formed message.
#[verifier::rlimit(60)]
pub fn parse_client_hello(b: &Vec<u8>) -> (r: Option<ParsedHello>)
    ensures
        match r {
            Some(h) => parse_hello(b@) == Some(h.parts()),
            None => parse_hello(b@) is None,
        },
{
    proof {
        reveal(parse_body);
    }
    let n = b.len();
    if n < 4 || b[0] != CLIENT_HELLO {
        return None;
    }
    let declared: usize = (b[1] as usize) * 65536 + (b[2] as usize) * 256 + b[3] as usize;
    if declared != n - 4 {
        return None;
    }
    let ghost m = b@.subrange(4, n as int);
    assert(forall|i: int| 0 <= i < m.len() ==> #[trigger] m[i] == b@[i + 4]);
    if n < 4 + 35 || get_u16(b, 4) != TLS1_2 {
        return None;
    }
    assert(read16(m, 0) == read16(b@, 4));
    let sl = b[4 + 34] as usize;
    let p = 4 + 35 + sl;
    if sl > 32 || n < p + 2 {
        return None;
    }
    let cl = get_u16(b, p) as usize;
    assert(read16(m, p - 4) == read16(b@, p as int));
    let q = p + 2 + cl;
    if cl == 0 || cl % 2 != 0 || n < q + 4 || b[q] != 1 || b[q + 1] != 0 {
        return None;
    }
    let el = get_u16(b, q + 2) as usize;
    assert(read16(m, q - 4 + 2) == read16(b@, q + 2));
    if n != q + 4 + el {
        return None;
    }
    let exts = parse_extensions(b, q + 4);
    assert(m.subrange(q - 4 + 4, m.len() as int) =~= b@.subrange(q + 4, n as int));
    match exts {
        None => None,
        Some(extensions) => {
            let random = copy_range(b, 4 + 2, 4 + 34);
            let session_id = copy_range(b, 4 + 35, p);
            let cipher_suites = read_u16_range(b, p + 2, p + 2 + cl);
            assert(m.subrange(2, 34) =~= random@);
            assert(m.subrange(35, p - 4) =~= session_id@);
            assert(m.subrange(p - 4 + 2, p - 4 + 2 + cl) =~= b@.subrange(p + 2, (p + 2 + cl) as int));
            Some(ParsedHello { random, session_id, cipher_suites, extensions })
        },
    }
}

} // verus!

//! Big-endian integer fields as they appear in TLS and HTTP/2 messages.

use vstd::prelude::*;

verus! {

/// A 16-bit value, most significant byte first.
pub open spec fn be16(x: u16) -> Seq<u8> {
    seq![(x / 256) as u8, (x % 256) as u8]
}

/// A 24-bit length field.
pub open spec fn be24(x: nat) -> Seq<u8> {
    seq![((x / 65536) % 256) as u8, ((x / 256) % 256) as u8, (x % 256) as u8]
}

/// A 32-bit value, most significant byte first.
pub open spec fn be32(x: u32) -> Seq<u8> {
    seq![
        (x / 16777216) as u8,
        ((x / 65536) % 256) as u8,
        ((x / 256) % 256) as u8,
        (x % 256) as u8,
    ]
}

/// The 16-bit value stored at `b[i]`, `b[i + 1]`.
pub open spec fn read16(b: Seq<u8>, i: int) -> u16 {
    (b[i] as int * 256 + b[i + 1] as int) as u16
}

/// The 24-bit value stored at `b[i]` to `b[i + 2]`.
pub open spec fn read24(b: Seq<u8>, i: int) -> int {
    b[i] as int * 65536 + b[i + 1] as int * 256 + b[i + 2] as int
}

/// Reading back what `be24` wrote gives the value.
pub proof fn lemma_read24_be24(x: nat, prefix: Seq<u8>, suffix: Seq<u8>)
    requires
        x < 16777216,
    ensures
        read24(prefix + be24(x) + suffix, prefix.len() as int) == x,
{
    let b = prefix + be24(x) + suffix;
    let i = prefix.len() as int;
    assert(b[i] == ((x / 65536) % 256) as u8);
    assert(b[i + 1] == ((x / 256) % 256) as u8);
    assert(b[i + 2] == (x % 256) as u8);
    let xi = x as int;
    assert((xi / 65536) % 256 == xi / 65536 && ((xi / 65536) % 256) * 65536 + ((xi / 256) % 256)
        * 256 + xi % 256 == xi) by (nonlinear_arith)
        requires
            0 <= xi < 16777216,
    ;
}

/// A list of 16-bit values, each as `be16`.
pub open spec fn u16s_bytes(s: Seq<u16>) -> Seq<u8> {
    Seq::new(
        (2 * s.len()) as nat,
        |i: int|
            if i % 2 == 0 {
                (s[i / 2] / 256) as u8
            } else {
                (s[i / 2] % 256) as u8
            },
    )
}

/// The 16-bit values stored pairwise in `b`.
pub open spec fn read_u16s(b: Seq<u8>) -> Seq<u16> {
    Seq::new(b.len() / 2, |k: int| read16(b, 2 * k))
}

/// Reading back what `be16` wrote gives the value.
pub proof fn lemma_read16_be16(x: u16, prefix: Seq<u8>, suffix: Seq<u8>)
    ensures
        read16(prefix + be16(x) + suffix, prefix.len() as int) == x,
{
    let b = prefix + be16(x) + suffix;
    assert(b[prefix.len() as int] == (x / 256) as u8);
    assert(b[prefix.len() as int + 1] == (x % 256) as u8);
}

/// Reading back what `u16s_bytes` wrote gives the list.
pub proof fn lemma_read_u16s(s: Seq<u16>)
    ensures
        read_u16s(u16s_bytes(s)) == s,
        u16s_bytes(s).len() == 2 * s.len(),
{
    let b = u16s_bytes(s);
    assert forall|k: int| 0 <= k < s.len() implies #[trigger] read16(b, 2 * k) == s[k] by {
        assert((2 * k) / 2 == k);
        assert((2 * k + 1) / 2 == k);
        assert(b[2 * k] == (s[k] / 256) as u8);
        assert(b[2 * k + 1] == (s[k] % 256) as u8);
    }
    assert(read_u16s(b) =~= s);
}

/// Appends `x` as two bytes.
pub fn push_u16(out: &mut Vec<u8>, x: u16)
    ensures
        final(out)@ == old(out)@ + be16(x),
{
    out.push((x / 256) as u8);
    out.push((x % 256) as u8);
    assert(final(out)@ =~= old(out)@ + be16(x));
}

/// Appends `x` as four bytes.
pub fn push_u32(out: &mut Vec<u8>, x: u32)
    ensures
        final(out)@ == old(out)@ + be32(x),
{
    out.push((x / 16777216) as u8);
    out.push(((x / 65536) % 256) as u8);
    out.push(((x / 256) % 256) as u8);
    out.push((x % 256) as u8);
    assert(final(out)@ =~= old(out)@ + be32(x));
}

/// Appends every value of `xs` as two bytes.
pub fn push_u16s(out: &mut Vec<u8>, xs: &Vec<u16>)
    ensures
        final(out)@ == old(out)@ + u16s_bytes(xs@),
{
    let ghost start = out@;
    let mut i: usize = 0;
    while i < xs.len()
        invariant
            i <= xs@.len(),
            out@ == start + u16s_bytes(xs@.take(i as int)),
        decreases xs@.len() - i,
    {
        push_u16(out, xs[i]);
        proof {
            let t = xs@.take(i + 1);
            assert(u16s_bytes(t) =~= u16s_bytes(xs@.take(i as int)) + be16(xs@[i as int]));
        }
        i += 1;
    }
    assert(xs@.take(xs@.len() as int) =~= xs@);
}

/// Appends every byte of `b`.
pub fn push_bytes(out: &mut Vec<u8>, b: &Vec<u8>)
    ensures
        final(out)@ == old(out)@ + b@,
{
    let ghost start = out@;
    let mut i: usize = 0;
    while i < b.len()
        invariant
            i <= b@.len(),
            out@ == start + b@.take(i as int),
        decreases b@.len() - i,
    {
        out.push(b[i]);
        assert(b@.take(i + 1) =~= b@.take(i as int).push(b@[i as int]));
        i += 1;
    }
    assert(b@.take(b@.len() as int) =~= b@);
}

/// Reads the two bytes at `i` as one value.
pub fn get_u16(b: &Vec<u8>, i: usize) -> (r: u16)
    requires
        i + 1 < b@.len(),
    ensures
        r == read16(b@, i as int),
{
    let n = b.len();
    assert(i + 1 < n);
    let hi: u16 = b[i] as u16;
    let lo: u16 = b[i + 1] as u16;
    assert(hi < 256 && lo < 256);
    hi * 256 + lo
}

} // verus!

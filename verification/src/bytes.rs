use vstd::prelude::*;

verus! {

// ---------------------------------------------------------------------------
// Little-endian (and one big-endian) encodings of fixed-width integers.
// ---------------------------------------------------------------------------

pub open spec fn le2(n: u16) -> Seq<u8> {
    seq![(n & 0xff) as u8, ((n >> 8) & 0xff) as u8]
}

pub open spec fn le4(n: u32) -> Seq<u8> {
    seq![
        (n & 0xff) as u8,
        ((n >> 8) & 0xff) as u8,
        ((n >> 16) & 0xff) as u8,
        ((n >> 24) & 0xff) as u8,
    ]
}

pub open spec fn le8(n: u64) -> Seq<u8> {
    seq![
        (n & 0xff) as u8,
        ((n >> 8) & 0xff) as u8,
        ((n >> 16) & 0xff) as u8,
        ((n >> 24) & 0xff) as u8,
        ((n >> 32) & 0xff) as u8,
        ((n >> 40) & 0xff) as u8,
        ((n >> 48) & 0xff) as u8,
        ((n >> 56) & 0xff) as u8,
    ]
}

/// Network byte order, used for the port field of an address.
pub open spec fn be2(n: u16) -> Seq<u8> {
    seq![((n >> 8) & 0xff) as u8, (n & 0xff) as u8]
}

pub open spec fn u16_from(b0: u8, b1: u8) -> u16 {
    (b0 as u16) | ((b1 as u16) << 8)
}

pub open spec fn u32_from(b0: u8, b1: u8, b2: u8, b3: u8) -> u32 {
    (b0 as u32) | ((b1 as u32) << 8) | ((b2 as u32) << 16) | ((b3 as u32) << 24)
}

#[verifier::opaque]
pub open spec fn u64_from(b0: u8, b1: u8, b2: u8, b3: u8, b4: u8, b5: u8, b6: u8, b7: u8) -> u64 {
    (b0 as u64) | ((b1 as u64) << 8) | ((b2 as u64) << 16) | ((b3 as u64) << 24)
        | ((b4 as u64) << 32) | ((b5 as u64) << 40) | ((b6 as u64) << 48) | ((b7 as u64) << 56)
}

pub open spec fn u16_from_be(hi: u8, lo: u8) -> u16 {
    ((hi as u16) << 8) | (lo as u16)
}

/// Reads a little-endian u16 out of a byte sequence.
pub open spec fn u16_at(s: Seq<u8>, i: int) -> u16 {
    u16_from(s[i], s[i + 1])
}

pub open spec fn u32_at(s: Seq<u8>, i: int) -> u32 {
    u32_from(s[i], s[i + 1], s[i + 2], s[i + 3])
}

pub open spec fn u64_at(s: Seq<u8>, i: int) -> u64 {
    u64_from(s[i], s[i + 1], s[i + 2], s[i + 3], s[i + 4], s[i + 5], s[i + 6], s[i + 7])
}

pub open spec fn u16_be_at(s: Seq<u8>, i: int) -> u16 {
    u16_from_be(s[i], s[i + 1])
}

pub proof fn lemma_u16_round(n: u16)
    ensures
        u16_from(le2(n)[0], le2(n)[1]) == n,
{
    assert((((n & 0xff) as u8) as u16) | ((((n >> 8) & 0xff) as u8 as u16) << 8) == n)
        by (bit_vector);
}

pub proof fn lemma_u32_round(n: u32)
    ensures
        u32_from(le4(n)[0], le4(n)[1], le4(n)[2], le4(n)[3]) == n,
{
    assert((((n & 0xff) as u8) as u32) | ((((n >> 8) & 0xff) as u8 as u32) << 8)
        | ((((n >> 16) & 0xff) as u8 as u32) << 16) | ((((n >> 24) & 0xff) as u8 as u32) << 24)
        == n) by (bit_vector);
}

pub proof fn lemma_u64_round(n: u64)
    ensures
        u64_from(le8(n)[0], le8(n)[1], le8(n)[2], le8(n)[3], le8(n)[4], le8(n)[5], le8(n)[6],
            le8(n)[7]) == n,
{
    reveal(u64_from);
    assert((((n & 0xff) as u8) as u64) | ((((n >> 8) & 0xff) as u8 as u64) << 8)
        | ((((n >> 16) & 0xff) as u8 as u64) << 16) | ((((n >> 24) & 0xff) as u8 as u64) << 24)
        | ((((n >> 32) & 0xff) as u8 as u64) << 32) | ((((n >> 40) & 0xff) as u8 as u64) << 40)
        | ((((n >> 48) & 0xff) as u8 as u64) << 48) | ((((n >> 56) & 0xff) as u8 as u64) << 56)
        == n) by (bit_vector);
}

pub proof fn lemma_u16_be_round(n: u16)
    ensures
        u16_from_be(be2(n)[0], be2(n)[1]) == n,
{
    assert((((((n >> 8) & 0xff) as u8) as u16) << 8) | (((n & 0xff) as u8) as u16) == n)
        by (bit_vector);
}

// ---------------------------------------------------------------------------
// Bitcoin's CompactSize encoding of an unsigned count.
// ---------------------------------------------------------------------------

pub open spec fn varint(n: u64) -> Seq<u8> {
    if n < 0xfd {
        seq![n as u8]
    } else if n <= 0xffff {
        seq![0xfdu8] + le2(n as u16)
    } else if n <= 0xffffffff {
        seq![0xfeu8] + le4(n as u32)
    } else {
        seq![0xffu8] + le8(n)
    }
}

/// Parses a CompactSize at position `i`, rejecting non-minimal encodings.
/// Returns the value and the position just past it.
pub open spec fn parse_varint(s: Seq<u8>, i: int) -> Option<(u64, int)> {
    if i < 0 || i >= s.len() {
        None
    } else {
        let tag = s[i];
        if tag < 0xfd {
            Some(((tag as u64), i + 1))
        } else if tag == 0xfd {
            if i + 3 <= s.len() {
                let v = u16_at(s, i + 1) as u64;
                if v >= 0xfd {
                    Some((v, i + 3))
                } else {
                    None
                }
            } else {
                None
            }
        } else if tag == 0xfe {
            if i + 5 <= s.len() {
                let v = u32_at(s, i + 1) as u64;
                if v > 0xffff {
                    Some((v, i + 5))
                } else {
                    None
                }
            } else {
                None
            }
        } else {
            if i + 9 <= s.len() {
                let v = u64_at(s, i + 1);
                if v > 0xffffffff {
                    Some((v, i + 9))
                } else {
                    None
                }
            } else {
                None
            }
        }
    }
}

/// A CompactSize written by `varint` parses back to the same value, in any
/// surrounding context.
pub proof fn lemma_varint_round(pre: Seq<u8>, n: u64, post: Seq<u8>)
    ensures
        parse_varint(pre + varint(n) + post, pre.len() as int)
            == Some((n, (pre.len() + varint(n).len()) as int)),
{
    let s = pre + varint(n) + post;
    let i = pre.len() as int;
    assert forall|k: int| 0 <= k < varint(n).len() implies s[i + k] == varint(n)[k] by {}
    if n < 0xfd {
        assert(s[i] == n as u8);
        assert((n as u8) < 0xfd && (n as u8) as u64 == n) by (bit_vector)
            requires n < 0xfd;
    } else if n <= 0xffff {
        assert(s[i] == 0xfdu8);
        lemma_u16_round(n as u16);
        assert(u16_at(s, i + 1) == n as u16);
        assert((n as u16) as u64 == n && (n as u16) as u64 >= 0xfd) by (bit_vector)
            requires 0xfd <= n <= 0xffff;
    } else if n <= 0xffffffff {
        assert(s[i] == 0xfeu8);
        lemma_u32_round(n as u32);
        assert(u32_at(s, i + 1) == n as u32);
        assert((n as u32) as u64 == n && (n as u32) as u64 > 0xffff) by (bit_vector)
            requires 0xffff < n <= 0xffffffff;
    } else {
        assert(s[i] == 0xffu8);
        lemma_u64_round(n);
        assert(u64_at(s, i + 1) == n);
    }
}

// ---------------------------------------------------------------------------
// Executable helpers, verified against the specifications above.
// ---------------------------------------------------------------------------

pub fn clone_bytes(v: &Vec<u8>) -> (r: Vec<u8>)
    ensures
        r@ == v@,
{
    let mut r: Vec<u8> = Vec::new();
    let mut i: usize = 0;
    while i < v.len()
        invariant
            i <= v@.len(),
            r@ == v@.take(i as int),
        decreases v@.len() - i,
    {
        r.push(v[i]);
        assert(r@ =~= v@.take(i + 1 as int));
        i = i + 1;
    }
    assert(r@ =~= v@);
    r
}

pub fn bytes_eq(a: &Vec<u8>, b: &Vec<u8>) -> (r: bool)
    ensures
        r == (a@ == b@),
{
    if a.len() != b.len() {
        assert(a@ != b@);
        return false;
    }
    let mut i: usize = 0;
    while i < a.len()
        invariant
            i <= a@.len(),
            a@.len() == b@.len(),
            forall|j: int| 0 <= j < i ==> a@[j] == b@[j],
        decreases a@.len() - i,
    {
        if a[i] != b[i] {
            assert(a@ != b@);
            return false;
        }
        i = i + 1;
    }
    assert(a@ =~= b@);
    true
}

pub fn copy_range(v: &Vec<u8>, start: usize, n: usize) -> (r: Vec<u8>)
    requires
        start + n <= v@.len(),
        v@.len() <= usize::MAX,
    ensures
        r@ == v@.subrange(start as int, start + n),
{
    let mut r: Vec<u8> = Vec::new();
    let mut i: usize = 0;
    while i < n
        invariant
            i <= n,
            start + n <= v@.len(),
            v@.len() <= usize::MAX,
            r@ == v@.subrange(start as int, start + i),
        decreases n - i,
    {
        r.push(v[start + i]);
        assert(r@ =~= v@.subrange(start as int, start + i + 1));
        i = i + 1;
    }
    r
}

pub fn push_bytes(out: &mut Vec<u8>, src: &Vec<u8>)
    ensures
        final(out)@ == old(out)@ + src@,
{
    let mut i: usize = 0;
    while i < src.len()
        invariant
            i <= src@.len(),
            out@ == old(out)@ + src@.take(i as int),
        decreases src@.len() - i,
    {
        out.push(src[i]);
        assert(out@ =~= old(out)@ + src@.take(i + 1 as int));
        i = i + 1;
    }
    assert(out@ =~= old(out)@ + src@);
}

pub fn push_u16_le(out: &mut Vec<u8>, n: u16)
    ensures
        final(out)@ == old(out)@ + le2(n),
{
    out.push((n & 0xff) as u8);
    out.push(((n >> 8) & 0xff) as u8);
    assert(out@ =~= old(out)@ + le2(n));
}

pub fn push_u32_le(out: &mut Vec<u8>, n: u32)
    ensures
        final(out)@ == old(out)@ + le4(n),
{
    out.push((n & 0xff) as u8);
    out.push(((n >> 8) & 0xff) as u8);
    out.push(((n >> 16) & 0xff) as u8);
    out.push(((n >> 24) & 0xff) as u8);
    assert(out@ =~= old(out)@ + le4(n));
}

pub fn push_u64_le(out: &mut Vec<u8>, n: u64)
    ensures
        final(out)@ == old(out)@ + le8(n),
{
    out.push((n & 0xff) as u8);
    out.push(((n >> 8) & 0xff) as u8);
    out.push(((n >> 16) & 0xff) as u8);
    out.push(((n >> 24) & 0xff) as u8);
    out.push(((n >> 32) & 0xff) as u8);
    out.push(((n >> 40) & 0xff) as u8);
    out.push(((n >> 48) & 0xff) as u8);
    out.push(((n >> 56) & 0xff) as u8);
    assert(out@ =~= old(out)@ + le8(n));
}

pub fn push_u16_be(out: &mut Vec<u8>, n: u16)
    ensures
        final(out)@ == old(out)@ + be2(n),
{
    out.push(((n >> 8) & 0xff) as u8);
    out.push((n & 0xff) as u8);
    assert(out@ =~= old(out)@ + be2(n));
}

pub fn push_varint(out: &mut Vec<u8>, n: u64)
    ensures
        final(out)@ == old(out)@ + varint(n),
{
    if n < 0xfd {
        out.push(n as u8);
        assert(out@ =~= old(out)@ + varint(n));
    } else if n <= 0xffff {
        out.push(0xfd);
        push_u16_le(out, n as u16);
        assert(out@ =~= old(out)@ + varint(n));
    } else if n <= 0xffffffff {
        out.push(0xfe);
        push_u32_le(out, n as u32);
        assert(out@ =~= old(out)@ + varint(n));
    } else {
        out.push(0xff);
        push_u64_le(out, n);
        assert(out@ =~= old(out)@ + varint(n));
    }
}

pub fn read_u16_le(v: &Vec<u8>, i: usize) -> (r: u16)
    requires
        i + 2 <= v@.len(),
        v@.len() <= usize::MAX,
    ensures
        r == u16_at(v@, i as int),
{
    (v[i] as u16) | ((v[i + 1] as u16) << 8)
}

pub fn read_u32_le(v: &Vec<u8>, i: usize) -> (r: u32)
    requires
        i + 4 <= v@.len(),
        v@.len() <= usize::MAX,
    ensures
        r == u32_at(v@, i as int),
{
    (v[i] as u32) | ((v[i + 1] as u32) << 8) | ((v[i + 2] as u32) << 16)
        | ((v[i + 3] as u32) << 24)
}

pub fn read_u64_le(v: &Vec<u8>, i: usize) -> (r: u64)
    requires
        i + 8 <= v@.len(),
        v@.len() <= usize::MAX,
    ensures
        r == u64_at(v@, i as int),
{
    let r = (v[i] as u64) | ((v[i + 1] as u64) << 8) | ((v[i + 2] as u64) << 16)
        | ((v[i + 3] as u64) << 24) | ((v[i + 4] as u64) << 32) | ((v[i + 5] as u64) << 40)
        | ((v[i + 6] as u64) << 48) | ((v[i + 7] as u64) << 56);
    proof {
        reveal(u64_from);
    }
    r
}

pub fn read_u16_be(v: &Vec<u8>, i: usize) -> (r: u16)
    requires
        i + 2 <= v@.len(),
        v@.len() <= usize::MAX,
    ensures
        r == u16_be_at(v@, i as int),
{
    ((v[i] as u16) << 8) | (v[i + 1] as u16)
}

pub fn read_varint(v: &Vec<u8>, i: usize) -> (r: Option<(u64, usize)>)
    requires
        i <= v@.len(),
    ensures
        (r matches Some(p) ==> parse_varint(v@, i as int) == Some((p.0, p.1 as int))
            && i < p.1 <= v@.len()),
        (r is None ==> parse_varint(v@, i as int) is None),
{
    let l = v.len();
    if i >= l {
        return None;
    }
    let tag = v[i];
    let rem = l - i;
    if tag < 0xfd {
        Some((tag as u64, i + 1))
    } else if tag == 0xfd {
        if rem >= 3 {
            let n = read_u16_le(v, i + 1) as u64;
            if n >= 0xfd {
                Some((n, i + 3))
            } else {
                None
            }
        } else {
            None
        }
    } else if tag == 0xfe {
        if rem >= 5 {
            let n = read_u32_le(v, i + 1) as u64;
            if n > 0xffff {
                Some((n, i + 5))
            } else {
                None
            }
        } else {
            None
        }
    } else {
        if rem >= 9 {
            let n = read_u64_le(v, i + 1);
            if n > 0xffffffff {
                Some((n, i + 9))
            } else {
                None
            }
        } else {
            None
        }
    }
}

} // verus!

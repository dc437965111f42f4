//! Little-endian integer and byte-run encodings used by the wire structs.
//!
//! Every wire struct is encoded as the concatenation of its fields, integers
//! in little-endian order. The helpers here append an encoding to a growing
//! buffer, or read one back at a given offset.

use vstd::prelude::*;

verus! {

/// The four bytes of `v`, least significant first.
pub open spec fn le_u32(v: u32) -> Seq<u8> {
    seq![
        (v & 0xff) as u8,
        ((v >> 8u32) & 0xff) as u8,
        ((v >> 16u32) & 0xff) as u8,
        ((v >> 24u32) & 0xff) as u8,
    ]
}

/// The two's-complement bytes of `v`, least significant first.
pub open spec fn le_i32(v: i32) -> Seq<u8> {
    le_u32(v as u32)
}

/// The eight bytes of `v`, least significant first.
pub open spec fn le_u64(v: u64) -> Seq<u8> {
    le_u32((v & 0xffff_ffff) as u32) + le_u32((v >> 32u64) as u32)
}

/// `n` zero bytes.
pub open spec fn zeros(n: nat) -> Seq<u8> {
    Seq::new(n, |_i: int| 0u8)
}

/// The length of the longest prefix of `s` whose elements all satisfy `keep`.
pub open spec fn prefix_len<T>(s: Seq<T>, keep: spec_fn(T) -> bool) -> nat
    decreases s.len(),
{
    if s.len() == 0 || !keep(s[0]) {
        0
    } else {
        1 + prefix_len(s.drop_first(), keep)
    }
}

/// `k` is the length of the longest prefix of `s` whose elements satisfy `keep`
/// when the first `k` elements satisfy it and the next one, if any, does not.
pub proof fn lemma_prefix_len<T>(s: Seq<T>, keep: spec_fn(T) -> bool, k: int)
    requires
        0 <= k <= s.len(),
        forall|j: int| 0 <= j < k ==> keep(#[trigger] s[j]),
        k < s.len() ==> !keep(s[k]),
    ensures
        prefix_len(s, keep) == k,
    decreases k,
{
    if k > 0 {
        assert(keep(s[0]));
        let t = s.drop_first();
        assert forall|j: int| 0 <= j < k - 1 implies keep(#[trigger] t[j]) by {
            assert(t[j] == s[j + 1]);
        }
        lemma_prefix_len(t, keep, k - 1);
    }
}

/// The longest prefix whose elements satisfy `keep` is no longer than `s`,
/// its elements satisfy `keep`, and the element after it, if any, does not.
pub proof fn lemma_prefix_len_bounds<T>(s: Seq<T>, keep: spec_fn(T) -> bool)
    ensures
        prefix_len(s, keep) <= s.len(),
        forall|j: int| 0 <= j < prefix_len(s, keep) ==> keep(#[trigger] s[j]),
        prefix_len(s, keep) < s.len() ==> !keep(s[prefix_len(s, keep) as int]),
    decreases s.len(),
{
    if s.len() > 0 && keep(s[0]) {
        let t = s.drop_first();
        lemma_prefix_len_bounds(t, keep);
        assert forall|j: int| 0 <= j < prefix_len(s, keep) implies keep(#[trigger] s[j]) by {
            if j > 0 {
                assert(s[j] == t[j - 1]);
            }
        }
    }
}

/// The `u32` whose little-endian bytes are `b0, b1, b2, b3`.
pub open spec fn u32_from_le(b0: u8, b1: u8, b2: u8, b3: u8) -> u32 {
    (b0 as u32) | ((b1 as u32) << 8u32) | ((b2 as u32) << 16u32) | ((b3 as u32) << 24u32)
}

pub proof fn lemma_le_u32_of_bytes(b0: u8, b1: u8, b2: u8, b3: u8)
    ensures
        le_u32(u32_from_le(b0, b1, b2, b3)) == seq![b0, b1, b2, b3],
{
    let v = u32_from_le(b0, b1, b2, b3);
    assert((v & 0xff) as u8 == b0 && ((v >> 8u32) & 0xff) as u8 == b1 && ((v >> 16u32) & 0xff) as u8
        == b2 && ((v >> 24u32) & 0xff) as u8 == b3) by (bit_vector)
        requires
            v == (b0 as u32) | ((b1 as u32) << 8u32) | ((b2 as u32) << 16u32) | ((b3 as u32)
                << 24u32),
    ;
    assert(le_u32(v) =~= seq![b0, b1, b2, b3]);
}

/// Distinct `u32` values have distinct encodings.
pub proof fn lemma_le_u32_injective(a: u32, b: u32)
    requires
        le_u32(a) == le_u32(b),
    ensures
        a == b,
{
    assert(le_u32(a)[0] == le_u32(b)[0]);
    assert(le_u32(a)[1] == le_u32(b)[1]);
    assert(le_u32(a)[2] == le_u32(b)[2]);
    assert(le_u32(a)[3] == le_u32(b)[3]);
    assert(a == b) by (bit_vector)
        requires
            (a & 0xff) as u8 == (b & 0xff) as u8,
            ((a >> 8u32) & 0xff) as u8 == ((b >> 8u32) & 0xff) as u8,
            ((a >> 16u32) & 0xff) as u8 == ((b >> 16u32) & 0xff) as u8,
            ((a >> 24u32) & 0xff) as u8 == ((b >> 24u32) & 0xff) as u8,
    ;
}

pub proof fn lemma_le_i32_injective(a: i32, b: i32)
    requires
        le_i32(a) == le_i32(b),
    ensures
        a == b,
{
    lemma_le_u32_injective(a as u32, b as u32);
    assert(a == b) by (bit_vector)
        requires
            a as u32 == b as u32,
    ;
}

pub proof fn lemma_le_u64_injective(a: u64, b: u64)
    requires
        le_u64(a) == le_u64(b),
    ensures
        a == b,
{
    let la = (a & 0xffff_ffff) as u32;
    let ha = (a >> 32u64) as u32;
    let lb = (b & 0xffff_ffff) as u32;
    let hb = (b >> 32u64) as u32;
    assert(le_u32(la) =~= le_u64(a).subrange(0, 4));
    assert(le_u32(ha) =~= le_u64(a).subrange(4, 8));
    assert(le_u32(lb) =~= le_u64(b).subrange(0, 4));
    assert(le_u32(hb) =~= le_u64(b).subrange(4, 8));
    lemma_le_u32_injective(la, lb);
    lemma_le_u32_injective(ha, hb);
    assert(a == b) by (bit_vector)
        requires
            (a & 0xffff_ffff) as u32 == (b & 0xffff_ffff) as u32,
            (a >> 32u64) as u32 == (b >> 32u64) as u32,
    ;
}

/// Appends the little-endian bytes of `v`.
pub fn put_u32(out: &mut Vec<u8>, v: u32)
    ensures
        final(out)@ == old(out)@ + le_u32(v),
{
    out.push((v & 0xff) as u8);
    out.push(((v >> 8u32) & 0xff) as u8);
    out.push(((v >> 16u32) & 0xff) as u8);
    out.push(((v >> 24u32) & 0xff) as u8);
    assert(final(out)@ =~= old(out)@ + le_u32(v));
}

/// Appends the little-endian two's-complement bytes of `v`.
pub fn put_i32(out: &mut Vec<u8>, v: i32)
    ensures
        final(out)@ == old(out)@ + le_i32(v),
{
    put_u32(out, v as u32);
}

/// Appends the little-endian bytes of `v`.
pub fn put_u64(out: &mut Vec<u8>, v: u64)
    ensures
        final(out)@ == old(out)@ + le_u64(v),
{
    put_u32(out, (v & 0xffff_ffff) as u32);
    put_u32(out, (v >> 32u64) as u32);
    assert(final(out)@ =~= old(out)@ + le_u64(v));
}

/// Appends the bytes of `src` in order.
pub fn put_bytes(out: &mut Vec<u8>, src: &[u8])
    ensures
        final(out)@ == old(out)@ + src@,
{
    let mut i: usize = 0;
    while i < src.len()
        invariant
            i <= src.len(),
            out@ == old(out)@ + src@.take(i as int),
        decreases src.len() - i,
    {
        out.push(src[i]);
        i = i + 1;
        assert(out@ =~= old(out)@ + src@.take(i as int));
    }
    assert(src@.take(src.len() as int) =~= src@);
}

/// Appends `n` zero bytes (structure padding).
pub fn put_zeros(out: &mut Vec<u8>, n: usize)
    ensures
        final(out)@ == old(out)@ + zeros(n as nat),
{
    let mut i: usize = 0;
    while i < n
        invariant
            i <= n,
            out@ == old(out)@ + zeros(i as nat),
        decreases n - i,
    {
        out.push(0u8);
        i = i + 1;
        assert(out@ =~= old(out)@ + zeros(i as nat));
    }
}

/// Reads the little-endian `u32` at `off`.
pub fn get_u32(buf: &[u8], off: usize) -> (v: u32)
    requires
        off + 4 <= buf@.len(),
    ensures
        le_u32(v) == buf@.subrange(off as int, off + 4),
{
    let b0 = buf[off];
    let b1 = buf[off + 1];
    let b2 = buf[off + 2];
    let b3 = buf[off + 3];
    let v = (b0 as u32) | ((b1 as u32) << 8u32) | ((b2 as u32) << 16u32) | ((b3 as u32) << 24u32);
    proof {
        lemma_le_u32_of_bytes(b0, b1, b2, b3);
        assert(seq![b0, b1, b2, b3] =~= buf@.subrange(off as int, off + 4));
    }
    v
}

/// Reads the little-endian two's-complement `i32` at `off`.
pub fn get_i32(buf: &[u8], off: usize) -> (v: i32)
    requires
        off + 4 <= buf@.len(),
    ensures
        le_i32(v) == buf@.subrange(off as int, off + 4),
{
    let u = get_u32(buf, off);
    let v = u as i32;
    assert(v as u32 == u) by (bit_vector)
        requires
            v == u as i32,
    ;
    v
}

/// Reads the little-endian `u64` at `off`.
pub fn get_u64(buf: &[u8], off: usize) -> (v: u64)
    requires
        off + 8 <= buf@.len(),
    ensures
        le_u64(v) == buf@.subrange(off as int, off + 8),
{
    let _len = buf.len();
    let lo = get_u32(buf, off);
    let hi = get_u32(buf, off + 4);
    let v = (lo as u64) | ((hi as u64) << 32u64);
    assert((v & 0xffff_ffff) as u32 == lo && (v >> 32u64) as u32 == hi) by (bit_vector)
        requires
            v == (lo as u64) | ((hi as u64) << 32u64),
    ;
    assert(le_u64(v) =~= buf@.subrange(off as int, off + 8));
    v
}

/// Copies `dst.len()` bytes of `buf`, starting at `off`, into `dst`.
pub fn read_into(dst: &mut [u8], buf: &[u8], off: usize)
    requires
        off + old(dst)@.len() <= buf@.len(),
    ensures
        final(dst)@ == buf@.subrange(off as int, off + old(dst)@.len()),
{
    let n = dst.len();
    let blen = buf.len();
    let mut i: usize = 0;
    while i < n
        invariant
            n == dst@.len(),
            n == old(dst)@.len(),
            blen == buf@.len(),
            off + n <= buf@.len(),
            i <= n,
            forall|j: int| 0 <= j < i ==> dst@[j] == buf@[off + j],
        decreases n - i,
    {
        dst[i] = buf[off + i];
        i = i + 1;
    }
    assert(dst@ =~= buf@.subrange(off as int, off + n));
}

/// Overwrites `dst` from offset `off` with the bytes of `src`.
pub fn write_at(dst: &mut [u8], off: usize, src: &[u8])
    requires
        off + src@.len() <= old(dst)@.len(),
    ensures
        final(dst)@ == old(dst)@.take(off as int) + src@ + old(dst)@.skip(off + src@.len()),
{
    let n = src.len();
    let dlen = dst.len();
    let mut i: usize = 0;
    while i < n
        invariant
            n == src@.len(),
            dlen == dst@.len(),
            dst@.len() == old(dst)@.len(),
            off + n <= dst@.len(),
            i <= n,
            forall|j: int| 0 <= j < off ==> dst@[j] == old(dst)@[j],
            forall|j: int| off + n <= j < dst@.len() ==> dst@[j] == old(dst)@[j],
            forall|j: int| off <= j < off + i ==> dst@[j] == src@[j - off],
            forall|j: int| off + i <= j < off + n ==> dst@[j] == old(dst)@[j],
        decreases n - i,
    {
        dst[off + i] = src[i];
        i = i + 1;
    }
    assert(dst@ =~= old(dst)@.take(off as int) + src@ + old(dst)@.skip(off + src@.len()));
}

/// The little-endian `u32` held by `b[off..off + 4]`.
pub open spec fn u32_at(b: Seq<u8>, off: int) -> u32 {
    u32_from_le(b[off], b[off + 1], b[off + 2], b[off + 3])
}

/// The little-endian two's-complement `i32` held by `b[off..off + 4]`.
pub open spec fn i32_at(b: Seq<u8>, off: int) -> i32 {
    u32_at(b, off) as i32
}

/// The little-endian `u64` held by `b[off..off + 8]`.
pub open spec fn u64_at(b: Seq<u8>, off: int) -> u64 {
    (u32_at(b, off) as u64) | ((u32_at(b, off + 4) as u64) << 32u64)
}

/// Bytes that are the encoding of `v` hold `v`.
pub proof fn lemma_u32_at(b: Seq<u8>, off: int, v: u32)
    requires
        0 <= off,
        off + 4 <= b.len(),
        le_u32(v) == b.subrange(off, off + 4),
    ensures
        u32_at(b, off) == v,
{
    let w = u32_at(b, off);
    lemma_le_u32_of_bytes(b[off], b[off + 1], b[off + 2], b[off + 3]);
    assert(seq![b[off], b[off + 1], b[off + 2], b[off + 3]] =~= b.subrange(off, off + 4));
    lemma_le_u32_injective(w, v);
}

/// Bytes that are the encoding of `v` hold `v`.
pub proof fn lemma_i32_at(b: Seq<u8>, off: int, v: i32)
    requires
        0 <= off,
        off + 4 <= b.len(),
        le_i32(v) == b.subrange(off, off + 4),
    ensures
        i32_at(b, off) == v,
{
    lemma_u32_at(b, off, v as u32);
    assert((v as u32) as i32 == v) by (bit_vector);
}

/// Bytes that are the encoding of `v` hold `v`.
pub proof fn lemma_u64_at(b: Seq<u8>, off: int, v: u64)
    requires
        0 <= off,
        off + 8 <= b.len(),
        le_u64(v) == b.subrange(off, off + 8),
    ensures
        u64_at(b, off) == v,
{
    let lo = (v & 0xffff_ffff) as u32;
    let hi = (v >> 32u64) as u32;
    assert(le_u32(lo) =~= b.subrange(off, off + 4)) by {
        assert(le_u64(v).subrange(0, 4) =~= le_u32(lo));
    }
    assert(le_u32(hi) =~= b.subrange(off + 4, off + 8)) by {
        assert(le_u64(v).subrange(4, 8) =~= le_u32(hi));
    }
    lemma_u32_at(b, off, lo);
    lemma_u32_at(b, off + 4, hi);
    assert((lo as u64) | ((hi as u64) << 32u64) == v) by (bit_vector)
        requires
            lo == (v & 0xffff_ffff) as u32,
            hi == (v >> 32u64) as u32,
    ;
}

} // verus!

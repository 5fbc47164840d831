//! Little-endian byte images of fixed-width values, and in-place replacement
//! of a run of bytes.
use vstd::prelude::*;

verus! {

pub open spec fn le16(v: u16) -> Seq<u8> {
    seq![(v & 0xff) as u8, (v >> 8) as u8]
}

pub open spec fn le32(v: u32) -> Seq<u8> {
    seq![(v & 0xff) as u8, ((v >> 8) & 0xff) as u8, ((v >> 16) & 0xff) as u8, (v >> 24) as u8]
}

pub open spec fn le64(v: u64) -> Seq<u8> {
    le32((v & 0xffff_ffff) as u32) + le32((v >> 32) as u32)
}

/// The value of four little-endian bytes.
pub open spec fn u32_at(s: Seq<u8>, off: int) -> u32 {
    (s[off] as u32) | ((s[off + 1] as u32) << 8) | ((s[off + 2] as u32) << 16) | ((s[off + 3] as u32)
        << 24)
}

/// `s` with the bytes from `off` on replaced by `b`.
pub open spec fn put(s: Seq<u8>, off: int, b: Seq<u8>) -> Seq<u8> {
    s.take(off) + b + s.skip(off + b.len())
}

pub fn le16_bytes(v: u16) -> (r: Vec<u8>)
    ensures
        r@ == le16(v),
{
    let r = vec![(v & 0xff) as u8, (v >> 8) as u8];
    assert(r@ =~= le16(v));
    r
}

pub fn le32_bytes(v: u32) -> (r: Vec<u8>)
    ensures
        r@ == le32(v),
{
    let r = vec![(v & 0xff) as u8, ((v >> 8) & 0xff) as u8, ((v >> 16) & 0xff) as u8, (v >> 24) as u8];
    assert(r@ =~= le32(v));
    r
}

pub fn le64_bytes(v: u64) -> (r: Vec<u8>)
    ensures
        r@ == le64(v),
{
    let mut r = le32_bytes((v & 0xffff_ffff) as u32);
    let mut hi = le32_bytes((v >> 32) as u32);
    r.append(&mut hi);
    r
}

pub fn read_u32(s: &Vec<u8>, off: usize) -> (r: u32)
    requires
        off + 4 <= s@.len(),
    ensures
        r == u32_at(s@, off as int),
{
    let n = s.len();
    assert(off + 3 < n);
    (s[off] as u32) | ((s[off + 1] as u32) << 8) | ((s[off + 2] as u32) << 16) | ((s[off + 3] as u32)
        << 24)
}

/// Replaces the bytes of `s` from `off` on by `b`.
pub fn put_bytes(s: &mut Vec<u8>, off: usize, b: &Vec<u8>)
    requires
        off + b@.len() <= old(s)@.len(),
    ensures
        final(s)@ == put(old(s)@, off as int, b@),
        final(s)@.len() == old(s)@.len(),
{
    let n = s.len();
    let mut k: usize = 0;
    while k < b.len()
        invariant
            n == s@.len(),
            off + b@.len() <= s@.len(),
            s@.len() == old(s)@.len(),
            k <= b@.len(),
            s@ =~= old(s)@.take(off as int) + b@.take(k as int) + old(s)@.skip(off + k),
        decreases b@.len() - k,
    {
        s[off + k] = b[k];
        k += 1;
        assert(s@ =~= old(s)@.take(off as int) + b@.take(k as int) + old(s)@.skip(off + k));
    }
    assert(b@.take(k as int) =~= b@);
}

} // verus!

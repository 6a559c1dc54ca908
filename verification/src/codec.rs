//! Shared byte-level helpers for the wire and record codecs: little-endian
//! integers, buffer copies and the UTF-8 validity check the text fields
//! carry over the wire.

use vstd::prelude::*;

use vstd::bytes::{
    spec_u32_from_le_bytes, spec_u32_to_le_bytes, spec_u64_from_le_bytes, spec_u64_to_le_bytes,
    u32_from_le_bytes, u32_to_le_bytes, u64_from_le_bytes, u64_to_le_bytes,
};
use vstd::slice::slice_subrange;

use crate::addr::Address;

verus! {

/// Relies on `core::str::from_utf8`: it accepts a byte slice exactly when
/// the bytes are valid UTF-8.
#[verifier::external_body]
pub fn is_valid_utf8(bytes: &Vec<u8>) -> (r: bool)
    ensures
        r == vstd::utf8::valid_utf8(bytes@),
{
    core::str::from_utf8(bytes.as_slice()).is_ok()
}

/// Byte-for-byte copy of a buffer.
pub fn clone_bytes(v: &Vec<u8>) -> (r: Vec<u8>)
    ensures
        r@ == v@,
{
    let n = v.len();
    let mut r: Vec<u8> = Vec::new();
    let mut i: usize = 0;
    while i < n
        invariant
            i <= n,
            n == v@.len(),
            r@ == v@.take(i as int),
        decreases n - i,
    {
        r.push(v[i]);
        proof {
            assert(r@ =~= v@.take(i + 1));
        }
        i += 1;
    }
    proof {
        assert(v@.take(n as int) =~= v@);
    }
    r
}

/// The bytes of `data` from `from` (inclusive) to `to` (exclusive), as a
/// fresh buffer.
pub fn bytes_of_range(data: &Vec<u8>, from: usize, to: usize) -> (r: Vec<u8>)
    requires
        from <= to <= data@.len(),
    ensures
        r@ == data@.subrange(from as int, to as int),
{
    let s = slice_subrange(data.as_slice(), from, to);
    let r = vstd::slice::slice_to_vec(s);
    r
}

/// Reads the little-endian `u32` at `off`.
pub fn read_u32_le(data: &Vec<u8>, off: usize) -> (r: u32)
    requires
        off + 4 <= data@.len(),
    ensures
        r == spec_u32_from_le_bytes(data@.subrange(off as int, off + 4)),
{
    let _n = data.len();
    let s = slice_subrange(data.as_slice(), off, off + 4);
    u32_from_le_bytes(s)
}

/// Reads the little-endian `u64` at `off`.
pub fn read_u64_le(data: &Vec<u8>, off: usize) -> (r: u64)
    requires
        off + 8 <= data@.len(),
    ensures
        r == spec_u64_from_le_bytes(data@.subrange(off as int, off + 8)),
{
    let _n = data.len();
    let s = slice_subrange(data.as_slice(), off, off + 8);
    u64_from_le_bytes(s)
}

/// Appends a `u32` in little-endian order.
pub fn push_u32_le(out: &mut Vec<u8>, x: u32)
    ensures
        final(out)@ == old(out)@ + spec_u32_to_le_bytes(x),
{
    let mut b = u32_to_le_bytes(x);
    out.append(&mut b);
}

/// Appends a `u64` in little-endian order.
pub fn push_u64_le(out: &mut Vec<u8>, x: u64)
    ensures
        final(out)@ == old(out)@ + spec_u64_to_le_bytes(x),
{
    let mut b = u64_to_le_bytes(x);
    out.append(&mut b);
}

/// Appends a copy of a buffer.
pub fn push_bytes(out: &mut Vec<u8>, src: &Vec<u8>)
    ensures
        final(out)@ == old(out)@ + src@,
{
    let mut b = clone_bytes(src);
    out.append(&mut b);
}

/// Appends the 32 bytes of an address.
pub fn push_address(out: &mut Vec<u8>, a: &Address)
    ensures
        final(out)@ == old(out)@ + a@,
{
    let mut b = a.to_vec();
    out.append(&mut b);
}

} // verus!

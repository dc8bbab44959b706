use vstd::prelude::*;
use vstd::utf8::{decode_utf8, valid_utf8};

use crate::common::{read_u32_le, u32_at};

verus! {

/// Where a Borsh `Option` of a `size`-byte record that starts at `off` ends: a tag byte, 0 for
/// `None` or 1 for `Some` followed by the record. `None` where the bytes are malformed.
pub open spec fn option_end(data: Seq<u8>, off: int, size: int) -> Option<int> {
    if off >= data.len() {
        None
    } else if data[off] == 0 {
        Some(off + 1)
    } else if data[off] == 1 && off + 1 + size <= data.len() {
        Some(off + 1 + size)
    } else {
        None
    }
}

/// Where a Borsh string that starts at `off` ends: a little-endian `u32` length, then that
/// many bytes of UTF-8. `None` where the bytes are malformed.
pub open spec fn string_end(data: Seq<u8>, off: int) -> Option<int> {
    if 0 <= off && off + 4 <= data.len() && off + 4 + u32_at(data, off) <= data.len() && valid_utf8(
        data.subrange(off + 4, off + 4 + u32_at(data, off)),
    ) {
        Some(off + 4 + u32_at(data, off))
    } else {
        None
    }
}

/// The text of the Borsh string at `off`, where `string_end` finds one.
pub open spec fn string_text(data: Seq<u8>, off: int) -> Seq<char> {
    decode_utf8(data.subrange(off + 4, off + 4 + u32_at(data, off)))
}

/// Calls `String::from_utf8`, which gives the text that UTF-8 bytes spell and fails on bytes
/// that are not UTF-8.
#[verifier::external_body]
fn string_from_utf8(bytes: Vec<u8>) -> (r: Option<String>)
    ensures
        r is Some <==> valid_utf8(bytes@),
        r matches Some(s) ==> s@ == decode_utf8(bytes@),
{
    String::from_utf8(bytes).ok()
}

/// A copy of the bytes from `from` up to `to`.
pub fn copy_range(data: &[u8], from: usize, to: usize) -> (r: Vec<u8>)
    requires
        from <= to <= data@.len(),
    ensures
        r@ == data@.subrange(from as int, to as int),
{
    let mut out: Vec<u8> = Vec::new();
    let mut i = from;
    while i < to
        invariant
            from <= i <= to <= data@.len(),
            out@ == data@.subrange(from as int, i as int),
        decreases to - i,
    {
        out.push(data[i]);
        i = i + 1;
        proof {
            assert(out@ =~= data@.subrange(from as int, i as int));
        }
    }
    out
}

/// Reads the Borsh string at `off`: its text and where it ends.
pub fn read_string(data: &[u8], off: usize) -> (r: Option<(String, usize)>)
    ensures
        r is Some <==> string_end(data@, off as int) is Some,
        r matches Some((s, end)) ==> end == string_end(data@, off as int)->0 && s@ == string_text(
            data@,
            off as int,
        ),
{
    let len = data.len();
    let n = match read_u32_le(data, off) {
        Ok(n) => n,
        Err(_) => return None,
    };
    let start = off + 4;
    if len - start < n as usize {
        return None;
    }
    let end = start + n as usize;
    let bytes = copy_range(data, start, end);
    match string_from_utf8(bytes) {
        Some(s) => Some((s, end)),
        None => None,
    }
}

} // verus!

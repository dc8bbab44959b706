use vstd::prelude::*;
use vstd::string::*;

use crate::error::{ParseError, ParseResult};
use crate::text::{base58_decode, base58_decoding, base58_encode, base58_encoding, decimal, u128_to_decimal};
use crate::types::Pubkey;

verus! {

// ---------------------------------------------------------------------------
// The little-endian model of fixed-width fields
// ---------------------------------------------------------------------------

/// The number that bytes `s` spell in little-endian order.
pub open spec fn le_value(s: Seq<u8>) -> nat
    decreases s.len(),
{
    if s.len() == 0 {
        0
    } else {
        s[0] as nat + 256 * le_value(s.drop_first())
    }
}

/// 256 to the power `n`.
pub open spec fn pow256(n: nat) -> nat
    decreases n,
{
    if n == 0 { 1 } else { 256 * pow256((n - 1) as nat) }
}

/// The `n` bytes that spell `x` in little-endian order, lowest byte first, as `to_le_bytes`
/// writes a number of `n` bytes.
pub open spec fn le_bytes(x: nat, n: nat) -> Seq<u8>
    decreases n,
{
    if n == 0 {
        Seq::empty()
    } else {
        seq![(x % 256) as u8] + le_bytes(x / 256, (n - 1) as nat)
    }
}

proof fn lemma_pow256_positive(n: nat)
    ensures
        pow256(n) > 0,
    decreases n,
{
    if n > 0 {
        lemma_pow256_positive((n - 1) as nat);
    }
}

proof fn lemma_le_value_of_bytes(x: nat, n: nat)
    ensures
        le_bytes(x, n).len() == n,
        le_value(le_bytes(x, n)) == x % pow256(n),
    decreases n,
{
    if n > 0 {
        lemma_le_value_of_bytes(x / 256, (n - 1) as nat);
        lemma_pow256_positive((n - 1) as nat);
        let b = le_bytes(x, n);
        assert(b.drop_first() =~= le_bytes(x / 256, (n - 1) as nat));
        vstd::arithmetic::div_mod::lemma_mod_breakdown(x as int, 256, pow256((n - 1) as nat) as int);
    }
}

proof fn lemma_reads_back(x: nat, n: nat, rest: Seq<u8>)
    requires
        x < pow256(n),
    ensures
        le_value(field(le_bytes(x, n) + rest, 0, n as int)) == x,
{
    lemma_le_value_of_bytes(x, n);
    assert(field(le_bytes(x, n) + rest, 0, n as int) =~= le_bytes(x, n));
    vstd::arithmetic::div_mod::lemma_small_mod(x, pow256(n));
}

/// Reading a little-endian `u16` gives back the number whose bytes were written there, whatever
/// follows them.
pub proof fn u16_reads_back(x: u16, rest: Seq<u8>)
    ensures
        u16_at(le_bytes(x as nat, 2) + rest, 0) == x,
{
    reveal_with_fuel(pow256, 3);
    assert(pow256(2) == 0x1_0000);
    lemma_reads_back(x as nat, 2, rest);
}

/// Reading a little-endian `u32` gives back the number whose bytes were written there, whatever
/// follows them.
pub proof fn u32_reads_back(x: u32, rest: Seq<u8>)
    ensures
        u32_at(le_bytes(x as nat, 4) + rest, 0) == x,
{
    reveal_with_fuel(pow256, 5);
    assert(pow256(4) == 0x1_0000_0000);
    lemma_reads_back(x as nat, 4, rest);
}

/// Reading a little-endian `u64` gives back the number whose bytes were written there, whatever
/// follows them.
pub proof fn u64_reads_back(x: u64, rest: Seq<u8>)
    ensures
        u64_at(le_bytes(x as nat, 8) + rest, 0) == x,
{
    reveal_with_fuel(pow256, 9);
    assert(pow256(8) == 0x1_0000_0000_0000_0000);
    lemma_reads_back(x as nat, 8, rest);
}

/// Reading a little-endian `u128` gives back the number whose bytes were written there,
/// whatever follows them.
pub proof fn u128_reads_back(x: u128, rest: Seq<u8>)
    ensures
        u128_at(le_bytes(x as nat, 16) + rest, 0) == x,
{
    reveal_with_fuel(pow256, 17);
    assert(pow256(16) == 0x1_0000_0000_0000_0000_0000_0000_0000_0000);
    lemma_reads_back(x as nat, 16, rest);
}

/// The `n` bytes of `s` that start at `off`.
pub open spec fn field(s: Seq<u8>, off: int, n: int) -> Seq<u8> {
    s.subrange(off, off + n)
}

/// The little-endian `u16` at `off`.
pub open spec fn u16_at(s: Seq<u8>, off: int) -> u16 {
    le_value(field(s, off, 2)) as u16
}

/// The little-endian `u32` at `off`.
pub open spec fn u32_at(s: Seq<u8>, off: int) -> u32 {
    le_value(field(s, off, 4)) as u32
}

/// The little-endian `u64` at `off`.
pub open spec fn u64_at(s: Seq<u8>, off: int) -> u64 {
    le_value(field(s, off, 8)) as u64
}

/// The little-endian `u128` at `off`.
pub open spec fn u128_at(s: Seq<u8>, off: int) -> u128 {
    le_value(field(s, off, 16)) as u128
}

/// The two's complement reading of a 32-bit pattern.
pub open spec fn as_signed32(v: nat) -> i32 {
    if v < 0x8000_0000 {
        v as i32
    } else {
        (v - 0x1_0000_0000) as i32
    }
}

/// The little-endian `i32` at `off`.
pub open spec fn i32_at(s: Seq<u8>, off: int) -> i32 {
    as_signed32(le_value(field(s, off, 4)))
}

/// The two's complement reading of a 64-bit pattern.
pub open spec fn as_signed64(v: nat) -> i64 {
    if v < 0x8000_0000_0000_0000 {
        v as i64
    } else {
        (v - 0x1_0000_0000_0000_0000) as i64
    }
}

/// The little-endian `i64` at `off`.
pub open spec fn i64_at(s: Seq<u8>, off: int) -> i64 {
    as_signed64(le_value(field(s, off, 8)))
}

/// The address whose 32 bytes start at `off`.
pub open spec fn key_at(s: Seq<u8>, off: int) -> Seq<u8> {
    field(s, off, 32)
}

/// What `read_option_bool` reads at `off`: `Err(())` where it fails.
pub open spec fn option_bool_at(s: Seq<u8>, off: int) -> Result<Option<bool>, ()> {
    if off >= s.len() {
        Ok(None)
    } else if s[off] == 0 {
        Ok(None)
    } else if s[off] == 1 {
        if off + 1 < s.len() { Ok(Some(s[off + 1] != 0)) } else { Err(()) }
    } else {
        Err(())
    }
}

/// `a - b`, or 0 where `b` exceeds `a`.
pub open spec fn sat_sub(a: int, b: int) -> int {
    if a >= b { a - b } else { 0 }
}

/// The error for a field of `expected` bytes at `offset` in data of length `len`.
pub open spec fn short_read(expected: int, len: int, offset: int) -> ParseError {
    ParseError::NotEnoughBytes {
        expected: expected as usize,
        found: sat_sub(len, offset) as usize,
        offset: offset as usize,
    }
}

/// The error for a slice shorter than the `expected` bytes that a field needs.
pub open spec fn short_slice(expected: int, len: int) -> ParseError {
    ParseError::NotEnoughBytes { expected: expected as usize, found: len as usize, offset: 0 }
}

proof fn lemma_le_step(s: Seq<u8>, i: int, j: int)
    requires
        0 <= i < j <= s.len(),
    ensures
        le_value(s.subrange(i, j)) == s[i] as nat + 256 * le_value(s.subrange(i + 1, j)),
{
    assert(s.subrange(i, j).drop_first() =~= s.subrange(i + 1, j));
}

proof fn lemma_pow256_16()
    ensures
        pow256(16) == 0x1_0000_0000_0000_0000_0000_0000_0000_0000,
        pow256(8) == 0x1_0000_0000_0000_0000,
        pow256(4) == 0x1_0000_0000,
        pow256(2) == 0x1_0000,
        pow256(1) == 0x100,
{
    reveal_with_fuel(pow256, 17);
}

proof fn lemma_pow256_mono(a: nat, b: nat)
    requires
        a <= b,
    ensures
        pow256(a) <= pow256(b),
    decreases b,
{
    if a < b {
        lemma_pow256_mono(a, (b - 1) as nat);
    }
}

/// The number spelled by the `n` bytes at `off`, read in little-endian order.
fn le_uint(data: &[u8], off: usize, n: usize) -> (v: u128)
    requires
        off + n <= data@.len(),
        n <= 16,
    ensures
        v == le_value(field(data@, off as int, n as int)),
        v < pow256(n as nat),
{
    let mut acc: u128 = 0;
    let mut k: usize = n;
    let len = data.len();
    proof {
        lemma_pow256_16();
        assert(data@.subrange(off + n, off + n) =~= Seq::<u8>::empty());
    }
    while k > 0
        invariant
            k <= n <= 16,
            off + n <= data@.len(),
            len == data@.len(),
            acc == le_value(data@.subrange(off + k, off + n)),
            acc < pow256((n - k) as nat),
            pow256(16) == 0x1_0000_0000_0000_0000_0000_0000_0000_0000,
        decreases k,
    {
        let b = data[off + k - 1];
        proof {
            lemma_le_step(data@, off + k - 1, off + n as int);
            lemma_pow256_mono((n - k + 1) as nat, 16);
            assert(pow256((n - k + 1) as nat) == 256 * pow256((n - k) as nat));
        }
        acc = b as u128 + 256 * acc;
        k = k - 1;
    }
    acc
}

// ---------------------------------------------------------------------------
// Reading fields at an offset
// ---------------------------------------------------------------------------

/// Reads a little-endian `u64` at `offset`.
pub fn read_u64_le(data: &[u8], offset: usize) -> (r: ParseResult<u64>)
    ensures
        offset + 8 <= data@.len() ==> r == Ok::<u64, ParseError>(u64_at(data@, offset as int)),
        offset + 8 > data@.len() ==> r == Err::<u64, ParseError>(
            short_read(8, data@.len() as int, offset as int),
        ),
{
    if offset > data.len() || data.len() - offset < 8 {
        return Err(
            ParseError::NotEnoughBytes {
                expected: 8,
                found: if data.len() >= offset { data.len() - offset } else { 0 },
                offset,
            },
        );
    }
    proof {
        lemma_pow256_16();
    }
    let v = le_uint(data, offset, 8);
    Ok(v as u64)
}

/// Reads a little-endian `u128` at `offset`.
pub fn read_u128_le(data: &[u8], offset: usize) -> (r: ParseResult<u128>)
    ensures
        offset + 16 <= data@.len() ==> r == Ok::<u128, ParseError>(u128_at(data@, offset as int)),
        offset + 16 > data@.len() ==> r == Err::<u128, ParseError>(
            short_read(16, data@.len() as int, offset as int),
        ),
{
    if offset > data.len() || data.len() - offset < 16 {
        return Err(
            ParseError::NotEnoughBytes {
                expected: 16,
                found: if data.len() >= offset { data.len() - offset } else { 0 },
                offset,
            },
        );
    }
    let v = le_uint(data, offset, 16);
    Ok(v)
}

/// Reads a little-endian `u32` at `offset`.
pub fn read_u32_le(data: &[u8], offset: usize) -> (r: ParseResult<u32>)
    ensures
        offset + 4 <= data@.len() ==> r == Ok::<u32, ParseError>(u32_at(data@, offset as int)),
        offset + 4 > data@.len() ==> r == Err::<u32, ParseError>(
            short_read(4, data@.len() as int, offset as int),
        ),
{
    if offset > data.len() || data.len() - offset < 4 {
        return Err(
            ParseError::NotEnoughBytes {
                expected: 4,
                found: if data.len() >= offset { data.len() - offset } else { 0 },
                offset,
            },
        );
    }
    proof {
        lemma_pow256_16();
    }
    let v = le_uint(data, offset, 4);
    Ok(v as u32)
}

/// Reads a little-endian two's complement `i32` at `offset`.
pub fn read_i32_le(data: &[u8], offset: usize) -> (r: ParseResult<i32>)
    ensures
        offset + 4 <= data@.len() ==> r == Ok::<i32, ParseError>(i32_at(data@, offset as int)),
        offset + 4 > data@.len() ==> r == Err::<i32, ParseError>(
            short_read(4, data@.len() as int, offset as int),
        ),
{
    if offset > data.len() || data.len() - offset < 4 {
        return Err(
            ParseError::NotEnoughBytes {
                expected: 4,
                found: if data.len() >= offset { data.len() - offset } else { 0 },
                offset,
            },
        );
    }
    proof {
        lemma_pow256_16();
    }
    let v = le_uint(data, offset, 4);
    if v < 0x8000_0000 {
        Ok(v as i32)
    } else {
        let below: i64 = (v as i64) - 0x1_0000_0000i64;
        Ok(below as i32)
    }
}

/// Reads a little-endian `u16` at `offset`.
pub fn read_u16_le(data: &[u8], offset: usize) -> (r: ParseResult<u16>)
    ensures
        offset + 2 <= data@.len() ==> r == Ok::<u16, ParseError>(u16_at(data@, offset as int)),
        offset + 2 > data@.len() ==> r == Err::<u16, ParseError>(
            short_read(2, data@.len() as int, offset as int),
        ),
{
    if offset > data.len() || data.len() - offset < 2 {
        return Err(
            ParseError::NotEnoughBytes {
                expected: 2,
                found: if data.len() >= offset { data.len() - offset } else { 0 },
                offset,
            },
        );
    }
    proof {
        lemma_pow256_16();
    }
    let v = le_uint(data, offset, 2);
    Ok(v as u16)
}

/// Reads the byte at `offset`.
pub fn read_u8_le(data: &[u8], offset: usize) -> (r: ParseResult<u8>)
    ensures
        offset < data@.len() ==> r == Ok::<u8, ParseError>(data@[offset as int]),
        offset >= data@.len() ==> r == Err::<u8, ParseError>(
            ParseError::NotEnoughBytes { expected: 1, found: 0, offset },
        ),
{
    if data.len() <= offset {
        return Err(ParseError::NotEnoughBytes { expected: 1, found: 0, offset });
    }
    Ok(data[offset])
}

/// Reads the byte at `offset` as a flag: any non-zero byte is `true`.
pub fn read_bool(data: &[u8], offset: usize) -> (r: ParseResult<bool>)
    ensures
        offset < data@.len() ==> r == Ok::<bool, ParseError>(data@[offset as int] != 0),
        offset >= data@.len() ==> r == Err::<bool, ParseError>(
            short_read(1, data@.len() as int, offset as int),
        ),
{
    if data.len() <= offset {
        return Err(ParseError::NotEnoughBytes { expected: 1, found: 0, offset });
    }
    Ok(data[offset] != 0)
}

/// Copies the 32 bytes at `offset` into an address.
pub fn key_from(data: &[u8], offset: usize) -> (k: Pubkey)
    requires
        offset + 32 <= data@.len(),
    ensures
        k@ == key_at(data@, offset as int),
{
    let mut bytes = [0u8; 32];
    let mut i: usize = 0;
    let len = data.len();
    while i < 32
        invariant
            0 <= i <= 32,
            offset + 32 <= data@.len(),
            len == data@.len(),
            bytes@.len() == 32,
            forall|j: int| 0 <= j < i ==> bytes@[j] == data@[offset + j],
        decreases 32 - i,
    {
        bytes[i] = data[offset + i];
        i = i + 1;
    }
    proof {
        assert(bytes@ =~= key_at(data@, offset as int));
    }
    Pubkey(bytes)
}

/// Reads the 32-byte address at `offset`.
pub fn read_pubkey(data: &[u8], offset: usize) -> (r: ParseResult<Pubkey>)
    ensures
        offset + 32 <= data@.len() ==> (r matches Ok(k) && k@ == key_at(data@, offset as int)),
        offset + 32 > data@.len() ==> r == Err::<Pubkey, ParseError>(
            short_read(32, data@.len() as int, offset as int),
        ),
{
    if offset > data.len() || data.len() - offset < 32 {
        return Err(
            ParseError::NotEnoughBytes {
                expected: 32,
                found: if data.len() >= offset { data.len() - offset } else { 0 },
                offset,
            },
        );
    }
    Ok(key_from(data, offset))
}

/// Reads a Borsh `Option<bool>` at `*offset` and moves `*offset` past what it consumed.
///
/// No byte left: `None`, nothing consumed. Tag 0: `None`. Tag 1: `Some` of the flag byte
/// that follows. Any other tag, or a tag 1 with no flag byte after it, is an invalid variant.
pub fn read_option_bool(data: &[u8], offset: &mut usize) -> (r: ParseResult<Option<bool>>)
    ensures
        *old(offset) >= data@.len() ==> r == Ok::<Option<bool>, ParseError>(None)
            && *final(offset) == *old(offset),
        *old(offset) < data@.len() && data@[*old(offset) as int] == 0 ==> r == Ok::<
            Option<bool>,
            ParseError,
        >(None) && *final(offset) == *old(offset) + 1,
        *old(offset) < data@.len() && data@[*old(offset) as int] == 1 && *old(offset) + 1
            < data@.len() ==> r == Ok::<Option<bool>, ParseError>(
            Some(data@[*old(offset) + 1] != 0),
        ) && *final(offset) == *old(offset) + 2,
        *old(offset) < data@.len() && data@[*old(offset) as int] == 1 && *old(offset) + 1
            >= data@.len() ==> (r matches Err(ParseError::InvalidEnumVariant { variant, enum_name })
            && variant == 1 && enum_name@ == "Option<bool>"@) && *final(offset) == *old(offset) + 1,
        *old(offset) < data@.len() && data@[*old(offset) as int] > 1 ==> (r matches Err(
            ParseError::InvalidEnumVariant { variant, enum_name },
        ) && variant == data@[*old(offset) as int] && enum_name@ == "Option<bool>"@)
            && *final(offset) == *old(offset) + 1,
{
    if data.len() <= *offset {
        return Ok(None);
    }
    let tag = data[*offset];
    *offset = *offset + 1;
    if tag == 0 {
        Ok(None)
    } else if tag == 1 {
        if data.len() <= *offset {
            proof {
                reveal_strlit("Option<bool>");
            }
            return Err(ParseError::InvalidEnumVariant { variant: tag, enum_name: String::from_str("Option<bool>") });
        }
        let value = data[*offset] != 0;
        *offset = *offset + 1;
        Ok(Some(value))
    } else {
        proof {
            reveal_strlit("Option<bool>");
        }
        Err(ParseError::InvalidEnumVariant { variant: tag, enum_name: String::from_str("Option<bool>") })
    }
}


// ---------------------------------------------------------------------------
// Reading fields from the start of a slice
// ---------------------------------------------------------------------------

/// Reads a little-endian `u64` from the first 8 bytes.
pub fn parse_u64_le(bytes: &[u8]) -> (r: ParseResult<u64>)
    ensures
        bytes@.len() >= 8 ==> r == Ok::<u64, ParseError>(u64_at(bytes@, 0)),
        bytes@.len() < 8 ==> r == Err::<u64, ParseError>(short_slice(8, bytes@.len() as int)),
{
    if bytes.len() < 8 {
        return Err(ParseError::NotEnoughBytes { expected: 8, found: bytes.len(), offset: 0 });
    }
    proof {
        lemma_pow256_16();
    }
    let v = le_uint(bytes, 0, 8);
    Ok(v as u64)
}

/// Reads a little-endian `u128` from the first 16 bytes.
pub fn parse_u128_le(bytes: &[u8]) -> (r: ParseResult<u128>)
    ensures
        bytes@.len() >= 16 ==> r == Ok::<u128, ParseError>(u128_at(bytes@, 0)),
        bytes@.len() < 16 ==> r == Err::<u128, ParseError>(short_slice(16, bytes@.len() as int)),
{
    if bytes.len() < 16 {
        return Err(ParseError::NotEnoughBytes { expected: 16, found: bytes.len(), offset: 0 });
    }
    let v = le_uint(bytes, 0, 16);
    Ok(v)
}

/// Reads a little-endian `u32` from the first 4 bytes.
pub fn parse_u32_le(bytes: &[u8]) -> (r: ParseResult<u32>)
    ensures
        bytes@.len() >= 4 ==> r == Ok::<u32, ParseError>(u32_at(bytes@, 0)),
        bytes@.len() < 4 ==> r == Err::<u32, ParseError>(short_slice(4, bytes@.len() as int)),
{
    if bytes.len() < 4 {
        return Err(ParseError::NotEnoughBytes { expected: 4, found: bytes.len(), offset: 0 });
    }
    proof {
        lemma_pow256_16();
    }
    let v = le_uint(bytes, 0, 4);
    Ok(v as u32)
}

/// Reads a little-endian `u16` from the first 2 bytes.
pub fn parse_u16_le(bytes: &[u8]) -> (r: ParseResult<u16>)
    ensures
        bytes@.len() >= 2 ==> r == Ok::<u16, ParseError>(u16_at(bytes@, 0)),
        bytes@.len() < 2 ==> r == Err::<u16, ParseError>(short_slice(2, bytes@.len() as int)),
{
    if bytes.len() < 2 {
        return Err(ParseError::NotEnoughBytes { expected: 2, found: bytes.len(), offset: 0 });
    }
    proof {
        lemma_pow256_16();
    }
    let v = le_uint(bytes, 0, 2);
    Ok(v as u16)
}

/// The message for a slice that is not an address: "expected 32 bytes, got N".
pub open spec fn pubkey_length_message(len: nat) -> Seq<char> {
    "expected 32 bytes, got "@ + decimal(len)
}

/// Takes an address from a slice of exactly 32 bytes.
pub fn parse_pubkey_from_bytes(bytes: &[u8]) -> (r: ParseResult<Pubkey>)
    ensures
        bytes@.len() == 32 ==> (r matches Ok(k) && k@ == bytes@),
        bytes@.len() != 32 ==> (r matches Err(ParseError::InvalidPubkey(m))
            && m@ == pubkey_length_message(bytes@.len())),
{
    if bytes.len() != 32 {
        let n = u128_to_decimal(bytes.len() as u128);
        let mut m = String::from_str("expected 32 bytes, got ");
        proof {
            reveal_strlit("expected 32 bytes, got ");
        }
        m.append(n.as_str());
        return Err(ParseError::InvalidPubkey(m));
    }
    let k = key_from(bytes, 0);
    proof {
        assert(key_at(bytes@, 0) =~= bytes@);
    }
    Ok(k)
}

// ---------------------------------------------------------------------------
// Discriminators
// ---------------------------------------------------------------------------

/// Whether `data` begins with the bytes of `prefix`.
pub open spec fn starts_with(data: Seq<u8>, prefix: Seq<u8>) -> bool {
    prefix.len() <= data.len() && data.subrange(0, prefix.len() as int) == prefix
}

/// The first `length` bytes of `data`, or `None` where there are fewer.
pub fn extract_discriminator(data: &[u8], length: usize) -> (r: Option<Vec<u8>>)
    ensures
        data@.len() >= length ==> (r matches Some(v) && v@ == data@.subrange(0, length as int)),
        data@.len() < length ==> r is None,
{
    if data.len() < length {
        return None;
    }
    let mut out: Vec<u8> = Vec::new();
    let mut i: usize = 0;
    while i < length
        invariant
            0 <= i <= length <= data@.len(),
            out@ == data@.subrange(0, i as int),
        decreases length - i,
    {
        out.push(data[i]);
        i = i + 1;
        proof {
            assert(out@ =~= data@.subrange(0, i as int));
        }
    }
    Some(out)
}

/// Whether `data` begins with `discriminator`.
pub fn has_discriminator(data: &[u8], discriminator: &[u8]) -> (r: bool)
    ensures
        r == starts_with(data@, discriminator@),
{
    if data.len() < discriminator.len() {
        return false;
    }
    let mut i: usize = 0;
    while i < discriminator.len()
        invariant
            0 <= i <= discriminator@.len() <= data@.len(),
            forall|j: int| 0 <= j < i ==> data@[j] == discriminator@[j],
        decreases discriminator@.len() - i,
    {
        if data[i] != discriminator[i] {
            proof {
                assert(data@.subrange(0, discriminator@.len() as int)[i as int] != discriminator@[i as int]);
            }
            return false;
        }
        i = i + 1;
    }
    proof {
        assert(data@.subrange(0, discriminator@.len() as int) =~= discriminator@);
    }
    true
}

// ---------------------------------------------------------------------------
// Fields of a record whose length was checked beforehand
// ---------------------------------------------------------------------------

/// The little-endian `u64` at `offset`, which lies inside the data.
pub fn u64_field(data: &[u8], offset: usize) -> (v: u64)
    requires
        offset + 8 <= data@.len(),
    ensures
        v == u64_at(data@, offset as int),
{
    proof {
        lemma_pow256_16();
    }
    let v = le_uint(data, offset, 8);
    v as u64
}

/// The little-endian two's complement `i64` at `offset`, which lies inside the data.
pub fn i64_field(data: &[u8], offset: usize) -> (v: i64)
    requires
        offset + 8 <= data@.len(),
    ensures
        v == i64_at(data@, offset as int),
{
    proof {
        lemma_pow256_16();
    }
    let v = le_uint(data, offset, 8);
    if v < 0x8000_0000_0000_0000 {
        v as i64
    } else {
        let below: i128 = (v as i128) - 0x1_0000_0000_0000_0000i128;
        below as i64
    }
}

/// The little-endian `u16` at `offset`, which lies inside the data.
pub fn u16_field(data: &[u8], offset: usize) -> (v: u16)
    requires
        offset + 2 <= data@.len(),
    ensures
        v == u16_at(data@, offset as int),
{
    proof {
        lemma_pow256_16();
    }
    let v = le_uint(data, offset, 2);
    v as u16
}

// ---------------------------------------------------------------------------
// Accounts
// ---------------------------------------------------------------------------

/// The error for an account index past the end of a list of `len` accounts.
pub open spec fn bad_index(index: int, len: int) -> ParseError {
    ParseError::InvalidAccountIndex { index: index as usize, max: sat_sub(len, 1) as usize }
}

/// The party at position `i` of an account list that names at least `needed` accounts, or
/// the zero address where the list is shorter.
pub open spec fn party(accounts: Seq<Pubkey>, needed: int, i: int) -> Seq<u8> {
    if accounts.len() >= needed {
        accounts[i]@
    } else {
        crate::types::zero_key()
    }
}

/// The account at `index`.
pub fn safe_get_account(accounts: &[Pubkey], index: usize) -> (r: ParseResult<Pubkey>)
    ensures
        index < accounts@.len() ==> (r matches Ok(k) && k@ == accounts@[index as int]@),
        index >= accounts@.len() ==> r == Err::<Pubkey, ParseError>(
            bad_index(index as int, accounts@.len() as int),
        ),
{
    if index < accounts.len() {
        Ok(accounts[index])
    } else {
        Err(
            ParseError::InvalidAccountIndex {
                index,
                max: if accounts.len() >= 1 { accounts.len() - 1 } else { 0 },
            },
        )
    }
}

/// The account at `index`, or the all-zero address where the list is shorter.
pub fn get_account_or_default(accounts: &[Pubkey], index: usize) -> (k: Pubkey)
    ensures
        index < accounts@.len() ==> k@ == accounts@[index as int]@,
        index >= accounts@.len() ==> k@ == crate::types::zero_key(),
{
    if index < accounts.len() {
        accounts[index]
    } else {
        Pubkey::default()
    }
}

/// The account list itself, where it holds at least `min_count` accounts.
pub fn extract_required_accounts(accounts: &[Pubkey], min_count: usize) -> (r: ParseResult<&[Pubkey]>)
    ensures
        accounts@.len() >= min_count ==> (r matches Ok(s) && s@ == accounts@),
        accounts@.len() < min_count ==> r == Err::<&[Pubkey], ParseError>(
            bad_index(sat_sub(min_count as int, 1), accounts@.len() as int),
        ),
{
    if accounts.len() < min_count {
        return Err(
            ParseError::InvalidAccountIndex {
                index: if min_count >= 1 { min_count - 1 } else { 0 },
                max: if accounts.len() >= 1 { accounts.len() - 1 } else { 0 },
            },
        );
    }
    Ok(accounts)
}

/// The message for an account index past the end: "Account index I out of bounds (max: M)".
pub open spec fn index_message(index: nat, len: nat) -> Seq<char> {
    "Account index "@ + decimal(index) + " out of bounds (max: "@ + decimal(sat_sub(len as int, 1) as nat) + ")"@
}

/// Whether every index in `indices` names an account of a list of `len`.
pub open spec fn all_in_bounds(indices: Seq<usize>, len: nat) -> bool {
    forall|j: int| 0 <= j < indices.len() ==> indices[j] < len
}

fn index_error(index: usize, len: usize) -> (m: String)
    ensures
        m@ == index_message(index as nat, len as nat),
{
    proof {
        reveal_strlit("Account index ");
        reveal_strlit(" out of bounds (max: ");
        reveal_strlit(")");
    }
    let mut m = String::from_str("Account index ");
    let i = u128_to_decimal(index as u128);
    m.append(i.as_str());
    m.append(" out of bounds (max: ");
    let mx = u128_to_decimal(if len >= 1 { (len - 1) as u128 } else { 0 });
    m.append(mx.as_str());
    m.append(")");
    m
}

/// The accounts at each of `indices`, in order; the first index past the end is reported.
pub fn extract_account_keys(accounts: &[Pubkey], indices: &[usize]) -> (r: Result<Vec<Pubkey>, String>)
    ensures
        all_in_bounds(indices@, accounts@.len()) ==> (r matches Ok(keys) && keys@.len()
            == indices@.len() && forall|j: int|
            0 <= j < indices@.len() ==> #[trigger] keys@[j]@ == accounts@[indices@[j] as int]@),
        !all_in_bounds(indices@, accounts@.len()) ==> (r matches Err(m) && exists|k: int|
            0 <= k < indices@.len() && indices@[k] >= accounts@.len() && all_in_bounds(
                indices@.subrange(0, k),
                accounts@.len(),
            ) && m@ == index_message(indices@[k] as nat, accounts@.len())),
{
    let mut keys: Vec<Pubkey> = Vec::new();
    let mut i: usize = 0;
    while i < indices.len()
        invariant
            0 <= i <= indices@.len(),
            keys@.len() == i,
            all_in_bounds(indices@.subrange(0, i as int), accounts@.len()),
            forall|j: int| 0 <= j < i ==> #[trigger] keys@[j]@ == accounts@[indices@[j] as int]@,
        decreases indices@.len() - i,
    {
        let index = indices[i];
        if index >= accounts.len() {
            let m = index_error(index, accounts.len());
            proof {
                assert(!all_in_bounds(indices@, accounts@.len()));
            }
            return Err(m);
        }
        keys.push(accounts[index]);
        i = i + 1;
        proof {
            assert forall|j: int| 0 <= j < i implies indices@.subrange(0, i as int)[j] < accounts@.len() by {
                if j < i - 1 {
                    assert(indices@.subrange(0, i - 1)[j] == indices@[j]);
                }
            }
        }
    }
    proof {
        assert(indices@.subrange(0, i as int) =~= indices@);
    }
    Ok(keys)
}

// ---------------------------------------------------------------------------
// Length checks
// ---------------------------------------------------------------------------

/// "Insufficient data for C: expected at least N bytes, got L".
pub open spec fn data_length_message(context: Seq<char>, min: nat, got: nat) -> Seq<char> {
    "Insufficient data for "@ + context + ": expected at least "@ + decimal(min) + " bytes, got "@ + decimal(got)
}

/// "Insufficient accounts for C: expected at least N, got L".
pub open spec fn account_count_message(context: Seq<char>, min: nat, got: nat) -> Seq<char> {
    "Insufficient accounts for "@ + context + ": expected at least "@ + decimal(min) + ", got "@ + decimal(got)
}

/// Fails with a descriptive message where `data` is shorter than `min_length`.
pub fn validate_data_length(data: &[u8], min_length: usize, context: &str) -> (r: ParseResult<()>)
    ensures
        data@.len() >= min_length ==> r is Ok,
        data@.len() < min_length ==> (r matches Err(ParseError::InvalidDataFormat(m))
            && m@ == data_length_message(context@, min_length as nat, data@.len())),
{
    if data.len() < min_length {
        proof {
            reveal_strlit("Insufficient data for ");
            reveal_strlit(": expected at least ");
            reveal_strlit(" bytes, got ");
        }
        let mut m = String::from_str("Insufficient data for ");
        m.append(context);
        m.append(": expected at least ");
        let a = u128_to_decimal(min_length as u128);
        m.append(a.as_str());
        m.append(" bytes, got ");
        let b = u128_to_decimal(data.len() as u128);
        m.append(b.as_str());
        return Err(ParseError::InvalidDataFormat(m));
    }
    Ok(())
}

/// Fails with a descriptive message where `accounts` holds fewer than `min_count`.
pub fn validate_account_count(accounts: &[Pubkey], min_count: usize, context: &str) -> (r: ParseResult<()>)
    ensures
        accounts@.len() >= min_count ==> r is Ok,
        accounts@.len() < min_count ==> (r matches Err(ParseError::InvalidDataFormat(m))
            && m@ == account_count_message(context@, min_count as nat, accounts@.len())),
{
    if accounts.len() < min_count {
        proof {
            reveal_strlit("Insufficient accounts for ");
            reveal_strlit(": expected at least ");
            reveal_strlit(", got ");
        }
        let mut m = String::from_str("Insufficient accounts for ");
        m.append(context);
        m.append(": expected at least ");
        let a = u128_to_decimal(min_count as u128);
        m.append(a.as_str());
        m.append(", got ");
        let b = u128_to_decimal(accounts.len() as u128);
        m.append(b.as_str());
        return Err(ParseError::InvalidDataFormat(m));
    }
    Ok(())
}

/// Two amounts at the start of the data: bytes 0..8 and 8..16.
pub fn parse_swap_amounts(data: &[u8]) -> (r: ParseResult<(u64, u64)>)
    ensures
        data@.len() >= 16 ==> r == Ok::<(u64, u64), ParseError>(
            (u64_at(data@, 0), u64_at(data@, 8)),
        ),
        data@.len() < 16 ==> (r matches Err(ParseError::InvalidDataFormat(m))
            && m@ == data_length_message("swap amounts"@, 16, data@.len())),
{
    proof {
        reveal_strlit("swap amounts");
    }
    validate_data_length(data, 16, "swap amounts")?;
    let a = read_u64_le(data, 0)?;
    let b = read_u64_le(data, 8)?;
    Ok((a, b))
}

/// Three amounts at the start of the data: bytes 0..8, 8..16 and 16..24.
pub fn parse_liquidity_amounts(data: &[u8]) -> (r: ParseResult<(u64, u64, u64)>)
    ensures
        data@.len() >= 24 ==> r == Ok::<(u64, u64, u64), ParseError>(
            (u64_at(data@, 0), u64_at(data@, 8), u64_at(data@, 16)),
        ),
        data@.len() < 24 ==> (r matches Err(ParseError::InvalidDataFormat(m))
            && m@ == data_length_message("liquidity amounts"@, 24, data@.len())),
{
    proof {
        reveal_strlit("liquidity amounts");
    }
    validate_data_length(data, 24, "liquidity amounts")?;
    let a = read_u64_le(data, 0)?;
    let b = read_u64_le(data, 8)?;
    let c = read_u64_le(data, 16)?;
    Ok((a, b, c))
}

proof fn lemma_u64_after(prefix: Seq<u8>, x: u64, rest: Seq<u8>)
    ensures
        u64_at(prefix + le_bytes(x as nat, 8) + rest, prefix.len() as int) == x,
{
    lemma_le_value_of_bytes(x as nat, 8);
    u64_reads_back(x, rest);
    let d = prefix + le_bytes(x as nat, 8) + rest;
    assert(field(d, prefix.len() as int, 8) =~= field(le_bytes(x as nat, 8) + rest, 0, 8));
}

/// Two amounts written one after the other read back as the same two, in the same order,
/// whatever follows them.
pub proof fn swap_amounts_read_back(a: u64, b: u64, rest: Seq<u8>, data: &[u8], r: ParseResult<(u64, u64)>)
    requires
        data@ == le_bytes(a as nat, 8) + le_bytes(b as nat, 8) + rest,
        call_ensures(parse_swap_amounts, (data,), r),
    ensures
        r == Ok::<(u64, u64), ParseError>((a, b)),
{
    lemma_le_value_of_bytes(a as nat, 8);
    lemma_le_value_of_bytes(b as nat, 8);
    lemma_u64_after(Seq::empty(), a, le_bytes(b as nat, 8) + rest);
    lemma_u64_after(le_bytes(a as nat, 8), b, rest);
    assert(Seq::<u8>::empty() + le_bytes(a as nat, 8) + (le_bytes(b as nat, 8) + rest) =~= data@);
}

/// Three amounts written one after the other read back as the same three, in the same order,
/// whatever follows them.
pub proof fn liquidity_amounts_read_back(
    a: u64,
    b: u64,
    c: u64,
    rest: Seq<u8>,
    data: &[u8],
    r: ParseResult<(u64, u64, u64)>,
)
    requires
        data@ == le_bytes(a as nat, 8) + le_bytes(b as nat, 8) + le_bytes(c as nat, 8) + rest,
        call_ensures(parse_liquidity_amounts, (data,), r),
    ensures
        r == Ok::<(u64, u64, u64), ParseError>((a, b, c)),
{
    lemma_le_value_of_bytes(a as nat, 8);
    lemma_le_value_of_bytes(b as nat, 8);
    lemma_le_value_of_bytes(c as nat, 8);
    let la = le_bytes(a as nat, 8);
    let lb = le_bytes(b as nat, 8);
    let lc = le_bytes(c as nat, 8);
    lemma_u64_after(Seq::empty(), a, lb + lc + rest);
    lemma_u64_after(la, b, lc + rest);
    lemma_u64_after(la + lb, c, rest);
    assert(Seq::<u8>::empty() + la + (lb + lc + rest) =~= data@);
    assert(la + lb + (lc + rest) =~= data@);
    assert(la + lb + lc + rest =~= data@);
}

// ---------------------------------------------------------------------------
// Base58
// ---------------------------------------------------------------------------

/// Decodes base58 text; a failure carries "Failed to decode base58: " and the decoder's reason.
pub fn decode_base58(data: &str) -> (r: Result<Vec<u8>, String>)
    ensures
        r is Ok <==> base58_decoding(data@) is Some,
        r matches Ok(v) ==> base58_decoding(data@) == Some(v@),
        r matches Err(m) ==> "Failed to decode base58: "@.is_prefix_of(m@),
{
    match base58_decode(data) {
        Ok(v) => Ok(v),
        Err(reason) => {
            proof {
                reveal_strlit("Failed to decode base58: ");
            }
            let mut m = String::from_str("Failed to decode base58: ");
            m.append(reason.as_str());
            proof {
                assert(m@.subrange(0, "Failed to decode base58: "@.len() as int) =~= "Failed to decode base58: "@);
            }
            Err(m)
        },
    }
}

/// Encodes bytes as base58 text, which decodes back to the same bytes.
pub fn encode_base58(data: &[u8]) -> (r: String)
    ensures
        r@ == base58_encoding(data@),
        base58_decoding(r@) == Some(data@),
{
    proof {
        crate::text::base58_reads_back(data@);
    }
    base58_encode(data)
}

} // verus!

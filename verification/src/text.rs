use vstd::prelude::*;
use vstd::string::*;

verus! {

/// The character of a decimal digit.
pub open spec fn digit_char(d: nat) -> char {
    if d == 0 { '0' }
    else if d == 1 { '1' }
    else if d == 2 { '2' }
    else if d == 3 { '3' }
    else if d == 4 { '4' }
    else if d == 5 { '5' }
    else if d == 6 { '6' }
    else if d == 7 { '7' }
    else if d == 8 { '8' }
    else { '9' }
}

/// The decimal representation of `n`, most significant digit first, no leading zeros.
pub open spec fn decimal(n: nat) -> Seq<char>
    decreases n,
{
    if n < 10 {
        seq![digit_char(n)]
    } else {
        decimal(n / 10).push(digit_char(n % 10))
    }
}

/// The decimal representation of a signed number: a minus sign before a negative one.
pub open spec fn signed_decimal(n: int) -> Seq<char> {
    if n < 0 {
        seq!['-'] + decimal((-n) as nat)
    } else {
        decimal(n as nat)
    }
}

fn digit_str(d: u128) -> (r: &'static str)
    requires
        d < 10,
    ensures
        r@ == seq![digit_char(d as nat)],
{
    proof {
        reveal_strlit("0");
        reveal_strlit("1");
        reveal_strlit("2");
        reveal_strlit("3");
        reveal_strlit("4");
        reveal_strlit("5");
        reveal_strlit("6");
        reveal_strlit("7");
        reveal_strlit("8");
        reveal_strlit("9");
    }
    if d == 0 { "0" }
    else if d == 1 { "1" }
    else if d == 2 { "2" }
    else if d == 3 { "3" }
    else if d == 4 { "4" }
    else if d == 5 { "5" }
    else if d == 6 { "6" }
    else if d == 7 { "7" }
    else if d == 8 { "8" }
    else { "9" }
}

/// Writes `n` in decimal.
pub fn u128_to_decimal(n: u128) -> (r: String)
    ensures
        r@ == decimal(n as nat),
    decreases n,
{
    if n < 10 {
        String::from_str(digit_str(n))
    } else {
        let mut s = u128_to_decimal(n / 10);
        s.append(digit_str(n % 10));
        s
    }
}

/// Writes a signed `n` in decimal.
pub fn i64_to_decimal(n: i64) -> (r: String)
    ensures
        r@ == signed_decimal(n as int),
{
    if n < 0 {
        let magnitude: u128 = if n == i64::MIN {
            9223372036854775808u128
        } else {
            (-n) as u128
        };
        let digits = u128_to_decimal(magnitude);
        let mut s = String::from_str("-");
        proof {
            reveal_strlit("-");
        }
        s.append(digits.as_str());
        s
    } else {
        u128_to_decimal(n as u128)
    }
}

/// Joins two pieces of text.
pub fn concat2(a: &str, b: &str) -> (r: String)
    ensures
        r@ == a@ + b@,
{
    let mut s = String::from_str(a);
    s.append(b);
    s
}

/// Joins three pieces of text.
pub fn concat3(a: &str, b: &str, c: &str) -> (r: String)
    ensures
        r@ == a@ + b@ + c@,
{
    let mut s = String::from_str(a);
    s.append(b);
    s.append(c);
    s
}

/// The base-58 alphabet that `bs58` uses by default (Bitcoin's), in order of digit value.
pub open spec fn base58_alphabet() -> Seq<char> {
    seq!['1', '2', '3', '4', '5', '6', '7', '8', '9', 'A', 'B', 'C', 'D', 'E', 'F', 'G', 'H', 'J', 'K', 'L', 'M', 'N', 'P', 'Q', 'R', 'S', 'T', 'U', 'V', 'W', 'X', 'Y', 'Z', 'a', 'b', 'c', 'd', 'e', 'f', 'g', 'h', 'i', 'j', 'k', 'm', 'n', 'o', 'p', 'q', 'r', 's', 't', 'u', 'v', 'w', 'x', 'y', 'z']
}

/// The value of a digit of that alphabet, or `None` for any other character.
pub open spec fn base58_digit(c: char) -> Option<nat> {
    let x = c as int;
    if '1' as int <= x <= '9' as int {
        Some((x - '1' as int) as nat)
    } else if 'A' as int <= x <= 'H' as int {
        Some((x - 'A' as int + 9) as nat)
    } else if 'J' as int <= x <= 'N' as int {
        Some((x - 'J' as int + 17) as nat)
    } else if 'P' as int <= x <= 'Z' as int {
        Some((x - 'P' as int + 22) as nat)
    } else if 'a' as int <= x <= 'k' as int {
        Some((x - 'a' as int + 33) as nat)
    } else if 'm' as int <= x <= 'z' as int {
        Some((x - 'm' as int + 44) as nat)
    } else {
        None
    }
}

/// The digit value of a character, 0 for one outside the alphabet.
pub open spec fn base58_digit_or_zero(c: char) -> nat {
    match base58_digit(c) {
        Some(d) => d,
        None => 0,
    }
}

/// The number that bytes write in big-endian order.
pub open spec fn be_value(b: Seq<u8>) -> nat
    decreases b.len(),
{
    if b.len() == 0 {
        0
    } else {
        be_value(b.drop_last()) * 256 + b.last() as nat
    }
}

/// The shortest big-endian bytes of `n`: none for 0.
pub open spec fn be_bytes(n: nat) -> Seq<u8>
    decreases n,
{
    if n == 0 {
        Seq::empty()
    } else {
        be_bytes(n / 256).push((n % 256) as u8)
    }
}

/// The base-58 digits of `n`, most significant first: none for 0.
pub open spec fn base58_digits(n: nat) -> Seq<nat>
    decreases n,
{
    if n == 0 {
        Seq::empty()
    } else {
        base58_digits(n / 58).push(n % 58)
    }
}

/// The number that base-58 text writes, most significant digit first.
pub open spec fn base58_value(s: Seq<char>) -> nat
    decreases s.len(),
{
    if s.len() == 0 {
        0
    } else {
        base58_value(s.drop_last()) * 58 + base58_digit_or_zero(s.last())
    }
}

/// How many zero bytes `b` starts with.
pub open spec fn leading_zero_bytes(b: Seq<u8>) -> nat
    decreases b.len(),
{
    if b.len() > 0 && b[0] == 0 {
        1 + leading_zero_bytes(b.drop_first())
    } else {
        0
    }
}

/// How many '1' characters (the zero digit) `s` starts with.
pub open spec fn leading_ones(s: Seq<char>) -> nat
    decreases s.len(),
{
    if s.len() > 0 && s[0] == '1' {
        1 + leading_ones(s.drop_first())
    } else {
        0
    }
}

/// Base-58 text of bytes, as `bs58::encode(bytes).into_string()` writes it: one '1' for each
/// leading zero byte, then the digits of the number that the bytes write in big-endian order.
pub open spec fn base58_encoding(bytes: Seq<u8>) -> Seq<char> {
    Seq::new(leading_zero_bytes(bytes), |i: int| '1') + base58_digits(be_value(bytes)).map_values(
        |d: nat| base58_alphabet()[d as int],
    )
}

/// The bytes of base-58 text, as `bs58::decode(s).into_vec()` reads them: `None` where a
/// character is outside the alphabet; otherwise one zero byte for each leading '1', then the
/// shortest big-endian bytes of the number that the text writes.
pub open spec fn base58_decoding(s: Seq<char>) -> Option<Seq<u8>> {
    if forall|i: int| 0 <= i < s.len() ==> (#[trigger] base58_digit(s[i])) is Some {
        Some(Seq::new(leading_ones(s), |i: int| 0u8) + be_bytes(base58_value(s)))
    } else {
        None
    }
}

/// Calls `bs58::encode(bytes).into_string()`, which never fails when writing into a `String`.
/// The contract says that the text is `base58_encoding` of the bytes: the leading zero bytes
/// as '1's, then the base-58 digits of the rest, in the default alphabet.
#[verifier::external_body]
pub(crate) fn base58_encode(bytes: &[u8]) -> (r: String)
    ensures
        r@ == base58_encoding(bytes@),
{
    bs58::encode(bytes).into_string()
}

/// Calls `bs58::decode(s).into_vec()`. It succeeds exactly where `base58_decoding` of `s` is
/// some bytes, and gives those bytes; on failure the error's display text is handed back, about
/// which nothing is claimed.
#[verifier::external_body]
pub(crate) fn base58_decode(s: &str) -> (r: Result<Vec<u8>, String>)
    ensures
        r is Ok <==> base58_decoding(s@) is Some,
        r matches Ok(v) ==> base58_decoding(s@) == Some(v@),
{
    match bs58::decode(s).into_vec() {
        Ok(v) => Ok(v),
        Err(e) => Err(e.to_string()),
    }
}

} // verus!

verus! {

/// The lower-case hexadecimal digit of `d`.
pub open spec fn hex_char(d: nat) -> char {
    if d < 10 { digit_char(d) }
    else if d == 10 { 'a' }
    else if d == 11 { 'b' }
    else if d == 12 { 'c' }
    else if d == 13 { 'd' }
    else if d == 14 { 'e' }
    else { 'f' }
}

/// A byte as two lower-case hexadecimal digits.
pub open spec fn hex2(b: u8) -> Seq<char> {
    seq![hex_char((b / 16) as nat), hex_char((b % 16) as nat)]
}

/// The items of a byte list after the first, each preceded by ", ".
pub open spec fn hex_tail(s: Seq<u8>) -> Seq<char>
    decreases s.len(),
{
    if s.len() == 0 {
        Seq::empty()
    } else {
        ", "@ + hex2(s[0]) + hex_tail(s.drop_first())
    }
}

/// A byte list as Rust's `{:02x?}` debug format writes it: "[8f, 9a, 14]".
pub open spec fn hex_list(s: Seq<u8>) -> Seq<char> {
    if s.len() == 0 {
        "[]"@
    } else {
        "["@ + hex2(s[0]) + hex_tail(s.drop_first()) + "]"@
    }
}

fn hex_digit_str(d: u8) -> (r: &'static str)
    requires
        d < 16,
    ensures
        r@ == seq![hex_char(d as nat)],
{
    if d < 10 {
        digit_str(d as u128)
    } else {
        proof {
            reveal_strlit("a");
            reveal_strlit("b");
            reveal_strlit("c");
            reveal_strlit("d");
            reveal_strlit("e");
            reveal_strlit("f");
        }
        if d == 10 { "a" }
        else if d == 11 { "b" }
        else if d == 12 { "c" }
        else if d == 13 { "d" }
        else if d == 14 { "e" }
        else { "f" }
    }
}

fn push_hex2(s: &mut String, b: u8)
    ensures
        final(s)@ == old(s)@ + hex2(b),
{
    s.append(hex_digit_str(b / 16));
    s.append(hex_digit_str(b % 16));
}

proof fn lemma_hex_tail_split(s: Seq<u8>, i: int)
    requires
        0 <= i < s.len(),
    ensures
        hex_tail(s.subrange(0, i + 1)) == hex_tail(s.subrange(0, i)) + ", "@ + hex2(s[i]),
    decreases i,
{
    if i == 0 {
        assert(s.subrange(0, 1).drop_first() =~= Seq::<u8>::empty());
        assert(s.subrange(0, 0) =~= Seq::<u8>::empty());
        assert(hex_tail(s.subrange(0, 1).drop_first()) =~= Seq::<char>::empty());
        assert(hex_tail(s.subrange(0, 1)) =~= ", "@ + hex2(s[0]));
    } else {
        let t = s.drop_first();
        lemma_hex_tail_split(t, i - 1);
        assert(s.subrange(0, i + 1).drop_first() =~= t.subrange(0, i));
        assert(s.subrange(0, i).drop_first() =~= t.subrange(0, i - 1));
        assert(hex_tail(s.subrange(0, i + 1)) =~= ", "@ + hex2(s[0]) + hex_tail(t.subrange(0, i)));
        assert(hex_tail(s.subrange(0, i)) =~= ", "@ + hex2(s[0]) + hex_tail(t.subrange(0, i - 1)));
    }
}

/// Writes bytes as Rust's `{:02x?}` debug format does.
pub fn hex_list_string(bytes: &[u8]) -> (r: String)
    ensures
        r@ == hex_list(bytes@),
{
    proof {
        reveal_strlit("[]");
        reveal_strlit("[");
        reveal_strlit("]");
        reveal_strlit(", ");
    }
    if bytes.len() == 0 {
        return String::from_str("[]");
    }
    let mut s = String::from_str("[");
    push_hex2(&mut s, bytes[0]);
    let ghost tail = bytes@.drop_first();
    let mut i: usize = 1;
    proof {
        assert(tail.subrange(0, 0) =~= Seq::<u8>::empty());
    }
    while i < bytes.len()
        invariant
            1 <= i <= bytes@.len(),
            tail == bytes@.drop_first(),
            s@ == "["@ + hex2(bytes@[0]) + hex_tail(tail.subrange(0, i - 1)),
        decreases bytes@.len() - i,
    {
        proof {
            lemma_hex_tail_split(tail, i - 1);
        }
        s.append(", ");
        push_hex2(&mut s, bytes[i]);
        i = i + 1;
        proof {
            assert(tail[i - 2] == bytes@[i - 1]);
        }
    }
    s.append("]");
    proof {
        assert(tail.subrange(0, bytes@.len() - 1) =~= tail);
    }
    s
}

} // verus!

verus! {

proof fn lemma_alphabet_digit(d: nat)
    requires
        d < 58,
    ensures
        base58_digit(base58_alphabet()[d as int]) == Some(d),
{
}

/// The alphabet's characters for the digits of `n`.
pub open spec fn base58_digit_chars(n: nat) -> Seq<char> {
    base58_digits(n).map_values(|d: nat| base58_alphabet()[d as int])
}

proof fn lemma_digit_chars(n: nat)
    ensures
        base58_value(base58_digit_chars(n)) == n,
        forall|i: int| 0 <= i < base58_digit_chars(n).len() ==> (#[trigger] base58_digit(base58_digit_chars(n)[i])) is Some,
        n > 0 ==> base58_digit_chars(n).len() > 0 && base58_digit_chars(n)[0] != '1',
    decreases n,
{
    if n > 0 {
        lemma_digit_chars(n / 58);
        let m = base58_digit_chars(n);
        let p = base58_digit_chars(n / 58);
        assert(m.drop_last() =~= p);
        lemma_alphabet_digit(n % 58);
        assert(m.last() == base58_alphabet()[(n % 58) as int]);
        assert forall|i: int| 0 <= i < m.len() implies (#[trigger] base58_digit(m[i])) is Some by {
            if i < p.len() {
                assert(m[i] == p[i]);
            }
        }
        if n / 58 == 0 {
            assert(n % 58 == n);
            lemma_alphabet_digit(n);
            assert(m[0] == base58_alphabet()[n as int]);
        } else {
            assert(m[0] == p[0]);
        }
    }
}

proof fn lemma_ones_value(z: nat, t: Seq<char>)
    ensures
        base58_value(Seq::new(z, |i: int| '1') + t) == base58_value(t),
    decreases t.len(), z,
{
    let o = Seq::new(z, |i: int| '1');
    if t.len() == 0 {
        assert(o + t =~= o);
        if z > 0 {
            lemma_ones_value((z - 1) as nat, t);
            assert(o.drop_last() =~= Seq::new((z - 1) as nat, |i: int| '1') + t);
            assert(base58_digit('1') == Some(0nat));
        }
    } else {
        lemma_ones_value(z, t.drop_last());
        assert((o + t).drop_last() =~= o + t.drop_last());
    }
}

proof fn lemma_ones_count(z: nat, m: Seq<char>)
    requires
        m.len() == 0 || m[0] != '1',
    ensures
        leading_ones(Seq::new(z, |i: int| '1') + m) == z,
    decreases z,
{
    let s = Seq::new(z, |i: int| '1') + m;
    if z > 0 {
        lemma_ones_count((z - 1) as nat, m);
        assert(s.drop_first() =~= Seq::new((z - 1) as nat, |i: int| '1') + m);
    } else {
        assert(s =~= m);
    }
}

proof fn lemma_zero_bytes_split(b: Seq<u8>)
    ensures
        leading_zero_bytes(b) <= b.len(),
        b =~= Seq::new(leading_zero_bytes(b), |i: int| 0u8) + b.skip(leading_zero_bytes(b) as int),
        b.skip(leading_zero_bytes(b) as int).len() == 0 || b.skip(leading_zero_bytes(b) as int)[0] != 0,
    decreases b.len(),
{
    if b.len() > 0 && b[0] == 0 {
        lemma_zero_bytes_split(b.drop_first());
        let z = leading_zero_bytes(b);
        let t = b.drop_first();
        assert(b.skip(z as int) =~= t.skip((z - 1) as int));
        let w = Seq::new(z, |i: int| 0u8) + b.skip(z as int);
        let wt = Seq::new((z - 1) as nat, |i: int| 0u8) + t.skip((z - 1) as int);
        assert forall|i: int| 0 <= i < b.len() implies b[i] == w[i] by {
            if i > 0 {
                assert(b[i] == t[i - 1]);
                assert(t[i - 1] == wt[i - 1]);
            }
        }
        assert(b =~= w);
    } else {
        assert(b =~= Seq::new(0, |i: int| 0u8) + b.skip(0));
    }
}

proof fn lemma_zeros_value(z: nat, r: Seq<u8>)
    ensures
        be_value(Seq::new(z, |i: int| 0u8) + r) == be_value(r),
    decreases r.len(), z,
{
    let o = Seq::new(z, |i: int| 0u8);
    if r.len() == 0 {
        assert(o + r =~= o);
        if z > 0 {
            lemma_zeros_value((z - 1) as nat, r);
            assert(o.drop_last() =~= Seq::new((z - 1) as nat, |i: int| 0u8) + r);
        }
    } else {
        lemma_zeros_value(z, r.drop_last());
        assert((o + r).drop_last() =~= o + r.drop_last());
    }
}

proof fn lemma_bytes_of_value(r: Seq<u8>)
    requires
        r.len() == 0 || r[0] != 0,
    ensures
        be_bytes(be_value(r)) == r,
        r.len() > 0 ==> be_value(r) > 0,
    decreases r.len(),
{
    if r.len() > 0 {
        let p = r.drop_last();
        let v = be_value(r);
        if p.len() > 0 {
            assert(p[0] == r[0]);
        }
        lemma_bytes_of_value(p);
        assert(v == be_value(p) * 256 + r.last() as nat);
        assert(v / 256 == be_value(p) && v % 256 == r.last() as nat) by (nonlinear_arith)
            requires v == be_value(p) * 256 + r.last() as nat, (r.last() as nat) < 256;
        if p.len() == 0 {
            assert(be_value(p) == 0);
            assert(r.last() == r[0]);
        }
        assert(r =~= p.push(r.last()));
    }
}

/// Base-58 text of bytes reads back as the same bytes.
pub proof fn base58_reads_back(b: Seq<u8>)
    ensures
        base58_decoding(base58_encoding(b)) == Some(b),
{
    lemma_zero_bytes_split(b);
    let z = leading_zero_bytes(b);
    let r = b.skip(z as int);
    let v = be_value(b);
    lemma_zeros_value(z, r);
    lemma_bytes_of_value(r);
    lemma_digit_chars(v);
    let m = base58_digit_chars(v);
    let e = base58_encoding(b);
    assert(e =~= Seq::new(z, |i: int| '1') + m);
    lemma_ones_count(z, m);
    lemma_ones_value(z, m);
    assert(base58_digit('1') == Some(0nat));
    assert forall|i: int| 0 <= i < e.len() implies (#[trigger] base58_digit(e[i])) is Some by {
        if i >= z {
            assert(e[i] == m[i - z]);
        }
    }
}

/// 58 to the power `n`.
pub open spec fn pow58(n: nat) -> nat
    decreases n,
{
    if n == 0 { 1 } else { 58 * pow58((n - 1) as nat) }
}

proof fn lemma_value_below(r: Seq<u8>)
    ensures
        be_value(r) < crate::common::pow256(r.len()),
    decreases r.len(),
{
    if r.len() > 0 {
        let p = r.drop_last();
        lemma_value_below(p);
        let a = be_value(p);
        let q = crate::common::pow256(p.len());
        let x = r.last() as nat;
        assert(crate::common::pow256(r.len()) == 256 * q);
        assert(a * 256 + x < 256 * q) by (nonlinear_arith)
            requires a < q, x < 256;
    }
}

proof fn lemma_digits_len(n: nat, k: nat)
    requires
        n < pow58(k),
    ensures
        base58_digits(n).len() <= k,
    decreases n,
{
    if n > 0 {
        if k == 0 {
            assert(pow58(0) == 1);
        } else {
            let q = pow58((k - 1) as nat);
            assert(pow58(k) == 58 * q);
            assert(n / 58 < q) by (nonlinear_arith)
                requires n < 58 * q;
            lemma_digits_len(n / 58, (k - 1) as nat);
        }
    }
}

proof fn lemma_powers(l: nat)
    requires
        l <= 32,
    ensures
        crate::common::pow256(l) <= pow58(l + 12),
    decreases 32 - l,
{
    if l == 32 {
        reveal_with_fuel(crate::common::pow256, 33);
        reveal_with_fuel(pow58, 45);
        assert(crate::common::pow256(32) == 115792089237316195423570985008687907853269984665640564039457584007913129639936nat);
        assert(pow58(44) == 389790918707373377135528568990913592653094657612049369038476873218241589149696nat);
    } else {
        lemma_powers(l + 1);
        let a = crate::common::pow256(l);
        let b = pow58(l + 12);
        assert(crate::common::pow256(l + 1) == 256 * a);
        assert(pow58(l + 13) == 58 * b);
        assert(a <= b) by (nonlinear_arith)
            requires 256 * a <= 58 * b;
    }
}

/// Base-58 text is made of ASCII characters, and that of at most 32 bytes has at most 44 of
/// them.
pub proof fn base58_encoding_shape(b: Seq<u8>)
    ensures
        vstd::utf8::is_ascii_chars(base58_encoding(b)),
        b.len() <= 32 ==> base58_encoding(b).len() <= 44,
{
    lemma_zero_bytes_split(b);
    let z = leading_zero_bytes(b);
    let r = b.skip(z as int);
    let v = be_value(b);
    lemma_zeros_value(z, r);
    lemma_digit_chars(v);
    let m = base58_digit_chars(v);
    let e = base58_encoding(b);
    assert(e =~= Seq::new(z, |i: int| '1') + m);
    assert forall|i: int| 0 <= i < e.len() implies '\0' <= #[trigger] e[i] <= '\u{7f}' by {
        if i >= z {
            assert(e[i] == m[i - z]);
            assert(base58_digit(m[i - z]) is Some);
        }
    }
    if b.len() <= 32 {
        lemma_value_below(r);
        lemma_powers(r.len());
        lemma_digits_len(v, r.len() + 12);
    }
}

} // verus!

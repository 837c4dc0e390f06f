//! Byte encodings that CDP bodies use: standard base64 with padding, and
//! UTF-8.
use vstd::prelude::*;
use vstd::utf8::{decode_utf8, valid_utf8};

use base64::Engine;

verus! {

/// The character of the standard base64 alphabet for a 6-bit value.
pub open spec fn base64_symbol(n: int) -> char {
    if n < 26 {
        (65 + n) as char
    } else if n < 52 {
        (97 + n - 26) as char
    } else if n < 62 {
        (48 + n - 52) as char
    } else if n == 62 {
        '+'
    } else {
        '/'
    }
}

/// The standard base64 encoding of `b`, with `=` padding: every 3 bytes
/// become 4 symbols, and a final group of 1 or 2 bytes becomes 2 or 3
/// symbols followed by `==` or `=`.
pub open spec fn base64_encoding(b: Seq<u8>) -> Seq<char>
    decreases b.len(),
{
    if b.len() == 0 {
        seq![]
    } else if b.len() == 1 {
        let x = b[0] as int;
        seq![base64_symbol(x / 4), base64_symbol((x % 4) * 16), '=', '=']
    } else if b.len() == 2 {
        let (x, y) = (b[0] as int, b[1] as int);
        seq![
            base64_symbol(x / 4),
            base64_symbol((x % 4) * 16 + y / 16),
            base64_symbol((y % 16) * 4),
            '=',
        ]
    } else {
        let (x, y, z) = (b[0] as int, b[1] as int, b[2] as int);
        seq![
            base64_symbol(x / 4),
            base64_symbol((x % 4) * 16 + y / 16),
            base64_symbol((y % 16) * 4 + z / 64),
            base64_symbol(z % 64),
        ] + base64_encoding(b.subrange(3, b.len() as int))
    }
}

/// The code of the character that `base64_symbol` gives.
proof fn lemma_symbol_code(n: int)
    requires
        0 <= n < 64,
    ensures
        n < 26 ==> base64_symbol(n) as int == 65 + n,
        26 <= n < 52 ==> base64_symbol(n) as int == 97 + n - 26,
        52 <= n < 62 ==> base64_symbol(n) as int == 48 + n - 52,
        n == 62 ==> base64_symbol(n) as int == 43,
        n == 63 ==> base64_symbol(n) as int == 47,
        base64_symbol(n) != '=',
{
}

proof fn lemma_symbol_injective(x: int, y: int)
    requires
        0 <= x < 64,
        0 <= y < 64,
        base64_symbol(x) == base64_symbol(y),
    ensures
        x == y,
{
    lemma_symbol_code(x);
    lemma_symbol_code(y);
}

proof fn lemma_group_injective(x: int, y: int, z: int, p: int, q: int, r: int)
    requires
        0 <= x < 256,
        0 <= y < 256,
        0 <= z < 256,
        0 <= p < 256,
        0 <= q < 256,
        0 <= r < 256,
        x / 4 == p / 4,
        (x % 4) * 16 + y / 16 == (p % 4) * 16 + q / 16,
        (y % 16) * 4 + z / 64 == (q % 16) * 4 + r / 64,
        z % 64 == r % 64,
    ensures
        x == p,
        y == q,
        z == r,
{
    assert(x == p && y == q && z == r) by (nonlinear_arith)
        requires
            0 <= x < 256,
            0 <= y < 256,
            0 <= z < 256,
            0 <= p < 256,
            0 <= q < 256,
            0 <= r < 256,
            x / 4 == p / 4,
            (x % 4) * 16 + y / 16 == (p % 4) * 16 + q / 16,
            (y % 16) * 4 + z / 64 == (q % 16) * 4 + r / 64,
            z % 64 == r % 64,
    ;
}

proof fn lemma_symbols_in_range(x: int, y: int, z: int)
    requires
        0 <= x < 256,
        0 <= y < 256,
        0 <= z < 256,
    ensures
        0 <= x / 4 < 64,
        0 <= (x % 4) * 16 + y / 16 < 64,
        0 <= (x % 4) * 16 < 64,
        0 <= (y % 16) * 4 + z / 64 < 64,
        0 <= (y % 16) * 4 < 64,
        0 <= z % 64 < 64,
{
}

proof fn lemma_encoding_shape(b: Seq<u8>)
    ensures
        b.len() == 0 <==> base64_encoding(b).len() == 0,
        b.len() > 0 ==> base64_encoding(b).len() >= 4,
        b.len() == 1 ==> base64_encoding(b)[2] == '=' && base64_encoding(b)[3] == '=',
        b.len() == 2 ==> base64_encoding(b)[2] != '=' && base64_encoding(b)[3] == '=',
        b.len() >= 3 ==> base64_encoding(b)[2] != '=' && base64_encoding(b)[3] != '=',
{
    if b.len() >= 1 {
        lemma_symbols_in_range(b[0] as int, if b.len() >= 2 { b[1] as int } else { 0 }, if b.len() >= 3 { b[2] as int } else { 0 });
    }
    if b.len() == 2 {
        lemma_symbol_code(((b[1] as int) % 16) * 4);
    }
    if b.len() >= 3 {
        lemma_symbol_code(((b[1] as int) % 16) * 4 + (b[2] as int) / 64);
        lemma_symbol_code((b[2] as int) % 64);
    }
}

/// Standard base64 encoding with padding is injective: an encoding gives
/// back exactly one byte string.
pub proof fn lemma_base64_injective(a: Seq<u8>, b: Seq<u8>)
    requires
        base64_encoding(a) == base64_encoding(b),
    ensures
        a == b,
    decreases a.len(),
{
    lemma_encoding_shape(a);
    lemma_encoding_shape(b);
    let e = base64_encoding(a);
    if a.len() == 0 {
        assert(b.len() == 0);
        assert(a =~= b);
        return;
    }
    assert(b.len() > 0);
    assert(a.len() == 1 <==> b.len() == 1);
    assert(a.len() == 2 <==> b.len() == 2);
    let (x, y, z) = (a[0] as int, if a.len() >= 2 { a[1] as int } else { 0 }, if a.len() >= 3 { a[2] as int } else { 0 });
    let (p, q, r) = (b[0] as int, if b.len() >= 2 { b[1] as int } else { 0 }, if b.len() >= 3 { b[2] as int } else { 0 });
    lemma_symbols_in_range(x, y, z);
    lemma_symbols_in_range(p, q, r);
    assert(e[0] == base64_encoding(b)[0]);
    assert(e[1] == base64_encoding(b)[1]);
    assert(e[2] == base64_encoding(b)[2]);
    assert(e[3] == base64_encoding(b)[3]);
    if a.len() == 1 {
        lemma_symbol_injective(x / 4, p / 4);
        lemma_symbol_injective((x % 4) * 16, (p % 4) * 16);
        lemma_group_injective(x, 0, 0, p, 0, 0);
        assert(a =~= b);
    } else if a.len() == 2 {
        lemma_symbol_injective(x / 4, p / 4);
        lemma_symbol_injective((x % 4) * 16 + y / 16, (p % 4) * 16 + q / 16);
        lemma_symbol_injective((y % 16) * 4, (q % 16) * 4);
        lemma_group_injective(x, y, 0, p, q, 0);
        assert(a =~= b);
    } else {
        let ra = a.subrange(3, a.len() as int);
        let rb = b.subrange(3, b.len() as int);
        let ga = seq![
            base64_symbol(x / 4),
            base64_symbol((x % 4) * 16 + y / 16),
            base64_symbol((y % 16) * 4 + z / 64),
            base64_symbol(z % 64),
        ];
        let gb = seq![
            base64_symbol(p / 4),
            base64_symbol((p % 4) * 16 + q / 16),
            base64_symbol((q % 16) * 4 + r / 64),
            base64_symbol(r % 64),
        ];
        assert(e == ga + base64_encoding(ra));
        assert(base64_encoding(b) == gb + base64_encoding(rb));
        assert(ga[0] == gb[0] && ga[1] == gb[1] && ga[2] == gb[2] && ga[3] == gb[3]) by {
            assert(e[0] == ga[0] && e[1] == ga[1] && e[2] == ga[2] && e[3] == ga[3]);
            assert(base64_encoding(b)[0] == gb[0] && base64_encoding(b)[1] == gb[1]
                && base64_encoding(b)[2] == gb[2] && base64_encoding(b)[3] == gb[3]);
        }
        lemma_symbol_injective(x / 4, p / 4);
        lemma_symbol_injective((x % 4) * 16 + y / 16, (p % 4) * 16 + q / 16);
        lemma_symbol_injective((y % 16) * 4 + z / 64, (q % 16) * 4 + r / 64);
        lemma_symbol_injective(z % 64, r % 64);
        lemma_group_injective(x, y, z, p, q, r);
        assert(base64_encoding(ra) =~= e.subrange(4, e.len() as int));
        assert(base64_encoding(rb) =~= base64_encoding(b).subrange(4, base64_encoding(b).len() as int));
        lemma_base64_injective(ra, rb);
        assert(a.len() == b.len());
        assert forall|i: int| 0 <= i < a.len() implies a[i] == b[i] by {
            if i >= 3 {
                assert(a[i] == ra[i - 3]);
                assert(b[i] == rb[i - 3]);
            }
        }
        assert(a =~= b);
    }
}

/// The message of the error that base64 decoding reports for an input that
/// is no canonical encoding (`base64::DecodeError`'s `Display`).
pub uninterp spec fn base64_decode_error(input: Seq<char>) -> Seq<char>;

/// The message of the error that UTF-8 decoding reports for invalid bytes
/// (`std::string::FromUtf8Error`'s `Display`).
pub uninterp spec fn utf8_error(bytes: Seq<u8>) -> Seq<char>;

/// `base64::engine::general_purpose::STANDARD.encode`: the standard base64
/// encoding with padding.
#[verifier::external_body]
pub(crate) fn base64_encode(bytes: &[u8]) -> (r: String)
    ensures
        r@ == base64_encoding(bytes@),
{
    base64::engine::general_purpose::STANDARD.encode(bytes)
}

/// `base64::engine::general_purpose::STANDARD.decode` of the bytes of a
/// string. The engine requires canonical padding and rejects trailing bits,
/// so it succeeds exactly on the encodings of byte strings and gives back
/// the bytes encoded; its error is reported by its message.
#[verifier::external_body]
pub(crate) fn base64_decode(s: &str) -> (r: Result<Vec<u8>, String>)
    ensures
        r matches Ok(b) ==> base64_encoding(b@) == s@,
        (exists|b: Seq<u8>| base64_encoding(b) == s@) ==> r is Ok,
        r matches Err(m) ==> m@ == base64_decode_error(s@),
{
    match base64::engine::general_purpose::STANDARD.decode(s) {
        Ok(b) => Ok(b),
        Err(e) => Err(e.to_string()),
    }
}

/// `String::from_utf8`: succeeds exactly on valid UTF-8, with the decoded
/// characters; its error is reported by its message.
#[verifier::external_body]
pub(crate) fn utf8_decode(bytes: Vec<u8>) -> (r: Result<String, String>)
    ensures
        r is Ok <==> valid_utf8(bytes@),
        r matches Ok(s) ==> s@ == decode_utf8(bytes@),
        r matches Err(m) ==> m@ == utf8_error(bytes@),
{
    match String::from_utf8(bytes) {
        Ok(s) => Ok(s),
        Err(e) => Err(e.to_string()),
    }
}

} // verus!

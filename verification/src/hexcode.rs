//! Hex framing of the client boundary.
//!
//! Every byte string that crosses the HTTP boundary is hex-encoded; public
//! keys additionally carry a one-byte `04` uncompressed-point prefix on the
//! wire, which is stripped on ingress and prepended on egress.  The spec
//! functions here give the mathematical meaning of that framing; the `hex`
//! crate performs the executable encoding and decoding behind trusted
//! wrappers whose contracts are stated against those spec functions.

use vstd::prelude::*;
use vstd::string::*;

verus! {

broadcast use vstd::string::group_string_axioms;

/// A character that the hex alphabet admits: `0-9`, `a-f` or `A-F`.
pub open spec fn is_hex_digit(c: char) -> bool {
    (48 <= c as u32 && c as u32 <= 57)  // '0'..'9'
    || (97 <= c as u32 && c as u32 <= 102)  // 'a'..'f'
    || (65 <= c as u32 && c as u32 <= 70)  // 'A'..'F'
}

/// Numeric value of a hex digit (either case).
pub open spec fn hex_val(c: char) -> int {
    if 48 <= c as u32 && c as u32 <= 57 {
        c as u32 - 48
    } else if 97 <= c as u32 && c as u32 <= 102 {
        c as u32 - 87
    } else {
        c as u32 - 55
    }
}

/// A well-formed hex string: even length, hex digits throughout.
pub open spec fn is_hex_str(s: Seq<char>) -> bool {
    s.len() % 2 == 0 && (forall|i: int| 0 <= i < s.len() ==> is_hex_digit(#[trigger] s[i]))
}

/// The bytes a hex string denotes: two digits per byte, high nibble first.
pub open spec fn bytes_of_hex(s: Seq<char>) -> Seq<u8> {
    Seq::new(s.len() / 2, |i: int| (16 * hex_val(s[2 * i]) + hex_val(s[2 * i + 1])) as u8)
}

/// The lowercase hex digit of a nibble.
pub open spec fn hex_digit(n: int) -> char {
    if n == 0 { '0' }
    else if n == 1 { '1' }
    else if n == 2 { '2' }
    else if n == 3 { '3' }
    else if n == 4 { '4' }
    else if n == 5 { '5' }
    else if n == 6 { '6' }
    else if n == 7 { '7' }
    else if n == 8 { '8' }
    else if n == 9 { '9' }
    else if n == 10 { 'a' }
    else if n == 11 { 'b' }
    else if n == 12 { 'c' }
    else if n == 13 { 'd' }
    else if n == 14 { 'e' }
    else { 'f' }
}

/// The lowercase hex encoding of a byte string.
pub open spec fn hex_of(b: Seq<u8>) -> Seq<char> {
    Seq::new(
        2 * b.len(),
        |i: int| if i % 2 == 0 { hex_digit(b[i / 2] as int / 16) } else { hex_digit(b[i / 2] as int % 16) },
    )
}

/// A client public key as the wire carries it: `04`, then 128 hex digits.
pub open spec fn well_formed_client_key(s: Seq<char>) -> bool {
    s.len() == 130 && s[0] == '0' && s[1] == '4' && is_hex_str(s.skip(2))
}

proof fn lemma_hex_digit_inverts(n: int)
    requires
        0 <= n < 16,
    ensures
        is_hex_digit(hex_digit(n)),
        hex_val(hex_digit(n)) == n,
{
}

/// Hex encoding always yields a well-formed hex string, and decoding it
/// gives back exactly the bytes that were encoded.
pub proof fn lemma_hex_round_trip(b: Seq<u8>)
    ensures
        is_hex_str(hex_of(b)),
        hex_of(b).len() == 2 * b.len(),
        bytes_of_hex(hex_of(b)) =~= b,
{
    let h = hex_of(b);
    assert forall|i: int| 0 <= i < h.len() implies is_hex_digit(#[trigger] h[i]) by {
        if i % 2 == 0 {
            lemma_hex_digit_inverts(b[i / 2] as int / 16);
        } else {
            lemma_hex_digit_inverts(b[i / 2] as int % 16);
        }
    }
    assert forall|i: int| 0 <= i < b.len() implies bytes_of_hex(h)[i] == b[i] by {
        lemma_hex_digit_inverts(b[i] as int / 16);
        lemma_hex_digit_inverts(b[i] as int % 16);
        assert(h[2 * i] == hex_digit(b[i] as int / 16));
        assert(h[2 * i + 1] == hex_digit(b[i] as int % 16));
        assert(16 * (b[i] as int / 16) + b[i] as int % 16 == b[i] as int);
    }
}

fn is_hex_digit_exec(c: char) -> (b: bool)
    ensures
        b == is_hex_digit(c),
{
    let u = c as u32;
    (48 <= u && u <= 57) || (97 <= u && u <= 102) || (65 <= u && u <= 70)
}

/// Ingress framing of a client public key: accept exactly the well-formed
/// wire form (`04` then 128 hex digits) and strip the prefix, yielding the
/// 64 raw key bytes that the TEE takes.
pub fn parse_client_key(key: &str) -> (r: Option<Vec<u8>>)
    ensures
        r is Some <==> well_formed_client_key(key@),
        r matches Some(v) ==> v@ == bytes_of_hex(key@.skip(2)) && v@.len() == 64,
{
    let n = key.unicode_len();
    if n != 130 {
        return None;
    }
    if key.get_char(0) != '0' || key.get_char(1) != '4' {
        return None;
    }
    let mut i: usize = 2;
    while i < 130
        invariant
            2 <= i <= 130,
            key@.len() == 130,
            key@[0] == '0',
            key@[1] == '4',
            forall|j: int| 2 <= j < i ==> is_hex_digit(#[trigger] key@[j]),
        decreases 130 - i,
    {
        if !is_hex_digit_exec(key.get_char(i)) {
            proof {
                assert(key@.skip(2)[i - 2] == key@[i as int]);
            }
            return None;
        }
        i += 1;
    }
    proof {
        assert forall|j: int| 0 <= j < key@.len() implies ('\0' <= #[trigger] key@[j]
            && key@[j] <= '\u{7f}') by {
            if j == 0 {
                lemma_prefix_char_ascii(key@[j]);
            } else if j == 1 {
                lemma_prefix_char_ascii(key@[j]);
            } else {
                assert(is_hex_digit(key@[j]));
                lemma_hex_digit_ascii(key@[j]);
            }
        }
        assert(key.is_ascii());
    }
    let body = key.substring_ascii(2, 130);
    proof {
        assert(body@ =~= key@.skip(2));
        assert forall|j: int| 0 <= j < body@.len() implies is_hex_digit(#[trigger] body@[j]) by {
            assert(body@[j] == key@[j + 2]);
        }
    }
    let r = hex_decode(body);
    proof {
        assert(r is Some);
        assert(r matches Some(v) ==> v@ == bytes_of_hex(key@.skip(2)));
    }
    r
}

/// Egress framing of the TEE public key: hex-encode the 64 raw bytes and
/// prepend the `04` uncompressed-point prefix the browser expects.
pub fn wire_key_of(key: &[u8]) -> (r: String)
    ensures
        r@ == seq!['0', '4'] + hex_of(key@),
{
    let mut s = String::from_str("04");
    let h = hex_encode(key);
    s.append(h.as_str());
    proof {
        reveal_strlit("04");
        assert(s@ =~= seq!['0', '4'] + hex_of(key@));
    }
    s
}

/// The wire framing of a public key is inverted exactly once on ingress:
/// what `wire_key_of` emits is a well-formed client key, and stripping the
/// prefix and decoding the hex gives back exactly the key bytes.
pub proof fn lemma_wire_key_round_trip(key: Seq<u8>)
    requires
        key.len() == 64,
    ensures
        well_formed_client_key(seq!['0', '4'] + hex_of(key)),
        bytes_of_hex((seq!['0', '4'] + hex_of(key)).skip(2)) =~= key,
{
    lemma_hex_round_trip(key);
    assert((seq!['0', '4'] + hex_of(key)).skip(2) =~= hex_of(key));
}

/// Relies on `hex::encode`: two lowercase digits per input byte, in input
/// order, high nibble first.
#[verifier::external_body]
pub(crate) fn hex_encode(b: &[u8]) -> (r: String)
    ensures
        r@ == hex_of(b@),
{
    hex::encode(b)
}

/// Relies on `hex::decode`: it reads the string's UTF-8 bytes and succeeds
/// exactly when they are an even number of hex digits of either case,
/// pairing them into bytes high nibble first.  Over characters that is the
/// same condition: a non-ASCII character encodes to bytes that are never
/// hex digits, and every hex digit is its own one-byte encoding.
#[verifier::external_body]
pub(crate) fn hex_decode(s: &str) -> (r: Option<Vec<u8>>)
    ensures
        r is Some <==> is_hex_str(s@),
        r matches Some(v) ==> v@ == bytes_of_hex(s@),
{
    hex::decode(s).ok()
}

proof fn lemma_hex_digit_ascii(c: char)
    requires
        is_hex_digit(c),
    ensures
        '\0' <= c <= '\u{7f}',
{
}

proof fn lemma_prefix_char_ascii(c: char)
    requires
        c == '0' || c == '4',
    ensures
        '\0' <= c <= '\u{7f}',
{
}

} // verus!

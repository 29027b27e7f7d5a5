//! The address of a search, and the encoding that carries a name in it.
//!
//! A search is a GET request to `{base_url}/api/people/?search={name}`, with
//! the name percent-encoded: each byte of its UTF-8 form is either an
//! unreserved character, which stands for itself, or is written as `%` and
//! two upper-case hexadecimal digits. The encoding loses nothing, so the
//! registry reads back the name exactly as it was given.

use vstd::prelude::*;
use vstd::string::*;
use vstd::utf8::encode_utf8;

verus! {

/// Whether the byte is a character that a URL carries unescaped: an ASCII
/// letter or digit, or one of `-`, `.`, `_`, `~`.
pub open spec fn is_unreserved(byte: u8) -> bool {
    let c = byte as char;
    ||| ('0' <= c && c <= '9')
    ||| ('A' <= c && c <= 'Z')
    ||| ('a' <= c && c <= 'z')
    ||| c == '-'
    ||| c == '.'
    ||| c == '_'
    ||| c == '~'
}

/// The upper-case hexadecimal digit for a value below sixteen.
pub open spec fn hex_digit(value: u8) -> char
    recommends
        value < 16,
{
    if value < 10 {
        (('0' as u8 + value) as u8) as char
    } else {
        (('A' as u8 + value - 10) as u8) as char
    }
}

/// Whether the character is an upper-case hexadecimal digit.
pub open spec fn is_hex_digit(c: char) -> bool {
    ('0' <= c && c <= '9') || ('A' <= c && c <= 'F')
}

/// The value of an upper-case hexadecimal digit.
pub open spec fn hex_value(digit: char) -> int
    recommends
        is_hex_digit(digit),
{
    if '0' <= digit && digit <= '9' {
        digit as int - '0' as int
    } else {
        digit as int - 'A' as int + 10
    }
}

/// How one byte is written in an address.
pub open spec fn escaped(byte: u8) -> Seq<char> {
    if is_unreserved(byte) {
        seq![byte as char]
    } else {
        seq!['%', hex_digit(byte / 16), hex_digit(byte % 16)]
    }
}

/// How a sequence of bytes is written in an address: byte by byte, in order.
pub open spec fn percent_encoded(bytes: Seq<u8>) -> Seq<char>
    decreases bytes.len(),
{
    if bytes.len() == 0 {
        Seq::empty()
    } else {
        escaped(bytes[0]) + percent_encoded(bytes.drop_first())
    }
}

/// Whether `text` begins with an escape: `%` and two hexadecimal digits.
pub open spec fn begins_with_escape(text: Seq<char>) -> bool {
    text.len() >= 3 && text[0] == '%' && is_hex_digit(text[1]) && is_hex_digit(text[2])
}

/// The bytes that a text of ASCII characters stands for, read the way a
/// server reads an address: an escape is the byte that its two digits
/// write, and any other character is its own byte.
pub open spec fn percent_decoded(text: Seq<char>) -> Seq<u8>
    decreases text.len(),
{
    if text.len() == 0 {
        Seq::empty()
    } else if begins_with_escape(text) {
        seq![(hex_value(text[1]) * 16 + hex_value(text[2])) as u8] + percent_decoded(text.skip(3))
    } else {
        seq![text[0] as u8] + percent_decoded(text.skip(1))
    }
}

/// The address of a search for `name` in the registry at `base_url`.
pub open spec fn search_address(base_url: Seq<char>, name: Seq<char>) -> Seq<char> {
    base_url + "/api/people/?search="@ + percent_encoded(encode_utf8(name))
}

/// Whether the character may occur in an encoded text: `%`, or an unreserved
/// character.
pub open spec fn is_address_safe(c: char) -> bool {
    c == '%' || (c as int <= 0x7f && is_unreserved(c as u8))
}

/// Encoding a sequence with one more byte at its end appends that byte's
/// escape.
pub proof fn lemma_percent_encoded_push(bytes: Seq<u8>, byte: u8)
    ensures
        percent_encoded(bytes.push(byte)) == percent_encoded(bytes) + escaped(byte),
    decreases bytes.len(),
{
    if bytes.len() == 0 {
        assert(bytes.push(byte).drop_first() =~= bytes);
        assert(percent_encoded(bytes.push(byte)) =~= percent_encoded(bytes) + escaped(byte));
    } else {
        lemma_percent_encoded_push(bytes.drop_first(), byte);
        assert(bytes.push(byte).drop_first() =~= bytes.drop_first().push(byte));
        assert(percent_encoded(bytes.push(byte)) =~= percent_encoded(bytes) + escaped(byte));
    }
}

/// A hexadecimal digit reads back as the value it was written for, and is
/// itself a character that an address carries unescaped.
pub proof fn lemma_hex_digit_value(value: u8)
    requires
        value < 16,
    ensures
        is_hex_digit(hex_digit(value)),
        hex_value(hex_digit(value)) == value,
        is_address_safe(hex_digit(value)),
{
}

/// The encoding loses nothing: decoding an encoded sequence of bytes gives
/// the bytes back, each one as it was.
pub proof fn lemma_percent_decoded_inverts(bytes: Seq<u8>)
    ensures
        percent_decoded(percent_encoded(bytes)) == bytes,
    decreases bytes.len(),
{
    if bytes.len() > 0 {
        let first = bytes[0];
        let rest = percent_encoded(bytes.drop_first());
        let text = percent_encoded(bytes);
        lemma_percent_decoded_inverts(bytes.drop_first());
        if is_unreserved(first) {
            assert(text[0] == first as char);
            assert(text.skip(1) =~= rest);
        } else {
            lemma_hex_digit_value(first / 16);
            lemma_hex_digit_value(first % 16);
            assert(text[0] == '%');
            assert(text[1] == hex_digit(first / 16));
            assert(text[2] == hex_digit(first % 16));
            assert(text.skip(3) =~= rest);
        }
        assert(percent_decoded(text) =~= seq![first] + bytes.drop_first());
        assert(seq![first] + bytes.drop_first() =~= bytes);
    }
}

/// An encoded text consists of `%` and unreserved characters only: none of
/// the characters that delimit parts of a URL occurs in it.
pub proof fn lemma_percent_encoded_is_safe(bytes: Seq<u8>)
    ensures
        forall|i: int|
            0 <= i < percent_encoded(bytes).len() ==> is_address_safe(
                #[trigger] percent_encoded(bytes)[i],
            ),
    decreases bytes.len(),
{
    if bytes.len() > 0 {
        let first = bytes[0];
        let head = escaped(first);
        let rest = percent_encoded(bytes.drop_first());
        lemma_percent_encoded_is_safe(bytes.drop_first());
        lemma_hex_digit_value(first / 16);
        lemma_hex_digit_value(first % 16);
        assert forall|i: int| 0 <= i < percent_encoded(bytes).len() implies is_address_safe(
            #[trigger] percent_encoded(bytes)[i],
        ) by {
            if i < head.len() {
                assert(percent_encoded(bytes)[i] == head[i]);
            } else {
                assert(percent_encoded(bytes)[i] == rest[i - head.len()]);
            }
        }
    }
}

/// Two names with the same address are the same name: the address keeps the
/// name verbatim, letter case and spacing included.
pub proof fn lemma_search_address_keeps_the_name(
    base_url: Seq<char>,
    name: Seq<char>,
    other: Seq<char>,
)
    requires
        search_address(base_url, name) == search_address(base_url, other),
    ensures
        name == other,
{
    let prefix = base_url + "/api/people/?search="@;
    let a = percent_encoded(encode_utf8(name));
    let b = percent_encoded(encode_utf8(other));
    assert(a =~= (prefix + a).skip(prefix.len() as int));
    assert(b =~= (prefix + b).skip(prefix.len() as int));
    lemma_percent_decoded_inverts(encode_utf8(name));
    lemma_percent_decoded_inverts(encode_utf8(other));
    vstd::utf8::encode_utf8_decode_utf8(name);
    vstd::utf8::encode_utf8_decode_utf8(other);
}

/// Whether the byte is a character that a URL carries unescaped.
fn unreserved(byte: u8) -> (yes: bool)
    ensures
        yes == is_unreserved(byte),
{
    let c = byte as char;
    ('0' <= c && c <= '9') || ('A' <= c && c <= 'Z') || ('a' <= c && c <= 'z') || c == '-' || c
        == '.' || c == '_' || c == '~'
}

/// The upper-case hexadecimal digit for a value below sixteen.
fn to_hex_digit(value: u8) -> (digit: char)
    requires
        value < 16,
    ensures
        digit == hex_digit(value),
{
    if value < 10 {
        ('0' as u8 + value) as char
    } else {
        ('A' as u8 + (value - 10)) as char
    }
}

/// Percent-encodes `text`: the encoding of its UTF-8 bytes.
pub fn percent_encode(text: &str) -> (encoded: String)
    ensures
        encoded@ == percent_encoded(encode_utf8(text@)),
{
    let bytes = text.as_bytes();
    let mut encoded = String::new();
    let mut i: usize = 0;
    assert(bytes@.subrange(0, 0) =~= Seq::<u8>::empty());
    while i < bytes.len()
        invariant
            i <= bytes@.len(),
            bytes@ == encode_utf8(text@),
            encoded@ == percent_encoded(bytes@.subrange(0, i as int)),
        decreases bytes.len() - i,
    {
        let byte: u8 = bytes[i];
        proof {
            lemma_percent_encoded_push(bytes@.subrange(0, i as int), byte);
            assert(bytes@.subrange(0, i + 1) =~= bytes@.subrange(0, i as int).push(byte));
        }
        let ghost before = encoded@;
        if unreserved(byte) {
            encoded.push(byte as char);
            assert(encoded@ =~= before + escaped(byte));
        } else {
            encoded.push('%');
            encoded.push(to_hex_digit(byte / 16));
            encoded.push(to_hex_digit(byte % 16));
            assert(encoded@ =~= before + escaped(byte));
        }
        i = i + 1;
    }
    assert(bytes@.subrange(0, i as int) =~= bytes@);
    encoded
}

} // verus!

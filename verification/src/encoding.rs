//! `application/x-www-form-urlencoded` encoding of text, as the query parts of
//! redirect addresses need it.
use vstd::prelude::*;
use vstd::string::StringSliceAdditionalSpecFns;

verus! {

/// The upper-case hexadecimal digit of a value below 16.
pub open spec fn hex_digit(n: int) -> char {
    if n < 10 {
        (48 + n) as char
    } else {
        (55 + n) as char
    }
}

/// Bytes that the form encoding keeps as they are: `*`, `-`, `.`, `_`, ASCII
/// digits and ASCII letters.
pub open spec fn byte_kept(b: u8) -> bool {
    b == 42 || b == 45 || b == 46 || (48 <= b && b <= 57) || (65 <= b && b <= 90) || b == 95 || (
    97 <= b && b <= 122)
}

/// The encoding of one byte: kept as is, `+` for a space, else `%` and two
/// upper-case hexadecimal digits.
pub open spec fn encode_byte(b: u8) -> Seq<char> {
    if byte_kept(b) {
        seq![b as char]
    } else if b == 32 {
        seq!['+']
    } else {
        seq!['%', hex_digit(b as int / 16), hex_digit(b as int % 16)]
    }
}

/// The form encoding of a byte sequence, byte by byte.
pub open spec fn form_urlencode(bytes: Seq<u8>) -> Seq<char>
    decreases bytes.len(),
{
    if bytes.len() == 0 {
        Seq::empty()
    } else {
        encode_byte(bytes[0]) + form_urlencode(bytes.drop_first())
    }
}

/// The form encoding of the UTF-8 bytes of `input`
/// (`url::form_urlencoded::byte_serialize`, collected into a string): every byte
/// is kept, turned into `+` (a space) or written as `%XX`, as the crate's source
/// does.
#[verifier::external_body]
pub fn url_encode(input: &str) -> (r: String)
    ensures
        r@ == form_urlencode(input.spec_bytes()),
{
    url::form_urlencoded::byte_serialize(input.as_bytes()).collect()
}

} // verus!

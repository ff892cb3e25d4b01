//! `application/x-www-form-urlencoded` byte serialization of query values.
use vstd::prelude::*;

use crate::number::hex_digit_upper;

verus! {

/// Bytes that the form-urlencoded byte serializer leaves as they are:
/// `*`, `-`, `.`, `_`, ASCII digits and ASCII letters.
pub open spec fn is_form_unreserved(b: u8) -> bool {
    ||| b == 42
    ||| b == 45
    ||| b == 46
    ||| 48 <= b <= 57
    ||| 65 <= b <= 90
    ||| b == 95
    ||| 97 <= b <= 122
}

/// The text one byte becomes: itself when unreserved, `+` for a space,
/// otherwise `%` and two upper-case hexadecimal digits.
pub open spec fn form_encoded_byte(b: u8) -> Seq<char> {
    if is_form_unreserved(b) {
        seq![b as char]
    } else if b == 32 {
        seq!['+']
    } else {
        seq!['%', hex_digit_upper((b / 16) as int), hex_digit_upper((b % 16) as int)]
    }
}

/// The form-urlencoded serialization of `bytes`, byte by byte.
pub open spec fn form_urlencoded(bytes: Seq<u8>) -> Seq<char>
    decreases bytes.len(),
{
    if bytes.len() == 0 {
        Seq::empty()
    } else {
        form_urlencoded(bytes.drop_last()) + form_encoded_byte(bytes.last())
    }
}

/// The form-urlencoded text of the UTF-8 bytes of `s`.
///
/// Trusted: calls `url::form_urlencoded::byte_serialize` and collects its
/// pieces. The contract claims that the result is exactly
/// `form_urlencoded` of the UTF-8 encoding of `s`, which is what the
/// crate's byte serializer does (`byte_serialized_unchanged`, `+` for
/// space, `percent_encode_byte` otherwise).
#[verifier::external_body]
pub(crate) fn form_urlencode(s: &str) -> (r: String)
    ensures
        r@ == form_urlencoded(vstd::utf8::encode_utf8(s@)),
{
    url::form_urlencoded::byte_serialize(s.as_bytes()).collect()
}

/// Law: a form-urlencoded value holds none of the characters that delimit
/// a query string (`&`, `=`, `?`, `#`) and no space, so each parameter
/// `name=value` that the client builds is read back as one parameter with
/// exactly that value.
pub proof fn law_encoded_value_has_no_delimiters(bytes: Seq<u8>, i: int)
    requires
        0 <= i < form_urlencoded(bytes).len(),
    ensures
        form_urlencoded(bytes)[i] != '&',
        form_urlencoded(bytes)[i] != '=',
        form_urlencoded(bytes)[i] != '?',
        form_urlencoded(bytes)[i] != '#',
        form_urlencoded(bytes)[i] != ' ',
    decreases bytes.len(),
{
    let prefix = form_urlencoded(bytes.drop_last());
    if i < prefix.len() {
        law_encoded_value_has_no_delimiters(bytes.drop_last(), i);
    } else {
        let b: u8 = bytes.last();
        let piece = form_encoded_byte(b);
        assert(form_urlencoded(bytes)[i] == piece[i - prefix.len()]);
        if !is_form_unreserved(b) && b != 32 {
            let hi: int = (b / 16) as int;
            let lo: int = (b % 16) as int;
            assert(hex_digit_upper(hi) != '&' && hex_digit_upper(hi) != '=');
            assert(hex_digit_upper(lo) != '&' && hex_digit_upper(lo) != '=');
        }
    }
}

} // verus!

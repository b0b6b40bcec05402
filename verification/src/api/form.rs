//! `application/x-www-form-urlencoded` encoding and decoding of single values,
//! through the `url` crate.

use vstd::prelude::*;
use vstd::string::StringSliceAdditionalSpecFns;

verus! {

/// Bytes that the form serializer copies unchanged: `*`, `-`, `.`, `_`,
/// ASCII digits and ASCII letters.
pub open spec fn form_byte_unchanged(b: u8) -> bool {
    b == 42 || b == 45 || b == 46 || (48 <= b && b <= 57) || (65 <= b && b <= 90) || b == 95 || (
    97 <= b && b <= 122)
}

/// Uppercase hexadecimal digit of a value below 16.
pub open spec fn upper_hex_digit(n: u8) -> char {
    if n < 10 {
        (n + 48) as char
    } else {
        (n + 55) as char
    }
}

/// The serialization of one byte: unchanged bytes as themselves, a space as
/// `+`, any other byte as `%` and two uppercase hex digits.
pub open spec fn form_serialize_byte(b: u8) -> Seq<char> {
    if form_byte_unchanged(b) {
        seq![b as char]
    } else if b == 32 {
        seq!['+']
    } else {
        seq!['%', upper_hex_digit(b >> 4), upper_hex_digit(b & 15)]
    }
}

/// The form serialization of a byte string, byte by byte.
pub open spec fn form_serialize(bytes: Seq<u8>) -> Seq<char>
    decreases bytes.len(),
{
    if bytes.len() == 0 {
        Seq::empty()
    } else {
        form_serialize(bytes.drop_last()) + form_serialize_byte(bytes.last())
    }
}

/// Calls `url::form_urlencoded::byte_serialize` on the UTF-8 bytes of `s` and
/// joins the pieces. Trusted: the result is the byte-by-byte serialization that
/// the crate's source performs (`form_serialize`).
#[verifier::external_body]
fn form_byte_serialize(s: &str) -> (r: String)
    ensures
        r@ == form_serialize(s.spec_bytes()),
{
    url::form_urlencoded::byte_serialize(s.as_bytes()).collect()
}

/// The name of the first non-empty `&`-separated pair that
/// `url::form_urlencoded::parse` yields for the UTF-8 bytes of `input`
/// (`+` and percent-decoded, then decoded as lossy UTF-8); `None` when there is none.
pub uninterp spec fn form_first_name(input: Seq<char>) -> Option<Seq<char>>;

/// A character with a meaning in form decoding: `%`, `+`, `&` or `=`.
pub open spec fn is_form_special(c: char) -> bool {
    c == '%' || c == '+' || c == '&' || c == '='
}

/// A non-empty value with no character that form decoding acts on.
pub open spec fn is_plain_form_value(s: Seq<char>) -> bool {
    s.len() > 0 && forall|i: int| 0 <= i < s.len() ==> !is_form_special(#[trigger] s[i])
}

/// Calls `url::form_urlencoded::parse(s.as_bytes()).next()` and keeps the name.
/// Trusted: the result is `form_first_name(s@)`; it is `None` exactly when every
/// character of `s` is `&` (the parser skips empty pairs and ends at the end of
/// the input); and a non-empty `s` without `%`, `+`, `&` or `=` is its own name
/// (one pair, nothing to replace or percent-decode, and the bytes of a `str`
/// are valid UTF-8, which lossy decoding keeps).
#[verifier::external_body]
fn form_parse_first_name(s: &str) -> (r: Option<String>)
    ensures
        r is None <==> (forall|i: int| 0 <= i < s@.len() ==> s@[i] == '&'),
        r matches Some(k) ==> form_first_name(s@) == Some(k@),
        r is None ==> form_first_name(s@) is None,
        is_plain_form_value(s@) ==> r is Some && r->Some_0@ == s@,
{
    url::form_urlencoded::parse(s.as_bytes()).next().map(|(k, _)| k.into_owned())
}

/// A character that separates or ends form fields and URL parts.
pub open spec fn is_form_delimiter(c: char) -> bool {
    c == '&' || c == '=' || c == '#' || c == '?' || c == ' '
}

/// No serialization contains `&`, `=`, `#`, `?` or a space: an encoded value
/// always stays one value inside a query string.
pub proof fn lemma_form_serialize_has_no_delimiters(bytes: Seq<u8>)
    ensures
        forall|i: int|
            0 <= i < form_serialize(bytes).len() ==> !is_form_delimiter(#[trigger] form_serialize(bytes)[i]),
    decreases bytes.len(),
{
    if bytes.len() > 0 {
        lemma_form_serialize_has_no_delimiters(bytes.drop_last());
        let b = bytes.last();
        assert(b >> 4 < 16 && b & 15 < 16) by (bit_vector);
        let prev = form_serialize(bytes.drop_last());
        let last = form_serialize_byte(b);
        assert forall|i: int| 0 <= i < last.len() implies !is_form_delimiter(#[trigger] last[i]) by {
            if form_byte_unchanged(b) {
                assert(last[i] == b as char);
            }
        }
        assert forall|i: int|
            0 <= i < form_serialize(bytes).len() implies !is_form_delimiter(#[trigger] form_serialize(bytes)[i]) by {
            if i < prev.len() {
                assert(form_serialize(bytes)[i] == prev[i]);
            } else {
                assert(form_serialize(bytes)[i] == last[i - prev.len()]);
            }
        }
    }
}

/// Form-encodes a whole string.
pub fn url_encode(s: &str) -> (r: String)
    ensures
        r@ == form_serialize(s.spec_bytes()),
        forall|i: int| 0 <= i < r@.len() ==> !is_form_delimiter(#[trigger] r@[i]),
{
    proof {
        lemma_form_serialize_has_no_delimiters(s.spec_bytes());
    }
    form_byte_serialize(s)
}

/// What `url_decode` yields: the first decoded name, or the input unchanged
/// when the parser yields nothing.
pub open spec fn spec_url_decode(s: Seq<char>) -> Seq<char> {
    match form_first_name(s) {
        Some(k) => k,
        None => s,
    }
}

/// Form-decodes a single value: the first pair's name as the parser decodes
/// it, or `s` itself when `s` holds no pair.
pub fn url_decode(s: &str) -> (r: String)
    ensures
        r@ == spec_url_decode(s@),
        (forall|i: int| 0 <= i < s@.len() ==> s@[i] == '&') ==> r@ == s@,
        (forall|i: int| 0 <= i < s@.len() ==> !is_form_special(#[trigger] s@[i])) ==> r@ == s@,
{
    match form_parse_first_name(s) {
        Some(k) => k,
        None => s.to_owned(),
    }
}

} // verus!

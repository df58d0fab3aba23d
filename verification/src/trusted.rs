//! The calls this library makes into code that Verus does not read: outside
//! crates and the parts of std that vstd gives no specification. Each item
//! states, in its contract, what the outside source or documentation shows.
use base64::Engine;
use vstd::prelude::*;

verus! {

// ---------------------------------------------------------------------------
// qstring
// ---------------------------------------------------------------------------

/// Whether the parser of `qstring::QString::from` starts reading a parameter
/// at position `i` of `q`: at the start, after a leading `?`, after every `&`,
/// and after a `=` that itself starts a parameter (a parameter with no name).
pub open spec fn qstring_segment_start(q: Seq<char>, i: int) -> bool
    decreases i,
{
    if i <= 0 {
        i == 0
    } else if i == 1 && q[0] == '?' {
        true
    } else if q[i - 1] == '&' {
        true
    } else if q[i - 1] == '=' {
        qstring_segment_start(q, i - 1)
    } else {
        false
    }
}

/// Whether `qstring::QString::from(q)` panics: its parser slices the first byte
/// off every place where it starts reading (`&cur[0..1]`), which panics when
/// the character there takes more than one byte in UTF-8.
pub open spec fn qstring_rejects(q: Seq<char>) -> bool {
    exists|i: int| 0 <= i < q.len() && #[trigger] qstring_segment_start(q, i) && q[i] as u32 >= 0x80
}

/// The `(name, value)` pairs that `qstring::QString::from(q).into_pairs()`
/// returns: names and values percent-decoded, a name without `=` given the
/// value `""`, in the order in which they occur in `q`.
pub uninterp spec fn qstring_pairs(q: Seq<char>) -> Seq<(Seq<char>, Seq<char>)>;

/// `qstring::QString::from(query).into_pairs()`. Its source returns the pairs
/// that `qstring_pairs` names, and no pair for an empty query (its loop runs
/// while the rest of the input is not empty). What the pairs are otherwise is
/// not stated here: percent-decoding is left to the crate.
#[verifier::external_body]
pub(crate) fn query_pairs(query: &str) -> (r: Vec<(String, String)>)
    requires
        !qstring_rejects(query@),
    ensures
        r@.len() == qstring_pairs(query@).len(),
        forall|i: int| 0 <= i < r@.len() ==>
            (#[trigger] r@[i]).0@ == qstring_pairs(query@)[i].0 && r@[i].1@ == qstring_pairs(query@)[i].1,
        query@.len() == 0 ==> r@.len() == 0,
{
    qstring::QString::from(query).into_pairs()
}

// ---------------------------------------------------------------------------
// url (form_urlencoded)
// ---------------------------------------------------------------------------

/// The upper-case hexadecimal digit for `d < 16`.
pub open spec fn hex_digit_upper(d: nat) -> char {
    if d < 10 {
        crate::text::digit_char(d)
    } else if d == 10 {
        'A'
    } else if d == 11 {
        'B'
    } else if d == 12 {
        'C'
    } else if d == 13 {
        'D'
    } else if d == 14 {
        'E'
    } else {
        'F'
    }
}

/// The bytes that `application/x-www-form-urlencoded` serialization leaves as
/// they are: `*`, `-`, `.`, `_`, ASCII digits and ASCII letters.
pub open spec fn form_byte_unchanged(b: u8) -> bool {
    b == 0x2a || b == 0x2d || b == 0x2e || b == 0x5f || (0x30 <= b <= 0x39) || (0x41 <= b <= 0x5a) || (
    0x61 <= b <= 0x7a)
}

/// How one byte is serialized: unchanged, `+` for a space, `%XX` otherwise.
pub open spec fn form_encode_byte(b: u8) -> Seq<char> {
    if form_byte_unchanged(b) {
        seq![b as char]
    } else if b == 0x20 {
        seq!['+']
    } else {
        seq!['%', hex_digit_upper((b / 16) as nat), hex_digit_upper((b % 16) as nat)]
    }
}

/// The serialization of a byte string, byte by byte.
pub open spec fn form_encode_bytes(bytes: Seq<u8>) -> Seq<char>
    decreases bytes.len(),
{
    if bytes.len() == 0 {
        Seq::empty()
    } else {
        form_encode_byte(bytes[0]) + form_encode_bytes(bytes.drop_first())
    }
}

/// `url::form_urlencoded::byte_serialize` of the UTF-8 bytes of `s`, collected
/// into a `String`. Its source serializes each byte on its own: the bytes
/// `*-._`, digits and ASCII letters unchanged, a space as `+`, every other
/// byte as `%` and two upper-case hexadecimal digits (`percent_encode_byte`).
#[verifier::external_body]
pub(crate) fn form_urlencode(s: &str) -> (r: String)
    ensures
        r@ == form_encode_bytes(vstd::utf8::encode_utf8(s@)),
{
    url::form_urlencoded::byte_serialize(s.as_bytes()).collect()
}

// ---------------------------------------------------------------------------
// url (Url)
// ---------------------------------------------------------------------------

/// What the library reads of a parsed URL: its scheme, its host (as
/// `Url::host_str` gives it) and its explicit port (as `Url::port` gives it).
pub struct UrlParts {
    pub scheme: String,
    pub host: Option<String>,
    pub port: Option<u16>,
}

/// The scheme, host and port of `url::Url::parse(s)`, or `None` where `s` does
/// not parse; the WHATWG URL parser is left to the crate.
pub uninterp spec fn url_parts(s: Seq<char>) -> Option<(Seq<char>, Option<Seq<char>>, Option<u16>)>;

/// `url::Url::parse(s)`, read through `scheme`, `host_str` and `port`. The
/// result is `url_parts(s)`, with `None` where the parser returns an error.
#[verifier::external_body]
pub(crate) fn parse_url(s: &str) -> (r: Option<UrlParts>)
    ensures
        match r {
            Some(p) => url_parts(s@) == Some((
                p.scheme@,
                match p.host {
                    Some(h) => Some(h@),
                    None => None::<Seq<char>>,
                },
                p.port,
            )),
            None => url_parts(s@) is None,
        },
{
    url::Url::parse(s).ok().map(|u| UrlParts {
        scheme: u.scheme().to_string(),
        host: u.host_str().map(|h| h.to_string()),
        port: u.port(),
    })
}

// ---------------------------------------------------------------------------
// regex
// ---------------------------------------------------------------------------

/// The text of each capture group, group 0 being the whole match, `None` for
/// a group that took no part in the match.
pub open spec fn groups_view(groups: Vec<Option<String>>) -> Seq<Option<Seq<char>>> {
    groups@.map_values(|g: Option<String>| match g {
        Some(t) => Some(t@),
        None => None::<Seq<char>>,
    })
}

/// The capture groups of the leftmost-first match of the regular expression
/// `pattern` in `haystack` (`regex::Regex::captures`), or `None` where nothing
/// matches or `pattern` does not compile.
pub uninterp spec fn regex_first_match(pattern: Seq<char>, haystack: Seq<char>) -> Option<Seq<Option<Seq<char>>>>;

/// The capture groups of each successive non-overlapping match of `pattern`
/// in `haystack` (`regex::Regex::captures_iter`), empty where `pattern` does not
/// compile.
pub uninterp spec fn regex_all_matches(pattern: Seq<char>, haystack: Seq<char>) -> Seq<Seq<Option<Seq<char>>>>;

/// `regex::Regex::new(pattern)` then `captures(haystack)`. The result is
/// `regex_first_match(pattern, haystack)`; the matching itself is the crate's.
#[verifier::external_body]
pub(crate) fn regex_captures(pattern: &str, haystack: &str) -> (r: Option<Vec<Option<String>>>)
    ensures
        match r {
            Some(g) => regex_first_match(pattern@, haystack@) == Some(groups_view(g)),
            None => regex_first_match(pattern@, haystack@) is None,
        },
{
    regex::Regex::new(pattern).ok().and_then(|re| {
        re.captures(haystack).map(|c| c.iter().map(|m| m.map(|m| m.as_str().to_string())).collect())
    })
}

/// `regex::Regex::new(pattern)` then `captures_iter(haystack)`, collected. The
/// result is `regex_all_matches(pattern, haystack)`.
#[verifier::external_body]
pub(crate) fn regex_captures_all(pattern: &str, haystack: &str) -> (r: Vec<Vec<Option<String>>>)
    ensures
        r@.len() == regex_all_matches(pattern@, haystack@).len(),
        forall|i: int| 0 <= i < r@.len() ==> groups_view(#[trigger] r@[i]) == regex_all_matches(pattern@, haystack@)[i],
{
    match regex::Regex::new(pattern) {
        Ok(re) => re
            .captures_iter(haystack)
            .map(|c| c.iter().map(|m| m.map(|m| m.as_str().to_string())).collect())
            .collect(),
        Err(_) => Vec::new(),
    }
}

// ---------------------------------------------------------------------------
// base64
// ---------------------------------------------------------------------------

#[verifier::external_type_specification]
#[verifier::external_body]
pub struct ExBase64DecodeError(base64::DecodeError);

/// The bytes that the standard base64 engine (`base64::engine::general_purpose::STANDARD`,
/// padded, standard alphabet) decodes `input` to, or `None` where it rejects it.
pub uninterp spec fn base64_standard_decoded(input: Seq<u8>) -> Option<Seq<u8>>;

/// `base64::engine::general_purpose::STANDARD.decode(input)`: `Ok` with
/// `base64_standard_decoded(input)` where that is defined, the crate's error otherwise.
#[verifier::external_body]
pub(crate) fn base64_decode(input: &[u8]) -> (r: Result<Vec<u8>, base64::DecodeError>)
    ensures
        match r {
            Ok(bytes) => base64_standard_decoded(input@) == Some(bytes@),
            Err(_) => base64_standard_decoded(input@) is None,
        },
{
    base64::engine::general_purpose::STANDARD.decode(input)
}

// ---------------------------------------------------------------------------
// std
// ---------------------------------------------------------------------------

#[verifier::external_type_specification]
#[verifier::external_body]
pub struct ExUtf8Error(std::str::Utf8Error);

/// `std::str::from_utf8(bytes)`, made an owned `String`. std documents that it
/// fails exactly when `bytes` is not UTF-8, and otherwise reads them as text.
#[verifier::external_body]
pub(crate) fn utf8_string(bytes: &[u8]) -> (r: Result<String, std::str::Utf8Error>)
    ensures
        match r {
            Ok(s) => vstd::utf8::valid_utf8(bytes@) && s@ == vstd::utf8::decode_utf8(bytes@),
            Err(_) => !vstd::utf8::valid_utf8(bytes@),
        },
{
    std::str::from_utf8(bytes).map(|s| s.to_string())
}

/// The first character of the upper-case mapping of `c` (`char::to_uppercase`),
/// which Unicode defines.
pub uninterp spec fn uppercase_first(c: char) -> char;

/// `c.to_uppercase().next()`: std documents that `to_uppercase` yields at
/// least one character, following Unicode's case mapping, and the character
/// itself where it has no upper-case mapping. In Unicode, `a` to `z` map to
/// `A` to `Z`, and no other ASCII character has an upper-case mapping.
#[verifier::external_body]
pub(crate) fn char_uppercase_first(c: char) -> (r: char)
    ensures
        r == uppercase_first(c),
        ('a' <= c <= 'z') ==> r as u32 == c as u32 - 32,
        (c as u32) < 0x80 && !('a' <= c <= 'z') ==> r == c,
{
    c.to_uppercase().next().unwrap_or(c)
}

// ---------------------------------------------------------------------------
// reqwest
// ---------------------------------------------------------------------------

#[verifier::external_type_specification]
#[verifier::external_body]
pub struct ExReqwestError(reqwest::Error);

} // verus!

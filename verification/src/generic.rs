//! The generic HTTP source: what its response headers tell.
use vstd::prelude::*;
use crate::format::{bytes_text, format_bytes};
use crate::media::MediaInfo;
use crate::path::{url_file_name, url_file_name_spec};
use crate::text::{
    decimal, is_digit, law_decimal_parses_back, lemma_decimal_digits, parse_u64_chars,
    parse_u64_spec,
};

verus! {

/// A byte that a header value may hold as text: visible ASCII or a tab.
pub open spec fn is_visible_ascii(b: u8) -> bool {
    (32 <= b && b < 127) || b == 9
}

/// The characters that ASCII bytes stand for.
pub open spec fn ascii_chars(bytes: Seq<u8>) -> Seq<char> {
    bytes.map_values(|b: u8| b as char)
}

/// A header value as text (what `HeaderValue::to_str` gives): present only
/// where every byte is visible ASCII.
pub open spec fn header_text_spec(bytes: Seq<u8>) -> Option<Seq<char>> {
    if forall|i: int| 0 <= i < bytes.len() ==> is_visible_ascii(#[trigger] bytes[i]) {
        Some(ascii_chars(bytes))
    } else {
        None
    }
}

/// The length that a `Content-Length` header value gives, where it is
/// text that parses as a `u64`.
pub open spec fn content_length_spec(value: Option<Seq<u8>>) -> Option<u64> {
    match value {
        Some(b) => match header_text_spec(b) {
            Some(t) => parse_u64_spec(t),
            None => None,
        },
        None => None,
    }
}

/// The characters of a header value, where every byte is visible ASCII.
pub fn header_text(bytes: &[u8]) -> (r: Option<Vec<char>>)
    ensures
        match header_text_spec(bytes@) {
            Some(t) => r matches Some(v) && v@ == t,
            None => r is None,
        },
{
    let mut v: Vec<char> = Vec::new();
    let mut i: usize = 0;
    while i < bytes.len()
        invariant
            i <= bytes@.len(),
            v@ == ascii_chars(bytes@.subrange(0, i as int)),
            forall|k: int| 0 <= k < i ==> is_visible_ascii(#[trigger] bytes@[k]),
        decreases bytes.len() - i,
    {
        let b = bytes[i];
        if !((32 <= b && b < 127) || b == 9) {
            return None;
        }
        v.push(b as char);
        assert(ascii_chars(bytes@.subrange(0, i + 1)) =~= ascii_chars(
            bytes@.subrange(0, i as int),
        ).push(b as char));
        i = i + 1;
    }
    assert(bytes@.subrange(0, bytes@.len() as int) == bytes@);
    Some(v)
}

/// The length that a `Content-Length` header value gives, where it is
/// visible ASCII text that parses as a `u64`.
pub fn content_length(value: Option<&[u8]>) -> (r: Option<u64>)
    ensures
        r == content_length_spec(
            match value {
                Some(b) => Some(b@),
                None => None,
            },
        ),
{
    match value {
        Some(b) => match header_text(b) {
            Some(t) => parse_u64_chars(&t),
            None => None,
        },
        None => None,
    }
}

/// The size a download announces: its content length, or zero where it
/// announces none.
pub fn download_total(value: Option<&[u8]>) -> (r: u64)
    ensures
        r == match content_length_spec(
            match value {
                Some(b) => Some(b@),
                None => None,
            },
        ) {
            Some(n) => n,
            None => 0,
        },
{
    match content_length(value) {
        Some(n) => n,
        None => 0,
    }
}

/// What the generic source tells about `url` from the `Content-Length` of
/// its response: the file name the URL names as title, an unknown
/// duration, and the size where the header gives one.
pub fn generic_media_info(url: &str, content_length_header: Option<&[u8]>) -> (m: MediaInfo)
    ensures
        m.title@ == url_file_name_spec(url@),
        m.duration@ == "Unknown"@,
        m.size@ == match content_length_spec(
            match content_length_header {
                Some(b) => Some(b@),
                None => None,
            },
        ) {
            Some(n) => bytes_text(n as nat),
            None => "Unknown"@,
        },
        m.provider@ == "generic"@,
{
    let size = match content_length(content_length_header) {
        Some(n) => format_bytes(n),
        None => String::from_str("Unknown"),
    };
    MediaInfo {
        title: url_file_name(url),
        duration: String::from_str("Unknown"),
        size,
        provider: String::from_str("generic"),
    }
}

/// A `Content-Length` header that holds a length in decimal gives that
/// length.
pub proof fn law_content_length_decimal(n: u64)
    ensures
        content_length_spec(Some(decimal(n as nat).map_values(|c: char| c as u8))) == Some(n),
{
    let d = decimal(n as nat);
    let b = d.map_values(|c: char| c as u8);
    lemma_decimal_digits(n as nat);
    assert forall|i: int| 0 <= i < b.len() implies is_visible_ascii(#[trigger] b[i]) by {
        assert(is_digit(d[i]));
    }
    assert forall|i: int| 0 <= i < d.len() implies #[trigger] ascii_chars(b)[i] == d[i] by {
        assert(is_digit(d[i]));
    }
    assert(ascii_chars(b) =~= d);
    law_decimal_parses_back(n);
}

} // verus!

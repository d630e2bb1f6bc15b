//! The download history: what is recorded for a download and how a
//! recorded entry is shown.
use vstd::prelude::*;
use vstd::utf8::{decode_utf8, encode_utf8, encode_utf8_decode_utf8, is_char_boundary};
use crate::error::DxcError;
use crate::media::MediaType;

verus! {

/// A download as the history stores it.
#[derive(Debug, Clone)]
pub struct HistoryEntry {
    pub id: i64,
    pub url: String,
    pub title: Option<String>,
    pub media_type: String,
    pub provider: String,
    pub file_path: Option<String>,
    pub created_at: String,
    pub success: bool,
}

/// A finished download: the source that served it, the title, and where
/// the file went.
#[derive(Debug, Clone)]
pub struct DownloadedMedia {
    pub provider: String,
    pub title: String,
    pub file_path: String,
}

/// What is written to the history for one download attempt.
#[derive(Debug, Clone)]
pub struct HistoryRecord {
    pub url: String,
    pub title: Option<String>,
    pub media_type: String,
    pub provider: String,
    pub file_path: Option<String>,
    pub success: bool,
}

/// How a history entry is listed: the date, whether it succeeded, and the
/// title (or URL) cut to fit.
#[derive(Debug, Clone)]
pub struct HistoryRow {
    pub date: String,
    pub success: bool,
    pub display: String,
}

/// The text of an optional string.
pub open spec fn opt_text(s: Option<String>) -> Option<Seq<char>> {
    match s {
        Some(t) => Some(t@),
        None => None,
    }
}

/// What the history records for an attempt to download `url` as `media`:
/// on success the source, title and file; on failure only the URL and the
/// media type, with the source `unknown`.
pub fn record_download(url: &str, media: MediaType, outcome: &Result<DownloadedMedia, DxcError>) -> (r:
    HistoryRecord)
    ensures
        r.url@ == url@,
        r.media_type@ == media.spec_label(),
        match outcome {
            Ok(d) => {
                &&& r.success
                &&& opt_text(r.title) == Some(d.title@)
                &&& r.provider@ == d.provider@
                &&& opt_text(r.file_path) == Some(d.file_path@)
            },
            Err(_) => {
                &&& !r.success
                &&& r.title is None
                &&& r.provider@ == "unknown"@
                &&& r.file_path is None
            },
        },
{
    let media_type = String::from_str(media.label());
    match outcome {
        Ok(d) => HistoryRecord {
            url: String::from_str(url),
            title: Some(d.title.clone()),
            media_type,
            provider: d.provider.clone(),
            file_path: Some(d.file_path.clone()),
            success: true,
        },
        Err(_) => HistoryRecord {
            url: String::from_str(url),
            title: None,
            media_type,
            provider: String::from_str("unknown"),
            file_path: None,
            success: false,
        },
    }
}

/// The text shown for an entry: its title, or its URL where it has none.
pub open spec fn display_source(e: HistoryEntry) -> Seq<char> {
    match e.title {
        Some(t) => t@,
        None => e.url@,
    }
}

/// The characters whose UTF-8 encoding is the first `n` bytes of that of
/// `s`.
pub open spec fn utf8_prefix(s: Seq<char>, n: int) -> Seq<char> {
    decode_utf8(encode_utf8(s).subrange(0, n))
}

/// The display text, cut to 39 bytes and an ellipsis where it is longer
/// than 40 bytes.
pub open spec fn display_text(d: Seq<char>) -> Seq<char> {
    if encode_utf8(d).len() > 40 {
        utf8_prefix(d, 39) + "…"@
    } else {
        d
    }
}

/// An entry can be listed: its timestamp has at least 19 bytes, and both
/// it and an over-long display text can be cut at a character boundary
/// where they are cut.
pub open spec fn listable(e: HistoryEntry) -> bool {
    &&& encode_utf8(e.created_at@).len() >= 19
    &&& is_char_boundary(encode_utf8(e.created_at@), 19)
    &&& encode_utf8(display_source(e)).len() > 40 ==> is_char_boundary(
        encode_utf8(display_source(e)),
        39,
    )
}

/// The first `n` bytes of `s` as text.
fn byte_prefix(s: &str, n: usize) -> (r: String)
    requires
        n <= encode_utf8(s@).len(),
        is_char_boundary(encode_utf8(s@), n as int),
    ensures
        r@ == utf8_prefix(s@, n as int),
{
    let (a, _b) = s.split_at(n);
    proof {
        encode_utf8_decode_utf8(a@);
    }
    a.to_owned()
}

/// How an entry is listed: the first 19 bytes of its timestamp (date and
/// time), whether it succeeded, and its title or URL, cut to 39 bytes and
/// an ellipsis where it is longer than 40 bytes.
pub fn history_row(entry: &HistoryEntry) -> (r: HistoryRow)
    requires
        listable(*entry),
    ensures
        r.date@ == utf8_prefix(entry.created_at@, 19),
        r.success == entry.success,
        r.display@ == display_text(display_source(*entry)),
{
    let date = byte_prefix(entry.created_at.as_str(), 19);
    let source: &str = match &entry.title {
        Some(t) => t.as_str(),
        None => entry.url.as_str(),
    };
    let display = if source.as_bytes().len() > 40 {
        byte_prefix(source, 39).concat("…")
    } else {
        source.to_owned()
    };
    HistoryRow { date, success: entry.success, display }
}

} // verus!

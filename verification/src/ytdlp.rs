//! The yt-dlp backend: its arguments and how its output is read.
use vstd::prelude::*;
use vstd::utf8::{decode_utf8, valid_utf8};
use crate::error::DxcError;
use crate::format::{bytes_text, duration_text, format_bytes, format_duration};
use crate::media::{MediaInfo, MediaType};
use crate::text::{push_string, trim, trimmed};

verus! {

/// What `String::from_utf8_lossy` gives for `bytes`.
pub uninterp spec fn utf8_lossy(bytes: Seq<u8>) -> Seq<char>;

/// `String::from_utf8_lossy`: the text that `bytes` encode, with every
/// invalid sequence replaced by U+FFFD. The contract names the result and
/// states only that valid UTF-8 is decoded as it is; which sequences are
/// replaced is not restated.
#[verifier::external_body]
fn from_utf8_lossy(bytes: &[u8]) -> (r: String)
    ensures
        r@ == utf8_lossy(bytes@),
        valid_utf8(bytes@) ==> r@ == decode_utf8(bytes@),
{
    String::from_utf8_lossy(bytes).into_owned()
}

/// What `Path::parent` gives for the path `p`.
pub uninterp spec fn path_parent(p: Seq<char>) -> Option<Seq<char>>;

/// `Path::new(p).parent()`: the path without its final component, or
/// `None` where the path ends in a root or is empty. The contract names
/// the result; how components are split is not restated.
#[verifier::external_body]
fn parent_of(p: &str) -> (r: Option<String>)
    ensures
        match path_parent(p@) {
            Some(d) => r matches Some(s) && s@ == d,
            None => r is None,
        },
{
    std::path::Path::new(p).parent().map(|d| d.to_string_lossy().into_owned())
}

/// The text, or `Unknown` where there is none.
pub open spec fn or_unknown(s: Option<Seq<char>>) -> Seq<char> {
    match s {
        Some(t) => t,
        None => "Unknown"@,
    }
}

/// What yt-dlp's description of a video is shown as: its title, duration
/// and approximate size, each `Unknown` where yt-dlp gave none.
pub open spec fn ytdlp_info_spec(
    title: Option<Seq<char>>,
    duration_secs: Option<u64>,
    filesize: Option<u64>,
) -> (Seq<char>, Seq<char>, Seq<char>) {
    (
        or_unknown(title),
        match duration_secs {
            Some(d) => duration_text(d as nat),
            None => "Unknown"@,
        },
        match filesize {
            Some(b) => bytes_text(b as nat),
            None => "Unknown"@,
        },
    )
}

/// The media information from yt-dlp's description: the title, the
/// duration in whole seconds and the approximate size in bytes. The
/// provider is `unknown` until a source names itself.
pub fn media_info_from_ytdlp(
    title: Option<String>,
    duration_secs: Option<u64>,
    filesize: Option<u64>,
) -> (m: MediaInfo)
    ensures
        (m.title@, m.duration@, m.size@) == ytdlp_info_spec(
            match title {
                Some(t) => Some(t@),
                None => None,
            },
            duration_secs,
            filesize,
        ),
        m.provider@ == "unknown"@,
{
    let duration = match duration_secs {
        Some(d) => format_duration(d),
        None => String::from_str("Unknown"),
    };
    let size = match filesize {
        Some(b) => format_bytes(b),
        None => String::from_str("Unknown"),
    };
    let title = match title {
        Some(t) => t,
        None => String::from_str("Unknown"),
    };
    MediaInfo { title, duration, size, provider: String::from_str("unknown") }
}

/// The arguments that ask yt-dlp to describe `url` without downloading it.
pub open spec fn info_args_spec(url: Seq<char>) -> Seq<Seq<char>> {
    seq!["--no-update"@, "--dump-json"@, "--no-download"@, url]
}

/// The arguments that ask yt-dlp to describe `url` without downloading it.
pub fn info_args(url: &str) -> (r: Vec<String>)
    ensures
        r.deep_view() == info_args_spec(url@),
{
    let mut r: Vec<String> = Vec::new();
    r.push(String::from_str("--no-update"));
    r.push(String::from_str("--dump-json"));
    r.push(String::from_str("--no-download"));
    r.push(String::from_str(url));
    assert(r.deep_view() =~= info_args_spec(url@));
    r
}

/// The directory yt-dlp downloads into for the output path `p`: its
/// parent, or `.` where it has none.
pub open spec fn download_dir_spec(p: Seq<char>) -> Seq<char> {
    match path_parent(p) {
        Some(d) => d,
        None => "."@,
    }
}

/// The format arguments of a download: audio is extracted and converted to
/// mp3; video and images are merged into mp4.
pub open spec fn format_args_spec(media: MediaType) -> Seq<Seq<char>> {
    match media {
        MediaType::Audio => seq!["-x"@, "--audio-format"@, "mp3"@],
        _ => seq!["--merge-output-format"@, "mp4"@],
    }
}

/// The arguments that make yt-dlp download `url` into `dir` in the format
/// for `media` (named after the title, one video only), print where the
/// file went, with `extra` arguments before the URL.
pub open spec fn download_args_spec(
    url: Seq<char>,
    dir: Seq<char>,
    media: MediaType,
    extra: Seq<Seq<char>>,
) -> Seq<Seq<char>> {
    seq!["--no-update"@] + format_args_spec(media) + seq![
        "-o"@,
        dir + "/%(title)s.%(ext)s"@,
        "--print"@,
        "after_move:filepath"@,
        "--no-playlist"@,
    ] + extra + seq![url]
}

/// The download arguments for a known target directory.
pub fn download_args_in_dir(url: &str, dir: &str, media: MediaType, extra: &Vec<String>) -> (r:
    Vec<String>)
    ensures
        r.deep_view() == download_args_spec(url@, dir@, media, extra.deep_view()),
{
    let mut r: Vec<String> = Vec::new();
    push_string(&mut r, String::from_str("--no-update"));
    match media {
        MediaType::Audio => {
            push_string(&mut r, String::from_str("-x"));
            push_string(&mut r, String::from_str("--audio-format"));
            push_string(&mut r, String::from_str("mp3"));
        },
        _ => {
            push_string(&mut r, String::from_str("--merge-output-format"));
            push_string(&mut r, String::from_str("mp4"));
        },
    }
    assert(r.deep_view() =~= seq!["--no-update"@] + format_args_spec(media));
    push_string(&mut r, String::from_str("-o"));
    push_string(&mut r, String::from_str(dir).concat("/%(title)s.%(ext)s"));
    push_string(&mut r, String::from_str("--print"));
    push_string(&mut r, String::from_str("after_move:filepath"));
    push_string(&mut r, String::from_str("--no-playlist"));
    let ghost head = r.deep_view();
    assert(head =~= seq!["--no-update"@] + format_args_spec(media) + seq![
        "-o"@,
        dir@ + "/%(title)s.%(ext)s"@,
        "--print"@,
        "after_move:filepath"@,
        "--no-playlist"@,
    ]);
    let mut i: usize = 0;
    while i < extra.len()
        invariant
            i <= extra@.len(),
            r.deep_view() == head + extra.deep_view().subrange(0, i as int),
        decreases extra.len() - i,
    {
        push_string(&mut r, extra[i].clone());
        assert(extra.deep_view().subrange(0, i + 1) =~= extra.deep_view().subrange(0, i as int).push(
            extra@[i as int]@,
        ));
        assert(r.deep_view() =~= head + extra.deep_view().subrange(0, i + 1));
        i = i + 1;
    }
    push_string(&mut r, String::from_str(url));
    assert(extra.deep_view().subrange(0, extra@.len() as int) =~= extra.deep_view());
    assert(r.deep_view() =~= download_args_spec(url@, dir@, media, extra.deep_view()));
    r
}

/// The arguments that make yt-dlp download `url` as `media` next to
/// `output_path`.
pub fn download_args(url: &str, output_path: &str, media: MediaType, extra: &Vec<String>) -> (r:
    Vec<String>)
    ensures
        r.deep_view() == download_args_spec(
            url@,
            download_dir_spec(output_path@),
            media,
            extra.deep_view(),
        ),
{
    let dir = match parent_of(output_path) {
        Some(d) => d,
        None => String::from_str("."),
    };
    download_args_in_dir(url, dir.as_str(), media, extra)
}

/// An audio download asks yt-dlp to extract the audio as mp3; any other
/// download asks for the streams merged into mp4.
pub proof fn law_audio_is_extracted(url: Seq<char>, dir: Seq<char>, media: MediaType, extra: Seq<Seq<char>>)
    ensures
        media == MediaType::Audio ==> download_args_spec(url, dir, media, extra).subrange(1, 4)
            == seq!["-x"@, "--audio-format"@, "mp3"@],
        media != MediaType::Audio ==> download_args_spec(url, dir, media, extra).subrange(1, 3)
            == seq!["--merge-output-format"@, "mp4"@],
{
    let a = download_args_spec(url, dir, media, extra);
    if media == MediaType::Audio {
        assert(a.subrange(1, 4) =~= seq!["-x"@, "--audio-format"@, "mp3"@]);
    } else {
        assert(a.subrange(1, 3) =~= seq!["--merge-output-format"@, "mp4"@]);
    }
}

/// The error for a yt-dlp that could not be started, with the reason.
pub fn ytdlp_not_found(reason: &str) -> (e: DxcError)
    ensures
        e matches DxcError::Other(m) && m@ == "yt-dlp not found: "@ + reason@,
{
    DxcError::Other(String::from_str("yt-dlp not found: ").concat(reason))
}

/// What yt-dlp's description of `url` gives: an error where yt-dlp failed
/// or its output did not parse (with the parser's reason), else the media
/// information from the parsed title, duration in whole seconds and size.
pub fn info_outcome(
    success: bool,
    parsed: Result<(Option<String>, Option<u64>, Option<u64>), String>,
) -> (r: Result<MediaInfo, DxcError>)
    ensures
        !success ==> (r matches Err(DxcError::Other(m)) && m@ == "yt-dlp failed to fetch info"@),
        success ==> match parsed {
            Ok((title, duration, size)) => r matches Ok(info) && (
                info.title@,
                info.duration@,
                info.size@,
            ) == ytdlp_info_spec(
                match title {
                    Some(t) => Some(t@),
                    None => None,
                },
                duration,
                size,
            ) && info.provider@ == "unknown"@,
            Err(reason) => r matches Err(DxcError::Other(m)) && m@
                == "Failed to parse yt-dlp output: "@ + reason@,
        },
{
    if !success {
        return Err(DxcError::Other(String::from_str("yt-dlp failed to fetch info")));
    }
    match parsed {
        Ok((title, duration, size)) => Ok(media_info_from_ytdlp(title, duration, size)),
        Err(reason) => Err(
            DxcError::Other(String::from_str("Failed to parse yt-dlp output: ").concat(reason.as_str())),
        ),
    }
}

/// The outcome of a yt-dlp download from whether it succeeded and the text
/// it printed.
pub fn download_outcome_from_text(success: bool, printed: &str) -> (r: Result<String, DxcError>)
    ensures
        !success ==> (r matches Err(DxcError::DownloadFailed(m)) && m@
            == "yt-dlp download failed"@),
        success && trimmed(printed@).len() == 0 ==> (r matches Err(DxcError::DownloadFailed(m))
            && m@ == "yt-dlp returned no output path"@),
        success && trimmed(printed@).len() > 0 ==> (r matches Ok(p) && p@ == trimmed(printed@)),
{
    if success {
        let path = trim(printed);
        if path.as_str().is_empty() {
            Err(DxcError::DownloadFailed(String::from_str("yt-dlp returned no output path")))
        } else {
            Ok(path)
        }
    } else {
        Err(DxcError::DownloadFailed(String::from_str("yt-dlp download failed")))
    }
}

/// The outcome of a yt-dlp download from whether it succeeded and the bytes
/// it printed (read as UTF-8, invalid sequences replaced).
pub fn download_outcome(success: bool, stdout: &[u8]) -> (r: Result<String, DxcError>)
    ensures
        !success ==> (r matches Err(DxcError::DownloadFailed(m)) && m@
            == "yt-dlp download failed"@),
        success && trimmed(utf8_lossy(stdout@)).len() == 0 ==> (r matches Err(
            DxcError::DownloadFailed(m),
        ) && m@ == "yt-dlp returned no output path"@),
        success && trimmed(utf8_lossy(stdout@)).len() > 0 ==> (r matches Ok(p) && p@ == trimmed(
            utf8_lossy(stdout@),
        )),
{
    let text = from_utf8_lossy(stdout);
    download_outcome_from_text(success, text.as_str())
}

} // verus!

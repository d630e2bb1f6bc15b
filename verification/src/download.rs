//! Where downloads are written, and which leftovers are cleared.
use vstd::prelude::*;
use crate::converter::{conversion_outcome, ffmpeg_args, output_of, plan_for_format, ConversionPlan};
use crate::error::DxcError;
use crate::media::MediaType;
use crate::provider::{kind_backend, Backend, ProviderKind};
use crate::ytdlp::format_args_spec;
use crate::path::{law_sanitize, sanitize_filename, sanitized, url_file_name, url_file_name_spec};
use crate::text::{chars_of, lemma_rfind, range_eq, rfind, rfind_char, str_eq};

verus! {

/// The subdirectory of the download directory for a media type.
pub open spec fn media_subdir(m: MediaType) -> Seq<char> {
    match m {
        MediaType::Video => "/videos"@,
        MediaType::Audio => "/audio"@,
        MediaType::Image => "/images"@,
    }
}

/// The directory that media of type `media` is downloaded into.
pub fn download_dir(download_path: &str, media: MediaType) -> (r: String)
    ensures
        r@ == download_path@ + media_subdir(media),
{
    let sub = match media {
        MediaType::Video => "/videos",
        MediaType::Audio => "/audio",
        MediaType::Image => "/images",
    };
    String::from_str(download_path).concat(sub)
}

/// The file that a download of `url` as `media` is written to: the media
/// type's directory, and the file name the URL names with unsafe characters
/// replaced.
pub open spec fn output_path_spec(download_path: Seq<char>, media: MediaType, url: Seq<char>) -> Seq<
    char,
> {
    download_path + media_subdir(media) + "/"@ + sanitized(url_file_name_spec(url))
}

/// The file that a download of `url` as `media` is written to.
pub fn download_output_path(download_path: &str, media: MediaType, url: &str) -> (r: String)
    ensures
        r@ == output_path_spec(download_path@, media, url@),
{
    let name = sanitize_filename(url_file_name(url).as_str());
    download_dir(download_path, media).concat("/").concat(name.as_str())
}

/// `name` is a file that an interrupted download left behind: its
/// extension (what follows its last `.`, where something precedes that
/// `.`) is `part`.
pub open spec fn is_partial_file(name: Seq<char>) -> bool {
    match rfind(name, '.') {
        Some(i) => i > 0 && name.subrange(i + 1, name.len() as int) == seq!['p', 'a', 'r', 't'],
        None => false,
    }
}

/// Whether the file named `file_name` was left behind by an interrupted
/// download.
pub fn is_partial_download(file_name: &str) -> (r: bool)
    ensures
        r == is_partial_file(file_name@),
{
    let v = chars_of(file_name);
    let n = v.len();
    proof {
        lemma_rfind(v@, '.');
    }
    match rfind_char(&v, '.') {
        Some(i) => {
            if i == 0 {
                false
            } else {
                let mut part: Vec<char> = Vec::new();
                part.push('p');
                part.push('a');
                part.push('r');
                part.push('t');
                assert(part@ == seq!['p', 'a', 'r', 't']);
                range_eq(&v, i + 1, n, &part)
            }
        },
        None => false,
    }
}

/// An audio download from a source that does not extract audio itself (the
/// generic and Reddit sources, whose files are saved as served) is
/// converted to mp3 afterwards, unless the file already is the mp3 that the
/// conversion would write.
pub open spec fn needs_audio_extraction(kind: ProviderKind, media: MediaType, file: Seq<char>) -> bool {
    &&& media == MediaType::Audio
    &&& kind_backend(kind) != Backend::YtDlp
    &&& output_of(file, "mp3"@) != file
}

/// The ffmpeg conversion that follows a download of `file` from `kind` as
/// `media`: an mp3 extraction where `needs_audio_extraction` holds, else
/// none.
pub fn audio_extraction_plan(kind: ProviderKind, media: MediaType, file: &str) -> (r: Option<
    ConversionPlan,
>)
    ensures
        needs_audio_extraction(kind, media, file@) ==> (r matches Some(p) && p.output@ == output_of(
            file@,
            "mp3"@,
        ) && p.args.deep_view() == ffmpeg_args(file@, "mp3"@)),
        !needs_audio_extraction(kind, media, file@) ==> r is None,
{
    let is_audio = match media {
        MediaType::Audio => true,
        _ => false,
    };
    let own_extraction = match kind.backend() {
        Backend::YtDlp => true,
        _ => false,
    };
    if !is_audio || own_extraction {
        return None;
    }
    let plan = plan_for_format(file, "mp3");
    if str_eq(plan.output.as_str(), file) {
        None
    } else {
        Some(plan)
    }
}

/// The file an audio download ends with after its extraction ran: the mp3
/// where ffmpeg succeeded, else a conversion error.
pub fn audio_extraction_outcome(success: bool, output: String) -> (r: Result<String, DxcError>)
    ensures
        success ==> r == Ok::<String, DxcError>(output),
        !success ==> (r matches Err(DxcError::ConversionFailed(m)) && m@ == "Conversion failed"@),
{
    match conversion_outcome(success, output) {
        Ok(o) => Ok(o),
        Err(m) => Err(DxcError::ConversionFailed(m)),
    }
}

/// Every audio download ends as audio: a source that goes through yt-dlp
/// asks it to extract the audio, and any other source's file (unless it
/// already is the mp3) is converted by ffmpeg with no video and the mp3
/// codec.
pub proof fn law_audio_downloads_extract_audio(kind: ProviderKind, file: Seq<char>)
    ensures
        kind_backend(kind) == Backend::YtDlp ==> format_args_spec(MediaType::Audio) == seq![
            "-x"@,
            "--audio-format"@,
            "mp3"@,
        ],
        needs_audio_extraction(kind, MediaType::Audio, file) ==> ffmpeg_args(file, "mp3"@).subrange(
            3,
            8,
        ) == seq!["-vn"@, "-acodec"@, "libmp3lame"@, "-q:a"@, "2"@],
        kind_backend(kind) != Backend::YtDlp && output_of(file, "mp3"@) != file
            ==> needs_audio_extraction(kind, MediaType::Audio, file),
{
    assert(ffmpeg_args(file, "mp3"@).subrange(3, 8) =~= seq![
        "-vn"@,
        "-acodec"@,
        "libmp3lame"@,
        "-q:a"@,
        "2"@,
    ]);
}

/// A download stays inside the directory of its media type: the output
/// path is that directory, a `/`, and a file name that holds no `/`.
pub proof fn law_output_in_media_dir(download_path: Seq<char>, media: MediaType, url: Seq<char>)
    ensures
        output_path_spec(download_path, media, url) == download_path + media_subdir(media) + "/"@
            + sanitized(url_file_name_spec(url)),
        forall|i: int|
            0 <= i < sanitized(url_file_name_spec(url)).len() ==> #[trigger] sanitized(
                url_file_name_spec(url),
            )[i] != '/',
{
    law_sanitize(url_file_name_spec(url));
}

/// Videos, audio and images go to the subdirectories `videos`, `audio` and
/// `images` of the download directory.
pub proof fn law_media_subdirs()
    ensures
        media_subdir(MediaType::Video) =~= seq!['/', 'v', 'i', 'd', 'e', 'o', 's'],
        media_subdir(MediaType::Audio) =~= seq!['/', 'a', 'u', 'd', 'i', 'o'],
        media_subdir(MediaType::Image) =~= seq!['/', 'i', 'm', 'a', 'g', 'e', 's'],
{
    reveal_strlit("/videos");
    reveal_strlit("/audio");
    reveal_strlit("/images");
}

/// A file is a leftover of an interrupted download exactly when its name
/// is a non-empty stem followed by `.part`.
pub proof fn law_partial_files(stem: Seq<char>, name: Seq<char>)
    ensures
        stem.len() > 0 ==> is_partial_file(stem + seq!['.', 'p', 'a', 'r', 't']),
        is_partial_file(name) ==> name.len() >= 6 && name.subrange(name.len() - 5, name.len() as int)
            == seq!['.', 'p', 'a', 'r', 't'],
{
    let n = stem + seq!['.', 'p', 'a', 'r', 't'];
    lemma_rfind(n, '.');
    match rfind(n, '.') {
        Some(i) => {
            if i < stem.len() {
                assert(n[stem.len() as int] == '.');
            } else if i > stem.len() {
                assert(n[i] == seq!['.', 'p', 'a', 'r', 't'][i - stem.len()]);
            }
            assert(n.subrange(i + 1, n.len() as int) =~= seq!['p', 'a', 'r', 't']);
        },
        None => {
            assert(n[stem.len() as int] == '.');
        },
    }
    lemma_rfind(name, '.');
    if is_partial_file(name) {
        let i = rfind(name, '.')->0;
        assert(name.subrange(i + 1, name.len() as int).len() == 4);
        assert(name.subrange(name.len() - 5, name.len() as int) =~= seq!['.', 'p', 'a', 'r', 't'])
            by {
            assert(i == name.len() - 5);
            assert forall|k: int| 0 <= k < 4 implies name[i + 1 + k] == seq!['p', 'a', 'r', 't'][k]
                by {
                assert(name.subrange(i + 1, name.len() as int)[k] == name[i + 1 + k]);
            }
        }
    }
}

} // verus!

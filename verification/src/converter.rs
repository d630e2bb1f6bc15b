//! How a media file is converted with ffmpeg: the output file and the
//! command-line arguments.
use vstd::prelude::*;
use crate::path::{strip_extension, without_extension};
use crate::text::str_eq;
use vstd::utf8::is_ascii_chars;

verus! {

/// What to convert and into which format.
#[derive(Debug, Clone)]
pub struct ConversionOptions {
    pub input: String,
    pub output_format: String,
}

/// The file that a conversion writes and the arguments that ffmpeg gets.
#[derive(Debug, Clone)]
pub struct ConversionPlan {
    pub output: String,
    pub args: Vec<String>,
}

/// What `str::to_lowercase` gives for `s` (Unicode lower case).
pub uninterp spec fn lowercase(s: Seq<char>) -> Seq<char>;

/// The lower case of an ASCII character.
pub open spec fn ascii_lower(c: char) -> char {
    if 'A' <= c && c <= 'Z' {
        ((c as int) + 32) as char
    } else {
        c
    }
}

/// The lower-case form of `s`, by `str::to_lowercase`: every character
/// mapped to its Unicode lower case. The contract names the result and
/// states it for ASCII text, where each letter is lowered on its own; it
/// does not restate Unicode case mapping beyond ASCII.
#[verifier::external_body]
fn to_lowercase(s: &str) -> (r: String)
    ensures
        r@ == lowercase(s@),
        is_ascii_chars(s@) ==> r@ == s@.map_values(|c: char| ascii_lower(c)),
{
    s.to_lowercase()
}

/// The audio formats: these are converted without video and with their
/// own codec.
pub open spec fn is_audio_format(fmt: Seq<char>) -> bool {
    fmt == "mp3"@ || fmt == "aac"@ || fmt == "ogg"@ || fmt == "wav"@ || fmt == "flac"@ || fmt
        == "opus"@ || fmt == "m4a"@
}

/// The codec arguments of an audio format.
pub open spec fn codec_args(fmt: Seq<char>) -> Seq<Seq<char>> {
    if fmt == "mp3"@ {
        seq!["libmp3lame"@, "-q:a"@, "2"@]
    } else if fmt == "aac"@ {
        seq!["aac"@, "-b:a"@, "192k"@]
    } else if fmt == "ogg"@ {
        seq!["libvorbis"@, "-q:a"@, "4"@]
    } else if fmt == "flac"@ {
        seq!["flac"@]
    } else if fmt == "opus"@ {
        seq!["libopus"@, "-b:a"@, "128k"@]
    } else if fmt == "wav"@ {
        seq!["pcm_s16le"@]
    } else if fmt == "m4a"@ {
        seq!["aac"@, "-b:a"@, "192k"@]
    } else {
        seq!["copy"@]
    }
}

/// The file a conversion of `input` into `fmt` writes: `input` with its
/// extension replaced by `fmt`.
pub open spec fn output_of(input: Seq<char>, fmt: Seq<char>) -> Seq<char> {
    without_extension(input) + "."@ + fmt
}

/// The ffmpeg arguments that convert `input` into `fmt`: the input,
/// overwriting allowed, for audio no video and the format's codec, then the
/// output file.
pub open spec fn ffmpeg_args(input: Seq<char>, fmt: Seq<char>) -> Seq<Seq<char>> {
    seq!["-i"@, input, "-y"@] + (if is_audio_format(fmt) {
        seq!["-vn"@, "-acodec"@] + codec_args(fmt)
    } else {
        Seq::empty()
    }) + seq![output_of(input, fmt)]
}

fn push_arg(args: &mut Vec<String>, a: &str)
    ensures
        final(args).deep_view() == old(args).deep_view().push(a@),
{
    args.push(String::from_str(a));
    assert(args.deep_view() =~= old(args).deep_view().push(a@));
}

/// The plan for converting `input` into the format `fmt`, given in lower
/// case.
pub fn plan_for_format(input: &str, fmt: &str) -> (p: ConversionPlan)
    ensures
        p.output@ == output_of(input@, fmt@),
        p.args.deep_view() == ffmpeg_args(input@, fmt@),
{
    let output = strip_extension(input).concat(".").concat(fmt);
    let mut args: Vec<String> = Vec::new();
    push_arg(&mut args, "-i");
    push_arg(&mut args, input);
    push_arg(&mut args, "-y");
    let ghost head = args.deep_view();
    let is_audio = str_eq(fmt, "mp3") || str_eq(fmt, "aac") || str_eq(fmt, "ogg") || str_eq(
        fmt,
        "wav",
    ) || str_eq(fmt, "flac") || str_eq(fmt, "opus") || str_eq(fmt, "m4a");
    if is_audio {
        push_arg(&mut args, "-vn");
        push_arg(&mut args, "-acodec");
        if str_eq(fmt, "mp3") {
            push_arg(&mut args, "libmp3lame");
            push_arg(&mut args, "-q:a");
            push_arg(&mut args, "2");
        } else if str_eq(fmt, "aac") {
            push_arg(&mut args, "aac");
            push_arg(&mut args, "-b:a");
            push_arg(&mut args, "192k");
        } else if str_eq(fmt, "ogg") {
            push_arg(&mut args, "libvorbis");
            push_arg(&mut args, "-q:a");
            push_arg(&mut args, "4");
        } else if str_eq(fmt, "flac") {
            push_arg(&mut args, "flac");
        } else if str_eq(fmt, "opus") {
            push_arg(&mut args, "libopus");
            push_arg(&mut args, "-b:a");
            push_arg(&mut args, "128k");
        } else if str_eq(fmt, "wav") {
            push_arg(&mut args, "pcm_s16le");
        } else if str_eq(fmt, "m4a") {
            push_arg(&mut args, "aac");
            push_arg(&mut args, "-b:a");
            push_arg(&mut args, "192k");
        } else {
            push_arg(&mut args, "copy");
        }
        assert(args.deep_view() == head + (seq!["-vn"@, "-acodec"@] + codec_args(fmt@)));
    } else {
        assert(args.deep_view() == head + Seq::<Seq<char>>::empty());
    }
    let ghost mid = args.deep_view();
    args.push(output.clone());
    assert(args.deep_view() =~= mid.push(output@));
    assert(args.deep_view() =~= ffmpeg_args(input@, fmt@));
    ConversionPlan { output, args }
}

/// The plan for a conversion: the output format is taken in lower case.
pub fn conversion_plan(options: &ConversionOptions) -> (p: ConversionPlan)
    ensures
        p.output@ == output_of(options.input@, lowercase(options.output_format@)),
        p.args.deep_view() == ffmpeg_args(options.input@, lowercase(options.output_format@)),
        is_ascii_chars(options.output_format@) ==> lowercase(options.output_format@)
            == options.output_format@.map_values(|c: char| ascii_lower(c)),
{
    let fmt = to_lowercase(options.output_format.as_str());
    plan_for_format(options.input.as_str(), fmt.as_str())
}

/// What a run of ffmpeg gives: the output file where it succeeded, else
/// the message `Conversion failed`.
pub fn conversion_outcome(success: bool, output: String) -> (r: Result<String, String>)
    ensures
        success ==> r == Ok::<String, String>(output),
        !success ==> (r matches Err(m) && m@ == "Conversion failed"@),
{
    if success {
        Ok(output)
    } else {
        Err(String::from_str("Conversion failed"))
    }
}

/// The message for an ffmpeg that could not be started, with the reason.
pub fn ffmpeg_not_run(reason: &str) -> (m: String)
    ensures
        m@ == "Failed to run ffmpeg: "@ + reason@,
{
    String::from_str("Failed to run ffmpeg: ").concat(reason)
}


/// The ffmpeg arguments of every format: the input, overwriting allowed,
/// and for each audio format no video and that format's own codec, then the
/// output file, which is the input with its extension replaced by the
/// format; any other format is written with no codec arguments.
pub proof fn law_ffmpeg_args_by_format(input: Seq<char>, fmt: Seq<char>)
    ensures
        ffmpeg_args(input, "mp3"@) == seq!["-i"@, input, "-y"@, "-vn"@, "-acodec"@, "libmp3lame"@, "-q:a"@, "2"@, without_extension(input) + "."@ + "mp3"@],
        ffmpeg_args(input, "aac"@) == seq!["-i"@, input, "-y"@, "-vn"@, "-acodec"@, "aac"@, "-b:a"@, "192k"@, without_extension(input) + "."@ + "aac"@],
        ffmpeg_args(input, "ogg"@) == seq!["-i"@, input, "-y"@, "-vn"@, "-acodec"@, "libvorbis"@, "-q:a"@, "4"@, without_extension(input) + "."@ + "ogg"@],
        ffmpeg_args(input, "wav"@) == seq!["-i"@, input, "-y"@, "-vn"@, "-acodec"@, "pcm_s16le"@, without_extension(input) + "."@ + "wav"@],
        ffmpeg_args(input, "flac"@) == seq!["-i"@, input, "-y"@, "-vn"@, "-acodec"@, "flac"@, without_extension(input) + "."@ + "flac"@],
        ffmpeg_args(input, "opus"@) == seq!["-i"@, input, "-y"@, "-vn"@, "-acodec"@, "libopus"@, "-b:a"@, "128k"@, without_extension(input) + "."@ + "opus"@],
        ffmpeg_args(input, "m4a"@) == seq!["-i"@, input, "-y"@, "-vn"@, "-acodec"@, "aac"@, "-b:a"@, "192k"@, without_extension(input) + "."@ + "m4a"@],
        fmt != "mp3"@ && fmt != "aac"@ && fmt != "ogg"@ && fmt != "wav"@ && fmt != "flac"@ && fmt != "opus"@ && fmt != "m4a"@ ==> ffmpeg_args(input, fmt) == seq!["-i"@, input, "-y"@, without_extension(input) + "."@ + fmt],
{
    reveal_strlit("mp3");
    reveal_strlit("aac");
    reveal_strlit("ogg");
    reveal_strlit("wav");
    reveal_strlit("flac");
    reveal_strlit("opus");
    reveal_strlit("m4a");
    reveal_strlit(".");
    assert("mp3"@[0] != "aac"@[0]);
    assert("mp3"@[0] != "ogg"@[0]);
    assert("mp3"@[0] != "wav"@[0]);
    assert("mp3"@.len() != "flac"@.len());
    assert("mp3"@.len() != "opus"@.len());
    assert("mp3"@[1] != "m4a"@[1]);
    assert("aac"@[0] != "ogg"@[0]);
    assert("aac"@[0] != "wav"@[0]);
    assert("aac"@.len() != "flac"@.len());
    assert("aac"@.len() != "opus"@.len());
    assert("aac"@[0] != "m4a"@[0]);
    assert("ogg"@[0] != "wav"@[0]);
    assert("ogg"@.len() != "flac"@.len());
    assert("ogg"@.len() != "opus"@.len());
    assert("ogg"@[0] != "m4a"@[0]);
    assert("wav"@.len() != "flac"@.len());
    assert("wav"@.len() != "opus"@.len());
    assert("wav"@[0] != "m4a"@[0]);
    assert("flac"@[0] != "opus"@[0]);
    assert("flac"@.len() != "m4a"@.len());
    assert("opus"@.len() != "m4a"@.len());
    assert(ffmpeg_args(input, "mp3"@) =~= seq!["-i"@, input, "-y"@, "-vn"@, "-acodec"@, "libmp3lame"@, "-q:a"@, "2"@, without_extension(input) + "."@ + "mp3"@]);
    assert(ffmpeg_args(input, "aac"@) =~= seq!["-i"@, input, "-y"@, "-vn"@, "-acodec"@, "aac"@, "-b:a"@, "192k"@, without_extension(input) + "."@ + "aac"@]);
    assert(ffmpeg_args(input, "ogg"@) =~= seq!["-i"@, input, "-y"@, "-vn"@, "-acodec"@, "libvorbis"@, "-q:a"@, "4"@, without_extension(input) + "."@ + "ogg"@]);
    assert(ffmpeg_args(input, "wav"@) =~= seq!["-i"@, input, "-y"@, "-vn"@, "-acodec"@, "pcm_s16le"@, without_extension(input) + "."@ + "wav"@]);
    assert(ffmpeg_args(input, "flac"@) =~= seq!["-i"@, input, "-y"@, "-vn"@, "-acodec"@, "flac"@, without_extension(input) + "."@ + "flac"@]);
    assert(ffmpeg_args(input, "opus"@) =~= seq!["-i"@, input, "-y"@, "-vn"@, "-acodec"@, "libopus"@, "-b:a"@, "128k"@, without_extension(input) + "."@ + "opus"@]);
    assert(ffmpeg_args(input, "m4a"@) =~= seq!["-i"@, input, "-y"@, "-vn"@, "-acodec"@, "aac"@, "-b:a"@, "192k"@, without_extension(input) + "."@ + "m4a"@]);
    if fmt != "mp3"@ && fmt != "aac"@ && fmt != "ogg"@ && fmt != "wav"@ && fmt != "flac"@ && fmt != "opus"@ && fmt != "m4a"@ {
        assert(ffmpeg_args(input, fmt) =~= seq!["-i"@, input, "-y"@, without_extension(input) + "."@ + fmt]);
    }
}

} // verus!

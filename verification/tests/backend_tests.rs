use dxc::converter::{conversion_plan, plan_for_format, ConversionOptions};
use dxc::ytdlp::{
    download_args, download_args_in_dir, download_outcome, download_outcome_from_text, info_args,
    info_outcome, ytdlp_not_found,
};
use dxc::{
    content_length, download_total, first_post, generic_media_info, media_info_from_ytdlp,
    reddit_download_plan, reddit_download_url, reddit_info_url, reddit_media_info,
    reddit_video_path, with_provider, conversion_outcome, ffmpeg_not_run, DxcError, MediaType,
    ProviderKind, RedditDownload, RedditPost, RedditVideo,
};

fn strs(v: &[String]) -> Vec<&str> {
    v.iter().map(|s| s.as_str()).collect()
}

#[test]
fn conversion_plan_audio() {
    let p = plan_for_format("song.wav", "mp3");
    assert_eq!(p.output, "song.mp3");
    assert_eq!(
        strs(&p.args),
        vec!["-i", "song.wav", "-y", "-vn", "-acodec", "libmp3lame", "-q:a", "2", "song.mp3"]
    );
    let p = plan_for_format("a.b/c.ogg", "flac");
    assert_eq!(strs(&p.args), vec!["-i", "a.b/c.ogg", "-y", "-vn", "-acodec", "flac", "a.b/c.flac"]);
    let p = plan_for_format("x", "m4a");
    assert_eq!(strs(&p.args), vec!["-i", "x", "-y", "-vn", "-acodec", "aac", "-b:a", "192k", "x.m4a"]);
}

#[test]
fn conversion_plan_video() {
    let p = plan_for_format("clip.mkv", "mp4");
    assert_eq!(p.output, "clip.mp4");
    assert_eq!(strs(&p.args), vec!["-i", "clip.mkv", "-y", "clip.mp4"]);
}

#[test]
fn conversion_plan_lowercases_format() {
    let p = conversion_plan(&ConversionOptions { input: "v.webm".into(), output_format: "OPUS".into() });
    assert_eq!(p.output, "v.opus");
    assert_eq!(
        strs(&p.args),
        vec!["-i", "v.webm", "-y", "-vn", "-acodec", "libopus", "-b:a", "128k", "v.opus"]
    );
}

#[test]
fn ytdlp_info_and_args() {
    let m = media_info_from_ytdlp(Some("Title".into()), Some(3661), Some(1536));
    assert_eq!(m.title, "Title");
    assert_eq!(m.duration, "1:01:01");
    assert_eq!(m.size, "1.50 KB");
    assert_eq!(m.provider, "unknown");
    let m = media_info_from_ytdlp(None, None, None);
    assert_eq!((m.title.as_str(), m.duration.as_str(), m.size.as_str()), ("Unknown", "Unknown", "Unknown"));
    assert_eq!(strs(&info_args("U")), vec!["--no-update", "--dump-json", "--no-download", "U"]);
}

#[test]
fn ytdlp_download_args_use_parent_dir() {
    let a = download_args("U", "/dl/videos/watch", MediaType::Video, &vec![]);
    assert_eq!(
        strs(&a),
        vec![
            "--no-update", "--merge-output-format", "mp4", "-o", "/dl/videos/%(title)s.%(ext)s",
            "--print", "after_move:filepath", "--no-playlist", "U"
        ]
    );
    let a = download_args("U", "/", MediaType::Image, &vec!["--x".to_string(), "y".to_string()]);
    assert_eq!(a[4], "./%(title)s.%(ext)s");
    assert_eq!(strs(&a[8..]), vec!["--x", "y", "U"]);
    let a = download_args_in_dir("U", "d", MediaType::Video, &vec![]);
    assert_eq!(a[4], "d/%(title)s.%(ext)s");
}

#[test]
fn ytdlp_audio_downloads_extract_audio() {
    let a = download_args("U", "/dl/audio/track", MediaType::Audio, &vec![]);
    assert_eq!(
        strs(&a),
        vec![
            "--no-update", "-x", "--audio-format", "mp3", "-o", "/dl/audio/%(title)s.%(ext)s",
            "--print", "after_move:filepath", "--no-playlist", "U"
        ]
    );
    assert!(!a.iter().any(|s| s == "--merge-output-format"));
}

#[test]
fn ytdlp_info_outcomes() {
    let ok = info_outcome(true, Ok((Some("T".to_string()), Some(61), Some(2048)))).unwrap();
    assert_eq!((ok.title.as_str(), ok.duration.as_str(), ok.size.as_str(), ok.provider.as_str()), ("T", "1:01", "2.00 KB", "unknown"));
    match info_outcome(false, Ok((None, None, None))) {
        Err(DxcError::Other(m)) => assert_eq!(m, "yt-dlp failed to fetch info"),
        _ => panic!("expected an error"),
    }
    match info_outcome(true, Err("bad json".to_string())) {
        Err(DxcError::Other(m)) => assert_eq!(m, "Failed to parse yt-dlp output: bad json"),
        _ => panic!("expected an error"),
    }
    match ytdlp_not_found("no such file") {
        DxcError::Other(m) => assert_eq!(m, "yt-dlp not found: no such file"),
        _ => panic!("expected Other"),
    }
}

#[test]
fn conversion_outcomes() {
    assert_eq!(conversion_outcome(true, "a.mp3".to_string()), Ok("a.mp3".to_string()));
    assert_eq!(conversion_outcome(false, "a.mp3".to_string()), Err("Conversion failed".to_string()));
    assert_eq!(ffmpeg_not_run("missing"), "Failed to run ffmpeg: missing");
}

#[test]
fn provider_attribution() {
    let m = media_info_from_ytdlp(Some("T".into()), None, Some(1));
    let m = with_provider(m, ProviderKind::SoundCloud);
    assert_eq!((m.title.as_str(), m.duration.as_str(), m.size.as_str(), m.provider.as_str()), ("T", "Unknown", "1.00 B", "soundcloud"));
}

#[test]
fn ytdlp_download_outcomes() {
    assert_eq!(download_outcome(true, b"  /tmp/a.mp4\n").unwrap(), "/tmp/a.mp4");
    match download_outcome(true, b" \n\t") {
        Err(DxcError::DownloadFailed(m)) => assert_eq!(m, "yt-dlp returned no output path"),
        _ => panic!("expected an error"),
    }
    match download_outcome(false, b"/tmp/a.mp4") {
        Err(DxcError::DownloadFailed(m)) => assert_eq!(m, "yt-dlp download failed"),
        _ => panic!("expected an error"),
    }
    // an invalid byte is replaced, not dropped
    assert_eq!(download_outcome(true, b"a\xffb\n").unwrap(), "a\u{fffd}b");
    assert_eq!(download_outcome_from_text(true, "\u{3000}x y\u{2029}").unwrap(), "x y");
}

#[test]
fn generic_headers() {
    assert_eq!(content_length(Some(b"1024")), Some(1024));
    assert_eq!(content_length(Some(b"+5")), Some(5));
    assert_eq!(content_length(Some(b" 5")), None);
    assert_eq!(content_length(Some(b"5\x80")), None);
    assert_eq!(content_length(Some(b"18446744073709551616")), None);
    assert_eq!(content_length(None), None);
    assert_eq!(download_total(Some(b"abc")), 0);
    assert_eq!(download_total(Some(b"18446744073709551615")), u64::MAX);
    let m = generic_media_info("https://example.com/dir/file.zip?token=1", Some(b"1048576"));
    assert_eq!(m.title, "file.zip");
    assert_eq!(m.duration, "Unknown");
    assert_eq!(m.size, "1.00 MB");
    assert_eq!(m.provider, "generic");
    assert_eq!(generic_media_info("https://e.com/x", None).size, "Unknown");
}

fn post(title: Option<&str>, fallback: Option<&str>, dest: Option<&str>, domain: Option<&str>) -> RedditPost {
    RedditPost {
        title: title.map(|s| s.to_string()),
        url_overridden_by_dest: dest.map(|s| s.to_string()),
        domain: domain.map(|s| s.to_string()),
        video: Some(RedditVideo { fallback_url: fallback.map(|s| s.to_string()), duration_secs: Some(75) }),
    }
}

#[test]
fn reddit_urls() {
    assert_eq!(reddit_download_url("https://reddit.com/r/a/comments/1"), "https://reddit.com/r/a/comments/1/.json");
    assert_eq!(reddit_download_url("https://reddit.com/r/a/"), "https://reddit.com/r/areddit.json");
    assert_eq!(reddit_info_url("https://reddit.com/r/a/comments/1").unwrap(), "https://reddit.com/r/a/comments/1/.json");
    match reddit_info_url("https://reddit.com/r/a/s/xyz") {
        Err(DxcError::Other(m)) => assert_eq!(m, "Reddit share links not yet supported"),
        _ => panic!("expected an error"),
    }
    assert_eq!(reddit_info_url("https://reddit.com/r/a/s/xyz/").unwrap(), "https://reddit.com/r/a/s/xyzreddit.json");
    assert_eq!(reddit_download_url("https://reddit.com/r/a/s/xyz"), "https://reddit.com/r/a/s/xyz/.json");
}

#[test]
fn reddit_first_post() {
    let p = post(Some("T"), None, None, None);
    assert_eq!(first_post(vec![vec![p.clone()], vec![]]).unwrap().title.as_deref(), Some("T"));
    match first_post(vec![]) {
        Err(DxcError::Other(m)) => assert_eq!(m, "No post data found"),
        _ => panic!("expected an error"),
    }
    assert!(first_post(vec![vec![], vec![p]]).is_err());
}

#[test]
fn reddit_info_of_post() {
    let m = reddit_media_info(&post(Some("Cats"), None, None, None));
    assert_eq!((m.title.as_str(), m.duration.as_str(), m.size.as_str(), m.provider.as_str()), ("Cats", "1:15", "Unknown", "reddit"));
    let mut p = post(None, None, None, None);
    p.video = None;
    let m = reddit_media_info(&p);
    assert_eq!((m.title.as_str(), m.duration.as_str()), ("Unknown", "Unknown"));
}

#[test]
fn reddit_download_choices() {
    match reddit_download_plan(&post(None, Some("https://v.redd.it/x/DASH_720.mp4"), Some("https://i.imgur.com/a.gif"), Some("imgur.com"))) {
        Ok(RedditDownload::Video(u)) => assert_eq!(u, "https://v.redd.it/x/DASH_720.mp4"),
        _ => panic!("expected the video"),
    }
    match reddit_download_plan(&post(None, None, Some("https://i.imgur.com/a.gif"), Some("imgur.com"))) {
        Ok(RedditDownload::External(u)) => assert_eq!(u, "https://i.imgur.com/a.gif"),
        _ => panic!("expected the link"),
    }
    match reddit_download_plan(&post(None, None, Some("https://i.imgur.com/a.gif"), None)) {
        Ok(RedditDownload::External(u)) => assert_eq!(u, "https://i.imgur.com/a.gif"),
        _ => panic!("expected the link"),
    }
    match reddit_download_plan(&post(None, None, Some("https://reddit.com/r/x"), Some("reddit.com"))) {
        Err(DxcError::Other(m)) => assert_eq!(m, "No downloadable media found in Reddit post"),
        _ => panic!("expected an error"),
    }
    assert_eq!(reddit_video_path("/d/videos/abc", "https://v.redd.it/x/DASH_720.mp4"), "/d/videos/abc.mp4");
    assert_eq!(reddit_video_path("/o", "https://v.redd.it/x/DASH_720.mp4?source=fallback"), "/o.mp4?source=fallback");
    assert_eq!(reddit_video_path("/o", "noext"), "/o.noext");
}

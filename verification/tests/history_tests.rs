use dxc::{
    download_dir, download_output_path, history_row, is_partial_download, record_download,
    DownloadedMedia, DxcError, HistoryEntry, MediaType, ProviderKind,
};

#[test]
fn download_paths() {
    assert_eq!(download_dir("/d", MediaType::Video), "/d/videos");
    assert_eq!(download_dir("/d", MediaType::Audio), "/d/audio");
    assert_eq!(download_dir("/d", MediaType::Image), "/d/images");
    assert_eq!(
        download_output_path("/d", MediaType::Video, "https://youtube.com/watch?v=123"),
        "/d/videos/watch"
    );
    assert_eq!(
        download_output_path("/d", MediaType::Image, "https://e.com/a b:c.png?x"),
        "/d/images/a_b_c.png"
    );
}

#[test]
fn partial_download_files() {
    assert!(is_partial_download("video.mp4.part"));
    assert!(is_partial_download("a.part"));
    assert!(is_partial_download("..part"));
    assert!(!is_partial_download(".part"));
    assert!(!is_partial_download("part"));
    assert!(!is_partial_download("a.party"));
    assert!(!is_partial_download("a.part.mp4"));
}

#[test]
fn records_of_downloads() {
    let ok: Result<DownloadedMedia, DxcError> = Ok(DownloadedMedia {
        provider: "youtube".into(),
        title: "T".into(),
        file_path: "/f.mp4".into(),
    });
    let r = record_download("U", MediaType::Audio, &ok);
    assert_eq!(r.url, "U");
    assert_eq!(r.media_type, "Audio");
    assert!(r.success);
    assert_eq!(r.title.as_deref(), Some("T"));
    assert_eq!(r.provider, "youtube");
    assert_eq!(r.file_path.as_deref(), Some("/f.mp4"));
    let err: Result<DownloadedMedia, DxcError> = Err(DxcError::Other("x".into()));
    let r = record_download("U", MediaType::Video, &err);
    assert!(!r.success);
    assert_eq!(r.title, None);
    assert_eq!(r.provider, "unknown");
    assert_eq!(r.file_path, None);
    assert_eq!(r.media_type, "Video");
}

fn entry(title: Option<&str>, url: &str) -> HistoryEntry {
    HistoryEntry {
        id: 1,
        url: url.into(),
        title: title.map(|s| s.to_string()),
        media_type: "Video".into(),
        provider: "youtube".into(),
        file_path: None,
        created_at: "2024-05-06 07:08:09".into(),
        success: true,
    }
}

#[test]
fn history_rows() {
    let r = history_row(&entry(Some("Short"), "U"));
    assert_eq!(r.date, "2024-05-06 07:08:09");
    assert!(r.success);
    assert_eq!(r.display, "Short");
    let r = history_row(&entry(None, "https://example.com/a"));
    assert_eq!(r.display, "https://example.com/a");
    let long = "x".repeat(41);
    let r = history_row(&entry(Some(&long), "U"));
    assert_eq!(r.display, format!("{}…", "x".repeat(39)));
    let exact = "y".repeat(40);
    assert_eq!(history_row(&entry(Some(&exact), "U")).display, exact);
}

#[test]
fn audio_extraction_after_download() {

    let p = dxc::audio_extraction_plan(ProviderKind::Reddit, MediaType::Audio, "/d/audio/x.mp4").unwrap();
    assert_eq!(p.output, "/d/audio/x.mp3");
    assert_eq!(
        p.args,
        vec!["-i", "/d/audio/x.mp4", "-y", "-vn", "-acodec", "libmp3lame", "-q:a", "2", "/d/audio/x.mp3"]
    );
    assert!(dxc::audio_extraction_plan(ProviderKind::Generic, MediaType::Audio, "/d/audio/track").is_some());
    assert!(dxc::audio_extraction_plan(ProviderKind::Generic, MediaType::Audio, "/d/audio/song.mp3").is_none());
    assert!(dxc::audio_extraction_plan(ProviderKind::YouTube, MediaType::Audio, "/d/audio/x.webm").is_none());
    assert!(dxc::audio_extraction_plan(ProviderKind::Reddit, MediaType::Video, "/d/videos/x.mp4").is_none());
    assert_eq!(dxc::audio_extraction_outcome(true, "a.mp3".into()).unwrap(), "a.mp3");
    match dxc::audio_extraction_outcome(false, "a.mp3".into()) {
        Err(DxcError::ConversionFailed(m)) => assert_eq!(m, "Conversion failed"),
        _ => panic!("expected a conversion error"),
    }
}

use dxc::{resolve_provider, Backend, MediaType, Provider, ProviderKind};

#[test]
fn test_resolve_youtube() {
    let p = resolve_provider("https://youtube.com/watch?v=123").unwrap();
    assert_eq!(p.name(), "youtube");

    let p = resolve_provider("https://youtu.be/abc123").unwrap();
    assert_eq!(p.name(), "youtube");
}

#[test]
fn test_resolve_tiktok() {
    let p = resolve_provider("https://www.tiktok.com/@user/video/123").unwrap();
    assert_eq!(p.name(), "tiktok");
}

#[test]
fn test_resolve_instagram() {
    let p = resolve_provider("https://instagram.com/p/abc123").unwrap();
    assert_eq!(p.name(), "instagram");
}

#[test]
fn test_resolve_twitter() {
    let p = resolve_provider("https://twitter.com/user/status/123").unwrap();
    assert_eq!(p.name(), "twitter");

    let p = resolve_provider("https://x.com/user/status/123").unwrap();
    assert_eq!(p.name(), "twitter");
}

#[test]
fn test_resolve_pinterest() {
    let p = resolve_provider("https://pinterest.com/pin/123").unwrap();
    assert_eq!(p.name(), "pinterest");

    let p = resolve_provider("https://pin.it/abc").unwrap();
    assert_eq!(p.name(), "pinterest");
}

#[test]
fn test_resolve_reddit() {
    let p = resolve_provider("https://www.reddit.com/r/rust/comments/123").unwrap();
    assert_eq!(p.name(), "reddit");
}

#[test]
fn test_resolve_generic_fallback() {
    let p = resolve_provider("https://example.com/file.zip").unwrap();
    assert_eq!(p.name(), "generic");
}

#[test]
fn test_resolve_facebook() {
    let p = resolve_provider("https://facebook.com/watch?v=123").unwrap();
    assert_eq!(p.name(), "facebook");

    let p = resolve_provider("https://fb.watch/abc").unwrap();
    assert_eq!(p.name(), "facebook");
}

#[test]
fn test_resolve_vimeo() {
    let p = resolve_provider("https://vimeo.com/123456").unwrap();
    assert_eq!(p.name(), "vimeo");
}

#[test]
fn test_resolve_soundcloud() {
    let p = resolve_provider("https://soundcloud.com/artist/track").unwrap();
    assert_eq!(p.name(), "soundcloud");
}

#[test]
fn test_resolve_bilibili() {
    let p = resolve_provider("https://www.bilibili.com/video/BV1xx").unwrap();
    assert_eq!(p.name(), "bilibili");

    let p = resolve_provider("https://b23.tv/abc").unwrap();
    assert_eq!(p.name(), "bilibili");
}

#[test]
fn test_provider_media_types() {
    assert_eq!(resolve_provider("https://youtube.com/").unwrap().media_type(), MediaType::Video);
    assert_eq!(resolve_provider("https://tiktok.com/").unwrap().media_type(), MediaType::Video);
    assert_eq!(resolve_provider("https://instagram.com/").unwrap().media_type(), MediaType::Image);
    assert_eq!(resolve_provider("https://twitter.com/").unwrap().media_type(), MediaType::Image);
    assert_eq!(resolve_provider("https://pinterest.com/").unwrap().media_type(), MediaType::Image);
    assert_eq!(resolve_provider("https://reddit.com/").unwrap().media_type(), MediaType::Video);
    assert_eq!(resolve_provider("https://facebook.com/").unwrap().media_type(), MediaType::Video);
    assert_eq!(resolve_provider("https://vimeo.com/").unwrap().media_type(), MediaType::Video);
    assert_eq!(resolve_provider("https://soundcloud.com/").unwrap().media_type(), MediaType::Audio);
    assert_eq!(resolve_provider("https://bilibili.com/").unwrap().media_type(), MediaType::Video);
}

#[test]
fn resolve_takes_first_match_in_order() {
    // names both YouTube and Reddit: YouTube is asked first
    let p = resolve_provider("https://reddit.com/r/x?u=youtube.com").unwrap();
    assert_eq!(p, ProviderKind::YouTube);
    // "dropbox.com" holds "x.com", which the Twitter source takes
    assert_eq!(resolve_provider("https://dropbox.com/s/file").unwrap(), ProviderKind::Twitter);
    assert_eq!(resolve_provider("").unwrap(), ProviderKind::Generic);
}

#[test]
fn resolved_source_handles_the_url() {
    for url in [
        "https://youtube.com/watch?v=1",
        "https://example.org/a",
        "https://soundcloud.com/a/b",
        "ftp://b23.tv/x",
    ] {
        let p = resolve_provider(url).unwrap();
        assert!(p.can_handle(url));
    }
}

#[test]
fn generic_handles_everything() {
    assert!(dxc::GenericProvider.can_handle(""));
    assert!(dxc::GenericProvider.can_handle("anything at all"));
    assert!(!dxc::YouTubeProvider.can_handle("https://example.com"));
    assert_eq!(dxc::GenericProvider.name(), "generic");
    assert_eq!(dxc::SoundCloudProvider.media_type(), MediaType::Audio);
}

#[test]
fn backends_of_sources() {
    assert_eq!(ProviderKind::Generic.backend(), Backend::Http);
    assert_eq!(ProviderKind::Reddit.backend(), Backend::RedditApi);
    assert_eq!(ProviderKind::YouTube.backend(), Backend::YtDlp);
    assert_eq!(ProviderKind::SoundCloud.backend(), Backend::YtDlp);
    assert_eq!(
        ProviderKind::Instagram.download_extra_args(),
        vec!["--extractor-args".to_string(), "instagram:app_id=124024574287414".to_string()]
    );
    assert!(ProviderKind::TikTok.download_extra_args().is_empty());
}

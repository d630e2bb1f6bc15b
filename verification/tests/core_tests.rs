use dxc::config::DxcConfig;
use dxc::dirs;
use dxc::{DxcError, MediaType};

const HOME: &str = "/home/user";

#[test]
fn test_media_type_serialization() {
    assert_eq!(format!("{:?}", MediaType::Video), "Video");
    assert_eq!(format!("{:?}", MediaType::Audio), "Audio");
    assert_eq!(format!("{:?}", MediaType::Image), "Image");
}

#[test]
fn test_dirs_defaults() {
    let config_dir = dirs::config_dir(HOME);
    assert!(config_dir.contains(".config/dxc"));
    let cache = dirs::cache(HOME);
    assert!(cache.contains(".cache/dxc"));
    let downloads = dirs::downloads(HOME);
    assert!(downloads.contains("Downloads/DXC"));
}

#[test]
fn test_config_default() {
    let config = DxcConfig::default_for_home(HOME);
    assert_eq!(config.max_concurrent_downloads, 3);
    assert!(config.download_path.contains("Downloads/DXC"));
}

#[test]
fn media_type_labels() {
    assert_eq!(MediaType::Video.label(), "Video");
    assert_eq!(MediaType::Audio.label(), "Audio");
    assert_eq!(MediaType::Image.label(), "Image");
}

#[test]
fn dirs_exact_paths() {
    assert_eq!(dirs::config_dir("/h"), "/h/.config/dxc");
    assert_eq!(dirs::config_file("/h"), "/h/.config/dxc/config.toml");
    assert_eq!(dirs::database("/h"), "/h/.config/dxc/database.db");
    assert_eq!(dirs::cache("/h"), "/h/.cache/dxc");
    assert_eq!(dirs::downloads("/h"), "/h/Downloads/DXC");
}

#[test]
fn home_resolution_order() {
    assert_eq!(dirs::home(Some("/a".to_string()), Some("/b".to_string())), "/a");
    assert_eq!(dirs::home(None, Some("/b".to_string())), "/b");
    assert_eq!(dirs::home(None, None), ".");
}

#[test]
fn config_default_paths() {
    let c = DxcConfig::default_for_home("/h");
    assert_eq!(c.download_path, "/h/Downloads/DXC");
    assert_eq!(c.cache_path, "/h/.cache/dxc");
    assert_eq!(c.db_path, "/h/.config/dxc/database.db");
}

#[test]
fn config_get_known_and_unknown_keys() {
    let c = DxcConfig::default_for_home("/h");
    assert_eq!(c.get("download_path"), Some("/h/Downloads/DXC".to_string()));
    assert_eq!(c.get("cache_path"), Some("/h/.cache/dxc".to_string()));
    assert_eq!(c.get("db_path"), Some("/h/.config/dxc/database.db".to_string()));
    assert_eq!(c.get("max_concurrent_downloads"), Some("3".to_string()));
    assert_eq!(c.get("nope"), None);
}

#[test]
fn config_set_then_get() {
    let mut c = DxcConfig::default_for_home("/h");
    assert!(c.set("download_path", "/x/y").is_ok());
    assert_eq!(c.get("download_path"), Some("/x/y".to_string()));
    assert_eq!(c.get("cache_path"), Some("/h/.cache/dxc".to_string()));
    assert!(c.set("max_concurrent_downloads", "+007").is_ok());
    assert_eq!(c.max_concurrent_downloads, 7);
    assert_eq!(c.get("max_concurrent_downloads"), Some("7".to_string()));
    assert!(c.set("max_concurrent_downloads", "4294967295").is_ok());
    assert_eq!(c.get("max_concurrent_downloads"), Some("4294967295".to_string()));
}

#[test]
fn config_set_errors_leave_config_unchanged() {
    let mut c = DxcConfig::default_for_home("/h");
    assert_eq!(c.set("colour", "red"), Err("Unknown config key: colour".to_string()));
    assert_eq!(c.set("max_concurrent_downloads", "four"), Err("Invalid number".to_string()));
    assert_eq!(c.set("max_concurrent_downloads", "4294967296"), Err("Invalid number".to_string()));
    assert_eq!(c.set("max_concurrent_downloads", "-1"), Err("Invalid number".to_string()));
    assert_eq!(c.set("max_concurrent_downloads", "+"), Err("Invalid number".to_string()));
    assert_eq!(c.set("max_concurrent_downloads", ""), Err("Invalid number".to_string()));
    assert_eq!(c.max_concurrent_downloads, 3);
    assert_eq!(c.download_path, "/h/Downloads/DXC");
}

#[test]
fn config_set_what_get_gives_is_identity() {
    let mut c = DxcConfig::default_for_home("/h");
    c.max_concurrent_downloads = 12;
    for key in ["download_path", "cache_path", "db_path", "max_concurrent_downloads"] {
        let v = c.get(key).unwrap();
        let before = c.clone();
        assert!(c.set(key, &v).is_ok());
        assert_eq!(c.download_path, before.download_path);
        assert_eq!(c.cache_path, before.cache_path);
        assert_eq!(c.db_path, before.db_path);
        assert_eq!(c.max_concurrent_downloads, before.max_concurrent_downloads);
    }
}

#[test]
fn error_messages() {
    assert_eq!(DxcError::Network("x".into()).message(), "Network error: x");
    assert_eq!(DxcError::ProviderNotFound("u".into()).message(), "Provider not found for URL: u");
    assert_eq!(DxcError::DownloadFailed("d".into()).message(), "Download failed: d");
    assert_eq!(DxcError::ConversionFailed("c".into()).message(), "Conversion failed: c");
    assert_eq!(DxcError::Database("b".into()).message(), "Database error: b");
    assert_eq!(DxcError::Config("k".into()).message(), "Config error: k");
    assert_eq!(DxcError::Other("o".into()).message(), "o");
}

#[test]
fn media_info_duration_known() {
    let mut m = dxc::MediaInfo {
        title: "t".into(),
        duration: "Unknown".into(),
        size: "1.00 KB".into(),
        provider: "p".into(),
    };
    assert!(!m.has_duration());
    m.duration = "1:00".into();
    assert!(m.has_duration());
}

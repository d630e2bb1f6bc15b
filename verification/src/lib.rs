//! Download anything: the rules of the DXC downloader. Which source handles
//! a URL, where files go, how sizes, durations and history are shown, how
//! settings are read and changed, and what yt-dlp, ffmpeg and the Reddit
//! API are asked and answer.
use vstd::prelude::*;

pub mod config;
pub mod converter;
pub mod dirs;
pub mod download;
pub mod error;
pub mod format;
pub mod generic;
pub mod history;
pub mod media;
pub mod path;
pub mod provider;
pub mod reddit;
pub mod text;
pub mod ytdlp;

pub use config::DxcConfig;
pub use converter::{
    conversion_outcome, conversion_plan, ffmpeg_not_run, plan_for_format, ConversionOptions,
    ConversionPlan,
};
pub use download::{
    audio_extraction_outcome, audio_extraction_plan, download_dir, download_output_path,
    is_partial_download,
};
pub use error::DxcError;
pub use format::{format_bytes, format_duration};
pub use generic::{content_length, download_total, generic_media_info};
pub use history::{history_row, record_download, DownloadedMedia, HistoryEntry, HistoryRecord, HistoryRow};
pub use media::{MediaInfo, MediaType};
pub use path::{file_extension, sanitize_filename, strip_extension, url_file_name};
pub use provider::{
    resolve_provider, with_provider, Backend, BilibiliProvider, FacebookProvider, GenericProvider, InstagramProvider,
    PinterestProvider, Provider, ProviderKind, RedditProvider, SoundCloudProvider, TikTokProvider,
    TwitterProvider, VimeoProvider, YouTubeProvider,
};
pub use reddit::{
    first_post, reddit_download_plan, reddit_download_url, reddit_info_url, reddit_media_info,
    reddit_video_path, RedditDownload, RedditPost, RedditVideo,
};
pub use ytdlp::media_info_from_ytdlp;

verus! {

} // verus!

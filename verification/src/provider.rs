//! The media sources and which of them handles a URL.
use vstd::prelude::*;
use crate::media::{MediaInfo, MediaType};
use crate::text::{contains, contains_seq, push_string};

verus! {

/// What every media source tells about itself.
pub trait Provider {
    /// The source's name, as shown and recorded.
    fn name(&self) -> &'static str;

    /// Whether the source takes care of `url`.
    fn can_handle(&self, url: &str) -> bool;

    /// The kind of media the source delivers.
    fn media_type(&self) -> MediaType;
}

/// The media sources, in the order in which they are asked.
#[derive(Debug, Clone, Copy, PartialEq, Eq, Structural)]
pub enum ProviderKind {
    YouTube,
    TikTok,
    Instagram,
    Twitter,
    Pinterest,
    Reddit,
    Facebook,
    Vimeo,
    SoundCloud,
    Bilibili,
    Generic,
}

/// The name of a source.
pub open spec fn kind_name(k: ProviderKind) -> Seq<char> {
    match k {
        ProviderKind::YouTube => "youtube"@,
        ProviderKind::TikTok => "tiktok"@,
        ProviderKind::Instagram => "instagram"@,
        ProviderKind::Twitter => "twitter"@,
        ProviderKind::Pinterest => "pinterest"@,
        ProviderKind::Reddit => "reddit"@,
        ProviderKind::Facebook => "facebook"@,
        ProviderKind::Vimeo => "vimeo"@,
        ProviderKind::SoundCloud => "soundcloud"@,
        ProviderKind::Bilibili => "bilibili"@,
        ProviderKind::Generic => "generic"@,
    }
}

/// The kind of media a source delivers.
pub open spec fn kind_media(k: ProviderKind) -> MediaType {
    match k {
        ProviderKind::YouTube => MediaType::Video,
        ProviderKind::TikTok => MediaType::Video,
        ProviderKind::Instagram => MediaType::Image,
        ProviderKind::Twitter => MediaType::Image,
        ProviderKind::Pinterest => MediaType::Image,
        ProviderKind::Reddit => MediaType::Video,
        ProviderKind::Facebook => MediaType::Video,
        ProviderKind::Vimeo => MediaType::Video,
        ProviderKind::SoundCloud => MediaType::Audio,
        ProviderKind::Bilibili => MediaType::Video,
        ProviderKind::Generic => MediaType::Video,
    }
}

/// Whether a source takes care of `url`: it names the source's site.
pub open spec fn handles(k: ProviderKind, url: Seq<char>) -> bool {
    match k {
        ProviderKind::YouTube => contains_seq(url, "youtube.com"@) || contains_seq(url, "youtu.be"@),
        ProviderKind::TikTok => contains_seq(url, "tiktok.com"@),
        ProviderKind::Instagram => contains_seq(url, "instagram.com"@),
        ProviderKind::Twitter => contains_seq(url, "twitter.com"@) || contains_seq(url, "x.com"@),
        ProviderKind::Pinterest => contains_seq(url, "pinterest.com"@) || contains_seq(url, "pin.it"@),
        ProviderKind::Reddit => contains_seq(url, "reddit.com"@),
        ProviderKind::Facebook => contains_seq(url, "facebook.com"@) || contains_seq(url, "fb.watch"@),
        ProviderKind::Vimeo => contains_seq(url, "vimeo.com"@),
        ProviderKind::SoundCloud => contains_seq(url, "soundcloud.com"@),
        ProviderKind::Bilibili => contains_seq(url, "bilibili.com"@) || contains_seq(url, "b23.tv"@),
        ProviderKind::Generic => true,
    }
}

/// The position of a source in the order in which sources are asked.
pub open spec fn rank(k: ProviderKind) -> nat {
    match k {
        ProviderKind::YouTube => 0,
        ProviderKind::TikTok => 1,
        ProviderKind::Instagram => 2,
        ProviderKind::Twitter => 3,
        ProviderKind::Pinterest => 4,
        ProviderKind::Reddit => 5,
        ProviderKind::Facebook => 6,
        ProviderKind::Vimeo => 7,
        ProviderKind::SoundCloud => 8,
        ProviderKind::Bilibili => 9,
        ProviderKind::Generic => 10,
    }
}

/// The first source, in order, that takes care of `url`.
pub open spec fn resolve_spec(url: Seq<char>) -> ProviderKind {
    if handles(ProviderKind::YouTube, url) {
        ProviderKind::YouTube
    } else if handles(ProviderKind::TikTok, url) {
        ProviderKind::TikTok
    } else if handles(ProviderKind::Instagram, url) {
        ProviderKind::Instagram
    } else if handles(ProviderKind::Twitter, url) {
        ProviderKind::Twitter
    } else if handles(ProviderKind::Pinterest, url) {
        ProviderKind::Pinterest
    } else if handles(ProviderKind::Reddit, url) {
        ProviderKind::Reddit
    } else if handles(ProviderKind::Facebook, url) {
        ProviderKind::Facebook
    } else if handles(ProviderKind::Vimeo, url) {
        ProviderKind::Vimeo
    } else if handles(ProviderKind::SoundCloud, url) {
        ProviderKind::SoundCloud
    } else if handles(ProviderKind::Bilibili, url) {
        ProviderKind::Bilibili
    } else {
        ProviderKind::Generic
    }
}

/// The YouTube source.
pub struct YouTubeProvider;

impl Provider for YouTubeProvider {
    fn name(&self) -> (r: &'static str)
        ensures
            r@ == kind_name(ProviderKind::YouTube),
    {
        "youtube"
    }

    fn can_handle(&self, url: &str) -> (r: bool)
        ensures
            r == handles(ProviderKind::YouTube, url@),
    {
        contains(url, "youtube.com") || contains(url, "youtu.be")
    }

    fn media_type(&self) -> (r: MediaType)
        ensures
            r == kind_media(ProviderKind::YouTube),
    {
        MediaType::Video
    }
}

/// The TikTok source.
pub struct TikTokProvider;

impl Provider for TikTokProvider {
    fn name(&self) -> (r: &'static str)
        ensures
            r@ == kind_name(ProviderKind::TikTok),
    {
        "tiktok"
    }

    fn can_handle(&self, url: &str) -> (r: bool)
        ensures
            r == handles(ProviderKind::TikTok, url@),
    {
        contains(url, "tiktok.com")
    }

    fn media_type(&self) -> (r: MediaType)
        ensures
            r == kind_media(ProviderKind::TikTok),
    {
        MediaType::Video
    }
}

/// The Instagram source.
pub struct InstagramProvider;

impl Provider for InstagramProvider {
    fn name(&self) -> (r: &'static str)
        ensures
            r@ == kind_name(ProviderKind::Instagram),
    {
        "instagram"
    }

    fn can_handle(&self, url: &str) -> (r: bool)
        ensures
            r == handles(ProviderKind::Instagram, url@),
    {
        contains(url, "instagram.com")
    }

    fn media_type(&self) -> (r: MediaType)
        ensures
            r == kind_media(ProviderKind::Instagram),
    {
        MediaType::Image
    }
}

/// The Twitter source.
pub struct TwitterProvider;

impl Provider for TwitterProvider {
    fn name(&self) -> (r: &'static str)
        ensures
            r@ == kind_name(ProviderKind::Twitter),
    {
        "twitter"
    }

    fn can_handle(&self, url: &str) -> (r: bool)
        ensures
            r == handles(ProviderKind::Twitter, url@),
    {
        contains(url, "twitter.com") || contains(url, "x.com")
    }

    fn media_type(&self) -> (r: MediaType)
        ensures
            r == kind_media(ProviderKind::Twitter),
    {
        MediaType::Image
    }
}

/// The Pinterest source.
pub struct PinterestProvider;

impl Provider for PinterestProvider {
    fn name(&self) -> (r: &'static str)
        ensures
            r@ == kind_name(ProviderKind::Pinterest),
    {
        "pinterest"
    }

    fn can_handle(&self, url: &str) -> (r: bool)
        ensures
            r == handles(ProviderKind::Pinterest, url@),
    {
        contains(url, "pinterest.com") || contains(url, "pin.it")
    }

    fn media_type(&self) -> (r: MediaType)
        ensures
            r == kind_media(ProviderKind::Pinterest),
    {
        MediaType::Image
    }
}

/// The Reddit source.
pub struct RedditProvider;

impl Provider for RedditProvider {
    fn name(&self) -> (r: &'static str)
        ensures
            r@ == kind_name(ProviderKind::Reddit),
    {
        "reddit"
    }

    fn can_handle(&self, url: &str) -> (r: bool)
        ensures
            r == handles(ProviderKind::Reddit, url@),
    {
        contains(url, "reddit.com")
    }

    fn media_type(&self) -> (r: MediaType)
        ensures
            r == kind_media(ProviderKind::Reddit),
    {
        MediaType::Video
    }
}

/// The Facebook source.
pub struct FacebookProvider;

impl Provider for FacebookProvider {
    fn name(&self) -> (r: &'static str)
        ensures
            r@ == kind_name(ProviderKind::Facebook),
    {
        "facebook"
    }

    fn can_handle(&self, url: &str) -> (r: bool)
        ensures
            r == handles(ProviderKind::Facebook, url@),
    {
        contains(url, "facebook.com") || contains(url, "fb.watch")
    }

    fn media_type(&self) -> (r: MediaType)
        ensures
            r == kind_media(ProviderKind::Facebook),
    {
        MediaType::Video
    }
}

/// The Vimeo source.
pub struct VimeoProvider;

impl Provider for VimeoProvider {
    fn name(&self) -> (r: &'static str)
        ensures
            r@ == kind_name(ProviderKind::Vimeo),
    {
        "vimeo"
    }

    fn can_handle(&self, url: &str) -> (r: bool)
        ensures
            r == handles(ProviderKind::Vimeo, url@),
    {
        contains(url, "vimeo.com")
    }

    fn media_type(&self) -> (r: MediaType)
        ensures
            r == kind_media(ProviderKind::Vimeo),
    {
        MediaType::Video
    }
}

/// The SoundCloud source.
pub struct SoundCloudProvider;

impl Provider for SoundCloudProvider {
    fn name(&self) -> (r: &'static str)
        ensures
            r@ == kind_name(ProviderKind::SoundCloud),
    {
        "soundcloud"
    }

    fn can_handle(&self, url: &str) -> (r: bool)
        ensures
            r == handles(ProviderKind::SoundCloud, url@),
    {
        contains(url, "soundcloud.com")
    }

    fn media_type(&self) -> (r: MediaType)
        ensures
            r == kind_media(ProviderKind::SoundCloud),
    {
        MediaType::Audio
    }
}

/// The Bilibili source.
pub struct BilibiliProvider;

impl Provider for BilibiliProvider {
    fn name(&self) -> (r: &'static str)
        ensures
            r@ == kind_name(ProviderKind::Bilibili),
    {
        "bilibili"
    }

    fn can_handle(&self, url: &str) -> (r: bool)
        ensures
            r == handles(ProviderKind::Bilibili, url@),
    {
        contains(url, "bilibili.com") || contains(url, "b23.tv")
    }

    fn media_type(&self) -> (r: MediaType)
        ensures
            r == kind_media(ProviderKind::Bilibili),
    {
        MediaType::Video
    }
}

/// The Generic source.
pub struct GenericProvider;

impl Provider for GenericProvider {
    fn name(&self) -> (r: &'static str)
        ensures
            r@ == kind_name(ProviderKind::Generic),
    {
        "generic"
    }

    fn can_handle(&self, url: &str) -> (r: bool)
        ensures
            r == handles(ProviderKind::Generic, url@),
    {
        true
    }

    fn media_type(&self) -> (r: MediaType)
        ensures
            r == kind_media(ProviderKind::Generic),
    {
        MediaType::Video
    }
}

impl Provider for ProviderKind {
    fn name(&self) -> (r: &'static str)
        ensures
            r@ == kind_name(*self),
    {
        match self {
            ProviderKind::YouTube => YouTubeProvider.name(),
            ProviderKind::TikTok => TikTokProvider.name(),
            ProviderKind::Instagram => InstagramProvider.name(),
            ProviderKind::Twitter => TwitterProvider.name(),
            ProviderKind::Pinterest => PinterestProvider.name(),
            ProviderKind::Reddit => RedditProvider.name(),
            ProviderKind::Facebook => FacebookProvider.name(),
            ProviderKind::Vimeo => VimeoProvider.name(),
            ProviderKind::SoundCloud => SoundCloudProvider.name(),
            ProviderKind::Bilibili => BilibiliProvider.name(),
            ProviderKind::Generic => GenericProvider.name(),
        }
    }

    fn media_type(&self) -> (r: MediaType)
        ensures
            r == kind_media(*self),
    {
        match self {
            ProviderKind::YouTube => YouTubeProvider.media_type(),
            ProviderKind::TikTok => TikTokProvider.media_type(),
            ProviderKind::Instagram => InstagramProvider.media_type(),
            ProviderKind::Twitter => TwitterProvider.media_type(),
            ProviderKind::Pinterest => PinterestProvider.media_type(),
            ProviderKind::Reddit => RedditProvider.media_type(),
            ProviderKind::Facebook => FacebookProvider.media_type(),
            ProviderKind::Vimeo => VimeoProvider.media_type(),
            ProviderKind::SoundCloud => SoundCloudProvider.media_type(),
            ProviderKind::Bilibili => BilibiliProvider.media_type(),
            ProviderKind::Generic => GenericProvider.media_type(),
        }
    }

    fn can_handle(&self, url: &str) -> (r: bool)
        ensures
            r == handles(*self, url@),
    {
        match self {
            ProviderKind::YouTube => YouTubeProvider.can_handle(url),
            ProviderKind::TikTok => TikTokProvider.can_handle(url),
            ProviderKind::Instagram => InstagramProvider.can_handle(url),
            ProviderKind::Twitter => TwitterProvider.can_handle(url),
            ProviderKind::Pinterest => PinterestProvider.can_handle(url),
            ProviderKind::Reddit => RedditProvider.can_handle(url),
            ProviderKind::Facebook => FacebookProvider.can_handle(url),
            ProviderKind::Vimeo => VimeoProvider.can_handle(url),
            ProviderKind::SoundCloud => SoundCloudProvider.can_handle(url),
            ProviderKind::Bilibili => BilibiliProvider.can_handle(url),
            ProviderKind::Generic => GenericProvider.can_handle(url),
        }
    }
}

/// How a source fetches: through yt-dlp, over plain HTTP, or through the
/// Reddit API.
#[derive(Debug, Clone, Copy, PartialEq, Eq, Structural)]
pub enum Backend {
    YtDlp,
    Http,
    RedditApi,
}

/// The backend of a source: plain HTTP for the generic source, the API for
/// Reddit, yt-dlp for the others.
pub open spec fn kind_backend(k: ProviderKind) -> Backend {
    match k {
        ProviderKind::Generic => Backend::Http,
        ProviderKind::Reddit => Backend::RedditApi,
        _ => Backend::YtDlp,
    }
}

/// The extra arguments a source gives yt-dlp for a download: Instagram
/// names its app id, the others give none.
pub open spec fn kind_download_extra(k: ProviderKind) -> Seq<Seq<char>> {
    match k {
        ProviderKind::Instagram => seq!["--extractor-args"@, "instagram:app_id=124024574287414"@],
        _ => Seq::empty(),
    }
}

impl ProviderKind {
    /// How this source fetches.
    pub fn backend(&self) -> (r: Backend)
        ensures
            r == kind_backend(*self),
    {
        match self {
            ProviderKind::Generic => Backend::Http,
            ProviderKind::Reddit => Backend::RedditApi,
            _ => Backend::YtDlp,
        }
    }

    /// The extra arguments this source gives yt-dlp for a download.
    pub fn download_extra_args(&self) -> (r: Vec<String>)
        ensures
            r.deep_view() == kind_download_extra(*self),
    {
        let mut r: Vec<String> = Vec::new();
        match self {
            ProviderKind::Instagram => {
                push_string(&mut r, String::from_str("--extractor-args"));
                push_string(&mut r, String::from_str("instagram:app_id=124024574287414"));
            },
            _ => {},
        }
        assert(r.deep_view() =~= kind_download_extra(*self));
        r
    }
}

/// The information `info` attributed to the source `kind`: its provider is
/// the source's name, everything else is kept.
pub fn with_provider(info: MediaInfo, kind: ProviderKind) -> (r: MediaInfo)
    ensures
        r.provider@ == kind_name(kind),
        r.title == info.title,
        r.duration == info.duration,
        r.size == info.size,
{
    let name = kind.name();
    MediaInfo { provider: String::from_str(name), ..info }
}

/// The source for `url`: the first one, in order, that takes care of it.
/// The generic source takes care of every URL, so there always is one.
pub fn resolve_provider(url: &str) -> (r: Option<ProviderKind>)
    ensures
        r == Some(resolve_spec(url@)),
{
    if YouTubeProvider.can_handle(url) {
        return Some(ProviderKind::YouTube);
    }
    if TikTokProvider.can_handle(url) {
        return Some(ProviderKind::TikTok);
    }
    if InstagramProvider.can_handle(url) {
        return Some(ProviderKind::Instagram);
    }
    if TwitterProvider.can_handle(url) {
        return Some(ProviderKind::Twitter);
    }
    if PinterestProvider.can_handle(url) {
        return Some(ProviderKind::Pinterest);
    }
    if RedditProvider.can_handle(url) {
        return Some(ProviderKind::Reddit);
    }
    if FacebookProvider.can_handle(url) {
        return Some(ProviderKind::Facebook);
    }
    if VimeoProvider.can_handle(url) {
        return Some(ProviderKind::Vimeo);
    }
    if SoundCloudProvider.can_handle(url) {
        return Some(ProviderKind::SoundCloud);
    }
    if BilibiliProvider.can_handle(url) {
        return Some(ProviderKind::Bilibili);
    }
    Some(ProviderKind::Generic)
}

// ---------------------------------------------------------------------------
// Laws
// ---------------------------------------------------------------------------

/// The generic source takes care of every URL.
pub proof fn law_generic_handles_all(url: Seq<char>)
    ensures
        handles(ProviderKind::Generic, url),
{
}

/// The source chosen for a URL takes care of it, and no source asked
/// before it does.
pub proof fn law_resolve_first_match(url: Seq<char>)
    ensures
        handles(resolve_spec(url), url),
        forall|k: ProviderKind| rank(k) < rank(resolve_spec(url)) ==> !#[trigger] handles(k, url),
{
}

/// Every source has its own name.
pub proof fn law_names_distinct(a: ProviderKind, b: ProviderKind)
    requires
        a != b,
    ensures
        kind_name(a) != kind_name(b),
{
    reveal_strlit("youtube");
    reveal_strlit("tiktok");
    reveal_strlit("instagram");
    reveal_strlit("twitter");
    reveal_strlit("pinterest");
    reveal_strlit("reddit");
    reveal_strlit("facebook");
    reveal_strlit("vimeo");
    reveal_strlit("soundcloud");
    reveal_strlit("bilibili");
    reveal_strlit("generic");
    if kind_name(a) == kind_name(b) {
        assert(kind_name(a).len() == kind_name(b).len());
        assert(kind_name(a)[0] == kind_name(b)[0]);
        assert(kind_name(a)[1] == kind_name(b)[1]);
    }
}


/// Which source a URL goes to, by the site names it holds: a source is
/// chosen exactly when one of its site names occurs in the URL and no site
/// name of a source asked before it does; a URL that holds none of the site
/// names goes to the generic source.
pub proof fn law_resolve_by_site_names(url: Seq<char>)
    ensures
        (contains_seq(url, "youtube.com"@) || contains_seq(url, "youtu.be"@)) ==> resolve_spec(url) == ProviderKind::YouTube,
        resolve_spec(url) == ProviderKind::YouTube ==> (contains_seq(url, "youtube.com"@) || contains_seq(url, "youtu.be"@)),
        (contains_seq(url, "tiktok.com"@)) && !contains_seq(url, "youtube.com"@) && !contains_seq(url, "youtu.be"@) ==> resolve_spec(url) == ProviderKind::TikTok,
        resolve_spec(url) == ProviderKind::TikTok ==> (contains_seq(url, "tiktok.com"@)),
        (contains_seq(url, "instagram.com"@)) && !contains_seq(url, "youtube.com"@) && !contains_seq(url, "youtu.be"@) && !contains_seq(url, "tiktok.com"@) ==> resolve_spec(url) == ProviderKind::Instagram,
        resolve_spec(url) == ProviderKind::Instagram ==> (contains_seq(url, "instagram.com"@)),
        (contains_seq(url, "twitter.com"@) || contains_seq(url, "x.com"@)) && !contains_seq(url, "youtube.com"@) && !contains_seq(url, "youtu.be"@) && !contains_seq(url, "tiktok.com"@) && !contains_seq(url, "instagram.com"@) ==> resolve_spec(url) == ProviderKind::Twitter,
        resolve_spec(url) == ProviderKind::Twitter ==> (contains_seq(url, "twitter.com"@) || contains_seq(url, "x.com"@)),
        (contains_seq(url, "pinterest.com"@) || contains_seq(url, "pin.it"@)) && !contains_seq(url, "youtube.com"@) && !contains_seq(url, "youtu.be"@) && !contains_seq(url, "tiktok.com"@) && !contains_seq(url, "instagram.com"@) && !contains_seq(url, "twitter.com"@) && !contains_seq(url, "x.com"@) ==> resolve_spec(url) == ProviderKind::Pinterest,
        resolve_spec(url) == ProviderKind::Pinterest ==> (contains_seq(url, "pinterest.com"@) || contains_seq(url, "pin.it"@)),
        (contains_seq(url, "reddit.com"@)) && !contains_seq(url, "youtube.com"@) && !contains_seq(url, "youtu.be"@) && !contains_seq(url, "tiktok.com"@) && !contains_seq(url, "instagram.com"@) && !contains_seq(url, "twitter.com"@) && !contains_seq(url, "x.com"@) && !contains_seq(url, "pinterest.com"@) && !contains_seq(url, "pin.it"@) ==> resolve_spec(url) == ProviderKind::Reddit,
        resolve_spec(url) == ProviderKind::Reddit ==> (contains_seq(url, "reddit.com"@)),
        (contains_seq(url, "facebook.com"@) || contains_seq(url, "fb.watch"@)) && !contains_seq(url, "youtube.com"@) && !contains_seq(url, "youtu.be"@) && !contains_seq(url, "tiktok.com"@) && !contains_seq(url, "instagram.com"@) && !contains_seq(url, "twitter.com"@) && !contains_seq(url, "x.com"@) && !contains_seq(url, "pinterest.com"@) && !contains_seq(url, "pin.it"@) && !contains_seq(url, "reddit.com"@) ==> resolve_spec(url) == ProviderKind::Facebook,
        resolve_spec(url) == ProviderKind::Facebook ==> (contains_seq(url, "facebook.com"@) || contains_seq(url, "fb.watch"@)),
        (contains_seq(url, "vimeo.com"@)) && !contains_seq(url, "youtube.com"@) && !contains_seq(url, "youtu.be"@) && !contains_seq(url, "tiktok.com"@) && !contains_seq(url, "instagram.com"@) && !contains_seq(url, "twitter.com"@) && !contains_seq(url, "x.com"@) && !contains_seq(url, "pinterest.com"@) && !contains_seq(url, "pin.it"@) && !contains_seq(url, "reddit.com"@) && !contains_seq(url, "facebook.com"@) && !contains_seq(url, "fb.watch"@) ==> resolve_spec(url) == ProviderKind::Vimeo,
        resolve_spec(url) == ProviderKind::Vimeo ==> (contains_seq(url, "vimeo.com"@)),
        (contains_seq(url, "soundcloud.com"@)) && !contains_seq(url, "youtube.com"@) && !contains_seq(url, "youtu.be"@) && !contains_seq(url, "tiktok.com"@) && !contains_seq(url, "instagram.com"@) && !contains_seq(url, "twitter.com"@) && !contains_seq(url, "x.com"@) && !contains_seq(url, "pinterest.com"@) && !contains_seq(url, "pin.it"@) && !contains_seq(url, "reddit.com"@) && !contains_seq(url, "facebook.com"@) && !contains_seq(url, "fb.watch"@) && !contains_seq(url, "vimeo.com"@) ==> resolve_spec(url) == ProviderKind::SoundCloud,
        resolve_spec(url) == ProviderKind::SoundCloud ==> (contains_seq(url, "soundcloud.com"@)),
        (contains_seq(url, "bilibili.com"@) || contains_seq(url, "b23.tv"@)) && !contains_seq(url, "youtube.com"@) && !contains_seq(url, "youtu.be"@) && !contains_seq(url, "tiktok.com"@) && !contains_seq(url, "instagram.com"@) && !contains_seq(url, "twitter.com"@) && !contains_seq(url, "x.com"@) && !contains_seq(url, "pinterest.com"@) && !contains_seq(url, "pin.it"@) && !contains_seq(url, "reddit.com"@) && !contains_seq(url, "facebook.com"@) && !contains_seq(url, "fb.watch"@) && !contains_seq(url, "vimeo.com"@) && !contains_seq(url, "soundcloud.com"@) ==> resolve_spec(url) == ProviderKind::Bilibili,
        resolve_spec(url) == ProviderKind::Bilibili ==> (contains_seq(url, "bilibili.com"@) || contains_seq(url, "b23.tv"@)),
        !contains_seq(url, "youtube.com"@) && !contains_seq(url, "youtu.be"@) && !contains_seq(url, "tiktok.com"@) && !contains_seq(url, "instagram.com"@) && !contains_seq(url, "twitter.com"@) && !contains_seq(url, "x.com"@) && !contains_seq(url, "pinterest.com"@) && !contains_seq(url, "pin.it"@) && !contains_seq(url, "reddit.com"@) && !contains_seq(url, "facebook.com"@) && !contains_seq(url, "fb.watch"@) && !contains_seq(url, "vimeo.com"@) && !contains_seq(url, "soundcloud.com"@) && !contains_seq(url, "bilibili.com"@) && !contains_seq(url, "b23.tv"@) ==> resolve_spec(url) == ProviderKind::Generic,
{
}

/// The name, media type and backend of every source.
pub proof fn law_source_names_and_media()
    ensures
        kind_name(ProviderKind::YouTube) == "youtube"@ && kind_media(ProviderKind::YouTube) == MediaType::Video && kind_backend(ProviderKind::YouTube) == Backend::YtDlp,
        kind_name(ProviderKind::TikTok) == "tiktok"@ && kind_media(ProviderKind::TikTok) == MediaType::Video && kind_backend(ProviderKind::TikTok) == Backend::YtDlp,
        kind_name(ProviderKind::Instagram) == "instagram"@ && kind_media(ProviderKind::Instagram) == MediaType::Image && kind_backend(ProviderKind::Instagram) == Backend::YtDlp,
        kind_name(ProviderKind::Twitter) == "twitter"@ && kind_media(ProviderKind::Twitter) == MediaType::Image && kind_backend(ProviderKind::Twitter) == Backend::YtDlp,
        kind_name(ProviderKind::Pinterest) == "pinterest"@ && kind_media(ProviderKind::Pinterest) == MediaType::Image && kind_backend(ProviderKind::Pinterest) == Backend::YtDlp,
        kind_name(ProviderKind::Reddit) == "reddit"@ && kind_media(ProviderKind::Reddit) == MediaType::Video && kind_backend(ProviderKind::Reddit) == Backend::RedditApi,
        kind_name(ProviderKind::Facebook) == "facebook"@ && kind_media(ProviderKind::Facebook) == MediaType::Video && kind_backend(ProviderKind::Facebook) == Backend::YtDlp,
        kind_name(ProviderKind::Vimeo) == "vimeo"@ && kind_media(ProviderKind::Vimeo) == MediaType::Video && kind_backend(ProviderKind::Vimeo) == Backend::YtDlp,
        kind_name(ProviderKind::SoundCloud) == "soundcloud"@ && kind_media(ProviderKind::SoundCloud) == MediaType::Audio && kind_backend(ProviderKind::SoundCloud) == Backend::YtDlp,
        kind_name(ProviderKind::Bilibili) == "bilibili"@ && kind_media(ProviderKind::Bilibili) == MediaType::Video && kind_backend(ProviderKind::Bilibili) == Backend::YtDlp,
        kind_name(ProviderKind::Generic) == "generic"@ && kind_media(ProviderKind::Generic) == MediaType::Video && kind_backend(ProviderKind::Generic) == Backend::Http,
{
}

} // verus!

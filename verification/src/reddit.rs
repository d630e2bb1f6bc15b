//! The Reddit source: where a post's description is read, what it tells,
//! and what of it is downloaded.
use vstd::prelude::*;
use crate::error::DxcError;
use crate::format::{duration_text, format_duration};
use crate::media::MediaInfo;
use crate::text::{chars_of, contains, contains_seq, lemma_rfind, rfind, rfind_char, str_eq, string_from_range};

verus! {

/// The video of a Reddit post.
#[derive(Debug, Clone)]
pub struct RedditVideo {
    pub fallback_url: Option<String>,
    /// The duration in whole seconds.
    pub duration_secs: Option<u64>,
}

/// What the Reddit API tells about a post.
#[derive(Debug, Clone)]
pub struct RedditPost {
    pub title: Option<String>,
    pub url_overridden_by_dest: Option<String>,
    pub domain: Option<String>,
    pub video: Option<RedditVideo>,
}

/// What is downloaded for a Reddit post.
#[derive(Debug, Clone)]
pub enum RedditDownload {
    /// The post's own video, from this URL.
    Video(String),
    /// The media the post links to elsewhere, from this URL.
    External(String),
}

/// The URL of the JSON description of the post at `url`: `reddit.json` in
/// place of a trailing `/`, else `/.json` appended.
pub open spec fn json_url_spec(url: Seq<char>) -> Seq<char> {
    if url.len() > 0 && url.last() == '/' {
        url.drop_last() + "reddit.json"@
    } else {
        url + "/.json"@
    }
}

/// `url` is a share link (it holds `/s/`).
pub open spec fn is_share_link(url: Seq<char>) -> bool {
    contains_seq(url, "/s/"@)
}

/// The URL of the JSON description of the post at `url`, for a download.
pub fn reddit_download_url(url: &str) -> (r: String)
    ensures
        r@ == json_url_spec(url@),
{
    let v = chars_of(url);
    let n = v.len();
    if n > 0 && v[n - 1] == '/' {
        let r = string_from_range(&v, 0, n - 1).concat("reddit.json");
        assert(v@.subrange(0, n - 1) == url@.drop_last());
        r
    } else {
        String::from_str(url).concat("/.json")
    }
}

/// The URL of the JSON description of the post at `url`, for its
/// information; share links without a trailing `/` are refused.
pub fn reddit_info_url(url: &str) -> (r: Result<String, DxcError>)
    ensures
        (url@.len() > 0 && url@.last() == '/') || !is_share_link(url@) ==> (r matches Ok(s)
            && s@ == json_url_spec(url@)),
        !(url@.len() > 0 && url@.last() == '/') && is_share_link(url@) ==> (r matches Err(
            DxcError::Other(m),
        ) && m@ == "Reddit share links not yet supported"@),
{
    let v = chars_of(url);
    let n = v.len();
    if n > 0 && v[n - 1] == '/' {
        Ok(reddit_download_url(url))
    } else if contains(url, "/s/") {
        Err(DxcError::Other(String::from_str("Reddit share links not yet supported")))
    } else {
        Ok(reddit_download_url(url))
    }
}

/// The post that a listing describes: the first child of the first
/// response.
pub fn first_post(listing: Vec<Vec<RedditPost>>) -> (r: Result<RedditPost, DxcError>)
    ensures
        listing@.len() > 0 && listing@[0]@.len() > 0 ==> r == Ok::<RedditPost, DxcError>(
            listing@[0]@[0],
        ),
        !(listing@.len() > 0 && listing@[0]@.len() > 0) ==> (r matches Err(DxcError::Other(m))
            && m@ == "No post data found"@),
{
    let mut listing = listing;
    if listing.len() == 0 {
        return Err(DxcError::Other(String::from_str("No post data found")));
    }
    let mut first = listing.remove(0);
    if first.len() == 0 {
        return Err(DxcError::Other(String::from_str("No post data found")));
    }
    Ok(first.remove(0))
}

/// The text of an optional field, or `Unknown`.
fn text_or_unknown(s: &Option<String>) -> (r: String)
    ensures
        r@ == match s {
            Some(t) => t@,
            None => "Unknown"@,
        },
{
    match s {
        Some(t) => t.clone(),
        None => String::from_str("Unknown"),
    }
}

/// The duration of a post's video, where it has one with a duration.
pub open spec fn post_duration(post: RedditPost) -> Option<u64> {
    match post.video {
        Some(v) => v.duration_secs,
        None => None,
    }
}

/// What a Reddit post is shown as: its title and the duration of its
/// video, each `Unknown` where the post has none; the size is never known.
pub fn reddit_media_info(post: &RedditPost) -> (m: MediaInfo)
    ensures
        m.title@ == match post.title {
            Some(t) => t@,
            None => "Unknown"@,
        },
        m.duration@ == match post_duration(*post) {
            Some(d) => duration_text(d as nat),
            None => "Unknown"@,
        },
        m.size@ == "Unknown"@,
        m.provider@ == "reddit"@,
{
    let duration_secs = match &post.video {
        Some(v) => v.duration_secs,
        None => None,
    };
    let duration = match duration_secs {
        Some(d) => format_duration(d),
        None => String::from_str("Unknown"),
    };
    MediaInfo {
        title: text_or_unknown(&post.title),
        duration,
        size: String::from_str("Unknown"),
        provider: String::from_str("reddit"),
    }
}

/// The fallback URL of a post's video, where it has one.
pub open spec fn post_video_url(post: RedditPost) -> Option<Seq<char>> {
    match post.video {
        Some(v) => match v.fallback_url {
            Some(u) => Some(u@),
            None => None,
        },
        None => None,
    }
}

/// The URL a post links to elsewhere: its destination, unless the domain
/// is `reddit.com` itself.
pub open spec fn post_external_url(post: RedditPost) -> Option<Seq<char>> {
    match post.url_overridden_by_dest {
        Some(u) => match post.domain {
            Some(d) => if d@ == "reddit.com"@ {
                None
            } else {
                Some(u@)
            },
            None => Some(u@),
        },
        None => None,
    }
}

/// What is downloaded for a post: its own video where it has one, else
/// the media it links to outside Reddit, else nothing (an error).
pub fn reddit_download_plan(post: &RedditPost) -> (r: Result<RedditDownload, DxcError>)
    ensures
        post_video_url(*post) matches Some(u) ==> (r matches Ok(RedditDownload::Video(s)) && s@
            == u),
        post_video_url(*post) is None ==> (post_external_url(*post) matches Some(u) ==> (r matches Ok(
            RedditDownload::External(s),
        ) && s@ == u)),
        post_video_url(*post) is None && post_external_url(*post) is None ==> (r matches Err(
            DxcError::Other(m),
        ) && m@ == "No downloadable media found in Reddit post"@),
        post.video is Some && post.video->0.fallback_url is Some ==> (r matches Ok(
            RedditDownload::Video(s),
        ) && s@ == post.video->0.fallback_url->0@),
        (post.video is None || post.video->0.fallback_url is None)
            && post.url_overridden_by_dest is Some && (post.domain is None || post.domain->0@
            != "reddit.com"@) ==> (r matches Ok(RedditDownload::External(s)) && s@
            == post.url_overridden_by_dest->0@),
        (post.video is None || post.video->0.fallback_url is None) && (
        post.url_overridden_by_dest is None || (post.domain is Some && post.domain->0@
            == "reddit.com"@)) ==> (r matches Err(DxcError::Other(m)) && m@
            == "No downloadable media found in Reddit post"@),
{
    if let Some(video) = &post.video {
        if let Some(u) = &video.fallback_url {
            return Ok(RedditDownload::Video(u.clone()));
        }
    }
    if let Some(u) = &post.url_overridden_by_dest {
        let elsewhere = match &post.domain {
            Some(d) => !str_eq(d.as_str(), "reddit.com"),
            None => true,
        };
        if elsewhere {
            return Ok(RedditDownload::External(u.clone()));
        }
    }
    Err(DxcError::Other(String::from_str("No downloadable media found in Reddit post")))
}

/// What is downloaded for a post, by its fields: the video's fallback URL
/// where the post has one; else its destination, unless that destination's
/// domain is `reddit.com` itself; else nothing.
pub proof fn law_reddit_download_choice(post: RedditPost)
    ensures
        post.video is Some && post.video->0.fallback_url is Some ==> post_video_url(post) == Some(
            post.video->0.fallback_url->0@,
        ),
        post.video is None || post.video->0.fallback_url is None ==> post_video_url(post) is None,
        post.url_overridden_by_dest is Some && (post.domain is None || post.domain->0@
            != "reddit.com"@) ==> post_external_url(post) == Some(
            post.url_overridden_by_dest->0@,
        ),
        post.url_overridden_by_dest is None || (post.domain is Some && post.domain->0@
            == "reddit.com"@) ==> post_external_url(post) is None,
{
}

/// What follows the last `.` of `u`, or all of `u` where it has none.
pub open spec fn after_last_dot(u: Seq<char>) -> Seq<char> {
    match rfind(u, '.') {
        Some(i) => u.subrange(i + 1, u.len() as int),
        None => u,
    }
}

/// Where a downloaded Reddit video ends up: the output path with the
/// extension of the video URL appended.
pub fn reddit_video_path(output_path: &str, video_url: &str) -> (r: String)
    ensures
        r@ == output_path@ + "."@ + after_last_dot(video_url@),
{
    let v = chars_of(video_url);
    let n = v.len();
    proof {
        lemma_rfind(v@, '.');
    }
    let ext = match rfind_char(&v, '.') {
        Some(i) => string_from_range(&v, i + 1, n),
        None => string_from_range(&v, 0, n),
    };
    assert(v@.subrange(0, n as int) == v@);
    String::from_str(output_path).concat(".").concat(ext.as_str())
}

/// A downloaded video keeps the extension of its URL: what follows the
/// URL's last `.` holds no `.`, and the URL is what precedes that `.`, the
/// `.` and the extension; a URL without `.` is appended whole.
pub proof fn law_video_extension(u: Seq<char>)
    ensures
        forall|k: int| 0 <= k < after_last_dot(u).len() ==> #[trigger] after_last_dot(u)[k] != '.',
        u.contains('.') ==> u.subrange(0, u.len() - after_last_dot(u).len() - 1) + seq!['.']
            + after_last_dot(u) == u,
        !u.contains('.') ==> after_last_dot(u) == u,
{
    lemma_rfind(u, '.');
    match rfind(u, '.') {
        Some(i) => {
            let e = u.subrange(i + 1, u.len() as int);
            assert forall|k: int| 0 <= k < e.len() implies #[trigger] e[k] != '.' by {
                assert(e[k] == u[i + 1 + k]);
            }
            assert(u.subrange(0, i) + seq!['.'] + e =~= u);
        },
        None => {
            if u.contains('.') {
                let k = choose|k: int| 0 <= k < u.len() && u[k] == '.';
                assert(u[k] != '.');
            }
            assert forall|k: int| 0 <= k < u.len() implies #[trigger] u[k] != '.' by {}
        },
    }
}

/// The JSON description of a post: a URL ending in `/` loses that `/` and
/// gets `reddit.json`; any other gets `/.json`.
pub proof fn law_json_url(url: Seq<char>)
    ensures
        url.len() > 0 && url.last() == '/' ==> json_url_spec(url) == url.drop_last() + seq![
            'r',
            'e',
            'd',
            'd',
            'i',
            't',
            '.',
            'j',
            's',
            'o',
            'n',
        ],
        !(url.len() > 0 && url.last() == '/') ==> json_url_spec(url) == url + seq![
            '/',
            '.',
            'j',
            's',
            'o',
            'n',
        ],
{
    reveal_strlit("reddit.json");
    reveal_strlit("/.json");
    assert("reddit.json"@ =~= seq!['r', 'e', 'd', 'd', 'i', 't', '.', 'j', 's', 'o', 'n']);
    assert("/.json"@ =~= seq!['/', '.', 'j', 's', 'o', 'n']);
}

} // verus!

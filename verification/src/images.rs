//! Decisions of the profile image proxy.
//!
//! Avatars, banners and externally referenced images are served either
//! from a bundled default, from local media storage, or by streaming a
//! remote url.  Which source is used, and whether a remote response may
//! be streamed at all, are pure decisions over the url and the response
//! metadata.

use vstd::prelude::*;
use crate::text::{spec_starts_with, str_eq, str_starts_with};

verus! {

/// What the mime guesser derives from a path, if its extension is known.
pub uninterp spec fn mime_guess_of(path: Seq<char>) -> Option<Seq<char>>;

/// Relies on `mime_guess::from_path` and `MimeGuess::first_raw`: a pure
/// lookup of the path's extension in a static table; the result depends
/// on the path alone.
#[verifier::external_body]
pub(crate) fn guess_mime(path: &str) -> (r: Option<String>)
    ensures
        r.deep_view() == mime_guess_of(path@),
{
    match mime_guess::from_path(path).first_raw() {
        Some(m) => Some(m.to_string()),
        None => None,
    }
}

/// Where a profile image is served from.
#[derive(Clone, Copy, PartialEq, Eq, Structural, Debug)]
pub enum ImageSource {
    /// The bundled default image.
    Default,
    /// The locally stored media file of the profile.
    Media,
    /// The remote url, streamed through the proxy.
    Remote,
}

/// The marker url that selects the profile's locally stored media file.
pub open spec fn media_marker() -> Seq<char> {
    "rb://"@
}

/// Where an image url is served from: the local media file for the
/// marker url (when a media directory is configured), the default image
/// for an empty url, a url pointing back at this host, or a url on a
/// blocked host, and the remote url otherwise.
pub open spec fn spec_image_source(
    url: Seq<char>,
    host: Seq<char>,
    media_dir: Seq<char>,
    blocked_hosts: Seq<Seq<char>>,
) -> ImageSource {
    if url == media_marker() && media_dir.len() > 0 {
        ImageSource::Media
    } else if spec_starts_with(url, host) {
        ImageSource::Default
    } else if exists|i: int|
        0 <= i < blocked_hosts.len() && spec_starts_with(url, blocked_hosts[i]) {
        ImageSource::Default
    } else if url.len() == 0 {
        ImageSource::Default
    } else {
        ImageSource::Remote
    }
}

/// Selects the source of a profile image url.
#[verifier::loop_isolation(false)]
pub fn select_image_source(
    url: &String,
    host: &String,
    media_dir: &String,
    blocked_hosts: &Vec<String>,
) -> (r: ImageSource)
    ensures
        r == spec_image_source(url@, host@, media_dir@, blocked_hosts.deep_view()),
{
    if str_eq(url.as_str(), "rb://") && !media_dir.as_str().is_empty() {
        return ImageSource::Media;
    }
    if str_starts_with(url.as_str(), host.as_str()) {
        return ImageSource::Default;
    }
    let n = blocked_hosts.len();
    let mut i: usize = 0;
    while i < n
        invariant
            n == blocked_hosts@.len(),
            i <= n,
            forall|j: int|
                0 <= j < i ==> !spec_starts_with(url@, #[trigger] blocked_hosts.deep_view()[j]),
        decreases n - i,
    {
        if str_starts_with(url.as_str(), blocked_hosts[i].as_str()) {
            proof {
                assert(blocked_hosts.deep_view()[i as int] == blocked_hosts@[i as int]@);
                assert(spec_starts_with(url@, blocked_hosts.deep_view()[i as int]));
                assert(exists|j: int|
                    0 <= j < blocked_hosts.deep_view().len() && spec_starts_with(
                        url@,
                        blocked_hosts.deep_view()[j],
                    ));
            }
            return ImageSource::Default;
        }
        i = i + 1;
    }
    if url.as_str().is_empty() {
        return ImageSource::Default;
    }
    ImageSource::Remote
}

/// A remote content type that must not be proxied: anything that is
/// neither an image nor a font, and the two text types an error page
/// would carry.
pub open spec fn spec_content_type_blocked(ct: Seq<char>) -> bool {
    ||| !spec_starts_with(ct, "image/"@) && !spec_starts_with(ct, "font/"@)
    ||| ct == "text/html"@
    ||| ct == "text/plain"@
}

/// Whether a remote content type header value rules out streaming the
/// response.
pub fn content_type_blocked(ct: &String) -> (r: bool)
    ensures
        r == spec_content_type_blocked(ct@),
{
    (!str_starts_with(ct.as_str(), "image/") && !str_starts_with(ct.as_str(), "font/")) || str_eq(
        ct.as_str(),
        "text/html",
    ) || str_eq(ct.as_str(), "text/plain")
}

/// The largest remote image the proxy will stream, in bytes.
pub const MAX_PROXIED_IMAGE_BYTES: u64 = 10485760;

/// Whether a remote response may be streamed: the declared length, when
/// present, must not exceed the limit, and the declared content type,
/// when present, must not be blocked.
pub open spec fn spec_remote_response_allowed(
    content_length: Option<u64>,
    content_type: Option<Seq<char>>,
) -> bool {
    &&& match content_length {
        Some(n) => n <= MAX_PROXIED_IMAGE_BYTES,
        None => true,
    }
    &&& match content_type {
        Some(ct) => !spec_content_type_blocked(ct),
        None => true,
    }
}

/// Decides whether a remote response may be streamed, from its declared
/// length and content type.
pub fn remote_response_allowed(content_length: Option<u64>, content_type: &Option<String>) -> (r:
    bool)
    ensures
        r == spec_remote_response_allowed(content_length, content_type.deep_view()),
{
    let length_ok = match content_length {
        Some(n) => n <= MAX_PROXIED_IMAGE_BYTES,
        None => true,
    };
    let type_ok = match content_type {
        Some(ct) => !content_type_blocked(ct),
        None => true,
    };
    length_ok && type_ok
}

/// The content type a streamed remote image is served under: the type
/// guessed from the url's extension, with no guess served as a plain
/// octet stream, and a guessed html type downgraded to plain text.
pub open spec fn spec_proxied_content_type(url: Seq<char>) -> Seq<char> {
    let guessed = match mime_guess_of(url) {
        Some(m) => m,
        None => "application/octet-stream"@,
    };
    if guessed == "text/html"@ {
        "text/plain"@
    } else {
        guessed
    }
}

/// The content type to serve a streamed remote image under.
pub fn proxied_content_type(url: &String) -> (r: String)
    ensures
        r@ == spec_proxied_content_type(url@),
{
    proof {
        reveal_strlit("application/octet-stream");
        reveal_strlit("text/html");
    }
    match guess_mime(url.as_str()) {
        Some(m) => if str_eq(m.as_str(), "text/html") {
            "text/plain".to_owned()
        } else {
            m
        },
        None => "application/octet-stream".to_owned(),
    }
}

} // verus!

//! Video identifiers in watch URLs.
use vstd::prelude::*;

verus! {

/// Capture group 1 of the leftmost match of a regular expression in a text,
/// or `None` when the expression does not compile, nothing matches, or the
/// group took no part in the match.
pub uninterp spec fn first_capture(pattern: Seq<char>, text: Seq<char>) -> Option<Seq<char>>;

/// Relies on `regex::Regex::new`, `Regex::captures` and `Captures::get`: the
/// text of capture group 1 of the leftmost-first match of `pattern` in `text`.
#[verifier::external_body]
fn capture_group_one(pattern: &str, text: &str) -> (r: Option<String>)
    ensures
        match first_capture(pattern@, text@) {
            Some(c) => r matches Some(s) && s@ == c,
            None => r is None,
        },
{
    let re = regex::Regex::new(pattern).ok()?;
    let caps = re.captures(text)?;
    caps.get(1).map(|m| m.as_str().to_string())
}

/// The forms of a video URL and the eleven-character identifier they carry.
pub const VIDEO_URL_PATTERN: &'static str = "(?:youtube\\.com/(?:watch\\?v=|embed/|v/|shorts/)|youtu\\.be/)([a-zA-Z0-9_-]{11})";

/// The video identifier in `url`: group 1 of `VIDEO_URL_PATTERN`'s first match.
pub fn extract_video_id(url: &str) -> (r: Option<String>)
    ensures
        match first_capture(VIDEO_URL_PATTERN@, url@) {
            Some(c) => r matches Some(s) && s@ == c,
            None => r is None,
        },
{
    capture_group_one(VIDEO_URL_PATTERN, url)
}

} // verus!

//! The URL rewriter: parses a chat message as an absolute URL, takes the
//! filename from the final path segment, requires a recognized video
//! extension marker, removes the platform's re-encode markers from the
//! filename, and joins the cleaned filename back onto the URL.

use crate::text::contains_chars;
use crate::text::contains_seq;
use crate::text::chars_to_string;
use crate::text::lemma_replace_all_absent;
use crate::text::lemma_replace_single;
use crate::text::occurs_at;
use crate::text::replace_all;
use crate::text::replace_all_chars;
use crate::text::str_to_chars;
use vstd::prelude::*;

verus! {

/// The characters of the `vp9` re-encode marker.
pub open spec fn vp9_marker() -> Seq<char> {
    seq!['v', 'p', '9']
}

/// The characters of the `av1` re-encode marker.
pub open spec fn av1_marker() -> Seq<char> {
    seq!['a', 'v', '1']
}

/// The characters of the `webm` extension marker.
pub open spec fn webm_marker() -> Seq<char> {
    seq!['w', 'e', 'b', 'm']
}

/// The characters of the `mp4` extension marker.
pub open spec fn mp4_marker() -> Seq<char> {
    seq!['m', 'p', '4']
}

pub(crate) fn vp9_chars() -> (r: Vec<char>)
    ensures
        r@ == vp9_marker(),
{
    let mut r: Vec<char> = Vec::new();
    r.push('v');
    r.push('p');
    r.push('9');
    assert(r@ =~= vp9_marker());
    r
}

pub(crate) fn av1_chars() -> (r: Vec<char>)
    ensures
        r@ == av1_marker(),
{
    let mut r: Vec<char> = Vec::new();
    r.push('a');
    r.push('v');
    r.push('1');
    assert(r@ =~= av1_marker());
    r
}

pub(crate) fn webm_chars() -> (r: Vec<char>)
    ensures
        r@ == webm_marker(),
{
    let mut r: Vec<char> = Vec::new();
    r.push('w');
    r.push('e');
    r.push('b');
    r.push('m');
    assert(r@ =~= webm_marker());
    r
}

pub(crate) fn mp4_chars() -> (r: Vec<char>)
    ensures
        r@ == mp4_marker(),
{
    let mut r: Vec<char> = Vec::new();
    r.push('m');
    r.push('p');
    r.push('4');
    assert(r@ =~= mp4_marker());
    r
}

/// A filename is recognized as a video when it mentions `webm` or `mp4`.
pub open spec fn has_video_marker(f: Seq<char>) -> bool {
    contains_seq(f, webm_marker()) || contains_seq(f, mp4_marker())
}

/// The filename after the platform rewrite: every leftmost `vp9` occurrence
/// removed, then every leftmost `av1` occurrence removed.
pub open spec fn transformed_name(f: Seq<char>) -> Seq<char> {
    replace_all(replace_all(f, vp9_marker(), Seq::empty()), av1_marker(), Seq::empty())
}

/// Why a message could not be rewritten to a canonical video URL.
#[derive(Clone, Copy, Debug, PartialEq, Eq, Structural)]
pub enum RewriteError {
    /// The message does not parse as an absolute URL.
    InvalidUrl,
    /// The URL has no hierarchical path to take a filename from.
    NotBase,
    /// The filename mentions neither `webm` nor `mp4`.
    UnsupportedFormat,
    /// The cleaned filename could not be joined back onto the URL.
    JoinError,
}

impl RewriteError {
    /// The failure's account, as characters.
    pub open spec fn message_spec(self) -> Seq<char> {
        match self {
            RewriteError::InvalidUrl => "Message is not a valid absolute url"@,
            RewriteError::NotBase => "Url has no path to take a filename from"@,
            RewriteError::UnsupportedFormat => "Filename is not webm or mp4"@,
            RewriteError::JoinError => "Unable to join the cleaned filename onto the url"@,
        }
    }

    /// A short account of the failure, for the caller's report to the user.
    pub fn message(&self) -> (r: &'static str)
        ensures
            r@ == self.message_spec(),
    {
        match self {
            RewriteError::InvalidUrl => "Message is not a valid absolute url",
            RewriteError::NotBase => "Url has no path to take a filename from",
            RewriteError::UnsupportedFormat => "Filename is not webm or mp4",
            RewriteError::JoinError => "Unable to join the cleaned filename onto the url",
        }
    }
}

/// What `url::Url::parse` yields on a string: the parsed URL's
/// serialization, or nothing when parsing fails.
pub uninterp spec fn parsed_url(s: Seq<char>) -> Option<Seq<char>>;

/// What taking the last path segment yields on the URL serialized as `u`:
/// the final slash-separated segment (possibly empty), or nothing when the
/// URL cannot be a base or `u` is no URL serialization.
pub uninterp spec fn last_segment(u: Seq<char>) -> Option<Seq<char>>;

/// What `url::Url::join` yields on the URL serialized as `base` and the
/// relative input `input`: the joined URL's serialization, or nothing when
/// joining fails.
pub uninterp spec fn joined_url(base: Seq<char>, input: Seq<char>) -> Option<Seq<char>>;

/// Relies on `url::Url::parse`: the result is a function of the input string
/// alone, and `String::from(url)` hands back the parsed URL's serialization,
/// the same string `Url::as_str` points at.
#[verifier::external_body]
fn parse_url(s: &str) -> (r: Option<String>)
    ensures
        match r {
            Some(u) => parsed_url(s@) == Some(u@),
            None => parsed_url(s@) is None,
        },
{
    match url::Url::parse(s) {
        Ok(u) => Some(String::from(u)),
        Err(_) => None,
    }
}

/// Relies on `url::Url::path_segments`: it returns `Some` exactly when the
/// URL is not cannot-be-a-base, and then always holds at least one (possibly
/// empty) segment, so `last()` is `Some`. The URL is recovered from its
/// serialization, which `url` documents as parsing back to the same URL.
#[verifier::external_body]
pub(crate) fn url_last_segment(u: &str) -> (r: Option<String>)
    ensures
        match r {
            Some(f) => last_segment(u@) == Some(f@),
            None => last_segment(u@) is None,
        },
{
    match url::Url::parse(u) {
        Ok(p) => p.path_segments().and_then(|s| s.last()).map(|f| f.to_owned()),
        Err(_) => None,
    }
}

/// Relies on `url::Url::join`: resolving a relative filename against a URL
/// replaces the URL's final path segment. The base is recovered from its
/// serialization, which `url` documents as parsing back to the same URL.
#[verifier::external_body]
fn url_join(base: &str, input: &str) -> (r: Option<String>)
    ensures
        match r {
            Some(u) => joined_url(base@, input@) == Some(u@),
            None => joined_url(base@, input@) is None,
        },
{
    match url::Url::parse(base) {
        Ok(b) => match b.join(input) {
            Ok(j) => Some(String::from(j)),
            Err(_) => None,
        },
        Err(_) => None,
    }
}

/// What filename extraction yields on the URL serialized as `u`.
pub open spec fn extracted_filename(u: Seq<char>) -> Result<Seq<char>, RewriteError> {
    match last_segment(u) {
        None => Err(RewriteError::NotBase),
        Some(f) => if has_video_marker(f) {
            Ok(f)
        } else {
            Err(RewriteError::UnsupportedFormat)
        },
    }
}

/// What the whole rewrite yields on a message.
pub open spec fn rewritten_link(message: Seq<char>) -> Result<Seq<char>, RewriteError> {
    match parsed_url(message) {
        None => Err(RewriteError::InvalidUrl),
        Some(u) => match extracted_filename(u) {
            Err(e) => Err(e),
            Ok(f) => match joined_url(u, transformed_name(f)) {
                None => Err(RewriteError::JoinError),
                Some(l) => Ok(l),
            },
        },
    }
}

/// Remove the platform's `vp9` and `av1` re-encode markers from a filename.
/// All other characters are kept unchanged, in order.
pub fn transform_ninegag_name(filename: &str) -> (r: String)
    ensures
        r@ == transformed_name(filename@),
{
    let chars = str_to_chars(filename);
    let vp9 = vp9_chars();
    let av1 = av1_chars();
    let empty: Vec<char> = Vec::new();
    let step1 = replace_all_chars(&chars, &vp9, &empty);
    let step2 = replace_all_chars(&step1, &av1, &empty);
    chars_to_string(&step2)
}

/// The filename path segment of the URL serialized as `url`, accepted only
/// when it mentions a recognized video extension. Policy: the filename is
/// the last path segment of the URL.
pub fn extract_filename(url: &str) -> (r: Result<String, RewriteError>)
    ensures
        match extracted_filename(url@) {
            Ok(fs) => r matches Ok(f) && f@ == fs,
            Err(es) => r matches Err(e) && e == es,
        },
{
    match url_last_segment(url) {
        None => Err(RewriteError::NotBase),
        Some(f) => {
            let fc = str_to_chars(f.as_str());
            let webm = webm_chars();
            let mp4 = mp4_chars();
            if contains_chars(&fc, &webm) || contains_chars(&fc, &mp4) {
                Ok(f)
            } else {
                Err(RewriteError::UnsupportedFormat)
            }
        },
    }
}

/// Rewrite a chat message to the canonical video URL: parse it as an
/// absolute URL, take the filename from the last path segment, require a
/// video extension marker, strip the re-encode markers, and join the cleaned
/// filename back onto the URL.
pub fn handle_message(message: &str) -> (r: Result<String, RewriteError>)
    ensures
        match rewritten_link(message@) {
            Ok(l) => r matches Ok(s) && s@ == l,
            Err(es) => r matches Err(e) && e == es,
        },
{
    let parsed = match parse_url(message) {
        Some(u) => u,
        None => {
            return Err(RewriteError::InvalidUrl);
        },
    };
    let filename = match extract_filename(parsed.as_str()) {
        Ok(f) => f,
        Err(e) => {
            return Err(e);
        },
    };
    let result_name = transform_ninegag_name(filename.as_str());
    match url_join(parsed.as_str(), result_name.as_str()) {
        Some(l) => Ok(l),
        None => Err(RewriteError::JoinError),
    }
}

/// A filename free of both re-encode markers is left unchanged by the
/// rewrite: on already-clean names the transform is a no-op.
pub proof fn lemma_transform_clean_noop(f: Seq<char>)
    requires
        !contains_seq(f, vp9_marker()),
        !contains_seq(f, av1_marker()),
    ensures
        transformed_name(f) == f,
{
    lemma_replace_all_absent(f, vp9_marker(), Seq::empty());
    lemma_replace_all_absent(f, av1_marker(), Seq::empty());
}

/// A filename of the shape `pre + "vp9" + suf` whose only marker occurrence
/// is that one (`pre + suf` holds no `vp9` and no `av1`, and no new `vp9`
/// occurrence arises at the seam) rewrites to exactly `pre + suf`.
pub proof fn lemma_transform_removes_vp9(pre: Seq<char>, suf: Seq<char>)
    requires
        forall|j: int| occurs_at(pre + vp9_marker() + suf, vp9_marker(), j) ==> j == pre.len(),
        !contains_seq(pre + suf, vp9_marker()),
        !contains_seq(pre + suf, av1_marker()),
    ensures
        transformed_name(pre + vp9_marker() + suf) == pre + suf,
{
    lemma_replace_single(pre, vp9_marker(), suf);
    lemma_replace_all_absent(pre + suf, av1_marker(), Seq::empty());
}

/// A filename of the shape `pre + "av1" + suf` whose only marker occurrence
/// is that one rewrites to exactly `pre + suf`.
pub proof fn lemma_transform_removes_av1(pre: Seq<char>, suf: Seq<char>)
    requires
        forall|j: int| occurs_at(pre + av1_marker() + suf, av1_marker(), j) ==> j == pre.len(),
        !contains_seq(pre + av1_marker() + suf, vp9_marker()),
        !contains_seq(pre + suf, av1_marker()),
    ensures
        transformed_name(pre + av1_marker() + suf) == pre + suf,
{
    lemma_replace_all_absent(pre + av1_marker() + suf, vp9_marker(), Seq::empty());
    lemma_replace_single(pre, av1_marker(), suf);
}

} // verus!

//! URL edits through the `url` crate, on URLs given in their serialized
//! form: the file name of a download, the rebuilder list URL and the
//! transparency proof URL.

use vstd::prelude::*;
use crate::error::Error;
use crate::text::{append_chars, chars_of, string_of};
use crate::translog::string_views;

verus! {

/// The last segment of the path of the URL `url`, or `None` when it is no
/// valid URL or cannot be a base (has no path segments).
pub uninterp spec fn url_last_segment(url: Seq<char>) -> Option<Seq<char>>;

/// `url` with a trailing empty path segment removed, or `None` when it is
/// no valid URL or cannot be a base.
pub uninterp spec fn url_popped_if_empty(url: Seq<char>) -> Option<Seq<char>>;

/// `url` with its last path segment removed, or `None` when it is no valid
/// URL or cannot be a base.
pub uninterp spec fn url_popped(url: Seq<char>) -> Option<Seq<char>>;

/// `url` with the path segments `segs` appended, or `None` when it is no
/// valid URL or cannot be a base.
pub uninterp spec fn url_extended(url: Seq<char>, segs: Seq<Seq<char>>) -> Option<Seq<char>>;

/// `url` with the pair `key=value` appended to its query, or `None` when it
/// is no valid URL.
pub uninterp spec fn url_pair_appended(url: Seq<char>, key: Seq<char>, value: Seq<char>) -> Option<Seq<char>>;

/// Relies on `url::Url::path_segments` (and the iterator's `last`): the last
/// path segment of the parsed `url`.
#[verifier::external_body]
fn last_segment(url: &str) -> (r: Option<String>)
    ensures
        match r {
            Some(s) => url_last_segment(url@) == Some(s@),
            None => url_last_segment(url@) is None,
        },
{
    let u = url::Url::parse(url).ok()?;
    let last = u.path_segments()?.last()?;
    Some(last.to_string())
}

/// Relies on `url::PathSegmentsMut::pop_if_empty` on the parsed `url`.
#[verifier::external_body]
fn pop_if_empty(url: &str) -> (r: Option<String>)
    ensures
        match r {
            Some(s) => url_popped_if_empty(url@) == Some(s@),
            None => url_popped_if_empty(url@) is None,
        },
{
    let mut u = url::Url::parse(url).ok()?;
    u.path_segments_mut().ok()?.pop_if_empty();
    Some(u.as_str().to_string())
}

/// Relies on `url::PathSegmentsMut::pop` on the parsed `url`.
#[verifier::external_body]
fn pop_segment(url: &str) -> (r: Option<String>)
    ensures
        match r {
            Some(s) => url_popped(url@) == Some(s@),
            None => url_popped(url@) is None,
        },
{
    let mut u = url::Url::parse(url).ok()?;
    u.path_segments_mut().ok()?.pop();
    Some(u.as_str().to_string())
}

/// Relies on `url::PathSegmentsMut::extend` on the parsed `url`.
#[verifier::external_body]
fn extend_segments(url: &str, segs: &Vec<String>) -> (r: Option<String>)
    ensures
        match r {
            Some(s) => url_extended(url@, string_views(segs@)) == Some(s@),
            None => url_extended(url@, string_views(segs@)) is None,
        },
{
    let mut u = url::Url::parse(url).ok()?;
    u.path_segments_mut().ok()?.extend(segs);
    Some(u.as_str().to_string())
}

/// Relies on `form_urlencoded::Serializer::append_pair`, through
/// `url::Url::query_pairs_mut` on the parsed `url`.
#[verifier::external_body]
fn append_pair(url: &str, key: &str, value: &str) -> (r: Option<String>)
    ensures
        match r {
            Some(s) => url_pair_appended(url@, key@, value@) == Some(s@),
            None => url_pair_appended(url@, key@, value@) is None,
        },
{
    let mut u = url::Url::parse(url).ok()?;
    u.query_pairs_mut().append_pair(key, value);
    Some(u.as_str().to_string())
}

/// The file name of a URL: its last path segment, which must be non-empty.
pub open spec fn url_filename(s: Seq<char>) -> Option<Seq<char>> {
    match url_last_segment(s) {
        Some(f) => if f.len() > 0 {
            Some(f)
        } else {
            None
        },
        None => None,
    }
}

/// The file name of a URL: its last path segment, which must exist and be
/// non-empty; `MalformedUrl` otherwise.
pub fn filename_from_url(url: &str) -> (r: Result<String, Error>)
    ensures
        match url_filename(url@) {
            Some(f) => r matches Ok(s) && s@ == f,
            None => r == Err::<String, Error>(Error::MalformedUrl),
        },
{
    match last_segment(url) {
        Some(f) => if !f.as_str().is_empty() {
            Ok(f)
        } else {
            Err(Error::MalformedUrl)
        },
        None => Err(Error::MalformedUrl),
    }
}

/// The path segments of the rebuilder package list.
pub open spec fn list_segments() -> Seq<Seq<char>> {
    seq!["api"@, "v0"@, "pkgs"@, "list"@]
}

/// `base` with a trailing empty segment dropped, the segments
/// `api/v0/pkgs/list` appended, and the query pairs `distro=archlinux` and
/// `name=<name>` added.
pub open spec fn query_url_spec(base: Seq<char>, name: Seq<char>) -> Option<Seq<char>> {
    match url_popped_if_empty(base) {
        None => None,
        Some(a) => match url_extended(a, list_segments()) {
            None => None,
            Some(b) => match url_pair_appended(b, "distro"@, "archlinux"@) {
                None => None,
                Some(c) => url_pair_appended(c, "name"@, name),
            },
        },
    }
}

/// The URL at which the rebuilder `base` lists its rebuilds of package
/// `name`: `base/api/v0/pkgs/list?distro=archlinux&name=<name>`;
/// `MalformedUrl` when `base` is no URL with a path.
pub fn build_query_url(base: &str, name: &str) -> (r: Result<String, Error>)
    ensures
        match query_url_spec(base@, name@) {
            Some(u) => r matches Ok(s) && s@ == u,
            None => r == Err::<String, Error>(Error::MalformedUrl),
        },
{
    let a = match pop_if_empty(base) {
        Some(a) => a,
        None => return Err(Error::MalformedUrl),
    };
    let mut segs: Vec<String> = Vec::new();
    segs.push(String::from_str("api"));
    segs.push(String::from_str("v0"));
    segs.push(String::from_str("pkgs"));
    segs.push(String::from_str("list"));
    assert(string_views(segs@) =~= list_segments());
    let b = match extend_segments(a.as_str(), &segs) {
        Some(b) => b,
        None => return Err(Error::MalformedUrl),
    };
    let c = match append_pair(b.as_str(), "distro", "archlinux") {
        Some(c) => c,
        None => return Err(Error::MalformedUrl),
    };
    match append_pair(c.as_str(), "name", name) {
        Some(d) => Ok(d),
        None => Err(Error::MalformedUrl),
    }
}

/// Where the transparency proof of the package at `url` is found: `url`
/// with `.t` appended; or, given a transparency base, that base with its
/// last path segment replaced by the package's file name, then `.t`.
pub open spec fn proof_url_spec(url: Seq<char>, base: Option<Seq<char>>) -> Option<Seq<char>> {
    match base {
        None => Some(url + ".t"@),
        Some(t) => match url_filename(url) {
            None => None,
            Some(f) => match url_popped(t) {
                None => None,
                Some(p) => match url_extended(p, seq![f]) {
                    None => None,
                    Some(u) => Some(u + ".t"@),
                },
            },
        },
    }
}

/// The URL of the transparency proof for the package at `url`, as
/// `proof_url_spec` describes; `MalformedUrl` when a needed file name or
/// path is missing.
pub fn proof_url(url: &str, transparency_base: Option<&str>) -> (r: Result<String, Error>)
    ensures
        match proof_url_spec(url@, match transparency_base { Some(t) => Some(t@), None => None }) {
            Some(u) => r matches Ok(s) && s@ == u,
            None => r == Err::<String, Error>(Error::MalformedUrl),
        },
{
    let suffix = chars_of(".t");
    let target = match transparency_base {
        None => chars_of(url),
        Some(t) => {
            let f = filename_from_url(url)?;
            let p = match pop_segment(t) {
                Some(p) => p,
                None => return Err(Error::MalformedUrl),
            };
            let mut segs: Vec<String> = Vec::new();
            segs.push(f);
            assert(string_views(segs@) =~= seq![url_filename(url@)->0]);
            match extend_segments(p.as_str(), &segs) {
                Some(u) => chars_of(u.as_str()),
                None => return Err(Error::MalformedUrl),
            }
        },
    };
    let mut out = target;
    append_chars(&mut out, &suffix);
    Ok(string_of(out.as_slice()))
}

} // verus!

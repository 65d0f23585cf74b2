//! Deciding which downloads are installable packages.

use vstd::prelude::*;
use crate::text::{chars_of, lemma_split_on_nonempty, same_chars, split_chars, split_on, views};

verus! {

/// A URL names an installable package when, split at `.`, it ends in
/// `pkg.tar`, or in `pkg.tar.<compression>`.
pub open spec fn is_package_url(url: Seq<char>) -> bool {
    let t = split_on(url, '.');
    let n = t.len();
    if t[n - 1] == "tar"@ {
        n >= 2 && t[n - 2] == "pkg"@
    } else {
        n >= 3 && t[n - 2] == "tar"@ && t[n - 3] == "pkg"@
    }
}

/// Whether the download at `url` is a package, which must come with a
/// transparency proof before it is handed on.
pub fn needs_transparency_proof(url: &str) -> (r: bool)
    ensures
        r == is_package_url(url@),
{
    let cs = chars_of(url);
    let parts = split_chars(&cs, '.');
    proof {
        lemma_split_on_nonempty(url@, '.');
    }
    let ghost t = views(parts@);
    let n = parts.len();
    assert(t.len() == n);
    let tar = chars_of("tar");
    let pkg = chars_of("pkg");
    if same_chars(&parts[n - 1], &tar) {
        assert(t[n - 1] == "tar"@);
        n >= 2 && same_chars(&parts[n - 2], &pkg)
    } else {
        n >= 3 && same_chars(&parts[n - 2], &tar) && same_chars(&parts[n - 3], &pkg)
    }
}

} // verus!

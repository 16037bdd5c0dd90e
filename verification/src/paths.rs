//! Paths as text: joining a relative path onto a directory, and making a
//! path relative to one of its ancestors.

use vstd::prelude::*;
use vstd::string::*;
use std::path::Path;

verus! {

/// A path is rooted when it starts at the filesystem root.
pub open spec fn is_rooted(path: Seq<char>) -> bool {
    path.len() > 0 && path[0] == '/'
}

/// `rel` joined onto `base`: a rooted `rel` replaces `base`; otherwise `rel`
/// follows `base`, parted from it by one separator unless `base` is empty or
/// already ends in one.
pub open spec fn joined(base: Seq<char>, rel: Seq<char>) -> Seq<char> {
    if is_rooted(rel) {
        rel
    } else if base.len() == 0 || base.last() == '/' {
        base + rel
    } else {
        base + "/"@ + rel
    }
}

/// Joins `rel` onto `base`.
pub fn join(base: &str, rel: &str) -> (path: String)
    ensures
        path@ == joined(base@, rel@),
{
    let rel_len: usize = rel.unicode_len();
    if rel_len > 0 && rel.get_char(0) == '/' {
        return rel.to_owned();
    }
    let base_len: usize = base.unicode_len();
    let mut path: String = base.to_owned();
    if base_len > 0 && base.get_char(base_len - 1) != '/' {
        path.append("/");
    }
    path.append(rel);
    path
}

/// What is left of `path` once the leading components `base` are taken off,
/// or `None` where `base` is not made of leading components of `path`.
pub uninterp spec fn stripped_prefix(path: Seq<char>, base: Seq<char>) -> Option<Seq<char>>;

/// `std::path::Path::strip_prefix` on paths given as text. The standard
/// library compares whole components and, on a match, hands back the rest of
/// `path`. That rest, or its absence, depends on the two paths alone: it is
/// `stripped_prefix(path, base)`. Nothing more is claimed of it.
#[verifier::external_body]
pub(crate) fn strip_prefix(path: &str, base: &str) -> (rest: Option<String>)
    ensures
        match rest {
            Some(r) => stripped_prefix(path@, base@) == Some(r@),
            None => stripped_prefix(path@, base@) is None,
        },
{
    Path::new(path).strip_prefix(base).ok().map(|rest| rest.to_string_lossy().into_owned())
}

} // verus!

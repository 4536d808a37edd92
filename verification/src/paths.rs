//! The path normalizer: render a discovered absolute path as the
//! user-visible path rooted at the requested start directory.

use vstd::prelude::*;

verus! {

/// The relative portion of `path` seen from `base`, or `None` where no
/// relative rendering exists (or where the result is not valid UTF-8);
/// `pathdiff::diff_paths` computes it from the two texts alone.
pub uninterp spec fn path_diff(path: Seq<char>, base: Seq<char>) -> Option<Seq<char>>;

/// Relies on `pathdiff::diff_paths`: the relative path from `base` to
/// `path`, a function of the two texts alone.  A result that is not valid
/// UTF-8 is treated as no result.
#[verifier::external_body]
fn diff_paths(path: &str, base: &str) -> (r: Option<String>)
    ensures
        r.deep_view() == path_diff(path@, base@),
{
    pathdiff::diff_paths(path, base).and_then(|p| p.into_os_string().into_string().ok())
}

/// Joining a relative rendering back onto a root: an empty rendering gives
/// the root itself, an absolute rendering stands alone, and otherwise a
/// single separator is placed between the two.
pub open spec fn spec_join_path(base: Seq<char>, rel: Seq<char>) -> Seq<char> {
    if rel.len() == 0 {
        base
    } else if rel[0] == '/' {
        rel
    } else if base.len() > 0 && base.last() == '/' {
        base + rel
    } else if base.len() == 0 {
        rel
    } else {
        base + seq!['/'] + rel
    }
}

/// What `normalize_path` produces: the relative portion of `path` from
/// `root`, joined back onto `root`; `path` itself where no relative
/// rendering exists.
pub open spec fn spec_normalize_path(path: Seq<char>, root: Seq<char>) -> Seq<char> {
    match path_diff(path, root) {
        Some(rel) => spec_join_path(root, rel),
        None => path,
    }
}

/// Join a relative path onto a base path.
pub fn join_path(base: &str, rel: &str) -> (r: String)
    ensures
        r@ == spec_join_path(base@, rel@),
{
    proof {
        reveal_strlit("/");
    }
    let rel_len = rel.unicode_len();
    if rel_len == 0 {
        return base.to_owned();
    }
    if rel.get_char(0) == '/' {
        return rel.to_owned();
    }
    let base_len = base.unicode_len();
    if base_len == 0 {
        return rel.to_owned();
    }
    let mut r = base.to_owned();
    if base.get_char(base_len - 1) != '/' {
        r.append("/");
    }
    r.append(rel);
    assert(r@ =~= spec_join_path(base@, rel@));
    r
}

/// Render a discovered path as the user sees it: rooted at the directory
/// the user asked for, except when the path has escaped that root (through
/// a followed symlink), in which case the on-disk path is returned
/// unchanged.
pub fn normalize_path(path: &str, root: &str) -> (r: String)
    ensures
        r@ == spec_normalize_path(path@, root@),
{
    match diff_paths(path, root) {
        Some(relative) => join_path(root, relative.as_str()),
        None => path.to_owned(),
    }
}

} // verus!

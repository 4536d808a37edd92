//! The system-path blocklist: path prefixes the scanner refuses to enter
//! or report.  The check runs before any metadata access.

use vstd::prelude::*;

verus! {

/// `prefix` names a leading whole-component run of `path`: the characters
/// match and the next character of `path`, if any, is a separator.  This is
/// a component-wise prefix, so `/proc` covers `/proc` and `/proc/x` but not
/// `/process`.
pub open spec fn spec_path_prefix(prefix: Seq<char>, path: Seq<char>) -> bool {
    prefix.len() <= path.len() && path.subrange(0, prefix.len() as int) == prefix
        && (path.len() == prefix.len() || path[prefix.len() as int] == '/')
}

/// A platform's immutable list of blocked path prefixes.
pub struct SystemPathChecker {
    pub system_paths: Vec<String>,
}

/// The blocked prefixes of this build's platform.
pub open spec fn spec_system_prefixes() -> Seq<Seq<char>> {
    seq!["/proc"@, "/sys"@, "/dev"@, "/run"@, "/private"@]
}

impl SystemPathChecker {
    /// What `is_system_path` decides: some prefix of the list covers `path`.
    pub open spec fn spec_is_system(self, path: Seq<char>) -> bool {
        exists|i: int| 0 <= i < self.system_paths@.len()
            && spec_path_prefix(#[trigger] self.system_paths@[i]@, path)
    }

    /// Build the blocklist.
    pub fn new() -> (r: Self)
        ensures
            r.system_paths.deep_view() =~= spec_system_prefixes(),
    {
        let mut system_paths: Vec<String> = Vec::new();
        system_paths.push("/proc".to_owned());
        system_paths.push("/sys".to_owned());
        system_paths.push("/dev".to_owned());
        system_paths.push("/run".to_owned());
        system_paths.push("/private".to_owned());
        let r = SystemPathChecker { system_paths };
        proof {
            assert(r.system_paths.deep_view() =~= spec_system_prefixes());
        }
        r
    }

    /// An empty blocklist, for searching trees that lie under the blocked
    /// prefixes themselves.
    pub fn permissive() -> (r: Self)
        ensures
            r.system_paths@.len() == 0,
            forall|p: Seq<char>| !r.spec_is_system(p),
    {
        SystemPathChecker { system_paths: Vec::new() }
    }

    /// Is `path` under one of the blocked prefixes?
    pub fn is_system_path(&self, path: &str) -> (r: bool)
        ensures
            r == self.spec_is_system(path@),
    {
        let n = self.system_paths.len();
        let mut i: usize = 0;
        while i < n
            invariant
                0 <= i <= n,
                n == self.system_paths@.len(),
                forall|j: int| 0 <= j < i
                    ==> !spec_path_prefix(#[trigger] self.system_paths@[j]@, path@),
            decreases n - i,
        {
            if path_starts_with_component(path, self.system_paths[i].as_str()) {
                return true;
            }
            i = i + 1;
        }
        false
    }
}

/// Component-wise prefix test over the characters of two path strings.
fn path_starts_with_component(path: &str, prefix: &str) -> (r: bool)
    ensures
        r == spec_path_prefix(prefix@, path@),
{
    let lp = prefix.unicode_len();
    let ls = path.unicode_len();
    if lp > ls {
        return false;
    }
    let mut i: usize = 0;
    while i < lp
        invariant
            0 <= i <= lp,
            lp == prefix@.len(),
            ls == path@.len(),
            lp <= ls,
            forall|j: int| 0 <= j < i ==> path@[j] == prefix@[j],
        decreases lp - i,
    {
        if path.get_char(i) != prefix.get_char(i) {
            assert(path@.subrange(0, lp as int)[i as int] != prefix@[i as int]);
            return false;
        }
        i = i + 1;
    }
    proof {
        assert(path@.subrange(0, lp as int) =~= prefix@);
    }
    if ls == lp {
        true
    } else {
        path.get_char(lp) == '/'
    }
}

} // verus!

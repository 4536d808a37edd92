//! Type filter: restrict results to files, directories or symlinks.

use vstd::prelude::*;
use crate::strutil::str_eq;

verus! {

/// Enum to filter results by type.
#[derive(Debug, Clone, Copy, PartialEq, Eq, Structural)]
pub enum TypeFilter {
    Any,
    File,
    Dir,
    Symlink,
}

/// What `TypeFilter::parse` accepts: the short or long spelling of each
/// variant, case-sensitive.
pub open spec fn spec_parse_type(s: Seq<char>) -> Option<TypeFilter> {
    if s == "f"@ || s == "file"@ {
        Some(TypeFilter::File)
    } else if s == "d"@ || s == "dir"@ {
        Some(TypeFilter::Dir)
    } else if s == "l"@ || s == "link"@ || s == "symlink"@ {
        Some(TypeFilter::Symlink)
    } else if s == "any"@ {
        Some(TypeFilter::Any)
    } else {
        None
    }
}

/// The short spelling of each variant.
pub open spec fn spec_render_type(t: TypeFilter) -> Seq<char> {
    match t {
        TypeFilter::Any => "any"@,
        TypeFilter::File => "f"@,
        TypeFilter::Dir => "d"@,
        TypeFilter::Symlink => "l"@,
    }
}

impl TypeFilter {
    /// Converts user input to a `TypeFilter`.
    /// Example: "f" => `TypeFilter::File`, "d" => `TypeFilter::Dir`.
    pub fn parse(s: &str) -> (r: Result<TypeFilter, String>)
        ensures
            r matches Ok(t) ==> spec_parse_type(s@) == Some(t),
            r is Err <==> spec_parse_type(s@) is None,
    {
        if str_eq(s, "f") || str_eq(s, "file") {
            Ok(TypeFilter::File)
        } else if str_eq(s, "d") || str_eq(s, "dir") {
            Ok(TypeFilter::Dir)
        } else if str_eq(s, "l") || str_eq(s, "link") || str_eq(s, "symlink") {
            Ok(TypeFilter::Symlink)
        } else if str_eq(s, "any") {
            Ok(TypeFilter::Any)
        } else {
            Err("Invalid type filter. Use f|d|l|any.".to_owned())
        }
    }

    /// Render the filter in the grammar that `parse` reads.
    pub fn render(&self) -> (r: String)
        ensures
            r@ == spec_render_type(*self),
    {
        match self {
            TypeFilter::Any => "any".to_owned(),
            TypeFilter::File => "f".to_owned(),
            TypeFilter::Dir => "d".to_owned(),
            TypeFilter::Symlink => "l".to_owned(),
        }
    }
}

impl std::str::FromStr for TypeFilter {
    type Err = String;

    /// The same grammar as `parse`, for callers that go through `FromStr`.
    fn from_str(s: &str) -> Result<TypeFilter, String> {
        TypeFilter::parse(s)
    }
}

impl Default for TypeFilter {
    /// Without a type filter every entry type is accepted.
    fn default() -> (r: Self)
        ensures
            r == TypeFilter::Any,
    {
        TypeFilter::Any
    }
}

/// The round-trip law: parsing a rendered filter gives the filter back.
pub proof fn lemma_type_round_trip(t: TypeFilter)
    ensures
        spec_parse_type(spec_render_type(t)) == Some(t),
{
    reveal_strlit("f");
    reveal_strlit("file");
    reveal_strlit("d");
    reveal_strlit("dir");
    reveal_strlit("l");
    reveal_strlit("link");
    reveal_strlit("symlink");
    reveal_strlit("any");
    assert("d"@ != "f"@) by {
        assert("d"@[0] == 'd' && "f"@[0] == 'f');
    };
    assert("l"@ != "f"@) by {
        assert("l"@[0] == 'l' && "f"@[0] == 'f');
    };
    assert("l"@ != "d"@) by {
        assert("l"@[0] == 'l' && "d"@[0] == 'd');
    };
    assert("any"@ != "dir"@) by {
        assert("any"@[0] == 'a' && "dir"@[0] == 'd');
    };
    assert("any"@.len() == 3 && "f"@.len() == 1 && "file"@.len() == 4 && "d"@.len() == 1
        && "l"@.len() == 1 && "link"@.len() == 4 && "symlink"@.len() == 7);
}

} // verus!

//! Permission and ownership predicates over POSIX mode bits.
//!
//! The filters read the plain `st_mode`, `st_uid` and `st_gid` values of an
//! entry's lstat metadata; the front end extracts those fields from the
//! operating system's metadata before calling in.

use vstd::prelude::*;
use crate::strutil::string_push;

verus! {

/// Represents permission filter mode
#[derive(Debug, Clone, Copy, PartialEq, Eq, Structural)]
pub enum PermissionMode {
    User,
    Group,
    Others,
    All,
}

/// Represents permission type
#[derive(Debug, Clone, Copy, PartialEq, Eq, Structural)]
pub enum PermissionType {
    Read,
    Write,
    Execute,
    SetID,
}

/// Holds permission-based filter configuration
#[derive(Debug, Clone, Copy, PartialEq, Eq, Structural)]
pub struct PermissionFilter {
    pub mode: PermissionMode,
    pub perm_type: PermissionType,
    /// true if the permission must be present, false if it must be absent
    pub expected: bool,
}

/// The subject character of the grammar, if `c` is one.
pub open spec fn spec_perm_mode(c: char) -> Option<PermissionMode> {
    if c == 'u' {
        Some(PermissionMode::User)
    } else if c == 'g' {
        Some(PermissionMode::Group)
    } else if c == 'o' {
        Some(PermissionMode::Others)
    } else if c == 'a' {
        Some(PermissionMode::All)
    } else {
        None
    }
}

/// The polarity character of the grammar, if `c` is one.
pub open spec fn spec_perm_op(c: char) -> Option<bool> {
    if c == '+' {
        Some(true)
    } else if c == '-' {
        Some(false)
    } else {
        None
    }
}

/// The permission character of the grammar, if `c` is one.
pub open spec fn spec_perm_type(c: char) -> Option<PermissionType> {
    if c == 'r' {
        Some(PermissionType::Read)
    } else if c == 'w' {
        Some(PermissionType::Write)
    } else if c == 'x' {
        Some(PermissionType::Execute)
    } else if c == 's' {
        Some(PermissionType::SetID)
    } else {
        None
    }
}

/// What `PermissionFilter::parse` accepts: exactly three characters
/// `[ugoa][+-][rwxs]`, where `s` is meaningful only for the user or group
/// subject and is rejected for the others.
pub open spec fn spec_parse_perm(s: Seq<char>) -> Option<PermissionFilter> {
    if s.len() != 3 {
        None
    } else {
        match (spec_perm_mode(s[0]), spec_perm_op(s[1]), spec_perm_type(s[2])) {
            (Some(mode), Some(expected), Some(perm_type)) => {
                if perm_type is SetID && !(mode is User || mode is Group) {
                    None
                } else {
                    Some(PermissionFilter { mode, perm_type, expected })
                }
            },
            _ => None,
        }
    }
}

/// The character that renders each subject.
pub open spec fn spec_perm_mode_char(m: PermissionMode) -> char {
    match m {
        PermissionMode::User => 'u',
        PermissionMode::Group => 'g',
        PermissionMode::Others => 'o',
        PermissionMode::All => 'a',
    }
}

/// The character that renders each permission.
pub open spec fn spec_perm_type_char(t: PermissionType) -> char {
    match t {
        PermissionType::Read => 'r',
        PermissionType::Write => 'w',
        PermissionType::Execute => 'x',
        PermissionType::SetID => 's',
    }
}

/// The canonical text of a filter: subject, polarity, permission.
pub open spec fn spec_render_perm(f: PermissionFilter) -> Seq<char> {
    seq![spec_perm_mode_char(f.mode), if f.expected { '+' } else { '-' },
        spec_perm_type_char(f.perm_type)]
}

/// Whether the requested permission is present in the subject's field of
/// `mode_bits`.  `subject_mask` is the octal field mask (0o700, 0o070 or
/// 0o007); the set-id bits are read from their own positions.
pub open spec fn spec_check_permission(f: PermissionFilter, mode_bits: u32, subject_mask: u32) -> bool {
    match f.perm_type {
        PermissionType::Read => mode_bits & subject_mask & 0o444 != 0,
        PermissionType::Write => mode_bits & subject_mask & 0o222 != 0,
        PermissionType::Execute => mode_bits & subject_mask & 0o111 != 0,
        PermissionType::SetID => match f.mode {
            PermissionMode::User => mode_bits & 0o4000 != 0,
            PermissionMode::Group => mode_bits & 0o2000 != 0,
            _ => false,
        },
    }
}

/// Whether the permission is present for the filter's subject; `All`
/// demands it in each of the three fields.
pub open spec fn spec_perm_present(f: PermissionFilter, mode_bits: u32) -> bool {
    match f.mode {
        PermissionMode::User => spec_check_permission(f, mode_bits, 0o700),
        PermissionMode::Group => spec_check_permission(f, mode_bits, 0o070),
        PermissionMode::Others => spec_check_permission(f, mode_bits, 0o007),
        PermissionMode::All => spec_check_permission(f, mode_bits, 0o700)
            && spec_check_permission(f, mode_bits, 0o070)
            && spec_check_permission(f, mode_bits, 0o007),
    }
}

/// What `PermissionFilter::matches` decides: presence equals the filter's
/// polarity.
pub open spec fn spec_perm_matches(f: PermissionFilter, mode_bits: u32) -> bool {
    spec_perm_present(f, mode_bits) == f.expected
}

/// One subject field's check, shared by `matches`.
fn check_permission(f: &PermissionFilter, mode_bits: u32, subject_mask: u32) -> (r: bool)
    ensures
        r == spec_check_permission(*f, mode_bits, subject_mask),
{
    match f.perm_type {
        PermissionType::Read => mode_bits & subject_mask & 0o444 != 0,
        PermissionType::Write => mode_bits & subject_mask & 0o222 != 0,
        PermissionType::Execute => mode_bits & subject_mask & 0o111 != 0,
        PermissionType::SetID => match f.mode {
            PermissionMode::User => mode_bits & 0o4000 != 0,
            PermissionMode::Group => mode_bits & 0o2000 != 0,
            _ => false,
        },
    }
}

impl PermissionFilter {
    /// A set-id filter only speaks of the user or group subject; `parse`
    /// establishes this.
    pub open spec fn wf(self) -> bool {
        self.perm_type is SetID ==> (self.mode is User || self.mode is Group)
    }

    /// Parse a permission filter string in the format: `[ugoa][+-][rwxs]`.
    /// Examples: "u+x" (user has execute), "g-w" (group lacks write).
    pub fn parse(s: &str) -> (r: Result<PermissionFilter, String>)
        ensures
            r matches Ok(f) ==> spec_parse_perm(s@) == Some(f) && f.wf(),
            r is Err <==> spec_parse_perm(s@) is None,
    {
        let len = s.unicode_len();
        if len != 3 {
            return Err("Permission filter must be exactly 3 characters".to_owned());
        }
        let mode = match s.get_char(0) {
            'u' => PermissionMode::User,
            'g' => PermissionMode::Group,
            'o' => PermissionMode::Others,
            'a' => PermissionMode::All,
            _ => {
                return Err("Invalid permission mode. Use u|g|o|a".to_owned());
            },
        };
        let expected = match s.get_char(1) {
            '+' => true,
            '-' => false,
            _ => {
                return Err("Invalid permission operator. Use + or -".to_owned());
            },
        };
        let perm_type = match s.get_char(2) {
            'r' => PermissionType::Read,
            'w' => PermissionType::Write,
            'x' => PermissionType::Execute,
            's' => PermissionType::SetID,
            _ => {
                return Err("Invalid permission type. Use r|w|x|s".to_owned());
            },
        };
        if matches!(perm_type, PermissionType::SetID)
            && !(matches!(mode, PermissionMode::User) || matches!(mode, PermissionMode::Group)) {
            return Err("The s permission applies to u or g only".to_owned());
        }
        Ok(PermissionFilter { mode, perm_type, expected })
    }

    /// Check if the permission bits of an entry match the filter.
    pub fn matches(&self, mode_bits: u32) -> (r: bool)
        ensures
            r == spec_perm_matches(*self, mode_bits),
    {
        let result = match self.mode {
            PermissionMode::User => check_permission(self, mode_bits, 0o700),
            PermissionMode::Group => check_permission(self, mode_bits, 0o070),
            PermissionMode::Others => check_permission(self, mode_bits, 0o007),
            PermissionMode::All => check_permission(self, mode_bits, 0o700)
                && check_permission(self, mode_bits, 0o070)
                && check_permission(self, mode_bits, 0o007),
        };
        result == self.expected
    }

    /// Render the filter in the grammar that `parse` reads.
    pub fn render(&self) -> (r: String)
        ensures
            r@ == spec_render_perm(*self),
    {
        let mut r = String::new();
        string_push(&mut r, match self.mode {
            PermissionMode::User => 'u',
            PermissionMode::Group => 'g',
            PermissionMode::Others => 'o',
            PermissionMode::All => 'a',
        });
        string_push(&mut r, if self.expected { '+' } else { '-' });
        string_push(&mut r, match self.perm_type {
            PermissionType::Read => 'r',
            PermissionType::Write => 'w',
            PermissionType::Execute => 'x',
            PermissionType::SetID => 's',
        });
        assert(r@ =~= spec_render_perm(*self));
        r
    }
}

/// The round-trip law: parsing a rendered filter gives the filter back.
/// Well-formedness is needed because `parse` refuses a set-id filter on
/// the others or all subject.
pub proof fn lemma_perm_round_trip(f: PermissionFilter)
    requires
        f.wf(),
    ensures
        spec_parse_perm(spec_render_perm(f)) == Some(f),
{
}

/// Holds ownership filter configuration
#[derive(Debug, Clone, Copy, PartialEq, Eq)]
pub struct OwnershipFilter {
    pub uid: Option<u32>,
    pub gid: Option<u32>,
}

/// What `OwnershipFilter::matches` decides: each given id must equal the
/// entry's; an absent id accepts anything.
pub open spec fn spec_owner_matches(f: OwnershipFilter, uid: u32, gid: u32) -> bool {
    (match f.uid {
        Some(u) => u == uid,
        None => true,
    }) && (match f.gid {
        Some(g) => g == gid,
        None => true,
    })
}

impl OwnershipFilter {
    /// Create a new ownership filter
    pub fn new(uid: Option<u32>, gid: Option<u32>) -> (r: Self)
        ensures
            r.uid == uid,
            r.gid == gid,
    {
        OwnershipFilter { uid, gid }
    }

    /// Check if an entry's owner and group ids match the filter.
    pub fn matches(&self, uid: u32, gid: u32) -> (r: bool)
        ensures
            r == spec_owner_matches(*self, uid, gid),
    {
        let uid_match = match self.uid {
            Some(u) => u == uid,
            None => true,
        };
        let gid_match = match self.gid {
            Some(g) => g == gid,
            None => true,
        };
        uid_match && gid_match
    }
}

/// Extended file permissions for special Unix modes
#[derive(Debug, Clone, Copy, PartialEq, Eq, Structural)]
pub enum SpecialMode {
    SetUID,
    SetGID,
    Sticky,
}

/// The mode-bit mask of one special mode.
pub open spec fn spec_special_mode_mask(mode: SpecialMode) -> u32 {
    match mode {
        SpecialMode::SetUID => 0o4000,
        SpecialMode::SetGID => 0o2000,
        SpecialMode::Sticky => 0o1000,
    }
}

/// Check for special mode bits
pub fn has_special_mode(mode_bits: u32, mode: SpecialMode) -> (r: bool)
    ensures
        r == (mode_bits & spec_special_mode_mask(mode) != 0),
{
    match mode {
        SpecialMode::SetUID => mode_bits & 0o4000 != 0,
        SpecialMode::SetGID => mode_bits & 0o2000 != 0,
        SpecialMode::Sticky => mode_bits & 0o1000 != 0,
    }
}

/// One permission column: the character when the bit is set, `-` when not.
pub open spec fn spec_rw_char(mode_bits: u32, mask: u32, c: char) -> char {
    if mode_bits & mask != 0 {
        c
    } else {
        '-'
    }
}

/// The execute column, which also displays a special bit: the special
/// character (lower case with execute, upper case without), else `x`/`-`.
pub open spec fn spec_exec_char(
    mode_bits: u32,
    special_mask: u32,
    exec_mask: u32,
    with_exec: char,
    without_exec: char,
) -> char {
    if mode_bits & special_mask != 0 {
        if mode_bits & exec_mask != 0 {
            with_exec
        } else {
            without_exec
        }
    } else if mode_bits & exec_mask != 0 {
        'x'
    } else {
        '-'
    }
}

/// The leading file-type character of a mode word.
pub open spec fn spec_file_type_char(mode_bits: u32) -> char {
    let t = mode_bits & 0o170000;
    if t == 0o140000 {
        's'
    } else if t == 0o120000 {
        'l'
    } else if t == 0o100000 {
        '-'
    } else if t == 0o060000 {
        'b'
    } else if t == 0o040000 {
        'd'
    } else if t == 0o020000 {
        'c'
    } else if t == 0o010000 {
        'p'
    } else {
        '?'
    }
}

/// The ten characters that `get_permission_string` produces.
pub open spec fn spec_permission_string(mode_bits: u32) -> Seq<char> {
    seq![
        spec_file_type_char(mode_bits),
        spec_rw_char(mode_bits, 0o400, 'r'),
        spec_rw_char(mode_bits, 0o200, 'w'),
        spec_exec_char(mode_bits, 0o4000, 0o100, 's', 'S'),
        spec_rw_char(mode_bits, 0o040, 'r'),
        spec_rw_char(mode_bits, 0o020, 'w'),
        spec_exec_char(mode_bits, 0o2000, 0o010, 's', 'S'),
        spec_rw_char(mode_bits, 0o004, 'r'),
        spec_rw_char(mode_bits, 0o002, 'w'),
        spec_exec_char(mode_bits, 0o1000, 0o001, 't', 'T'),
    ]
}

/// Get string representation of file permissions (like ls -l)
#[verifier::rlimit(50)]
pub fn get_permission_string(mode_bits: u32) -> (r: String)
    ensures
        r@ == spec_permission_string(mode_bits),
{
    let t = mode_bits & 0o170000;
    let c0 = if t == 0o140000 {
        's'
    } else if t == 0o120000 {
        'l'
    } else if t == 0o100000 {
        '-'
    } else if t == 0o060000 {
        'b'
    } else if t == 0o040000 {
        'd'
    } else if t == 0o020000 {
        'c'
    } else if t == 0o010000 {
        'p'
    } else {
        '?'
    };
    assert(c0 == spec_file_type_char(mode_bits));
    let c1 = if mode_bits & 0o400 != 0 { 'r' } else { '-' };
    let c2 = if mode_bits & 0o200 != 0 { 'w' } else { '-' };
    let c3 = if mode_bits & 0o4000 != 0 {
        if mode_bits & 0o100 != 0 { 's' } else { 'S' }
    } else if mode_bits & 0o100 != 0 {
        'x'
    } else {
        '-'
    };
    let c4 = if mode_bits & 0o040 != 0 { 'r' } else { '-' };
    let c5 = if mode_bits & 0o020 != 0 { 'w' } else { '-' };
    let c6 = if mode_bits & 0o2000 != 0 {
        if mode_bits & 0o010 != 0 { 's' } else { 'S' }
    } else if mode_bits & 0o010 != 0 {
        'x'
    } else {
        '-'
    };
    let c7 = if mode_bits & 0o004 != 0 { 'r' } else { '-' };
    let c8 = if mode_bits & 0o002 != 0 { 'w' } else { '-' };
    let c9 = if mode_bits & 0o1000 != 0 {
        if mode_bits & 0o001 != 0 { 't' } else { 'T' }
    } else if mode_bits & 0o001 != 0 {
        'x'
    } else {
        '-'
    };
    assert(c1 == spec_rw_char(mode_bits, 0o400, 'r'));
    assert(c2 == spec_rw_char(mode_bits, 0o200, 'w'));
    assert(c3 == spec_exec_char(mode_bits, 0o4000, 0o100, 's', 'S'));
    assert(c4 == spec_rw_char(mode_bits, 0o040, 'r'));
    assert(c5 == spec_rw_char(mode_bits, 0o020, 'w'));
    assert(c6 == spec_exec_char(mode_bits, 0o2000, 0o010, 's', 'S'));
    assert(c7 == spec_rw_char(mode_bits, 0o004, 'r'));
    assert(c8 == spec_rw_char(mode_bits, 0o002, 'w'));
    assert(c9 == spec_exec_char(mode_bits, 0o1000, 0o001, 't', 'T'));
    let mut r = String::new();
    string_push(&mut r, c0);
    string_push(&mut r, c1);
    string_push(&mut r, c2);
    string_push(&mut r, c3);
    string_push(&mut r, c4);
    string_push(&mut r, c5);
    string_push(&mut r, c6);
    string_push(&mut r, c7);
    string_push(&mut r, c8);
    string_push(&mut r, c9);
    assert(r@ =~= seq![c0, c1, c2, c3, c4, c5, c6, c7, c8, c9]);
    assert(r@ =~= spec_permission_string(mode_bits));
    r
}

} // verus!

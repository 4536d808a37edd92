//! The traversal engine's decision logic.
//!
//! The engine runs as a pool of scanner threads fed by a bounded work
//! channel, a distributor forwarding discovered directories from an
//! unbounded dir channel, and a driver draining a result channel.  The
//! threads, channels and filesystem calls live in the unverified front
//! end; every decision they carry out — what to emit, what to enqueue,
//! which symlink to follow, when to stop — is computed by the functions
//! here, from plain values, and is verified.

use vstd::prelude::*;
use crate::filters::filesize::SizeFilter;
use crate::filters::filetype::TypeFilter;
use crate::filters::time::TimeFilter;
use crate::pattern::{PatternMatcher, create_pattern_matcher, spec_has_wildcard, glob_ok,
    lower_of};
use crate::paths::{normalize_path, spec_normalize_path};
use crate::permissions::{OwnershipFilter, PermissionFilter, spec_owner_matches,
    spec_perm_matches};
use crate::filters::filesize::spec_parse_size;
use crate::filters::time::spec_parse_time;
use crate::syspath::{SystemPathChecker, spec_system_prefixes};

verus! {

/// How symbolic links are treated, chosen once at startup.
#[derive(Debug, Clone, Copy, PartialEq, Eq, Structural)]
pub enum SymlinkMode {
    /// Never follow symlinks (the default).
    Never,
    /// Follow a symlink only when it is the requested root itself.
    Command,
    /// Follow every symlink.
    Always,
}

/// What an entry is, in the lstat view: the link itself, never its target.
#[derive(Debug, Clone, Copy, PartialEq, Eq, Structural)]
pub enum EntryKind {
    File,
    Dir,
    Symlink,
    /// Sockets, devices, fifos: anything that is none of the above.
    Other,
}

/// The lstat metadata of one entry, as plain values.  A timestamp the
/// operating system could not provide is `None` and is treated as the
/// moment of the scan.
#[derive(Debug, Clone, Copy)]
pub struct EntryMeta {
    pub kind: EntryKind,
    pub size: u64,
    /// Modification time, in whole seconds since the Unix epoch.
    pub mtime: Option<u64>,
    /// Access time, in whole seconds since the Unix epoch.
    pub atime: Option<u64>,
    /// Inode change time; on platforms without one the front end hands
    /// the modification time here.
    pub ctime: Option<u64>,
    /// POSIX mode bits.
    pub mode: u32,
    pub uid: u32,
    pub gid: u32,
}

/// A work unit for directory scanning: a directory path and its distance
/// in directory edges from the seed.
#[derive(Debug)]
pub struct WorkUnit {
    pub path: String,
    pub depth: usize,
}

/// The immutable state one engine run shares across all scanners: the
/// predicate bundle, the symlink policy, the depth bound, the blocklist,
/// and the root the user asked for.
pub struct SearchContext {
    pub pattern: PatternMatcher,
    pub type_filter: TypeFilter,
    pub size_filter: Option<SizeFilter>,
    pub mtime_filter: Option<TimeFilter>,
    pub atime_filter: Option<TimeFilter>,
    pub ctime_filter: Option<TimeFilter>,
    pub perm_filter: Option<PermissionFilter>,
    pub owner_filter: Option<OwnershipFilter>,
    /// The moment the run started, in seconds since the Unix epoch; ages
    /// are measured against it.
    pub now: u64,
    pub max_depth: usize,
    pub symlink_mode: SymlinkMode,
    /// The root exactly as the user typed it; emitted paths are rooted
    /// here.
    pub root_path: String,
    pub checker: SystemPathChecker,
}

impl SearchContext {
    /// Every held filter is well formed.
    pub open spec fn wf(self) -> bool {
        &&& self.pattern.wf()
        &&& match self.size_filter {
            Some(f) => f.wf(),
            None => true,
        }
        &&& match self.mtime_filter {
            Some(f) => f.wf(),
            None => true,
        }
        &&& match self.atime_filter {
            Some(f) => f.wf(),
            None => true,
        }
        &&& match self.ctime_filter {
            Some(f) => f.wf(),
            None => true,
        }
        &&& match self.perm_filter {
            Some(f) => f.wf(),
            None => true,
        }
    }
}

/// A missing timestamp counts as the moment of the scan.
pub open spec fn spec_meta_time(t: Option<u64>, now: u64) -> u64 {
    match t {
        Some(v) => v,
        None => now,
    }
}

/// Does the entry's kind pass the type filter?  A symlink is judged by the
/// lstat view: the link itself, not its target.
pub open spec fn spec_kind_match(filter: TypeFilter, kind: EntryKind) -> bool {
    match filter {
        TypeFilter::Any => true,
        TypeFilter::File => kind is File,
        TypeFilter::Dir => kind is Dir,
        TypeFilter::Symlink => kind is Symlink,
    }
}

/// The metadata half of the predicate bundle: type, size, the three time
/// filters, permission and ownership, each passing when absent.
pub open spec fn spec_meta_match(ctx: SearchContext, filter: TypeFilter, meta: EntryMeta) -> bool {
    &&& spec_kind_match(filter, meta.kind)
    &&& match ctx.size_filter {
        Some(f) => f.spec_matches(meta.size),
        None => true,
    }
    &&& match ctx.mtime_filter {
        Some(f) => f.spec_matches(spec_meta_time(meta.mtime, ctx.now), ctx.now),
        None => true,
    }
    &&& match ctx.atime_filter {
        Some(f) => f.spec_matches(spec_meta_time(meta.atime, ctx.now), ctx.now),
        None => true,
    }
    &&& match ctx.ctime_filter {
        Some(f) => f.spec_matches(spec_meta_time(meta.ctime, ctx.now), ctx.now),
        None => true,
    }
    &&& match ctx.perm_filter {
        Some(f) => spec_perm_matches(f, meta.mode),
        None => true,
    }
    &&& match ctx.owner_filter {
        Some(f) => spec_owner_matches(f, meta.uid, meta.gid),
        None => true,
    }
}

/// The whole predicate bundle over one entry: its basename against the
/// name matcher and its lstat metadata against every other filter.
pub open spec fn spec_entry_matches(ctx: SearchContext, name: Seq<char>, meta: EntryMeta) -> bool {
    ctx.pattern.spec_matches(name) && spec_meta_match(ctx, ctx.type_filter, meta)
}

/// The symlink policy for one link.  Only the requested root itself is a
/// command-line path; links discovered during recursion are not.
pub open spec fn spec_follow_symlink(mode: SymlinkMode, is_command_path: bool) -> bool {
    match mode {
        SymlinkMode::Never => false,
        SymlinkMode::Command => is_command_path,
        SymlinkMode::Always => true,
    }
}

/// An entry is reported when it lies outside the blocklist, within the
/// depth bound (an entry of a directory at depth `d` lies at depth
/// `d + 1`), and the whole predicate bundle passes.
pub open spec fn spec_should_emit(
    ctx: SearchContext,
    path: Seq<char>,
    name: Seq<char>,
    meta: EntryMeta,
    depth: nat,
) -> bool {
    &&& !ctx.checker.spec_is_system(path)
    &&& depth + 1 <= ctx.max_depth
    &&& spec_entry_matches(ctx, name, meta)
}

/// A child directory is enqueued when it lies outside the blocklist and
/// within the depth bound, whatever the predicates say of it.
pub open spec fn spec_should_enqueue(
    ctx: SearchContext,
    path: Seq<char>,
    meta: EntryMeta,
    depth: nat,
) -> bool {
    &&& !ctx.checker.spec_is_system(path)
    &&& meta.kind is Dir
    &&& depth + 1 <= ctx.max_depth
}

/// The symlink-follow sub-procedure is consulted for a link outside the
/// blocklist and within the depth bound, when the policy follows links
/// found during recursion.
pub open spec fn spec_should_follow(
    ctx: SearchContext,
    path: Seq<char>,
    meta: EntryMeta,
    depth: nat,
) -> bool {
    &&& !ctx.checker.spec_is_system(path)
    &&& meta.kind is Symlink
    &&& spec_follow_symlink(ctx.symlink_mode, false)
    &&& depth + 1 <= ctx.max_depth
}

/// Apply the symlink policy.
pub fn should_follow_symlink(mode: SymlinkMode, is_command_path: bool) -> (r: bool)
    ensures
        r == spec_follow_symlink(mode, is_command_path),
{
    match mode {
        SymlinkMode::Never => false,
        SymlinkMode::Command => is_command_path,
        SymlinkMode::Always => true,
    }
}

/// Checks if the file/directory/symlink should be recorded as a match
/// based on the type filter and the metadata filters of the bundle.
pub fn is_type_match(meta: &EntryMeta, filter: TypeFilter, ctx: &SearchContext) -> (r: bool)
    requires
        ctx.wf(),
    ensures
        r == spec_meta_match(*ctx, filter, *meta),
{
    let base_match = match filter {
        TypeFilter::Any => true,
        TypeFilter::File => matches!(meta.kind, EntryKind::File),
        TypeFilter::Dir => matches!(meta.kind, EntryKind::Dir),
        TypeFilter::Symlink => matches!(meta.kind, EntryKind::Symlink),
    };
    if !base_match {
        return false;
    }
    if let Some(size_filter) = &ctx.size_filter {
        if !size_filter.matches(meta.size) {
            return false;
        }
    }
    if let Some(mtime_filter) = &ctx.mtime_filter {
        let t = match meta.mtime {
            Some(v) => v,
            None => ctx.now,
        };
        if !mtime_filter.matches(t, ctx.now) {
            return false;
        }
    }
    if let Some(atime_filter) = &ctx.atime_filter {
        let t = match meta.atime {
            Some(v) => v,
            None => ctx.now,
        };
        if !atime_filter.matches(t, ctx.now) {
            return false;
        }
    }
    if let Some(ctime_filter) = &ctx.ctime_filter {
        let t = match meta.ctime {
            Some(v) => v,
            None => ctx.now,
        };
        if !ctime_filter.matches(t, ctx.now) {
            return false;
        }
    }
    if let Some(perm_filter) = &ctx.perm_filter {
        if !perm_filter.matches(meta.mode) {
            return false;
        }
    }
    if let Some(owner_filter) = &ctx.owner_filter {
        if !owner_filter.matches(meta.uid, meta.gid) {
            return false;
        }
    }
    true
}

/// The decision to enqueue one child directory: taken whenever the child
/// still lies within the depth bound.
pub fn handle_directory(path: &str, depth: usize, max_depth: usize) -> (r: Option<WorkUnit>)
    ensures
        r is Some <==> depth + 1 <= max_depth,
        r matches Some(w) ==> w.path@ == path@ && w.depth == depth + 1,
{
    if depth < max_depth {
        Some(WorkUnit { path: path.to_owned(), depth: depth + 1 })
    } else {
        None
    }
}

/// What a scanner does with one directory entry.
pub struct EntryOutcome {
    /// The user-visible path to report, when the entry matched.
    pub emit: Option<String>,
    /// The child work unit, when the entry is a directory to descend into.
    pub enqueue: Option<WorkUnit>,
    /// Whether to run the symlink-follow sub-procedure on the entry.
    pub follow_symlink: bool,
}

/// Decide everything about one directory entry found while scanning the
/// directory `(dir of path, depth)`: `path` is the entry's absolute
/// on-disk path, `name` its basename, `meta` its lstat metadata.
pub fn handle_entry(
    ctx: &SearchContext,
    path: &str,
    name: &str,
    meta: &EntryMeta,
    depth: usize,
) -> (r: EntryOutcome)
    requires
        ctx.wf(),
    ensures
        r.emit is Some <==> spec_should_emit(*ctx, path@, name@, *meta, depth as nat),
        r.emit matches Some(p) ==> p@ == spec_normalize_path(path@, ctx.root_path@),
        r.enqueue is Some <==> spec_should_enqueue(*ctx, path@, *meta, depth as nat),
        r.enqueue matches Some(w) ==> w.path@ == path@ && w.depth == depth + 1,
        r.follow_symlink == spec_should_follow(*ctx, path@, *meta, depth as nat),
{
    if ctx.checker.is_system_path(path) {
        return EntryOutcome { emit: None, enqueue: None, follow_symlink: false };
    }
    let within = depth < ctx.max_depth;
    let matched = within && ctx.pattern.matches(name) && is_type_match(meta, ctx.type_filter, ctx);
    let emit = if matched {
        Some(normalize_path(path, ctx.root_path.as_str()))
    } else {
        None
    };
    let enqueue = if matches!(meta.kind, EntryKind::Dir) {
        handle_directory(path, depth, ctx.max_depth)
    } else {
        None
    };
    let follow_symlink = within && matches!(meta.kind, EntryKind::Symlink)
        && should_follow_symlink(ctx.symlink_mode, false);
    EntryOutcome { emit, enqueue, follow_symlink }
}

/// The symlink-follow sub-procedure's decision, taken after the front end
/// has canonicalized the link, check-and-inserted the canonical path into
/// the visited set, and stat'ed the target.  The link is entered only when
/// canonicalization succeeded, its canonical path was not already visited,
/// and the target is a directory; the enqueued path is the link's own.
pub fn plan_symlink_follow(
    path: &str,
    depth: usize,
    canonical_known: bool,
    newly_visited: bool,
    target_kind: Option<EntryKind>,
) -> (r: Option<WorkUnit>)
    requires
        depth < usize::MAX,
    ensures
        r is Some <==> canonical_known && newly_visited && target_kind == Some(EntryKind::Dir),
        r matches Some(w) ==> w.path@ == path@ && w.depth == depth + 1,
{
    if canonical_known && newly_visited && matches!(target_kind, Some(EntryKind::Dir)) {
        Some(WorkUnit { path: path.to_owned(), depth: depth + 1 })
    } else {
        None
    }
}

/// Is a popped work unit scanned at all?  Units beyond the depth bound
/// are discarded.
pub fn should_scan(work: &WorkUnit, max_depth: usize) -> (r: bool)
    ensures
        r == (work.depth <= max_depth),
{
    work.depth <= max_depth
}

/// Whether the seed directory is scanned at all: a seed that is itself a
/// symlink is entered only when the policy follows the command-line path
/// (`Command` or `Always`).
pub fn should_scan_seed(mode: SymlinkMode, seed_is_symlink: bool) -> (r: bool)
    ensures
        r == (!seed_is_symlink || spec_follow_symlink(mode, true)),
{
    !seed_is_symlink || should_follow_symlink(mode, true)
}

/// What a scanner finds on its work channel.
pub enum ScannerEvent {
    Work(WorkUnit),
    /// The channel is closed: the distributor dropped the sender.
    Closed,
}

/// What the scanner does next.
#[derive(Debug)]
pub enum ScannerAction {
    /// Enumerate this directory.
    Scan(WorkUnit),
    /// Discard the unit and wait for the next one.
    Skip,
    /// Exit the thread.
    Exit,
}

/// One turn of the scanner loop.  A scanner exits exactly on a closed
/// channel; a unit beyond the depth bound is discarded, any other is
/// scanned.
pub fn scanner_step(event: ScannerEvent, max_depth: usize) -> (a: ScannerAction)
    ensures
        a is Exit <==> event is Closed,
        event matches ScannerEvent::Work(w) ==> if w.depth <= max_depth {
            a == ScannerAction::Scan(w)
        } else {
            a is Skip
        },
{
    match event {
        ScannerEvent::Work(w) => {
            if w.depth <= max_depth {
                ScannerAction::Scan(w)
            } else {
                ScannerAction::Skip
            }
        },
        ScannerEvent::Closed => ScannerAction::Exit,
    }
}

/// Consecutive empty polls needed before the distributor may stop.
pub const MAX_EMPTY_READS: u8 = 3;

/// The distributor's only mutable state: how many consecutive polls of
/// the dir channel came back empty.
pub struct DistributorState {
    pub empty_reads: u8,
}

/// What one non-blocking poll of the dir channel produced.
pub enum DirPollEvent {
    Received(WorkUnit),
    Empty,
    Disconnected,
}

/// What the distributor does next.
#[derive(Debug)]
pub enum DistributorAction {
    /// Forward the unit into the bounded work channel (this send may
    /// block under back-pressure).
    Forward(WorkUnit),
    /// Sleep briefly before polling again.
    Pause,
    /// Drop the work-channel sender, closing the scanners' input.
    Stop,
}

/// The empty-read counter after one more empty poll.
pub open spec fn spec_empty_reads_after(before: u8) -> u8 {
    if before < 255 {
        (before + 1) as u8
    } else {
        255
    }
}

/// The quiescence test: enough consecutive empty polls, no active
/// scanner, and a dir channel still empty.
pub open spec fn spec_quiescent(empty_reads: u8, active_scanners: usize, dir_queue_empty: bool) -> bool {
    empty_reads >= MAX_EMPTY_READS && active_scanners == 0 && dir_queue_empty
}

/// One turn of the distributor loop.  A received unit is forwarded and
/// resets the empty-read counter; an empty poll bumps it and stops the
/// engine exactly when the quiescence test passes; a disconnected channel
/// (every scanner gone) stops it unconditionally.
pub fn distributor_step(
    state: &mut DistributorState,
    event: DirPollEvent,
    active_scanners: usize,
    dir_queue_empty: bool,
) -> (a: DistributorAction)
    ensures
        match event {
            DirPollEvent::Received(w) => final(state).empty_reads == 0
                && a == DistributorAction::Forward(w),
            DirPollEvent::Empty => {
                &&& final(state).empty_reads == spec_empty_reads_after(old(state).empty_reads)
                &&& (a is Stop) <==> spec_quiescent(
                    final(state).empty_reads,
                    active_scanners,
                    dir_queue_empty,
                )
                &&& (a is Stop) || (a is Pause)
            },
            DirPollEvent::Disconnected => a is Stop && final(state).empty_reads == old(
                state,
            ).empty_reads,
        },
{
    match event {
        DirPollEvent::Received(w) => {
            state.empty_reads = 0;
            DistributorAction::Forward(w)
        },
        DirPollEvent::Empty => {
            if state.empty_reads < 255 {
                state.empty_reads = state.empty_reads + 1;
            }
            if state.empty_reads >= MAX_EMPTY_READS && active_scanners == 0 && dir_queue_empty {
                DistributorAction::Stop
            } else {
                DistributorAction::Pause
            }
        },
        DirPollEvent::Disconnected => DistributorAction::Stop,
    }
}

/// Assemble one run's shared context from the raw option strings, parsing
/// every predicate.  Fails exactly when a wildcard pattern does not
/// compile or one of the given filter strings does not parse.
pub fn build_search_context(
    pattern: &str,
    root: &str,
    max_depth: usize,
    symlink_mode: SymlinkMode,
    type_filter: TypeFilter,
    mtime: &Option<String>,
    atime: &Option<String>,
    ctime: &Option<String>,
    size: &Option<String>,
    perm: &Option<String>,
    owner_uid: Option<u32>,
    owner_gid: Option<u32>,
    now: u64,
) -> (r: Result<SearchContext, String>)
    ensures
        match r {
            Ok(ctx) => {
                &&& ctx.wf()
                &&& if spec_has_wildcard(pattern@) {
                    ctx.pattern matches PatternMatcher::Glob { pattern: p } && p@ == pattern@
                } else {
                    ctx.pattern matches PatternMatcher::Substring { pattern: p } && p@ == lower_of(
                        pattern@,
                    )
                }
                &&& ctx.root_path@ == root@
                &&& ctx.max_depth == max_depth
                &&& ctx.symlink_mode == symlink_mode
                &&& ctx.type_filter == type_filter
                &&& ctx.now == now
                &&& match *mtime {
                    Some(s) => spec_parse_time(s@) is Some && ctx.mtime_filter == spec_parse_time(
                        s@,
                    ),
                    None => ctx.mtime_filter is None,
                }
                &&& match *atime {
                    Some(s) => spec_parse_time(s@) is Some && ctx.atime_filter == spec_parse_time(
                        s@,
                    ),
                    None => ctx.atime_filter is None,
                }
                &&& match *ctime {
                    Some(s) => spec_parse_time(s@) is Some && ctx.ctime_filter == spec_parse_time(
                        s@,
                    ),
                    None => ctx.ctime_filter is None,
                }
                &&& match *size {
                    Some(s) => spec_parse_size(s@) is Some && ctx.size_filter == spec_parse_size(
                        s@,
                    ),
                    None => ctx.size_filter is None,
                }
                &&& match *perm {
                    Some(s) => crate::permissions::spec_parse_perm(s@) is Some
                        && ctx.perm_filter == crate::permissions::spec_parse_perm(s@),
                    None => ctx.perm_filter is None,
                }
                &&& if owner_uid is None && owner_gid is None {
                    ctx.owner_filter is None
                } else {
                    ctx.owner_filter == Some(OwnershipFilter { uid: owner_uid, gid: owner_gid })
                }
                &&& ctx.checker.system_paths.deep_view() == spec_system_prefixes()
            },
            Err(_) => {
                ||| spec_has_wildcard(pattern@) && !glob_ok(pattern@)
                ||| match *mtime {
                    Some(s) => spec_parse_time(s@) is None,
                    None => false,
                }
                ||| match *atime {
                    Some(s) => spec_parse_time(s@) is None,
                    None => false,
                }
                ||| match *ctime {
                    Some(s) => spec_parse_time(s@) is None,
                    None => false,
                }
                ||| match *size {
                    Some(s) => spec_parse_size(s@) is None,
                    None => false,
                }
                ||| match *perm {
                    Some(s) => crate::permissions::spec_parse_perm(s@) is None,
                    None => false,
                }
            },
        },
{
    let pattern_matcher = match create_pattern_matcher(pattern) {
        Ok(m) => m,
        Err(e) => {
            return Err(e);
        },
    };
    let mtime_filter = match mtime {
        Some(s) => match TimeFilter::parse(s.as_str()) {
            Ok(f) => Some(f),
            Err(e) => {
                return Err(e);
            },
        },
        None => None,
    };
    let atime_filter = match atime {
        Some(s) => match TimeFilter::parse(s.as_str()) {
            Ok(f) => Some(f),
            Err(e) => {
                return Err(e);
            },
        },
        None => None,
    };
    let ctime_filter = match ctime {
        Some(s) => match TimeFilter::parse(s.as_str()) {
            Ok(f) => Some(f),
            Err(e) => {
                return Err(e);
            },
        },
        None => None,
    };
    let size_filter = match size {
        Some(s) => match SizeFilter::parse(s.as_str()) {
            Ok(f) => Some(f),
            Err(e) => {
                return Err(e);
            },
        },
        None => None,
    };
    let perm_filter = match perm {
        Some(s) => match PermissionFilter::parse(s.as_str()) {
            Ok(f) => Some(f),
            Err(e) => {
                return Err(e);
            },
        },
        None => None,
    };
    let owner_filter = if owner_uid.is_none() && owner_gid.is_none() {
        None
    } else {
        Some(OwnershipFilter::new(owner_uid, owner_gid))
    };
    Ok(SearchContext {
        pattern: pattern_matcher,
        type_filter,
        size_filter,
        mtime_filter,
        atime_filter,
        ctime_filter,
        perm_filter,
        owner_filter,
        now,
        max_depth,
        symlink_mode,
        root_path: root.to_owned(),
        checker: SystemPathChecker::new(),
    })
}

/// Every work unit a decision enqueues stays within the depth bound, and
/// so does the depth of every emitted entry.
pub proof fn lemma_depth_bounded(
    ctx: SearchContext,
    path: Seq<char>,
    name: Seq<char>,
    meta: EntryMeta,
    depth: nat,
)
    ensures
        spec_should_enqueue(ctx, path, meta, depth) ==> depth + 1 <= ctx.max_depth,
        spec_should_emit(ctx, path, name, meta, depth) ==> depth + 1 <= ctx.max_depth,
{
}

/// Every emitted entry passed the whole predicate bundle on its basename
/// and lstat metadata.
pub proof fn lemma_emit_requires_match(
    ctx: SearchContext,
    path: Seq<char>,
    name: Seq<char>,
    meta: EntryMeta,
    depth: nat,
)
    ensures
        spec_should_emit(ctx, path, name, meta, depth) ==> spec_entry_matches(ctx, name, meta),
{
}

/// Under the `Never` policy no symlink is ever followed, and only a plain
/// directory — the entry itself, at its on-disk path — is ever enqueued:
/// the step-wise reason a `Never` traversal stays inside the root's
/// subtree.
pub proof fn lemma_never_stays_in_tree(
    ctx: SearchContext,
    path: Seq<char>,
    meta: EntryMeta,
    depth: nat,
)
    requires
        ctx.symlink_mode is Never,
    ensures
        !spec_should_follow(ctx, path, meta, depth),
        spec_should_enqueue(ctx, path, meta, depth) ==> meta.kind is Dir,
{
}

proof fn lemma_chain_depth_is_index(chain: Seq<WorkUnit>, i: int)
    requires
        0 <= i < chain.len(),
        chain[0].depth == 0,
        forall|j: int| 0 <= j < chain.len() - 1
            ==> #[trigger] chain[j + 1].depth == chain[j].depth + 1,
    ensures
        chain[i].depth == i,
    decreases i,
{
    if i > 0 {
        lemma_chain_depth_is_index(chain, i - 1);
        assert(chain[(i - 1) + 1].depth == chain[i - 1].depth + 1);
        assert(chain[(i - 1) + 1] == chain[i]);
    }
}

/// Work begets work only one level down: a unit enqueued while scanning a
/// unit of depth `d` — a child directory or a followed symlink — always
/// has depth `d + 1`, and is only enqueued when that still lies within
/// the bound.  So any chain of units, each enqueued while the previous
/// one was scanned, holds at most `max_depth + 1` units: with finite
/// fan-out per directory, a finite tree yields finitely much work and the
/// engine runs dry.
pub proof fn lemma_enqueue_chains_bounded(chain: Seq<WorkUnit>, max_depth: usize)
    requires
        chain.len() > 0,
        chain[0].depth == 0,
        forall|j: int| 0 <= j < chain.len() - 1
            ==> #[trigger] chain[j + 1].depth == chain[j].depth + 1,
        forall|j: int| 0 <= j < chain.len() ==> #[trigger] chain[j].depth <= max_depth,
    ensures
        chain.len() <= max_depth + 1,
{
    lemma_chain_depth_is_index(chain, chain.len() - 1);
}

/// Once no scanner is active and the dir channel stays empty, the third
/// consecutive empty poll passes the quiescence test: the detection half
/// of the engine's termination.
pub proof fn lemma_quiescence_detected(before: u8, active_scanners: usize, dir_queue_empty: bool)
    requires
        before >= MAX_EMPTY_READS - 1,
        active_scanners == 0,
        dir_queue_empty,
    ensures
        spec_quiescent(spec_empty_reads_after(before), active_scanners, dir_queue_empty),
{
}

} // verus!

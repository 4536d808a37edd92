//! A parallel recursive file finder.
//!
//! The crate holds the verified core of the finder: the predicate library
//! (name, type, size, time, permission and ownership filters), the
//! system-path blocklist, the path normalizer, and the per-step decision
//! logic of the scanning engine.  A thin unverified front end owns the
//! threads and channels and performs all filesystem calls; it feeds plain
//! values (paths, basenames, metadata fields) to the functions here and
//! carries out the actions they return.

pub use permissions::{
    has_special_mode, OwnershipFilter, PermissionFilter, PermissionMode, PermissionType,
    SpecialMode,
};

pub mod arith;
pub mod digits;
pub mod engine;
pub mod filters;
pub mod paths;
pub mod pattern;
pub mod permissions;
pub mod strutil;
pub mod syspath;

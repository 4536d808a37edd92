//! The predicate library: name-independent filters over one entry's
//! metadata, each with its little grammar.

pub mod filesize;
pub mod filetype;
pub mod time;

pub use filesize::SizeFilter;
pub use filetype::TypeFilter;
pub use time::TimeFilter;

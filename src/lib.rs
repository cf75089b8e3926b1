//! Parallel match-and-aggregate engine.
//!
//! A producer hands the engine entries (or recoverable and fatal errors); a
//! matcher decides which entries match; the engine tallies files and
//! directories, counts and optionally records matches, enforces an optional
//! result limit with the two-guard protocol, and finalizes one exact summary.
pub mod builder;
pub mod engine;
pub mod entry;
pub mod error;
pub mod laws;
pub mod results;
pub mod traits;

pub use builder::{search, AllMatcher, NoSource, SearchBuilder, SubstringMatcher};
pub use entry::{Entry, EntryKind, EntryMetadata};
pub use error::{ParexError, WalkFault};
pub use results::{Elapsed, Results, ScanStats};
pub use traits::{Matcher, Source};

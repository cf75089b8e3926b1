use vstd::prelude::*;

use crate::engine::WalkConfig;
use crate::entry::Entry;
use crate::error::ParexError;

verus! {

/// A producer of entries: a directory tree, a database cursor, an in-memory
/// list, anything traversable.
///
/// `walk` hands back every item in traversal order. Recoverable failures are
/// yielded as `Err` items rather than skipped; a fatal one ends the search.
/// A source honours `config.max_depth` itself.
pub trait Source: Send + Sync {
    /// Traverse the source and yield its entries and errors, in order.
    fn walk(&self, config: &WalkConfig) -> Vec<Result<Entry, ParexError>>;
}

/// Decides whether an entry is a match.
///
/// A matcher is a pure function of the entry, callable from any worker:
/// `accepts` names that function and `is_match` computes it. An
/// implementation outside verified code writes `accepts` as an ordinary
/// method returning the same answer as `is_match`.
pub trait Matcher: Send + Sync {
    /// Whether `entry` matches.
    spec fn accepts(&self, entry: Entry) -> bool;

    /// Returns `true` if this entry should be included in the results.
    fn is_match(&self, entry: &Entry) -> (r: bool)
        ensures
            r == self.accepts(*entry),
    ;
}

} // verus!

use vstd::prelude::*;

verus! {

/// Everything that can go wrong during a search.
///
/// Recoverable errors are local to one entry: the walk goes on, and they are
/// recorded when error collection is enabled. All other errors are fatal.
#[derive(Clone, Debug)]
#[non_exhaustive]
pub enum ParexError {
    /// The entry at this path could not be read for lack of permission.
    PermissionDenied(String),
    /// The entry at this path vanished or never existed.
    NotFound(String),
    /// The source is unusable (missing, or its root is invalid).
    InvalidSource(String),
    /// Following links at this path leads back to an ancestor.
    SymlinkLoop(String),
    /// The matcher's pattern could not be used.
    InvalidPattern(String),
    /// The configured worker count cannot be used.
    InvalidThreadCount(usize),
    /// The worker pool failed.
    ThreadPool(String),
    /// An I/O failure at `path`, with a description of its cause.
    Io { path: String, cause: String },
    /// A failure reported by a source, described in words.
    Source(String),
    /// A failure reported by a matcher, described in words.
    Matcher(String),
}

/// A failure reported by a filesystem walker, reduced to what decides how
/// it is classified.
#[derive(Clone, Debug)]
pub enum WalkFault {
    /// An I/O failure, at a path when the walker knows one; `denied` tells
    /// a permission failure from the others.
    Io { path: Option<String>, denied: bool, cause: String },
    /// Following links at `child` leads back to an ancestor.
    Loop { child: String },
    /// Any other failure, described in words.
    Other { detail: String },
}

impl ParexError {
    /// Classify a walker's failure: a permission failure at a known path is
    /// `PermissionDenied`, other I/O failures are `Io` (at the empty path
    /// when none is known), a link loop is `SymlinkLoop`, and anything else
    /// is a `Source` error.
    pub fn from_fault(fault: WalkFault) -> (r: ParexError)
        ensures
            match fault {
                WalkFault::Io { path: Some(p), denied: true, .. } => r == ParexError::PermissionDenied(p),
                WalkFault::Io { path: Some(p), denied: false, cause } => r == ParexError::Io {
                    path: p,
                    cause,
                },
                WalkFault::Io { path: None, cause, .. } => r matches ParexError::Io {
                    path: q,
                    cause: c,
                } && q@.len() == 0 && c == cause,
                WalkFault::Loop { child } => r == ParexError::SymlinkLoop(child),
                WalkFault::Other { detail } => r == ParexError::Source(detail),
            },
    {
        match fault {
            WalkFault::Io { path: Some(p), denied: true, .. } => ParexError::PermissionDenied(p),
            WalkFault::Io { path: Some(p), denied: false, cause } => ParexError::Io { path: p, cause },
            WalkFault::Io { path: None, cause, .. } => ParexError::Io { path: String::new(), cause },
            WalkFault::Loop { child } => ParexError::SymlinkLoop(child),
            WalkFault::Other { detail } => ParexError::Source(detail),
        }
    }

    /// The variants after which a search goes on.
    pub open spec fn recoverable(self) -> bool {
        match self {
            ParexError::PermissionDenied(_) | ParexError::NotFound(_) | ParexError::SymlinkLoop(_)
            | ParexError::Io { .. } => true,
            _ => false,
        }
    }

    /// The path an error refers to, for the variants that carry one.
    pub open spec fn located_at(self) -> Option<String> {
        match self {
            ParexError::PermissionDenied(p) => Some(p),
            ParexError::NotFound(p) => Some(p),
            ParexError::InvalidSource(p) => Some(p),
            ParexError::SymlinkLoop(p) => Some(p),
            ParexError::Io { path, .. } => Some(path),
            _ => None,
        }
    }

    /// The path this error occurred at, if the variant carries one, so that a
    /// caller can report "skipped: <path>" without matching on variants.
    pub fn path(&self) -> (r: Option<&String>)
        ensures
            match r {
                Some(p) => self.located_at() == Some(*p),
                None => self.located_at() is None,
            },
    {
        match self {
            ParexError::PermissionDenied(p) | ParexError::NotFound(p)
            | ParexError::InvalidSource(p) | ParexError::SymlinkLoop(p) => Some(p),
            ParexError::Io { path, .. } => Some(path),
            _ => None,
        }
    }

    /// Whether the search can continue after this error: permission denied,
    /// not found, symlink loops and I/O failures are recoverable.
    pub fn is_recoverable(&self) -> (r: bool)
        ensures
            r == self.recoverable(),
    {
        match self {
            ParexError::PermissionDenied(_) | ParexError::NotFound(_)
            | ParexError::SymlinkLoop(_) | ParexError::Io { .. } => true,
            _ => false,
        }
    }

    /// Whether this error halts the search: the inverse of `is_recoverable`.
    pub fn is_fatal(&self) -> (r: bool)
        ensures
            r == !self.recoverable(),
    {
        !self.is_recoverable()
    }

    /// A source failure, from a description of its cause.
    pub fn source_err(detail: String) -> (r: Self)
        ensures
            r == ParexError::Source(detail),
    {
        ParexError::Source(detail)
    }

    /// A matcher failure, from a description of its cause.
    pub fn matcher_err(detail: String) -> (r: Self)
        ensures
            r == ParexError::Matcher(detail),
    {
        ParexError::Matcher(detail)
    }
}

} // verus!

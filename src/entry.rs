use vstd::prelude::*;

verus! {

/// The kind of a traversed entry, as classified by its producer.
#[derive(Clone, Copy, Debug, PartialEq, Eq, Structural)]
pub enum EntryKind {
    /// A regular file.
    File,
    /// A directory.
    Dir,
    /// A symbolic link.
    Symlink,
    /// Anything else (device files, pipes, sockets, records of a custom source).
    Other,
}

/// A single item produced by a source during traversal.
///
/// Nothing here is filesystem-specific: `path` is whatever locator the
/// producer and the caller agree on, `name` a short label for it.
#[derive(Clone, Debug)]
pub struct Entry {
    /// Full locator of the entry.
    pub path: String,
    /// The entry's name: a file name, a record id, any identifying label.
    pub name: String,
    /// What kind of entry this is.
    pub kind: EntryKind,
    /// Traversal depth; the root is at depth 0.
    pub depth: usize,
    /// Metadata, filled in on demand by a matcher that needs it; the engine
    /// never reads or fills it.
    pub metadata: Option<EntryMetadata>,
}

/// What a producer or a matcher learned about an entry beyond its name.
#[derive(Clone, Copy, Debug, PartialEq, Eq, Structural)]
pub struct EntryMetadata {
    /// Size in bytes.
    pub len: u64,
    /// Last modification, in nanoseconds since the Unix epoch, when known.
    pub modified_nanos: Option<u128>,
}

impl Entry {
    /// Build an entry from its parts.
    pub fn new(path: String, name: String, kind: EntryKind, depth: usize) -> (r: Entry)
        ensures
            r.path == path,
            r.name == name,
            r.kind == kind,
            r.depth == depth,
            r.metadata is None,
    {
        Entry { path, name, kind, depth, metadata: None }
    }

    /// Attach metadata to this entry, replacing any held before.
    pub fn set_metadata(&mut self, metadata: EntryMetadata)
        ensures
            final(self).path == old(self).path,
            final(self).name == old(self).name,
            final(self).kind == old(self).kind,
            final(self).depth == old(self).depth,
            final(self).metadata == Some(metadata),
    {
        self.metadata = Some(metadata);
    }
}

} // verus!

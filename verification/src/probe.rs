//! What the file system says about a path, as plain values.
//!
//! The library never touches the file system. Its caller asks for the
//! metadata of the bound path once and hands the answer in.

use vstd::prelude::*;

verus! {

/// What an existing path names.
#[derive(Clone, Copy, Debug, PartialEq, Eq, Structural)]
pub enum PathKind {
    /// A plain file.
    File,
    /// A directory.
    Directory,
    /// Neither of the two.
    Other,
}

/// The answer to one request for the metadata of a path.
#[derive(Clone, Copy, Debug, PartialEq, Eq, Structural)]
pub enum PathProbe {
    /// The metadata could be read; the path names a thing of this kind.
    Found(PathKind),
    /// Nothing is there.
    NotFound,
    /// The caller may not look.
    PermissionDenied,
    /// The request failed for any other reason.
    Failed,
}

impl PathProbe {
    /// What the path names: the kind that was found, and `Other` where
    /// nothing could be read.
    pub open spec fn kind(self) -> PathKind {
        match self {
            PathProbe::Found(kind) => kind,
            _ => PathKind::Other,
        }
    }

    /// What the path names: the kind that was found, and `Other` where
    /// nothing could be read.
    pub fn found_kind(&self) -> (kind: PathKind)
        ensures
            kind == self.kind(),
    {
        match self {
            PathProbe::Found(kind) => *kind,
            _ => PathKind::Other,
        }
    }
}

} // verus!

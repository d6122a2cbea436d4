//! What a backend can natively do.

use vstd::prelude::*;

verus! {

/// An operational capability that a backend declares.
#[derive(Clone, Copy, Debug, PartialEq, Eq, Structural, Hash)]
pub enum Capability {
    /// The backend emits `Access` events.
    EmitOnAccess,
    /// The backend follows symbolic links.
    FollowSymlinks,
    /// The backend tags related events with a shared relation ID.
    TrackRelated,
    /// The backend can watch individual files.
    WatchFiles,
    /// The backend can watch folders, without recursing into them.
    WatchFolders,
}

} // verus!

use vstd::prelude::*;

verus! {

/// Why a directory scan produced no candidate.
#[derive(Debug, Clone, Copy, PartialEq, Eq, Structural)]
pub enum FilterError {
    /// The path does not exist or is not a directory.
    DirectoryNotFound,
    /// The directory exists but its listing could not be started.
    DirectoryUnreadable,
    /// No regular file in the directory carries a wanted extension.
    NoMatches,
}

} // verus!

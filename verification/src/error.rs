//! What can go wrong while browsing.

use crate::entry::EntryType;
use vstd::prelude::*;

verus! {

/// Why a directory could not be enumerated.
#[derive(Clone, Copy, Debug, PartialEq, Eq, Structural)]
pub enum Unavailable {
    /// Nothing exists at the path.
    Missing,
    /// The path leads to something that is no directory.
    NotADirectory,
    /// The directory may not be read.
    PermissionDenied,
    /// Any other failure to open the directory.
    Other,
}

/// The conditions that the browser reports in place of doing what was asked.
#[derive(Clone, Copy, Debug, PartialEq, Eq, Structural)]
pub enum BrowseError {
    /// The directory that was to be shown cannot be enumerated.
    ListingUnavailable(Unavailable),
    /// The selected entry is of a kind that cannot be entered.
    UnsupportedEntryAction(EntryType),
    /// The metadata of one child could not be read.
    EntryMetadataUnreadable,
}

impl BrowseError {
    /// A one-line description, fit for a status line.
    pub fn message(&self) -> (text: &'static str)
        ensures
            text@ == match *self {
                BrowseError::ListingUnavailable(Unavailable::Missing) => "no such directory"@,
                BrowseError::ListingUnavailable(Unavailable::NotADirectory) => "not a directory"@,
                BrowseError::ListingUnavailable(Unavailable::PermissionDenied) => "permission denied"@,
                BrowseError::ListingUnavailable(Unavailable::Other) => "directory cannot be read"@,
                BrowseError::UnsupportedEntryAction(EntryType::Dir) => "cannot enter this directory"@,
                BrowseError::UnsupportedEntryAction(EntryType::File) => "viewing files is not yet supported"@,
                BrowseError::UnsupportedEntryAction(EntryType::Sym) => "following links is not yet supported"@,
                BrowseError::EntryMetadataUnreadable => "metadata cannot be read"@,
            },
    {
        match self {
            BrowseError::ListingUnavailable(Unavailable::Missing) => "no such directory",
            BrowseError::ListingUnavailable(Unavailable::NotADirectory) => "not a directory",
            BrowseError::ListingUnavailable(Unavailable::PermissionDenied) => "permission denied",
            BrowseError::ListingUnavailable(Unavailable::Other) => "directory cannot be read",
            BrowseError::UnsupportedEntryAction(EntryType::Dir) => "cannot enter this directory",
            BrowseError::UnsupportedEntryAction(EntryType::File) => "viewing files is not yet supported",
            BrowseError::UnsupportedEntryAction(EntryType::Sym) => "following links is not yet supported",
            BrowseError::EntryMetadataUnreadable => "metadata cannot be read",
        }
    }
}

} // verus!

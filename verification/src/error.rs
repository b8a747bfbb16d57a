//! The errors a run can end with, and the text shown for each.

use vstd::prelude::*;
use vstd::std_specs::convert::FromSpecImpl;

verus! {

/// Why a run stopped.
#[derive(Debug, Clone, Copy, PartialEq, Eq, Structural)]
pub enum SimpleRunError {
    UnparsableFilepath,
    InvalidFilename,
    FailedToSave,
    FailedToLink,
    NoFilesSpecified,
    FailedToRead,
    UnlinkedFilesFound,
    SaveError,
}

impl SimpleRunError {
    /// The text shown to the user for this error.
    pub open spec fn message(self) -> Seq<char> {
        match self {
            SimpleRunError::UnparsableFilepath => "Unparsable filepath specified"@,
            SimpleRunError::InvalidFilename => "Invalid filename"@,
            SimpleRunError::FailedToSave => "Failed to save filemap, chech the directory is accessible and not full."@,
            SimpleRunError::FailedToLink => "Failed to create link"@,
            SimpleRunError::NoFilesSpecified => "No files specified! Run `rusty-dotfiler configure` to generate a filemap from your dotfiles."@,
            SimpleRunError::FailedToRead => "Failed to read directory tree."@,
            SimpleRunError::UnlinkedFilesFound => "Some dotfiles aren't linked! Run `rusty-dotfiler install` to link them."@,
            SimpleRunError::SaveError => "Can't save filemap."@,
        }
    }

    pub fn as_str(&self) -> (text: &'static str)
        ensures
            text@ == self.message(),
    {
        match self {
            SimpleRunError::UnparsableFilepath => "Unparsable filepath specified",
            SimpleRunError::InvalidFilename => "Invalid filename",
            SimpleRunError::FailedToSave => "Failed to save filemap, chech the directory is accessible and not full.",
            SimpleRunError::FailedToLink => "Failed to create link",
            SimpleRunError::NoFilesSpecified => "No files specified! Run `rusty-dotfiler configure` to generate a filemap from your dotfiles.",
            SimpleRunError::FailedToRead => "Failed to read directory tree.",
            SimpleRunError::UnlinkedFilesFound => "Some dotfiles aren't linked! Run `rusty-dotfiler install` to link them.",
            SimpleRunError::SaveError => "Can't save filemap.",
        }
    }
}

/// Why a raw path could not be turned into a canonical one.
#[derive(Debug, Clone, Copy, PartialEq, Eq, Structural)]
pub enum PathError {
    /// The path starts with `~` and no home directory is known.
    HomeDirUnavailable,
    /// The directory that should hold the file is missing or cannot be made
    /// canonical, or the path names no file in a directory at all.
    ParentNotFound,
}

/// How an attempt to create a hardlink failed.
#[derive(Debug, Clone, Copy, PartialEq, Eq, Structural)]
pub enum LinkError {
    /// There is no file at the source path.
    SourceMissing,
    /// The operating system refused for want of permission.
    PermissionDenied,
    /// Any other failure of the operating system.
    Other,
}

/// The error type of `std::io`, carried through without looking inside.
#[verifier::external_type_specification]
#[verifier::external_body]
pub struct ExIoError(std::io::Error);

impl From<std::io::Error> for SimpleRunError {
    /// Any failure of the operating system while writing ends as `FailedToSave`.
    fn from(_io_error: std::io::Error) -> (error: Self) {
        SimpleRunError::FailedToSave
    }
}

impl FromSpecImpl<std::io::Error> for SimpleRunError {
    open spec fn obeys_from_spec() -> bool {
        true
    }

    open spec fn from_spec(_io_error: std::io::Error) -> Self {
        SimpleRunError::FailedToSave
    }
}

/// The file map could not be written.
#[derive(Debug, Clone, Copy, PartialEq, Eq, Structural)]
pub struct SaveError;

impl SaveError {
    /// The text shown to the user for this error.
    pub open spec fn message(self) -> Seq<char> {
        "Can't save filemap."@
    }

    pub fn as_str(&self) -> (text: &'static str)
        ensures
            text@ == self.message(),
    {
        "Can't save filemap."
    }
}

} // verus!

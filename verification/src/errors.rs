//! The failures the crate distinguishes.
//!
//! Each stage has its own error type so a caller can tell "no manifest
//! anywhere" from "the source could not be read" from "the manifest at the
//! root is missing or malformed". Every one of them maps to the same
//! conventional process exit status.

use vstd::prelude::*;

use crate::manifest_name_view;
use crate::paths::{display_view, FsPath};

verus! {

/// The exit status a hosting command-line tool should return for any
/// resolution, read or validation failure.
pub const FAILURE_EXIT_STATUS: i32 = 1;

/// No manifest was discoverable from the starting directory: neither it nor
/// any of its ancestors up to the filesystem root holds one.
#[derive(Debug)]
pub struct NotFoundError {
    /// The directory the upward search started from.
    pub start: FsPath,
}

/// The message a locator failure renders to: it names the reserved file and
/// the directory the search started from.
pub open spec fn not_found_message_view(start: Seq<Seq<char>>) -> Seq<char> {
    "could not find `"@ + manifest_name_view() + "` in `"@ + display_view(start)
        + "` or any parent directory"@
}

impl NotFoundError {
    /// A human-readable account of the failed search.
    pub fn message(&self) -> (r: String)
        ensures
            r@ == not_found_message_view(self.start@),
    {
        let mut m = "could not find `".to_owned();
        m.append("Cargo.toml");
        m.append("` in `");
        let shown = self.start.display();
        m.append(shown.as_str());
        m.append("` or any parent directory");
        m
    }
}

/// The resolved root directory could not be opened as a source.
#[derive(Debug)]
pub struct ConstructionError {
    /// The directory that was refused.
    pub path: FsPath,
}

/// The message a construction failure renders to.
pub open spec fn construction_message_view(path: Seq<Seq<char>>) -> Seq<char> {
    "could not open source directory `"@ + display_view(path) + "`"@
}

impl ConstructionError {
    /// A human-readable account of the refused directory.
    pub fn message(&self) -> (r: String)
        ensures
            r@ == construction_message_view(self.path@),
    {
        let mut m = "could not open source directory `".to_owned();
        let shown = self.path.display();
        m.append(shown.as_str());
        m.append("`");
        m
    }
}

/// An I/O failure met while scanning storage during an update, wrapped with
/// the offending path.
#[derive(Debug)]
pub struct SourceError {
    /// The path on which the scan failed.
    pub path: FsPath,
    /// The underlying I/O failure, already rendered.
    pub detail: String,
}

/// The message a scan failure renders to: the offending path, then the
/// underlying failure verbatim.
pub open spec fn source_message_view(path: Seq<Seq<char>>, detail: Seq<char>) -> Seq<char> {
    "failed to read `"@ + display_view(path) + "`: "@ + detail
}

impl SourceError {
    /// A human-readable account of the failed read.
    pub fn message(&self) -> (r: String)
        ensures
            r@ == source_message_view(self.path@, self.detail@),
    {
        let mut m = "failed to read `".to_owned();
        let shown = self.path.display();
        m.append(shown.as_str());
        m.append("`: ");
        m.append(self.detail.as_str());
        m
    }
}

/// Why no package descriptor could be returned for the source root.
#[derive(Clone, Copy, Debug, PartialEq, Eq, Structural)]
pub enum PackageError {
    /// The source was never updated, so its inventory is not populated yet.
    NotReady,
    /// The update succeeded but no manifest exists exactly at the root
    /// directory (as opposed to some subdirectory).
    NotFound,
    /// A manifest exists at the root but failed parsing or validation.
    Invalid,
}

/// The message each package failure renders to.
pub open spec fn package_error_message_view(e: PackageError) -> Seq<char> {
    match e {
        PackageError::NotReady => "source was not updated before a package was requested"@,
        PackageError::NotFound => "no manifest found at the source root"@,
        PackageError::Invalid => "the manifest at the source root is invalid"@,
    }
}

impl PackageError {
    /// A human-readable account of the failure.
    pub fn message(&self) -> (r: String)
        ensures
            r@ == package_error_message_view(*self),
    {
        match self {
            PackageError::NotReady => "source was not updated before a package was requested"
                .to_owned(),
            PackageError::NotFound => "no manifest found at the source root".to_owned(),
            PackageError::Invalid => "the manifest at the source root is invalid".to_owned(),
        }
    }
}

} // verus!

//! Locating a package's manifest file and loading the package it describes.
//!
//! The crate has two halves: a locator that resolves an optional path hint
//! and a working directory to the single manifest file to operate on, and a
//! path-backed source that, once refreshed with the result of a directory
//! scan, answers queries about the packages it found.

pub mod errors;
pub mod locate;
pub mod package;
pub mod paths;
pub mod source;

use vstd::prelude::*;

verus! {

/// The reserved file name that marks a package root directory.
pub open spec fn manifest_name_view() -> Seq<char> {
    "Cargo.toml"@
}

/// The reserved manifest file name as an owned string.
pub fn manifest_file_name() -> (r: String)
    ensures
        r@ == manifest_name_view(),
{
    "Cargo.toml".to_owned()
}

} // verus!

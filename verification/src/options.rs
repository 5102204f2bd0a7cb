//! The options that the program is started with.

use vstd::prelude::*;
use std::path::PathBuf;

verus! {

/// `std::path::PathBuf`, carried through unread: this library never looks
/// into a path.
#[verifier::external_type_specification]
#[verifier::external_body]
pub struct ExPathBuf(std::path::PathBuf);

/// What the command line says.
#[derive(Debug)]
pub struct Options {
    /// The folder to use as a base for all test maps.
    pub test_maps: PathBuf,
    /// The folder to use as a base for all published maps.
    pub published_maps: PathBuf,
    /// The file which contains the API keys for access.
    pub apikeys: PathBuf,
    /// Enables developer mode: no API key is needed to call the API.
    pub dev: bool,
}

} // verus!

//! The configuration that the program runs with.

use vstd::prelude::*;
use std::path::PathBuf;
use crate::options::Options;
use crate::text::{lines, lines_of, same_text, texts};

verus! {

/// The running configuration: the accepted API keys, the two folders, and
/// whether developer mode is on.
#[derive(Debug)]
pub struct Config {
    pub apikeys: Vec<String>,
    /// The staging directory.
    pub test_map_folder: PathBuf,
    /// The published root, with one directory per difficulty.
    pub public_map_folder: PathBuf,
    pub dev: bool,
}

impl Config {
    /// Whether `key` is one of the configured API keys.
    pub open spec fn accepts(&self, key: Seq<char>) -> bool {
        exists|i: int| 0 <= i < self.apikeys@.len() && (#[trigger] self.apikeys@[i])@ == key
    }

    /// The configuration for the given options; `apikeys` is the content of
    /// the file of API keys, one key on each line.
    pub fn new(options: Options, apikeys: &str) -> (r: Config)
        ensures
            texts(r.apikeys@) == lines_of(apikeys@),
            r.test_map_folder == options.test_maps,
            r.public_map_folder == options.published_maps,
            r.dev == options.dev,
    {
        Config {
            apikeys: lines(apikeys),
            test_map_folder: options.test_maps,
            public_map_folder: options.published_maps,
            dev: options.dev,
        }
    }

    /// Whether `key` is one of the configured API keys.
    pub fn has_key(&self, key: &str) -> (r: bool)
        ensures
            r == self.accepts(key@),
    {
        let mut i: usize = 0;
        while i < self.apikeys.len()
            invariant
                i <= self.apikeys.len(),
                forall|j: int| 0 <= j < i ==> (#[trigger] self.apikeys@[j])@ != key@,
            decreases self.apikeys.len() - i,
        {
            if same_text(self.apikeys[i].as_str(), key) {
                return true;
            }
            i += 1;
        }
        false
    }
}

} // verus!

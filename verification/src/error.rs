//! The ways reading a configuration file can fail.

use vstd::prelude::*;

verus! {

/// Why a configuration file could not be read: each variant carries the path
/// concerned.
#[derive(Debug, PartialEq, Eq)]
pub enum ReadConfigError {
    /// The path has no extension to decide the format by.
    FailedToGetExtension(String),
    /// The file could not be read.
    FailedToReadFile(String),
    /// The extension names no supported format.
    UnsupportedConfigFile(String),
}

} // verus!

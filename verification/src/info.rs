//! Versions of the GL API.

use vstd::prelude::*;

verus! {

/// A GL version number: major and minor.
#[derive(Clone, Copy, Debug, PartialEq, Eq, Structural)]
pub struct GLVersion {
    /// The major version.
    pub major: u8,
    /// The minor version.
    pub minor: u8,
}

impl GLVersion {
    /// The version `major.minor`.
    pub fn new(major: u8, minor: u8) -> (version: GLVersion)
        ensures
            version == (GLVersion { major, minor }),
    {
        GLVersion { major, minor }
    }
}

} // verus!

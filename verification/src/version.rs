//! The linked native library's version triple.

use vstd::prelude::*;

verus! {

/// The version of the dynamically linked native library, informational only.
#[derive(Clone, Copy, Debug, PartialEq, Eq, Structural)]
pub struct Version {
    pub major: u8,
    pub minor: u8,
    pub patch: u8,
}

impl Version {
    /// Assemble a version triple from its native parts.
    pub fn new(major: u8, minor: u8, patch: u8) -> (r: Version)
        ensures
            r == (Version { major, minor, patch }),
    {
        Version { major, minor, patch }
    }
}

} // verus!

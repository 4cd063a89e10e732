use vstd::prelude::*;

verus! {

/// A type representing the version of an ID3v2 tag.
#[derive(Debug, Clone, Copy, PartialEq, Eq)]
pub struct Version {
    /// The major version. Currently only 3 is supported. _It must be less than 255._
    pub major: u8,
    /// The revision version. All revisions are backwards compatible. _It must be less than 255._
    pub revision: u8,
}

impl Version {
    /// Neither number is the reserved value 255.
    pub open spec fn wf(&self) -> bool {
        self.major < 0xFF && self.revision < 0xFF
    }
}

impl Default for Version {
    /// Version 0, revision 0.
    fn default() -> (version: Version)
        ensures
            version == (Version { major: 0, revision: 0 }),
            version.wf(),
    {
        Version { major: 0, revision: 0 }
    }
}

} // verus!

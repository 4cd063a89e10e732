use crate::byte_reader::IoError;
use vstd::prelude::*;
use vstd::std_specs::convert::FromSpecImpl;

verus! {

/// A list specifying the errors that can be encountered when constructing a header from a reader.
#[derive(Debug, Clone, Copy, PartialEq, Eq)]
pub enum Error {
    /// The tag is not an ID3v2 tag.
    InvalidIdentifier,
    /// The size was either 0 or greater than 268435455.
    InvalidSize,
    /// Either of the versions were 255.
    InvalidVersion,
    /// An error occurred whilst reading the bytes.
    Io(IoError),
    /// An unknown header flag was encountered.
    UnknownFlag,
}

impl Error {
    /// The text of `description`, as a sequence of characters.
    pub open spec fn spec_description(&self) -> Seq<char> {
        match self {
            Error::InvalidIdentifier => "not an ID3 identifier"@,
            Error::InvalidSize => "size must be greater than 0 and less than 268435456"@,
            Error::InvalidVersion => "major and revision versions must be less than 255"@,
            Error::Io(err) => err.spec_description(),
            Error::UnknownFlag => "unknown flag found"@,
        }
    }

    /// The text of `to_string`, as a sequence of characters.
    pub open spec fn spec_to_string(&self) -> Seq<char> {
        match self {
            Error::InvalidIdentifier => "Not an ID3 identifier"@,
            Error::InvalidSize => "Size must be greater than 0 and less than 268435456"@,
            Error::InvalidVersion => "Major and revision versions must be less than 255"@,
            Error::Io(err) => "IO error: "@ + err.spec_description(),
            Error::UnknownFlag => "Unknown flag found"@,
        }
    }

    /// A short description of the error, in lower case.
    pub fn description(&self) -> (text: &'static str)
        ensures
            text@ == self.spec_description(),
    {
        match self {
            Error::InvalidIdentifier => "not an ID3 identifier",
            Error::InvalidSize => "size must be greater than 0 and less than 268435456",
            Error::InvalidVersion => "major and revision versions must be less than 255",
            Error::Io(err) => err.description(),
            Error::UnknownFlag => "unknown flag found",
        }
    }

    /// The message shown for this error.
    pub fn to_string(&self) -> (text: String)
        ensures
            text@ == self.spec_to_string(),
    {
        match self {
            Error::InvalidIdentifier => String::from_str("Not an ID3 identifier"),
            Error::InvalidSize => String::from_str(
                "Size must be greater than 0 and less than 268435456",
            ),
            Error::InvalidVersion => String::from_str(
                "Major and revision versions must be less than 255",
            ),
            Error::Io(err) => String::from_str("IO error: ").concat(err.description()),
            Error::UnknownFlag => String::from_str("Unknown flag found"),
        }
    }

    /// The lower-level failure that caused this error, if there is one.
    pub fn cause(&self) -> (cause: Option<&IoError>)
        ensures
            match *self {
                Error::Io(err) => cause == Some(&err),
                _ => cause is None,
            },
    {
        match self {
            Error::Io(err) => Some(err),
            _ => None,
        }
    }
}

impl From<IoError> for Error {
    fn from(err: IoError) -> (error: Error) {
        Error::Io(err)
    }
}

impl FromSpecImpl<IoError> for Error {
    open spec fn obeys_from_spec() -> bool {
        true
    }

    open spec fn from_spec(err: IoError) -> Error {
        Error::Io(err)
    }
}

} // verus!

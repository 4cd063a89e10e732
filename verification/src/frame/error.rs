use crate::frame::header;
use vstd::prelude::*;
use vstd::std_specs::convert::FromSpecImpl;

verus! {

/// A list specifying the errors that can be encountered when constructing a frame from a reader.
#[derive(Debug, Clone, Copy, PartialEq, Eq)]
pub enum Error {
    /// There was an error reading the header
    Header(header::Error),
}

impl Error {
    /// The text of `description`, as a sequence of characters.
    pub open spec fn spec_description(&self) -> Seq<char> {
        match self {
            Error::Header(err) => err.spec_description(),
        }
    }

    /// The text of `to_string`, as a sequence of characters.
    pub open spec fn spec_to_string(&self) -> Seq<char> {
        match self {
            Error::Header(err) => "Header error: "@ + err.spec_to_string(),
        }
    }

    /// A short description of the error: that of the error it wraps.
    pub fn description(&self) -> (text: &'static str)
        ensures
            text@ == self.spec_description(),
    {
        match self {
            Error::Header(err) => err.description(),
        }
    }

    /// The message shown for this error: the stage that failed, then the
    /// message of the error it wraps.
    pub fn to_string(&self) -> (text: String)
        ensures
            text@ == self.spec_to_string(),
    {
        match self {
            Error::Header(err) => {
                let inner = err.to_string();
                String::from_str("Header error: ").concat(inner.as_str())
            },
        }
    }

    /// The lower-level error that caused this error.
    pub fn cause(&self) -> (cause: &header::Error)
        ensures
            *self == Error::Header(*cause),
    {
        match self {
            Error::Header(err) => err,
        }
    }
}

impl From<header::Error> for Error {
    fn from(err: header::Error) -> (error: Error) {
        Error::Header(err)
    }
}

impl FromSpecImpl<header::Error> for Error {
    open spec fn obeys_from_spec() -> bool {
        true
    }

    open spec fn from_spec(err: header::Error) -> Error {
        Error::Header(err)
    }
}

} // verus!

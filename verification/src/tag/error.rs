use crate::frame;
use crate::header;
use vstd::prelude::*;
use vstd::std_specs::convert::FromSpecImpl;

verus! {

/// A list specifying the errors that can be encountered when constructing a tag from a reader.
#[derive(Debug, Clone, Copy, PartialEq, Eq)]
pub enum Error {
    /// There was an error reading the header
    Header(header::Error),
    /// There was an error reading the frame
    Frame(frame::Error),
}

impl Error {
    /// The text of `description`, as a sequence of characters.
    pub open spec fn spec_description(&self) -> Seq<char> {
        match self {
            Error::Header(err) => err.spec_description(),
            Error::Frame(err) => err.spec_description(),
        }
    }

    /// The text of `to_string`, as a sequence of characters.
    pub open spec fn spec_to_string(&self) -> Seq<char> {
        match self {
            Error::Header(err) => "Header error: "@ + err.spec_to_string(),
            Error::Frame(err) => "Frame error: "@ + err.spec_to_string(),
        }
    }

    /// A short description of the error: that of the error it wraps.
    pub fn description(&self) -> (text: &'static str)
        ensures
            text@ == self.spec_description(),
    {
        match self {
            Error::Header(err) => err.description(),
            Error::Frame(err) => err.description(),
        }
    }

    /// The message shown for this error: the stage that failed, then the
    /// message of the error it wraps.
    pub fn to_string(&self) -> (text: String)
        ensures
            text@ == self.spec_to_string(),
    {
        match self {
            Error::Header(err) => {
                let inner = err.to_string();
                String::from_str("Header error: ").concat(inner.as_str())
            },
            Error::Frame(err) => {
                let inner = err.to_string();
                String::from_str("Frame error: ").concat(inner.as_str())
            },
        }
    }

    /// The error of the header stage, if that is the stage that failed.
    pub fn header_cause(&self) -> (cause: Option<&header::Error>)
        ensures
            match *self {
                Error::Header(err) => cause == Some(&err),
                Error::Frame(_) => cause is None,
            },
    {
        match self {
            Error::Header(err) => Some(err),
            Error::Frame(_) => None,
        }
    }

    /// The error of the frame stage, if that is the stage that failed.
    pub fn frame_cause(&self) -> (cause: Option<&frame::Error>)
        ensures
            match *self {
                Error::Header(_) => cause is None,
                Error::Frame(err) => cause == Some(&err),
            },
    {
        match self {
            Error::Header(_) => None,
            Error::Frame(err) => Some(err),
        }
    }
}

impl From<header::Error> for Error {
    fn from(err: header::Error) -> (error: Error) {
        Error::Header(err)
    }
}

impl FromSpecImpl<header::Error> for Error {
    open spec fn obeys_from_spec() -> bool {
        true
    }

    open spec fn from_spec(err: header::Error) -> Error {
        Error::Header(err)
    }
}

impl From<frame::Error> for Error {
    fn from(err: frame::Error) -> (error: Error) {
        Error::Frame(err)
    }
}

impl FromSpecImpl<frame::Error> for Error {
    open spec fn obeys_from_spec() -> bool {
        true
    }

    open spec fn from_spec(err: frame::Error) -> Error {
        Error::Frame(err)
    }
}

} // verus!

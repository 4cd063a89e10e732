//! Types, structs and functions related to reading a frame from an ID3v2 tag.

use crate::byte_reader::{ByteSource, IoError};
use vstd::prelude::*;

use self::header::{Header, HeaderView};

pub use self::error::Error;

mod error;
pub mod header;

verus! {

/// A specialised `Result` type for frame reading operations.
pub type Result<T> = core::result::Result<T, Error>;

/// What a frame holds: its header.
pub struct FrameView {
    /// The header of the frame.
    pub header: HeaderView,
}

/// The frame that ten bytes encode under a major version of the tag, or the
/// reason why they encode none: the error of the frame header, marked as
/// such.
pub open spec fn decode(bytes: Seq<u8>, version: u8) -> Result<FrameView>
    recommends
        bytes.len() == 10,
{
    match header::decode(bytes, version) {
        Ok(header) => Ok(FrameView { header }),
        Err(error) => Err(Error::Header(error)),
    }
}

/// What reading a frame from a source with the bytes `stream` left returns:
/// the frame or error that the first ten bytes encode, or an I/O error if
/// there are fewer than ten.
pub open spec fn decode_stream(stream: Seq<u8>, version: u8) -> Result<FrameView> {
    if stream.len() < 10 {
        Err(Error::Header(header::Error::Io(IoError::UnexpectedEof)))
    } else {
        decode(stream.take(10), version)
    }
}

/// The bytes that are left of `stream` after a frame was read from it,
/// successfully or not: all but the first ten, or none if there were fewer.
pub open spec fn rest_of_stream(stream: Seq<u8>) -> Seq<u8> {
    if stream.len() < 10 {
        Seq::empty()
    } else {
        stream.skip(10)
    }
}

/// A type representing a frame in an ID3v2 tag.
///
/// # Reference
///
/// [ID3v2.3 Informal Standard (Section 3.3)](http://id3.org/id3v2.3.0#ID3v2_frame_overview)
#[derive(Debug, PartialEq, Eq)]
pub struct Frame {
    header: Header,
}

impl View for Frame {
    type V = FrameView;

    closed spec fn view(&self) -> FrameView {
        FrameView { header: self.header@ }
    }
}

impl Frame {
    /// Construct a new frame from a reader, under the major version
    /// `version` of the tag.
    ///
    /// Ten bytes are read, or all that are left if there are fewer.
    ///
    /// # Errors
    ///
    /// If there is an error reading the frame header, then this function will return
    /// `Error::Header`.
    pub fn from_reader<R: ByteSource>(reader: &mut R, version: u8) -> (result: Result<Frame>)
        ensures
            final(reader).remaining() == rest_of_stream(old(reader).remaining()),
            match result {
                Ok(frame) => decode_stream(old(reader).remaining(), version) == Ok::<
                    FrameView,
                    Error,
                >(frame@),
                Err(error) => decode_stream(old(reader).remaining(), version) == Err::<
                    FrameView,
                    Error,
                >(error),
            },
    {
        match Header::from_reader(reader, version) {
            Ok(header) => Ok(Frame { header }),
            Err(err) => Err(Error::from(err)),
        }
    }

    /// Gets the header of the frame.
    pub fn header(&self) -> (header: &Header)
        ensures
            header@ == self@.header,
    {
        &self.header
    }
}

} // verus!

//! Types, structs and functions related to reading an ID3v2 tag.

use crate::byte_reader::{ByteSource, IoError};
use crate::frame;
use crate::frame::{Frame, FrameView};
use crate::header;
use crate::header::{Header, HeaderView};
use vstd::prelude::*;

pub use self::error::Error;

mod error;

verus! {

/// A specialised `Result` type for tag reading operations.
pub type Result<T> = core::result::Result<T, Error>;

/// What a tag holds: its header and the first frame.
pub struct TagView {
    /// The header of the tag.
    pub header: HeaderView,
    /// The frame that follows the header.
    pub frame: FrameView,
}

/// What reading a tag from a source with the bytes `stream` left returns.
///
/// The first ten bytes are decoded as the tag header. If that succeeds, the
/// next ten are decoded as a frame under the major version that the header
/// gives. The first error ends the reading and is marked with the stage at
/// which it arose; a stage that finds fewer than ten bytes fails with an I/O
/// error.
pub open spec fn decode_stream(stream: Seq<u8>) -> Result<TagView> {
    if stream.len() < 10 {
        Err(Error::Header(header::Error::Io(IoError::UnexpectedEof)))
    } else {
        match header::decode(stream.take(10)) {
            Err(error) => Err(Error::Header(error)),
            Ok(header) => match frame::decode_stream(stream.skip(10), header.version.major) {
                Err(error) => Err(Error::Frame(error)),
                Ok(frame) => Ok(TagView { header, frame }),
            },
        }
    }
}

/// The bytes that are left of `stream` after a tag was read from it,
/// successfully or not. Each stage that was reached took ten bytes, or all
/// that were left if there were fewer; the frame stage is reached only if
/// the header is valid.
pub open spec fn rest_of_stream(stream: Seq<u8>) -> Seq<u8> {
    if stream.len() < 10 {
        Seq::empty()
    } else if header::decode(stream.take(10)) is Err {
        stream.skip(10)
    } else {
        frame::rest_of_stream(stream.skip(10))
    }
}

/// A type representing an ID3v2 tag.
///
/// # Reference
///
/// [ID3v2.3 Informal Standard](http://id3.org/id3v2.3.0)
#[derive(Debug, PartialEq, Eq)]
pub struct Tag {
    header: Header,
    frame: Frame,
}

impl View for Tag {
    type V = TagView;

    closed spec fn view(&self) -> TagView {
        TagView { header: self.header@, frame: self.frame@ }
    }
}

impl Tag {
    /// Construct a new tag from a reader: its header, and then the header
    /// of its first frame.
    ///
    /// # Errors
    ///
    /// If there is an error reading the header, then this function will return
    /// `Error::Header`, and nothing is read beyond the header.
    ///
    /// If there is an error reading the frame, then this function will return
    /// `Error::Frame`.
    pub fn from_reader<R: ByteSource>(reader: &mut R) -> (result: Result<Tag>)
        ensures
            final(reader).remaining() == rest_of_stream(old(reader).remaining()),
            match result {
                Ok(tag) => decode_stream(old(reader).remaining()) == Ok::<TagView, Error>(tag@),
                Err(error) => decode_stream(old(reader).remaining()) == Err::<TagView, Error>(
                    error,
                ),
            },
    {
        let header = match Header::from_reader(reader) {
            Ok(header) => header,
            Err(err) => {
                return Err(Error::from(err));
            },
        };
        let frame = match Frame::from_reader(reader, header.version().major) {
            Ok(frame) => frame,
            Err(err) => {
                return Err(Error::from(err));
            },
        };
        Ok(Tag { header, frame })
    }

    /// Gets the header of the tag.
    pub fn header(&self) -> (header: &Header)
        ensures
            header@ == self@.header,
    {
        &self.header
    }

    /// Gets the frame that follows the header of the tag.
    pub fn frame(&self) -> (frame: &Frame)
        ensures
            frame@ == self@.frame,
    {
        &self.frame
    }
}

/// Reading a tag from a source that holds at least twenty bytes takes the
/// ten bytes of the header and, only if they are a valid header, the ten
/// bytes of the frame, whether or not these are a valid frame. A tag is
/// returned only after twenty bytes were taken.
pub proof fn lemma_tag_takes_ten_bytes_per_stage(stream: Seq<u8>)
    requires
        stream.len() >= 20,
    ensures
        header::decode(stream.take(10)) is Err ==> rest_of_stream(stream) == stream.skip(10),
        header::decode(stream.take(10)) is Ok ==> rest_of_stream(stream) == stream.skip(20),
        decode_stream(stream) is Ok ==> rest_of_stream(stream) == stream.skip(20),
        decode_stream(stream) matches Err(Error::Header(_)) <==> header::decode(stream.take(10))
            is Err,
{
    assert(stream.skip(10).skip(10) =~= stream.skip(20));
}

/// The frame of a tag is decoded from the second ten bytes under the major
/// version that the first ten bytes give, and both parts are well formed.
pub proof fn lemma_tag_parts(stream: Seq<u8>)
    requires
        stream.len() >= 20,
    ensures
        decode_stream(stream) matches Ok(tag) ==> {
            &&& header::decode(stream.take(10)) == Ok::<HeaderView, header::Error>(tag.header)
            &&& frame::header::decode(stream.subrange(10, 20), stream[3]) == Ok::<
                frame::header::HeaderView,
                frame::header::Error,
            >(tag.frame.header)
            &&& tag.header.wf()
            &&& tag.frame.header.wf()
        },
{
    assert(stream.skip(10).take(10) =~= stream.subrange(10, 20));
    assert(stream.take(10)[3] == stream[3]);
}

} // verus!

//! Types, structs and functions related to reading the header of a frame in an ID3v2 tag.

use crate::byte_reader::{read_exact, ByteSource, IoError};
use crate::utils::{big_endian_value, synchsafe_to_u32, synchsafe_value};
use vstd::prelude::*;

pub use self::error::Error;
pub use self::flags::{
    lemma_encoding_flags_known, lemma_status_flags_known, EncodingFlags, StatusFlags, ENCODING_ALL, ENCODING_COMPRESSION, ENCODING_ENCRYPTION,
    ENCODING_GROUPING, STATUS_ALL, STATUS_FILE_PRESERVE, STATUS_READ_ONLY, STATUS_TAG_PRESERVE,
};

mod error;
mod flags;

verus! {

/// The ten bytes that make up a frame header.
pub type HeaderBytes = [u8; 10];

/// A specialised `Result` type for frame header reading operations.
pub type Result<T> = core::result::Result<T, Error>;

/// What a frame header holds.
pub struct HeaderView {
    /// The four characters that identify the frame.
    pub frame_id: Seq<u8>,
    /// The size of the frame, not counting the header.
    pub size: u32,
    /// The status flag byte.
    pub status_flags: u8,
    /// The encoding flag byte.
    pub encoding_flags: u8,
}

impl HeaderView {
    /// The frame identifier has four bytes, the size is greater than 0 and
    /// only defined flags are set.
    pub open spec fn wf(self) -> bool {
        &&& self.frame_id.len() == 4
        &&& self.size > 0
        &&& StatusFlags::known(self.status_flags)
        &&& EncodingFlags::known(self.encoding_flags)
    }
}

/// The number that the size field (offsets 4 to 7) denotes under a major
/// version of the tag: a plain big-endian integer under version 3, a
/// synchsafe integer under version 4, and 0 under any other version.
pub open spec fn size_field(bytes: Seq<u8>, version: u8) -> u32
    recommends
        bytes.len() == 10,
{
    if version == 3 {
        big_endian_value(bytes.subrange(4, 8))
    } else if version == 4 {
        synchsafe_value(bytes.subrange(4, 8))
    } else {
        0
    }
}

/// The frame header that ten bytes encode under a major version of the tag,
/// or the reason why they encode none.
///
/// The bytes are the frame identifier (offsets 0 to 3), the size (4 to 7),
/// the status flag byte (8) and the encoding flag byte (9). The identifier is
/// taken as it stands. The size is checked first, then the status flags,
/// then the encoding flags, and the first check that fails decides the error.
pub open spec fn decode(bytes: Seq<u8>, version: u8) -> Result<HeaderView>
    recommends
        bytes.len() == 10,
{
    let size = size_field(bytes, version);
    if size == 0 {
        Err(Error::InvalidSize)
    } else if !StatusFlags::known(bytes[8]) {
        Err(Error::UnknownFlag)
    } else if !EncodingFlags::known(bytes[9]) {
        Err(Error::UnknownFlag)
    } else {
        Ok(
            HeaderView {
                frame_id: bytes.subrange(0, 4),
                size,
                status_flags: bytes[8],
                encoding_flags: bytes[9],
            },
        )
    }
}

/// A type representing the header of a frame in an ID3v2 tag.
///
/// # Reference
///
/// [ID3v2.3 Informal Standard (Section 3.3)](http://id3.org/id3v2.3.0#ID3v2_frame_overview)
#[derive(Debug, PartialEq, Eq)]
pub struct Header {
    frame_id: [u8; 4],
    size: u32,
    status_flags: StatusFlags,
    encoding_flags: EncodingFlags,
}

impl View for Header {
    type V = HeaderView;

    closed spec fn view(&self) -> HeaderView {
        HeaderView {
            frame_id: self.frame_id@,
            size: self.size,
            status_flags: self.status_flags@,
            encoding_flags: self.encoding_flags@,
        }
    }
}

impl Header {
    #[verifier::type_invariant]
    spec fn well_formed(self) -> bool {
        self@.wf()
    }

    /// Construct a new frame header with specified bytes, read under the
    /// major version `version` of the tag.
    ///
    /// # Errors
    ///
    /// If there is an invalid size (it must be greater than 0), then this function will
    /// return `Error::InvalidSize`. Under a version other than 3 and 4 this
    /// is always so.
    ///
    /// If there is an unrecognized flag, then this function will return `Error::UnknownFlag`.
    pub fn new_with_bytes(bytes: &HeaderBytes, version: u8) -> (result: Result<Header>)
        ensures
            match result {
                Ok(header) => decode(bytes@, version) == Ok::<HeaderView, Error>(header@),
                Err(error) => decode(bytes@, version) == Err::<HeaderView, Error>(error),
            },
    {
        let frame_id = Header::decode_frame_id(bytes);
        let size = Header::decode_size(bytes, version)?;
        let status_flags = Header::decode_status_flags(bytes)?;
        let encoding_flags = Header::decode_encoding_flags(bytes)?;
        Ok(Header { frame_id, size, status_flags, encoding_flags })
    }

    /// Construct a new frame header from a reader.
    ///
    /// # Guarantees
    ///
    /// This function will only ever read 10 bytes from the reader, and it
    /// reads all 10 whether or not they are a valid frame header.
    ///
    /// # Errors
    ///
    /// If the reader has fewer than 10 bytes left, then this function will return
    /// `Error::Io`, having consumed what was left. Otherwise it returns what
    /// `new_with_bytes` returns for the 10 bytes read.
    pub fn from_reader<R: ByteSource>(reader: &mut R, version: u8) -> (result: Result<Header>)
        ensures
            old(reader).remaining().len() >= 10 ==> {
                &&& final(reader).remaining() == old(reader).remaining().skip(10)
                &&& match result {
                    Ok(header) => decode(old(reader).remaining().take(10), version) == Ok::<
                        HeaderView,
                        Error,
                    >(header@),
                    Err(error) => decode(old(reader).remaining().take(10), version) == Err::<
                        HeaderView,
                        Error,
                    >(error),
                }
            },
            old(reader).remaining().len() < 10 ==> {
                &&& final(reader).remaining().len() == 0
                &&& result == Err::<Header, Error>(Error::Io(IoError::UnexpectedEof))
            },
    {
        let bytes = Header::read(reader)?;
        Header::new_with_bytes(&bytes, version)
    }

    /// Gets the frame ID (conventionally made out of the characters capital A-Z and 0-9,
    /// which is not checked).
    pub fn frame_id(&self) -> (id: &[u8; 4])
        ensures
            id@ == self@.frame_id,
    {
        &self.frame_id
    }

    /// Gets the size of the frame (not including the header). This will always be greater than 0.
    pub fn size(&self) -> (size: u32)
        ensures
            size == self@.size,
            size > 0,
    {
        proof {
            use_type_invariant(self);
        }
        self.size
    }

    /// Gets whether or not to preserve the frame if it is unknown and the tag is altered in any
    /// way. This applies to all kinds of alterations, including adding more padding and reordering the frames.
    pub fn should_preserve_tag(&self) -> (set: bool)
        ensures
            set == (self@.status_flags & STATUS_TAG_PRESERVE != 0),
    {
        self.status_flags.intersects(STATUS_TAG_PRESERVE)
    }

    /// Gets whether or not to preserve the frame if it is unknown and the file, excluding the tag, is altered.
    pub fn should_preserve_file(&self) -> (set: bool)
        ensures
            set == (self@.status_flags & STATUS_FILE_PRESERVE != 0),
    {
        self.status_flags.intersects(STATUS_FILE_PRESERVE)
    }

    /// Gets whether or not the contents of the frame is intended to be read only. Changing the contents might
    /// break something, e.g. a signature.
    pub fn is_read_only(&self) -> (set: bool)
        ensures
            set == (self@.status_flags & STATUS_READ_ONLY != 0),
    {
        self.status_flags.intersects(STATUS_READ_ONLY)
    }

    /// Gets whether or not the frame is compressed.
    pub fn is_compressed(&self) -> (set: bool)
        ensures
            set == (self@.encoding_flags & ENCODING_COMPRESSION != 0),
    {
        self.encoding_flags.intersects(ENCODING_COMPRESSION)
    }

    /// Gets whether or not the frame is encrypted.
    pub fn is_encrypted(&self) -> (set: bool)
        ensures
            set == (self@.encoding_flags & ENCODING_ENCRYPTION != 0),
    {
        self.encoding_flags.intersects(ENCODING_ENCRYPTION)
    }

    /// Gets whether or not this frame belongs in a group with other frames.
    pub fn is_grouped(&self) -> (set: bool)
        ensures
            set == (self@.encoding_flags & ENCODING_GROUPING != 0),
    {
        self.encoding_flags.intersects(ENCODING_GROUPING)
    }

    /// Read and return 10 bytes from the reader.
    fn read<R: ByteSource>(reader: &mut R) -> (result: Result<HeaderBytes>)
        ensures
            match result {
                Ok(bytes) => {
                    &&& old(reader).remaining().len() >= 10
                    &&& bytes@ == old(reader).remaining().take(10)
                    &&& final(reader).remaining() == old(reader).remaining().skip(10)
                },
                Err(error) => {
                    &&& old(reader).remaining().len() < 10
                    &&& error == Error::Io(IoError::UnexpectedEof)
                    &&& final(reader).remaining().len() == 0
                },
            },
    {
        let mut bytes = [0u8; 10];
        match read_exact(reader, &mut bytes) {
            Ok(()) => Ok(bytes),
            Err(err) => Err(Error::from(err)),
        }
    }

    /// Gets the frame ID from the bytes.
    fn decode_frame_id(bytes: &HeaderBytes) -> (id: [u8; 4])
        ensures
            id@ == bytes@.subrange(0, 4),
    {
        let id = [bytes[0], bytes[1], bytes[2], bytes[3]];
        assert(id@ =~= bytes@.subrange(0, 4));
        id
    }

    /// Gets the frame size (not including the header) from the bytes.
    fn decode_size(bytes: &HeaderBytes, version: u8) -> (result: Result<u32>)
        ensures
            match result {
                Ok(size) => size == size_field(bytes@, version) && size > 0,
                Err(error) => error == Error::InvalidSize && size_field(bytes@, version) == 0,
            },
    {
        let size: u32 = match version {
            3 => {
                assert(bytes@.subrange(4, 8) =~= seq![bytes[4], bytes[5], bytes[6], bytes[7]]);
                (bytes[4] as u32) << 24 | (bytes[5] as u32) << 16 | (bytes[6] as u32) << 8 | (
                bytes[7] as u32)
            },
            4 => synchsafe_to_u32(&bytes[4..8]).unwrap_or(0),
            _ => 0,
        };
        if size > 0 {
            Ok(size)
        } else {
            Err(Error::InvalidSize)
        }
    }

    /// Gets the status flags of the frame from the bytes.
    fn decode_status_flags(bytes: &HeaderBytes) -> (result: Result<StatusFlags>)
        ensures
            match result {
                Ok(flags) => flags@ == bytes[8] && StatusFlags::known(bytes[8]),
                Err(error) => error == Error::UnknownFlag && !StatusFlags::known(bytes[8]),
            },
    {
        match StatusFlags::from_bits(bytes[8]) {
            Some(flags) => Ok(flags),
            None => Err(Error::UnknownFlag),
        }
    }

    /// Gets the encoding flags of the frame from the bytes.
    fn decode_encoding_flags(bytes: &HeaderBytes) -> (result: Result<EncodingFlags>)
        ensures
            match result {
                Ok(flags) => flags@ == bytes[9] && EncodingFlags::known(bytes[9]),
                Err(error) => error == Error::UnknownFlag && !EncodingFlags::known(bytes[9]),
            },
    {
        match EncodingFlags::from_bits(bytes[9]) {
            Some(flags) => Ok(flags),
            None => Err(Error::UnknownFlag),
        }
    }
}

/// Whatever ten bytes decode to is a well-formed frame header that holds
/// the fields of those bytes.
pub proof fn lemma_decoded_header_is_well_formed(bytes: Seq<u8>, version: u8)
    requires
        bytes.len() == 10,
    ensures
        decode(bytes, version) matches Ok(header) ==> {
            &&& header.wf()
            &&& header.frame_id == bytes.subrange(0, 4)
            &&& header.size == size_field(bytes, version)
            &&& header.status_flags == bytes[8]
            &&& header.encoding_flags == bytes[9]
        },
{
}

/// The size field is read as a plain big-endian number under version 3 and
/// as a synchsafe number under version 4. Where the two readings of the same
/// four bytes differ, ten bytes that decode under both versions give two
/// headers of different sizes, alike in everything else. Under any other
/// version no bytes decode.
pub proof fn lemma_size_reading_depends_on_version(bytes: Seq<u8>)
    requires
        bytes.len() == 10,
    ensures
        decode(bytes, 3) matches Ok(header) ==> header.size == big_endian_value(
            bytes.subrange(4, 8),
        ),
        decode(bytes, 4) matches Ok(header) ==> header.size == synchsafe_value(
            bytes.subrange(4, 8),
        ),
        forall|version: u8|
            version != 3 && version != 4 ==> #[trigger] decode(bytes, version) == Err::<
                HeaderView,
                Error,
            >(Error::InvalidSize),
        (decode(bytes, 3) matches Ok(plain) && decode(bytes, 4) matches Ok(synchsafe)
            && big_endian_value(bytes.subrange(4, 8)) != synchsafe_value(bytes.subrange(4, 8)))
            ==> {
            &&& decode(bytes, 3)->Ok_0.size != decode(bytes, 4)->Ok_0.size
            &&& decode(bytes, 3)->Ok_0.frame_id == decode(bytes, 4)->Ok_0.frame_id
            &&& decode(bytes, 3)->Ok_0.status_flags == decode(bytes, 4)->Ok_0.status_flags
            &&& decode(bytes, 3)->Ok_0.encoding_flags == decode(bytes, 4)->Ok_0.encoding_flags
        },
{
}

/// Each error is returned exactly when its check is the first to fail: the
/// size, then the two flag bytes.
pub proof fn lemma_frame_header_error_precedence(bytes: Seq<u8>, version: u8)
    requires
        bytes.len() == 10,
    ensures
        decode(bytes, version) == Err::<HeaderView, Error>(Error::InvalidSize) <==> size_field(
            bytes,
            version,
        ) == 0,
        decode(bytes, version) == Err::<HeaderView, Error>(Error::UnknownFlag) <==> {
            &&& size_field(bytes, version) > 0
            &&& (!StatusFlags::known(bytes[8]) || !EncodingFlags::known(bytes[9]))
        },
        !(decode(bytes, version) matches Err(Error::Io(_))),
{
}

/// Ten bytes with a size greater than 0 are rejected with `UnknownFlag` as
/// soon as one of the five low bits of the status flag byte or of the
/// encoding flag byte is set.
pub proof fn lemma_unknown_frame_flag_is_rejected(bytes: Seq<u8>, version: u8, bit: u8)
    requires
        bytes.len() == 10,
        size_field(bytes, version) > 0,
        bit < 5,
        bytes[8] & (1u8 << bit) != 0 || bytes[9] & (1u8 << bit) != 0,
    ensures
        decode(bytes, version) == Err::<HeaderView, Error>(Error::UnknownFlag),
{
    lemma_status_flags_known(bytes[8]);
    lemma_encoding_flags_known(bytes[9]);
}

} // verus!

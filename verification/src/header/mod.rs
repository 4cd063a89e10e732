//! Types, structs and functions related to reading an ID3v2 tag header.

use crate::byte_reader::{read_exact, ByteSource, IoError};
use crate::utils::{synchsafe_to_u32, synchsafe_value};
use vstd::prelude::*;

pub use self::error::Error;
pub use self::flags::{
    lemma_header_flags_known, HeaderFlags, HEADER_ALL, HEADER_EXPERIMENTAL, HEADER_EXTENDED, HEADER_FOOTER, HEADER_UNSYNC,
};
pub use self::version::Version;

mod error;
mod flags;
mod version;

verus! {

/// The ten bytes that make up a header.
pub type HeaderBytes = [u8; 10];

/// A specialised `Result` type for header reading operations.
pub type HeaderResult<T> = Result<T, Error>;

/// The file identifier of an ID3v2 tag: the characters `ID3`.
pub open spec fn identifier() -> Seq<u8> {
    seq![0x49u8, 0x44u8, 0x33u8]
}

/// What a tag header holds.
pub struct HeaderView {
    /// The file identifier.
    pub identifier: Seq<u8>,
    /// The version of the tag.
    pub version: Version,
    /// The flag byte.
    pub flags: u8,
    /// The size of the tag, not counting the header or a footer.
    pub size: u32,
}

impl HeaderView {
    /// The identifier is `ID3`, neither version number is 255, only defined
    /// flags are set, and the size is greater than 0 and less than 268435456.
    pub open spec fn wf(self) -> bool {
        &&& self.identifier == identifier()
        &&& self.version.wf()
        &&& HeaderFlags::known(self.flags)
        &&& 0 < self.size < 0x1000_0000
    }
}

/// The header that ten bytes encode, or the reason why they encode none.
///
/// The bytes are the identifier (offsets 0 to 2), the major version and the
/// revision (3 and 4), the flag byte (5) and the size as a synchsafe integer
/// (6 to 9). They are checked in the order identifier, version, size, flags,
/// and the first check that fails decides the error.
pub open spec fn decode(bytes: Seq<u8>) -> Result<HeaderView, Error>
    recommends
        bytes.len() == 10,
{
    let version = Version { major: bytes[3], revision: bytes[4] };
    let size = synchsafe_value(bytes.subrange(6, 10));
    if bytes.subrange(0, 3) != identifier() {
        Err(Error::InvalidIdentifier)
    } else if !version.wf() {
        Err(Error::InvalidVersion)
    } else if !(0 < size < 0x1000_0000) {
        Err(Error::InvalidSize)
    } else if !HeaderFlags::known(bytes[5]) {
        Err(Error::UnknownFlag)
    } else {
        Ok(HeaderView { identifier: bytes.subrange(0, 3), version, flags: bytes[5], size })
    }
}

/// A type representing the header of an ID3v2 tag.
///
/// # Reference
///
/// [ID3v2.3 Informal Standard (Section 3.1)](http://id3.org/id3v2.3.0#ID3v2_header)
#[derive(Debug, PartialEq, Eq)]
pub struct Header {
    identifier: [u8; 3],
    version: Version,
    flags: HeaderFlags,
    size: u32,
}

impl View for Header {
    type V = HeaderView;

    closed spec fn view(&self) -> HeaderView {
        HeaderView {
            identifier: self.identifier@,
            version: self.version,
            flags: self.flags@,
            size: self.size,
        }
    }
}

impl Header {
    #[verifier::type_invariant]
    spec fn well_formed(self) -> bool {
        self@.wf()
    }

    /// Construct a new header with specified bytes.
    ///
    /// The header is made up of 10 bytes, so that is all the constructor will accept.
    ///
    /// # Errors
    ///
    /// If the file identifier is incorrect (must be "ID3"), then this function will return
    /// `Error::InvalidIdentifier`.
    ///
    /// If there is an invalid version (neither versions can be 255), then this function will
    /// return `Error::InvalidVersion`.
    ///
    /// If there is an invalid size (it must be greater than 0 and less than 268435456), then this
    /// function will return `Error::InvalidSize`.
    ///
    /// If there is an unrecognized flag, then this function will return `Error::UnknownFlag`.
    pub fn new_with_bytes(bytes: &HeaderBytes) -> (result: HeaderResult<Header>)
        ensures
            match result {
                Ok(header) => decode(bytes@) == Ok::<HeaderView, Error>(header@),
                Err(error) => decode(bytes@) == Err::<HeaderView, Error>(error),
            },
    {
        let identifier = Header::decode_identifier(bytes)?;
        let version = Header::decode_version(bytes)?;
        let size = Header::decode_size(bytes)?;
        let flags = Header::decode_flags(bytes)?;
        Ok(Header { identifier, version, flags, size })
    }

    /// Construct a new header from a reader.
    ///
    /// # Guarantees
    ///
    /// This function will only ever read 10 bytes from the reader, and it
    /// reads all 10 whether or not they are a valid header.
    ///
    /// # Errors
    ///
    /// If the reader has fewer than 10 bytes left, then this function will return
    /// `Error::Io`, having consumed what was left. Otherwise it returns what
    /// `new_with_bytes` returns for the 10 bytes read.
    pub fn from_reader<R: ByteSource>(reader: &mut R) -> (result: HeaderResult<Header>)
        ensures
            old(reader).remaining().len() >= 10 ==> {
                &&& final(reader).remaining() == old(reader).remaining().skip(10)
                &&& match result {
                    Ok(header) => decode(old(reader).remaining().take(10)) == Ok::<
                        HeaderView,
                        Error,
                    >(header@),
                    Err(error) => decode(old(reader).remaining().take(10)) == Err::<
                        HeaderView,
                        Error,
                    >(error),
                }
            },
            old(reader).remaining().len() < 10 ==> {
                &&& final(reader).remaining().len() == 0
                &&& result == Err::<Header, Error>(Error::Io(IoError::UnexpectedEof))
            },
    {
        let bytes = Header::read(reader)?;
        Header::new_with_bytes(&bytes)
    }

    /// Gets the file identifier (currently always "ID3").
    pub fn identifier(&self) -> (id: &[u8; 3])
        ensures
            id@ == self@.identifier,
            id@ == identifier(),
    {
        proof {
            use_type_invariant(self);
        }
        &self.identifier
    }

    /// Gets the version of the ID3v2 tag. Neither of its numbers is 255.
    pub fn version(&self) -> (version: &Version)
        ensures
            *version == self@.version,
            version.wf(),
    {
        proof {
            use_type_invariant(self);
        }
        &self.version
    }

    /// Gets the size of the tag (not including the header or footer). This will always be
    /// greater than 0 and less than 268435456.
    pub fn size(&self) -> (size: u32)
        ensures
            size == self@.size,
            0 < size < 0x1000_0000,
    {
        proof {
            use_type_invariant(self);
        }
        self.size
    }

    /// Gets whether or not unsynchronization is used.
    pub fn is_unsynchronized(&self) -> (set: bool)
        ensures
            set == (self@.flags & HEADER_UNSYNC != 0),
    {
        self.flags.intersects(HEADER_UNSYNC)
    }

    /// Gets whether or not the header is followed by an extended header.
    pub fn has_extended_header(&self) -> (set: bool)
        ensures
            set == (self@.flags & HEADER_EXTENDED != 0),
    {
        self.flags.intersects(HEADER_EXTENDED)
    }

    /// Gets whether or not the tag is in an experimental stage.
    pub fn is_experimental(&self) -> (set: bool)
        ensures
            set == (self@.flags & HEADER_EXPERIMENTAL != 0),
    {
        self.flags.intersects(HEADER_EXPERIMENTAL)
    }

    /// Gets whether or not the tag has a footer.
    ///
    /// A footer is never parsed, but we need to know one exists so it can be safely skipped.
    pub fn has_footer(&self) -> (set: bool)
        ensures
            set == (self@.flags & HEADER_FOOTER != 0),
    {
        self.flags.intersects(HEADER_FOOTER)
    }

    /// Read and return 10 bytes from the reader.
    fn read<R: ByteSource>(reader: &mut R) -> (result: HeaderResult<HeaderBytes>)
        ensures
            match result {
                Ok(bytes) => {
                    &&& old(reader).remaining().len() >= 10
                    &&& bytes@ == old(reader).remaining().take(10)
                    &&& final(reader).remaining() == old(reader).remaining().skip(10)
                },
                Err(error) => {
                    &&& old(reader).remaining().len() < 10
                    &&& error == Error::Io(IoError::UnexpectedEof)
                    &&& final(reader).remaining().len() == 0
                },
            },
    {
        let mut bytes = [0u8; 10];
        match read_exact(reader, &mut bytes) {
            Ok(()) => Ok(bytes),
            Err(err) => Err(Error::from(err)),
        }
    }

    /// Gets the file identifier from the bytes, which must be "ID3".
    fn decode_identifier(bytes: &HeaderBytes) -> (result: HeaderResult<[u8; 3]>)
        ensures
            match result {
                Ok(id) => id@ == bytes@.subrange(0, 3) && id@ == identifier(),
                Err(error) => error == Error::InvalidIdentifier && bytes@.subrange(0, 3)
                    != identifier(),
            },
    {
        let id = [bytes[0], bytes[1], bytes[2]];
        assert(id@ =~= bytes@.subrange(0, 3));
        if id[0] == 0x49 && id[1] == 0x44 && id[2] == 0x33 {
            assert(id@ =~= identifier());
            Ok(id)
        } else {
            Err(Error::InvalidIdentifier)
        }
    }

    /// Gets the major and revision versions from the bytes.
    fn decode_version(bytes: &HeaderBytes) -> (result: HeaderResult<Version>)
        ensures
            match result {
                Ok(version) => version == (Version { major: bytes[3], revision: bytes[4] })
                    && version.wf(),
                Err(error) => error == Error::InvalidVersion && !(Version {
                    major: bytes[3],
                    revision: bytes[4],
                }).wf(),
            },
    {
        let version = Version { major: bytes[3], revision: bytes[4] };
        if version.major < 0xFF && version.revision < 0xFF {
            Ok(version)
        } else {
            Err(Error::InvalidVersion)
        }
    }

    /// Gets the tag size (not including header, or footer if present) from the bytes.
    fn decode_size(bytes: &HeaderBytes) -> (result: HeaderResult<u32>)
        ensures
            match result {
                Ok(size) => size == synchsafe_value(bytes@.subrange(6, 10)) && 0 < size
                    < 0x1000_0000,
                Err(error) => error == Error::InvalidSize && !(0 < synchsafe_value(
                    bytes@.subrange(6, 10),
                ) < 0x1000_0000),
            },
    {
        let size = synchsafe_to_u32(&bytes[6..10]).unwrap_or(0);
        if size > 0 && size < 0x1000_0000 {
            Ok(size)
        } else {
            Err(Error::InvalidSize)
        }
    }

    /// Gets the flags of the tag from the bytes.
    fn decode_flags(bytes: &HeaderBytes) -> (result: HeaderResult<HeaderFlags>)
        ensures
            match result {
                Ok(flags) => flags@ == bytes[5] && HeaderFlags::known(bytes[5]),
                Err(error) => error == Error::UnknownFlag && !HeaderFlags::known(bytes[5]),
            },
    {
        match HeaderFlags::from_bits(bytes[5]) {
            Some(flags) => Ok(flags),
            None => Err(Error::UnknownFlag),
        }
    }
}

/// Whatever ten bytes decode to is a well-formed header that holds the
/// fields of those bytes.
pub proof fn lemma_decoded_header_is_well_formed(bytes: Seq<u8>)
    requires
        bytes.len() == 10,
    ensures
        decode(bytes) matches Ok(header) ==> {
            &&& header.wf()
            &&& header.identifier == bytes.subrange(0, 3)
            &&& header.version.major == bytes[3]
            &&& header.version.revision == bytes[4]
            &&& header.flags == bytes[5]
            &&& header.size == synchsafe_value(bytes.subrange(6, 10))
        },
{
}

/// The checks come in a fixed order, and each error is returned exactly when
/// its check is the first to fail: identifier, version, size, flags.
pub proof fn lemma_header_error_precedence(bytes: Seq<u8>)
    requires
        bytes.len() == 10,
    ensures
        decode(bytes) == Err::<HeaderView, Error>(Error::InvalidIdentifier) <==> bytes.subrange(
            0,
            3,
        ) != identifier(),
        decode(bytes) == Err::<HeaderView, Error>(Error::InvalidVersion) <==> {
            &&& bytes.subrange(0, 3) == identifier()
            &&& (bytes[3] == 0xFF || bytes[4] == 0xFF)
        },
        decode(bytes) == Err::<HeaderView, Error>(Error::InvalidSize) <==> {
            &&& bytes.subrange(0, 3) == identifier()
            &&& bytes[3] < 0xFF && bytes[4] < 0xFF
            &&& !(0 < synchsafe_value(bytes.subrange(6, 10)) < 0x1000_0000)
        },
        decode(bytes) == Err::<HeaderView, Error>(Error::UnknownFlag) <==> {
            &&& bytes.subrange(0, 3) == identifier()
            &&& bytes[3] < 0xFF && bytes[4] < 0xFF
            &&& 0 < synchsafe_value(bytes.subrange(6, 10)) < 0x1000_0000
            &&& !HeaderFlags::known(bytes[5])
        },
        !(decode(bytes) matches Err(Error::Io(_))),
{
}

/// Ten bytes that pass the checks of identifier, version and size are
/// rejected with `UnknownFlag` as soon as one of the four low bits of the
/// flag byte is set.
pub proof fn lemma_unknown_header_flag_is_rejected(bytes: Seq<u8>, bit: u8)
    requires
        bytes.len() == 10,
        bytes.subrange(0, 3) == identifier(),
        bytes[3] < 0xFF,
        bytes[4] < 0xFF,
        0 < synchsafe_value(bytes.subrange(6, 10)) < 0x1000_0000,
        bit < 4,
        bytes[5] & (1u8 << bit) != 0,
    ensures
        decode(bytes) == Err::<HeaderView, Error>(Error::UnknownFlag),
{
    lemma_header_flags_known(bytes[5]);
}

} // verus!

use id3::byte_reader::{ByteReader, ByteSource, Cursor, IoError, Skip};
use id3::header::{
    Error, Header, HeaderFlags, Version, HEADER_ALL, HEADER_EXPERIMENTAL, HEADER_EXTENDED,
    HEADER_FOOTER, HEADER_UNSYNC,
};

fn header_bytes(id: &[u8; 3], version: [u8; 2], flags: u8, size: [u8; 4]) -> [u8; 10] {
    [id[0], id[1], id[2], version[0], version[1], flags, size[0], size[1], size[2], size[3]]
}

#[test]
fn size_of_zero_is_invalid() {
    let bytes = header_bytes(b"ID3", [3, 0], 0x00, [0, 0, 0, 0]);
    assert_eq!(Header::new_with_bytes(&bytes), Err(Error::InvalidSize));
    assert_eq!(Header::from_reader(&mut &bytes[..]), Err(Error::InvalidSize));
}

#[test]
fn wrong_identifier_is_invalid() {
    let bytes = header_bytes(b"TAG", [3, 0], 0x00, [0, 0, 1, 0]);
    assert_eq!(Header::new_with_bytes(&bytes), Err(Error::InvalidIdentifier));
    assert_eq!(Header::from_reader(&mut &bytes[..]), Err(Error::InvalidIdentifier));
}

#[test]
fn well_formed_header_is_decoded() {
    let bytes = header_bytes(b"ID3", [3, 0], 0x00, [0, 0, 0, 100]);
    let header = Header::new_with_bytes(&bytes).unwrap();
    assert_eq!(header.identifier(), b"ID3");
    assert_eq!(*header.version(), Version { major: 3, revision: 0 });
    assert_eq!(header.size(), 100);
    assert!(!header.is_unsynchronized());
    assert!(!header.has_extended_header());
    assert!(!header.is_experimental());
    assert!(!header.has_footer());

    let from_reader = Header::from_reader(&mut &bytes[..]).unwrap();
    assert_eq!(from_reader, header);
}

#[test]
fn size_is_synchsafe() {
    let bytes = header_bytes(b"ID3", [4, 2], 0x00, [0x01, 0x02, 0x03, 0x04]);
    let header = Header::new_with_bytes(&bytes).unwrap();
    assert_eq!(header.size(), 0x01 * 0x20_0000 + 0x02 * 0x4000 + 0x03 * 0x80 + 0x04);
    assert_eq!(*header.version(), Version { major: 4, revision: 2 });

    let largest = header_bytes(b"ID3", [3, 0], 0x00, [0x7F, 0x7F, 0x7F, 0x7F]);
    assert_eq!(Header::new_with_bytes(&largest).unwrap().size(), 0x0FFF_FFFF);
}

#[test]
fn size_of_29_bits_is_invalid() {
    let bytes = header_bytes(b"ID3", [3, 0], 0x00, [0x80, 0, 0, 0]);
    assert_eq!(Header::new_with_bytes(&bytes), Err(Error::InvalidSize));
    let bytes = header_bytes(b"ID3", [3, 0], 0x00, [0xFF, 0xFF, 0xFF, 0xFF]);
    assert_eq!(Header::new_with_bytes(&bytes), Err(Error::InvalidSize));
}

#[test]
fn version_of_255_is_invalid() {
    let major = header_bytes(b"ID3", [0xFF, 0], 0x00, [0, 0, 0, 100]);
    assert_eq!(Header::new_with_bytes(&major), Err(Error::InvalidVersion));
    let revision = header_bytes(b"ID3", [3, 0xFF], 0x00, [0, 0, 0, 100]);
    assert_eq!(Header::new_with_bytes(&revision), Err(Error::InvalidVersion));
    let highest = header_bytes(b"ID3", [0xFE, 0xFE], 0x00, [0, 0, 0, 100]);
    assert_eq!(
        *Header::new_with_bytes(&highest).unwrap().version(),
        Version { major: 0xFE, revision: 0xFE }
    );
}

#[test]
fn unknown_flag_is_rejected() {
    for bit in 0..4 {
        let bytes = header_bytes(b"ID3", [3, 0], 1 << bit, [0, 0, 0, 100]);
        assert_eq!(Header::new_with_bytes(&bytes), Err(Error::UnknownFlag));
        let bytes = header_bytes(b"ID3", [3, 0], 0xF0 | (1 << bit), [0, 0, 0, 100]);
        assert_eq!(Header::new_with_bytes(&bytes), Err(Error::UnknownFlag));
    }
}

#[test]
fn each_flag_is_reported() {
    let decode = |flags: u8| {
        Header::new_with_bytes(&header_bytes(b"ID3", [3, 0], flags, [0, 0, 0, 100])).unwrap()
    };
    let unsync = decode(0b1000_0000);
    assert!(unsync.is_unsynchronized());
    assert!(!unsync.has_extended_header() && !unsync.is_experimental() && !unsync.has_footer());
    let extended = decode(0b0100_0000);
    assert!(extended.has_extended_header());
    assert!(!extended.is_unsynchronized() && !extended.is_experimental());
    assert!(!extended.has_footer());
    let experimental = decode(0b0010_0000);
    assert!(experimental.is_experimental());
    assert!(!experimental.is_unsynchronized() && !experimental.has_extended_header());
    assert!(!experimental.has_footer());
    let footer = decode(0b0001_0000);
    assert!(footer.has_footer());
    assert!(!footer.is_unsynchronized() && !footer.has_extended_header());
    assert!(!footer.is_experimental());
    let all = decode(0b1111_0000);
    assert!(all.is_unsynchronized() && all.has_extended_header());
    assert!(all.is_experimental() && all.has_footer());
}

#[test]
fn first_failing_check_wins() {
    // Everything is wrong: the identifier is reported.
    let bytes = header_bytes(b"XYZ", [0xFF, 0xFF], 0x0F, [0, 0, 0, 0]);
    assert_eq!(Header::new_with_bytes(&bytes), Err(Error::InvalidIdentifier));
    // Version, size and flags are wrong: the version is reported.
    let bytes = header_bytes(b"ID3", [0xFF, 0xFF], 0x0F, [0, 0, 0, 0]);
    assert_eq!(Header::new_with_bytes(&bytes), Err(Error::InvalidVersion));
    // Size and flags are wrong: the size is reported.
    let bytes = header_bytes(b"ID3", [3, 0], 0x0F, [0, 0, 0, 0]);
    assert_eq!(Header::new_with_bytes(&bytes), Err(Error::InvalidSize));
    // Only the flags are wrong.
    let bytes = header_bytes(b"ID3", [3, 0], 0x0F, [0, 0, 0, 1]);
    assert_eq!(Header::new_with_bytes(&bytes), Err(Error::UnknownFlag));
}

#[test]
fn identifier_is_compared_byte_by_byte() {
    for id in [b"iD3", b"ID4", b"JD3", b"IE3", b"\0\0\0"] {
        let bytes = header_bytes(id, [3, 0], 0x00, [0, 0, 0, 100]);
        assert_eq!(Header::new_with_bytes(&bytes), Err(Error::InvalidIdentifier));
    }
}

#[test]
fn from_reader_consumes_ten_bytes_on_success() {
    let mut stream = header_bytes(b"ID3", [3, 0], 0x00, [0, 0, 0, 100]).to_vec();
    stream.extend_from_slice(&[1, 2, 3, 4, 5]);
    let mut source = &stream[..];
    assert!(Header::from_reader(&mut source).is_ok());
    assert_eq!(source, &[1, 2, 3, 4, 5][..]);

    let mut cursor = Cursor::new(&stream[..]);
    assert!(Header::from_reader(&mut cursor).is_ok());
    assert_eq!(cursor.position(), 10);
}

#[test]
fn from_reader_consumes_ten_bytes_on_failure() {
    let invalid = [
        header_bytes(b"TAG", [3, 0], 0x00, [0, 0, 1, 0]),
        header_bytes(b"ID3", [0xFF, 0], 0x00, [0, 0, 1, 0]),
        header_bytes(b"ID3", [3, 0], 0x00, [0, 0, 0, 0]),
        header_bytes(b"ID3", [3, 0], 0x01, [0, 0, 1, 0]),
    ];
    let errors =
        [Error::InvalidIdentifier, Error::InvalidVersion, Error::InvalidSize, Error::UnknownFlag];
    for (bytes, error) in invalid.iter().zip(errors.iter()) {
        let mut stream = bytes.to_vec();
        stream.extend_from_slice(&[1, 2, 3, 4, 5]);
        let mut source = &stream[..];
        assert_eq!(Header::from_reader(&mut source), Err(*error));
        assert_eq!(source, &[1, 2, 3, 4, 5][..]);

        let mut cursor = Cursor::new(&stream[..]);
        assert_eq!(Header::from_reader(&mut cursor), Err(*error));
        assert_eq!(cursor.position(), 10);
        assert_eq!(cursor.skip(0), Ok(10));
    }
}

#[test]
fn from_reader_fails_on_a_short_source() {
    let bytes = header_bytes(b"ID3", [3, 0], 0x00, [0, 0, 0, 100]);
    for len in 0..10 {
        let mut source = &bytes[..len];
        assert_eq!(Header::from_reader(&mut source), Err(Error::Io(IoError::UnexpectedEof)));
        assert!(source.is_empty());
    }
}

#[test]
fn from_reader_reads_through_a_byte_reader() {
    let mut stream = header_bytes(b"ID3", [3, 0], 0x40, [0, 0, 2, 0]).to_vec();
    stream.push(0xAA);
    let mut reader = ByteReader::new(&stream[..]);
    assert_eq!(reader.peek_byte(), Ok(b'I'));
    let header = Header::from_reader(&mut reader).unwrap();
    assert_eq!(header.size(), 256);
    assert!(header.has_extended_header());
    assert_eq!(reader.peek_byte(), Ok(0xAA));
    let mut rest = [0u8; 2];
    assert_eq!(reader.read(&mut rest), 1);
}

#[test]
fn header_flags_from_bits() {
    assert_eq!(HeaderFlags::from_bits(0).unwrap().bits(), 0);
    assert_eq!(HeaderFlags::from_bits(0xF0).unwrap().bits(), 0xF0);
    assert_eq!(HeaderFlags::from_bits(0x50).unwrap().bits(), 0x50);
    assert_eq!(HeaderFlags::from_bits(0x08), None);
    assert_eq!(HeaderFlags::from_bits(0xFF), None);
    for bits in 0..=255u8 {
        assert_eq!(HeaderFlags::from_bits(bits).is_some(), bits % 16 == 0);
    }
    assert_eq!(HEADER_ALL, HEADER_UNSYNC | HEADER_EXTENDED | HEADER_EXPERIMENTAL | HEADER_FOOTER);
}

#[test]
fn header_flags_intersects() {
    let flags = HeaderFlags::from_bits(0b1010_0000).unwrap();
    assert!(flags.intersects(HEADER_UNSYNC));
    assert!(!flags.intersects(HEADER_EXTENDED));
    assert!(flags.intersects(HEADER_EXPERIMENTAL));
    assert!(!flags.intersects(HEADER_FOOTER));
    assert!(flags.intersects(HEADER_EXTENDED | HEADER_UNSYNC));
    assert!(!flags.intersects(HEADER_EXTENDED | HEADER_FOOTER));
    assert!(!flags.intersects(0));
}

#[test]
fn default_version_is_zero() {
    assert_eq!(Version::default(), Version { major: 0, revision: 0 });
}

#[test]
fn header_error_messages() {
    assert_eq!(Error::InvalidIdentifier.to_string(), "Not an ID3 identifier");
    assert_eq!(
        Error::InvalidSize.to_string(),
        "Size must be greater than 0 and less than 268435456"
    );
    assert_eq!(
        Error::InvalidVersion.to_string(),
        "Major and revision versions must be less than 255"
    );
    assert_eq!(
        Error::Io(IoError::UnexpectedEof).to_string(),
        "IO error: failed to fill whole buffer"
    );
    assert_eq!(Error::UnknownFlag.to_string(), "Unknown flag found");

    assert_eq!(Error::InvalidIdentifier.description(), "not an ID3 identifier");
    assert_eq!(
        Error::InvalidSize.description(),
        "size must be greater than 0 and less than 268435456"
    );
    assert_eq!(
        Error::InvalidVersion.description(),
        "major and revision versions must be less than 255"
    );
    assert_eq!(Error::Io(IoError::UnexpectedEof).description(), "failed to fill whole buffer");
    assert_eq!(Error::UnknownFlag.description(), "unknown flag found");
}

#[test]
fn header_error_cause() {
    assert_eq!(Error::InvalidIdentifier.cause(), None);
    assert_eq!(Error::InvalidSize.cause(), None);
    assert_eq!(Error::InvalidVersion.cause(), None);
    assert_eq!(Error::UnknownFlag.cause(), None);
    assert_eq!(Error::Io(IoError::InvalidSeek).cause(), Some(&IoError::InvalidSeek));
    assert_eq!(Error::from(IoError::UnexpectedEof), Error::Io(IoError::UnexpectedEof));
}

use id3::byte_reader::{ByteReader, Cursor, IoError};
use id3::frame;
use id3::header;
use id3::header::Version;
use id3::tag::{Error, Tag};

fn stream(major: u8, flags: u8, tag_size: [u8; 4], frame_size: [u8; 4], status: u8) -> Vec<u8> {
    let mut bytes = vec![b'I', b'D', b'3', major, 0, flags];
    bytes.extend_from_slice(&tag_size);
    bytes.extend_from_slice(b"TIT2");
    bytes.extend_from_slice(&frame_size);
    bytes.push(status);
    bytes.push(0);
    bytes.extend_from_slice(&[0xAA, 0xBB, 0xCC]);
    bytes
}

#[test]
fn tag_is_read_from_twenty_bytes() {
    let bytes = stream(3, 0x10, [0, 0, 2, 0], [0, 0, 1, 0], 0x40);
    let mut cursor = Cursor::new(&bytes[..]);
    let tag = Tag::from_reader(&mut cursor).unwrap();
    assert_eq!(cursor.position(), 20);

    assert_eq!(tag.header().identifier(), b"ID3");
    assert_eq!(*tag.header().version(), Version { major: 3, revision: 0 });
    assert_eq!(tag.header().size(), 256);
    assert!(tag.header().has_footer());
    assert!(!tag.header().is_unsynchronized());
    assert_eq!(tag.frame().header().frame_id(), b"TIT2");
    assert_eq!(tag.frame().header().size(), 256);
    assert!(tag.frame().header().should_preserve_file());
}

#[test]
fn frame_size_follows_the_version_of_the_tag() {
    let version_3 = stream(3, 0, [0, 0, 2, 0], [0, 0, 1, 0], 0);
    let version_4 = stream(4, 0, [0, 0, 2, 0], [0, 0, 1, 0], 0);
    let tag_3 = Tag::from_reader(&mut &version_3[..]).unwrap();
    let tag_4 = Tag::from_reader(&mut &version_4[..]).unwrap();
    assert_eq!(tag_3.frame().header().size(), 256);
    assert_eq!(tag_4.frame().header().size(), 128);
    assert_eq!(tag_3.header().size(), tag_4.header().size());
}

#[test]
fn unsupported_version_fails_at_the_frame() {
    let bytes = stream(2, 0, [0, 0, 2, 0], [0, 0, 1, 0], 0);
    let mut source = &bytes[..];
    assert_eq!(
        Tag::from_reader(&mut source),
        Err(Error::Frame(frame::Error::Header(frame::header::Error::InvalidSize)))
    );
    assert_eq!(source, &[0xAA, 0xBB, 0xCC][..]);
}

#[test]
fn header_error_stops_after_ten_bytes() {
    let mut bytes = stream(3, 0, [0, 0, 2, 0], [0, 0, 1, 0], 0);
    bytes[0] = b'T';
    let mut cursor = Cursor::new(&bytes[..]);
    assert_eq!(
        Tag::from_reader(&mut cursor),
        Err(Error::Header(header::Error::InvalidIdentifier))
    );
    assert_eq!(cursor.position(), 10);

    let bytes = stream(3, 0x02, [0, 0, 2, 0], [0, 0, 1, 0], 0);
    let mut source = &bytes[..];
    assert_eq!(Tag::from_reader(&mut source), Err(Error::Header(header::Error::UnknownFlag)));
    assert_eq!(source.len(), bytes.len() - 10);
}

#[test]
fn frame_error_stops_after_twenty_bytes() {
    let bytes = stream(3, 0, [0, 0, 2, 0], [0, 0, 0, 0], 0);
    let mut cursor = Cursor::new(&bytes[..]);
    assert_eq!(
        Tag::from_reader(&mut cursor),
        Err(Error::Frame(frame::Error::Header(frame::header::Error::InvalidSize)))
    );
    assert_eq!(cursor.position(), 20);

    let bytes = stream(4, 0, [0, 0, 2, 0], [0, 0, 1, 0], 0x01);
    let mut source = &bytes[..];
    assert_eq!(
        Tag::from_reader(&mut source),
        Err(Error::Frame(frame::Error::Header(frame::header::Error::UnknownFlag)))
    );
    assert_eq!(source, &[0xAA, 0xBB, 0xCC][..]);
}

#[test]
fn short_source_fails_with_an_io_error() {
    let bytes = stream(3, 0, [0, 0, 2, 0], [0, 0, 1, 0], 0);
    for len in 0..10 {
        let mut source = &bytes[..len];
        assert_eq!(
            Tag::from_reader(&mut source),
            Err(Error::Header(header::Error::Io(IoError::UnexpectedEof)))
        );
        assert!(source.is_empty());
    }
    for len in 10..20 {
        let mut source = &bytes[..len];
        assert_eq!(
            Tag::from_reader(&mut source),
            Err(Error::Frame(frame::Error::Header(frame::header::Error::Io(
                IoError::UnexpectedEof
            ))))
        );
        assert!(source.is_empty());
    }
    assert!(Tag::from_reader(&mut &bytes[..20]).is_ok());
}

#[test]
fn tag_is_read_through_a_byte_reader() {
    let bytes = stream(3, 0, [0, 0, 0, 100], [0, 0, 0, 7], 0);
    let mut reader = ByteReader::new(&bytes[..]);
    assert_eq!(reader.peek_byte(), Ok(b'I'));
    let tag = Tag::from_reader(&mut reader).unwrap();
    assert_eq!(tag.header().size(), 100);
    assert_eq!(tag.frame().header().size(), 7);
    assert_eq!(reader.peek_byte(), Ok(0xAA));
}

#[test]
fn tag_error_messages() {
    let header = Error::Header(header::Error::InvalidIdentifier);
    assert_eq!(header.to_string(), "Header error: Not an ID3 identifier");
    assert_eq!(header.description(), "not an ID3 identifier");
    let frame = Error::Frame(frame::Error::Header(frame::header::Error::UnknownFlag));
    assert_eq!(frame.to_string(), "Frame error: Header error: Unknown flag found");
    assert_eq!(frame.description(), "unknown flag found");
    let io = Error::Frame(frame::Error::Header(frame::header::Error::Io(IoError::UnexpectedEof)));
    assert_eq!(io.to_string(), "Frame error: Header error: IO error: failed to fill whole buffer");
    assert_eq!(io.description(), "failed to fill whole buffer");
}

#[test]
fn tag_error_causes() {
    let header = Error::from(header::Error::InvalidSize);
    assert_eq!(header, Error::Header(header::Error::InvalidSize));
    assert_eq!(header.header_cause(), Some(&header::Error::InvalidSize));
    assert_eq!(header.frame_cause(), None);
    let frame = Error::from(frame::Error::Header(frame::header::Error::InvalidSize));
    assert_eq!(frame, Error::Frame(frame::Error::Header(frame::header::Error::InvalidSize)));
    assert_eq!(frame.header_cause(), None);
    assert_eq!(
        frame.frame_cause(),
        Some(&frame::Error::Header(frame::header::Error::InvalidSize))
    );
}

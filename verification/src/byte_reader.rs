//! Byte sources, and a reader over them with one byte of lookahead.

use vstd::prelude::*;

verus! {

/// The ways in which reading from or seeking in a byte source can fail.
#[derive(Debug, Clone, Copy, PartialEq, Eq)]
pub enum IoError {
    /// The source ended before the requested bytes were delivered.
    UnexpectedEof,
    /// A seek would have moved before the start of the stream or past the
    /// largest position that can be represented.
    InvalidSeek,
}

impl IoError {
    /// The text of `description`, as a sequence of characters.
    pub open spec fn spec_description(&self) -> Seq<char> {
        match self {
            IoError::UnexpectedEof => "failed to fill whole buffer"@,
            IoError::InvalidSeek => "invalid seek to a negative or overflowing position"@,
        }
    }

    /// A short description of the failure.
    pub fn description(&self) -> (text: &'static str)
        ensures
            text@ == self.spec_description(),
    {
        match self {
            IoError::UnexpectedEof => "failed to fill whole buffer",
            IoError::InvalidSeek => "invalid seek to a negative or overflowing position",
        }
    }

    /// The message shown for this failure; the same text as `description`.
    pub fn to_string(&self) -> (text: String)
        ensures
            text@ == self.spec_description(),
    {
        String::from_str(self.description())
    }
}

/// How one read relates the bytes that a source had left before it
/// (`before`) and after it (`after`), the buffer before and after, and the
/// number of bytes read.
///
/// The first `n` bytes of the source now stand at the front of the buffer
/// and are gone from the source; the rest of the buffer is as it was. At
/// least one byte is read unless the buffer is empty or the source is
/// exhausted.
pub open spec fn read_post(
    before: Seq<u8>,
    after: Seq<u8>,
    buf_before: Seq<u8>,
    buf_after: Seq<u8>,
    n: usize,
) -> bool {
    &&& n <= buf_before.len()
    &&& n <= before.len()
    &&& n == 0 <==> (buf_before.len() == 0 || before.len() == 0)
    &&& buf_after =~= before.take(n as int) + buf_before.skip(n as int)
    &&& after =~= before.skip(n as int)
}

/// A sequential source of bytes.
///
/// A source is modelled by the bytes it has yet to deliver. Reading removes a
/// prefix of them; a source whose bytes are exhausted delivers nothing more.
pub trait ByteSource {
    /// The bytes that have not been read yet, in the order in which they
    /// will be delivered.
    spec fn remaining(&self) -> Seq<u8>;

    /// Reads some bytes into the front of `buf` and returns how many.
    ///
    /// Fewer than `buf.len()` bytes may be read even if more remain.
    fn read(&mut self, buf: &mut [u8]) -> (n: usize)
        ensures
            read_post(
                old(self).remaining(),
                final(self).remaining(),
                old(buf)@,
                final(buf)@,
                n,
            ),
    ;
}

/// Fills all of `buf` from `reader`, reading repeatedly until it is full.
///
/// Fails with `UnexpectedEof` exactly when the source holds fewer bytes than
/// `buf` has room for; in that case every byte that was left has been
/// consumed and stands at the front of `buf`.
pub fn read_exact<R: ByteSource>(reader: &mut R, buf: &mut [u8]) -> (result: Result<(), IoError>)
    ensures
        final(buf)@.len() == old(buf)@.len(),
        match result {
            Ok(()) => {
                &&& old(buf)@.len() <= old(reader).remaining().len()
                &&& final(buf)@ == old(reader).remaining().take(old(buf)@.len() as int)
                &&& final(reader).remaining() == old(reader).remaining().skip(
                    old(buf)@.len() as int,
                )
            },
            Err(e) => {
                &&& e == IoError::UnexpectedEof
                &&& old(reader).remaining().len() < old(buf)@.len()
                &&& final(reader).remaining().len() == 0
                &&& final(buf)@ == old(reader).remaining() + old(buf)@.skip(
                    old(reader).remaining().len() as int,
                )
            },
        },
{
    let len: usize = buf.len();
    let mut filled: usize = 0;
    while filled < len
        invariant
            len == old(buf)@.len(),
            buf@.len() == len,
            filled <= len,
            filled <= old(reader).remaining().len(),
            buf@ == old(reader).remaining().take(filled as int) + old(buf)@.skip(filled as int),
            reader.remaining() == old(reader).remaining().skip(filled as int),
        decreases len - filled,
    {
        let (_, rest) = buf.split_at_mut(filled);
        let n: usize = reader.read(rest);
        if n == 0 {
            return Err(IoError::UnexpectedEof);
        }
        filled = filled + n;
    }
    Ok(())
}

/// A byte slice is a source: reading takes bytes from its front and leaves
/// the slice shortened to what has not been read.
impl<'a> ByteSource for &'a [u8] {
    open spec fn remaining(&self) -> Seq<u8> {
        (*self)@
    }

    /// Reads as many bytes as fit: the smaller of the two lengths.
    fn read(&mut self, buf: &mut [u8]) -> (n: usize)
        ensures
            n == vstd::math::min(old(buf)@.len() as int, old(self)@.len() as int),
    {
        let available: usize = self.len();
        let wanted: usize = buf.len();
        let n: usize = if wanted < available {
            wanted
        } else {
            available
        };
        let mut i: usize = 0;
        while i < n
            invariant
                i <= n,
                n <= buf@.len(),
                n <= self@.len(),
                buf@.len() == old(buf)@.len(),
                *self == *old(self),
                buf@ == old(self)@.take(i as int) + old(buf)@.skip(i as int),
            decreases n - i,
        {
            buf[i] = self[i];
            i = i + 1;
        }
        *self = &self[n..available];
        n
    }
}

/// The outcome of moving `num_bytes` away from `offset`: the new absolute
/// position, or `InvalidSeek` if that position would be negative or would
/// not fit in 64 bits.
pub open spec fn skip_target(offset: u64, num_bytes: i64) -> Result<u64, IoError> {
    let target = offset + num_bytes;
    if 0 <= target <= u64::MAX {
        Ok(target as u64)
    } else {
        Err(IoError::InvalidSeek)
    }
}

/// The `Skip` trait allows the reader to skip over a number of bytes of a stream.
///
/// A stream that can skip is modelled by its whole contents and the absolute
/// position of its cursor. The position may lie beyond the end of the
/// contents.
pub trait Skip {
    /// All bytes of the underlying stream, from its start.
    spec fn contents(&self) -> Seq<u8>;

    /// The absolute position of the cursor, counted from the start.
    spec fn offset(&self) -> u64;

    /// Skips over `num_bytes` worth of bytes and returns the new absolute
    /// position.
    ///
    /// `num_bytes` can be negative to 'skip' backwards.
    ///
    /// # Errors
    ///
    /// Fails with `InvalidSeek`, leaving the position where it was, if the
    /// target lies before the start of the stream or beyond `u64::MAX`.
    fn skip(&mut self, num_bytes: i64) -> (result: Result<u64, IoError>)
        ensures
            result == skip_target(old(self).offset(), num_bytes),
            final(self).offset() == match result {
                Ok(position) => position,
                Err(_) => old(self).offset(),
            },
            final(self).contents() == old(self).contents(),
    ;
}

/// A cursor over a byte slice held in memory: a source that can also skip.
#[derive(Debug)]
pub struct Cursor<'a> {
    data: &'a [u8],
    pos: u64,
}

impl<'a> Cursor<'a> {
    /// A cursor at the start of `data`.
    pub fn new(data: &'a [u8]) -> (cursor: Cursor<'a>)
        ensures
            cursor.contents() == data@,
            cursor.offset() == 0,
    {
        Cursor { data, pos: 0 }
    }

    /// The absolute position of the cursor.
    pub fn position(&self) -> (position: u64)
        ensures
            position == self.offset(),
    {
        self.pos
    }
}

impl<'a> Skip for Cursor<'a> {
    closed spec fn contents(&self) -> Seq<u8> {
        self.data@
    }

    closed spec fn offset(&self) -> u64 {
        self.pos
    }

    /// Moving a cursor changes what it has left to deliver and nothing else.
    fn skip(&mut self, num_bytes: i64) -> (result: Result<u64, IoError>)
    {
        if num_bytes >= 0 {
            let forward: u64 = num_bytes as u64;
            if forward <= u64::MAX - self.pos {
                self.pos = self.pos + forward;
                Ok(self.pos)
            } else {
                Err(IoError::InvalidSeek)
            }
        } else {
            let backward: u64 = (-(num_bytes + 1)) as u64 + 1;
            if backward <= self.pos {
                self.pos = self.pos - backward;
                Ok(self.pos)
            } else {
                Err(IoError::InvalidSeek)
            }
        }
    }
}

impl<'a> ByteSource for Cursor<'a> {
    /// Everything from the cursor to the end of the contents; nothing if the
    /// cursor stands at or beyond the end.
    open spec fn remaining(&self) -> Seq<u8> {
        if self.offset() <= self.contents().len() {
            self.contents().skip(self.offset() as int)
        } else {
            Seq::empty()
        }
    }

    /// Reads as many bytes as fit and advances the cursor by that number.
    fn read(&mut self, buf: &mut [u8]) -> (n: usize)
        ensures
            n == vstd::math::min(old(buf)@.len() as int, old(self).remaining().len() as int),
            final(self).contents() == old(self).contents(),
            final(self).offset() == old(self).offset() + n,
    {
        let len: usize = self.data.len();
        let start: usize = if self.pos >= len as u64 {
            len
        } else {
            self.pos as usize
        };
        let available: usize = len - start;
        let wanted: usize = buf.len();
        let n: usize = if wanted < available {
            wanted
        } else {
            available
        };
        let mut i: usize = 0;
        while i < n
            invariant
                i <= n,
                n <= buf@.len(),
                start + n <= len,
                len == self.data@.len(),
                buf@.len() == old(buf)@.len(),
                *self == *old(self),
                buf@ == self.data@.subrange(start as int, start + i) + old(buf)@.skip(i as int),
            decreases n - i,
        {
            buf[i] = self.data[start + i];
            i = i + 1;
        }
        self.pos = self.pos + n as u64;
        n
    }
}

/// A struct for reading bytes from an underlying reader.
///
/// Contains a few methods to make it easier to work with reading bytes: it
/// can look one byte ahead, keeping that byte until the next read.
pub struct ByteReader<R> {
    peeked: Option<u8>,
    inner: R,
}

impl<R> ByteReader<R> {
    /// The byte that was looked at and not yet read, if there is one.
    pub closed spec fn cached(&self) -> Option<u8> {
        self.peeked
    }

    /// The underlying reader.
    pub closed spec fn source(&self) -> R {
        self.inner
    }
}

impl<R: ByteSource> ByteReader<R> {
    /// How a call of `peek_byte` relates the reader before it (`pre`), the
    /// reader after it (`post`) and the result.
    ///
    /// With a byte already cached, that byte is returned and nothing
    /// changes. Otherwise one byte is taken from the underlying reader and
    /// cached, or, if the underlying reader is exhausted, the call fails.
    pub open spec fn peek_post(pre: Self, post: Self, result: Result<u8, IoError>) -> bool {
        match pre.cached() {
            Some(byte) => result == Ok::<u8, IoError>(byte) && post == pre,
            None => if pre.source().remaining().len() > 0 {
                &&& result == Ok::<u8, IoError>(pre.source().remaining()[0])
                &&& post.cached() == Some(pre.source().remaining()[0])
                &&& post.source().remaining() == pre.source().remaining().skip(1)
            } else {
                &&& result == Err::<u8, IoError>(IoError::UnexpectedEof)
                &&& post.cached() is None
                &&& post.source().remaining().len() == 0
            },
        }
    }

    /// Constructs a new ByteReader from an existing reader.
    pub fn new(reader: R) -> (byte_reader: ByteReader<R>)
        ensures
            byte_reader.cached() is None,
            byte_reader.source() == reader,
    {
        ByteReader { inner: reader, peeked: None }
    }

    /// Looks ahead at the next byte without 'consuming' it (i.e. the next read will still return
    /// the byte).
    ///
    /// # Errors
    ///
    /// Fails with `UnexpectedEof` if there is no next byte.
    pub fn peek_byte(&mut self) -> (result: Result<u8, IoError>)
        ensures
            Self::peek_post(*old(self), *final(self), result),
            final(self).remaining() == old(self).remaining(),
            match result {
                Ok(byte) => old(self).remaining().len() > 0 && byte == old(self).remaining()[0],
                Err(_) => old(self).remaining().len() == 0,
            },
    {
        match self.peeked {
            Some(byte) => Ok(byte),
            None => {
                let next_byte = self.get_next_byte()?;
                self.peeked = Some(next_byte);
                Ok(next_byte)
            },
        }
    }

    /// Gets the next byte from the underlying reader, past any cached byte.
    ///
    /// # Errors
    ///
    /// Fails with `UnexpectedEof` if the underlying reader is exhausted.
    fn get_next_byte(&mut self) -> (result: Result<u8, IoError>)
        ensures
            final(self).cached() == old(self).cached(),
            match result {
                Ok(byte) => {
                    &&& old(self).source().remaining().len() > 0
                    &&& byte == old(self).source().remaining()[0]
                    &&& final(self).source().remaining() == old(self).source().remaining().skip(1)
                },
                Err(e) => {
                    &&& e == IoError::UnexpectedEof
                    &&& old(self).source().remaining().len() == 0
                    &&& final(self).source().remaining().len() == 0
                },
            },
    {
        let mut bytes = [0u8; 1];
        read_exact(&mut self.inner, &mut bytes)?;
        Ok(bytes[0])
    }
}

impl<R: Skip> Skip for ByteReader<R> {
    open spec fn contents(&self) -> Seq<u8> {
        self.source().contents()
    }

    open spec fn offset(&self) -> u64 {
        self.source().offset()
    }

    /// Skips in the underlying reader, relative to its position. A cached
    /// byte stays cached.
    fn skip(&mut self, num_bytes: i64) -> (result: Result<u64, IoError>)
        ensures
            final(self).cached() == old(self).cached(),
    {
        self.inner.skip(num_bytes)
    }
}

impl<R: ByteSource> ByteSource for ByteReader<R> {
    /// The cached byte, if there is one, and then what the underlying reader
    /// has left.
    open spec fn remaining(&self) -> Seq<u8> {
        match self.cached() {
            Some(byte) => seq![byte] + self.source().remaining(),
            None => self.source().remaining(),
        }
    }

    /// Delivers the cached byte first, if there is one, and reads on from
    /// the underlying reader into the rest of `buf`.
    fn read(&mut self, buf: &mut [u8]) -> (n: usize)
        ensures
            old(buf)@.len() == 0 ==> *final(self) == *old(self),
            old(buf)@.len() > 0 ==> final(self).cached() is None,
            old(buf)@.len() == 1 && old(self).cached() is Some ==> final(self).source() == old(
                self,
            ).source(),
    {
        // Don't need to do anything if the buffer has no size
        if buf.len() == 0 {
            return 0;
        }
        match self.peeked {
            Some(byte) => {
                // Put the cached byte in the buffer and clear the cache
                buf[0] = byte;
                self.peeked = None;
                if buf.len() == 1 {
                    1
                } else {
                    // Read into the rest of the buffer and correct the
                    // returned size
                    let (_, rest) = buf.split_at_mut(1);
                    self.inner.read(rest) + 1
                }
            },
            None => self.inner.read(buf),
        }
    }
}

/// Looking ahead is idempotent: a second look right after the first returns
/// the same result and leaves the bytes still to be delivered, the cache and
/// what the underlying reader has left as the first look left them. Two looks
/// at a reader without a cached byte take one byte from the underlying reader
/// in total.
pub proof fn lemma_peek_is_idempotent<R: ByteSource>(
    start: ByteReader<R>,
    once: ByteReader<R>,
    twice: ByteReader<R>,
    first: Result<u8, IoError>,
    second: Result<u8, IoError>,
)
    requires
        ByteReader::peek_post(start, once, first),
        ByteReader::peek_post(once, twice, second),
    ensures
        second == first,
        twice.remaining() == once.remaining(),
        twice.remaining() == start.remaining(),
        twice.cached() == once.cached(),
        twice.source().remaining() == once.source().remaining(),
        first is Ok ==> twice == once,
        first is Ok && start.cached() is None ==> twice.source().remaining()
            == start.source().remaining().skip(1),
{
}

/// A read that follows a look ahead delivers the byte that was looked at as
/// its first byte, whenever the buffer has room for a byte.
pub proof fn lemma_read_after_peek_starts_with_peeked<R: ByteSource>(
    start: ByteReader<R>,
    peeked: ByteReader<R>,
    byte: u8,
    done: ByteReader<R>,
    buf_before: Seq<u8>,
    buf_after: Seq<u8>,
    n: usize,
)
    requires
        ByteReader::peek_post(start, peeked, Ok(byte)),
        read_post(peeked.remaining(), done.remaining(), buf_before, buf_after, n),
        buf_before.len() > 0,
    ensures
        n >= 1,
        buf_after[0] == byte,
        buf_after.take(n as int) == start.remaining().take(n as int),
        done.remaining() == start.remaining().skip(n as int),
{
}

} // verus!

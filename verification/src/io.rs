//! Byte-stream traits and adaptors for transfer channels.
//!
//! `Read` and `Write` describe the duplex byte channels a transfer runs
//! over: a serial port on a host, a memory-backed stream in a test. Their
//! contracts promise only what every channel can honour — lengths are
//! respected and buffers keep their size — because an unreliable channel
//! promises nothing about the bytes themselves. The adaptors (`Chain`,
//! `Take`, `Bytes`, `Chars`) compose readers; `Seek` and `BufRead` round out
//! the stream vocabulary.

use vstd::prelude::*;

verus! {

/// How many times a read or write interrupted mid-call is retried before the
/// interruption is handed to the caller.
pub const INTERRUPT_RETRY_BUDGET: u64 = 1024;

/// A list of general categories of I/O error.
#[derive(Clone, Copy, Debug, PartialEq, Eq, Structural)]
pub enum ErrorKind {
    /// The operation was interrupted and can be retried.
    Interrupted,
    /// Data not valid for the operation were encountered.
    InvalidData,
    /// A parameter was incorrect.
    InvalidInput,
    /// The operation's timeout expired before it could complete.
    TimedOut,
    /// The end of the stream arrived before the operation could complete.
    UnexpectedEof,
    /// A write returned `Ok(0)` although there were bytes left to write.
    WriteZero,
    /// The connection was closed by the other end.
    BrokenPipe,
    /// Any error not covered by another kind.
    Other,
}

/// The error type for I/O operations of this crate's streams.
#[derive(Clone, Copy, Debug, PartialEq, Eq, Structural)]
pub struct Error {
    /// The general category of the failure.
    pub kind: ErrorKind,
}

impl Error {
    /// An error of the given kind.
    pub fn new(kind: ErrorKind) -> (r: Error)
        ensures
            r.kind == kind,
    {
        Error { kind }
    }

    /// The corresponding `ErrorKind` for this error.
    pub fn kind(&self) -> (r: ErrorKind)
        ensures
            r == self.kind,
    {
        self.kind
    }
}

/// Copies `n` bytes from the front of `src` into `dst` starting at `at`,
/// leaving every other byte of `dst` alone.
fn copy_into(dst: &mut Vec<u8>, at: usize, src: &Vec<u8>, n: usize)
    requires
        at + n <= old(dst)@.len(),
        n <= src@.len(),
    ensures
        final(dst)@.len() == old(dst)@.len(),
        forall|j: int| 0 <= j < n ==> final(dst)@[at + j] == src@[j],
        forall|j: int|
            0 <= j < old(dst)@.len() && !(at <= j < at + n) ==> final(dst)@[j] == old(dst)@[j],
{
    let dst_len = dst.len();
    let mut i: usize = 0;
    while i < n
        invariant
            0 <= i <= n,
            at + n <= dst@.len(),
            n <= src@.len(),
            dst@.len() == old(dst)@.len(),
            dst@.len() == dst_len,
            forall|j: int| 0 <= j < i ==> dst@[at + j] == src@[j],
            forall|j: int| 0 <= j < dst@.len() && !(at <= j < at + i) ==> dst@[j] == old(dst)@[j],
        decreases n - i,
    {
        dst.set(at + i, src[i]);
        i = i + 1;
    }
}

/// Copies `src[from..]` into a fresh vector.
fn tail_copy(src: &Vec<u8>, from: usize) -> (r: Vec<u8>)
    requires
        from <= src@.len(),
    ensures
        r@ == src@.subrange(from as int, src@.len() as int),
{
    let mut out: Vec<u8> = Vec::new();
    let mut i: usize = from;
    while i < src.len()
        invariant
            from <= i <= src@.len(),
            out@ == src@.subrange(from as int, i as int),
        decreases src@.len() - i,
    {
        out.push(src[i]);
        proof {
            assert(src@.subrange(from as int, i + 1) =~= src@.subrange(from as int, i as int).push(
                src@[i as int],
            ));
        }
        i = i + 1;
    }
    proof {
        assert(out@ =~= src@.subrange(from as int, src@.len() as int));
    }
    out
}

/// A zero-filled vector of length `n`.
fn zero_vec(n: usize) -> (r: Vec<u8>)
    ensures
        r@.len() == n,
        forall|j: int| 0 <= j < n ==> r@[j] == 0u8,
{
    let mut out: Vec<u8> = Vec::new();
    let mut i: usize = 0;
    while i < n
        invariant
            0 <= i <= n,
            out@.len() == i,
            forall|j: int| 0 <= j < i ==> out@[j] == 0u8,
        decreases n - i,
    {
        out.push(0);
        i = i + 1;
    }
    out
}

/// The `Read` trait allows for reading bytes from a source.
///
/// A call to `read` may fill any prefix of `buf`; the contract promises only
/// that the reported count fits in the buffer and that the buffer keeps its
/// length — what the bytes are is up to the reader, which may be an
/// unreliable channel.
pub trait Read {
    /// Pulls some bytes from this source into `buf`, returning how many
    /// bytes were read. `Ok(0)` means the source has (for now) nothing more
    /// to give, or the buffer is empty.
    fn read(&mut self, buf: &mut Vec<u8>) -> (r: Result<usize, Error>)
        ensures
            final(buf)@.len() == old(buf)@.len(),
            r matches Ok(n) ==> n <= old(buf)@.len(),
    ;

    /// Reads exactly `buf.len()` bytes, retrying interrupted reads. Fails
    /// with `UnexpectedEof` when the source ends first.
    fn read_exact(&mut self, buf: &mut Vec<u8>) -> (r: Result<(), Error>)
        ensures
            final(buf)@.len() == old(buf)@.len(),
    {
        let total = buf.len();
        let mut filled: usize = 0;
        let mut budget: u64 = INTERRUPT_RETRY_BUDGET;
        loop
            invariant
                filled <= buf@.len(),
                buf@.len() == old(buf)@.len(),
                buf@.len() == total,
            decreases buf@.len() - filled, budget,
        {
            if filled >= buf.len() {
                return Ok(());
            }
            let mut tmp = zero_vec(buf.len() - filled);
            match self.read(&mut tmp) {
                Ok(0) => {
                    return Err(Error::new(ErrorKind::UnexpectedEof));
                },
                Ok(n) => {
                    copy_into(buf, filled, &tmp, n);
                    filled = filled + n;
                    budget = INTERRUPT_RETRY_BUDGET;
                },
                Err(e) => {
                    if e.kind() == ErrorKind::Interrupted && budget > 0 {
                        budget = budget - 1;
                    } else {
                        return Err(e);
                    }
                },
            }
        }
    }

    /// The buffer initializer this reader asks for: by default one that
    /// zeroes buffers, which any reader can work with.
    fn initializer(&self) -> (r: Initializer)
        default_ensures
            r.0 == true,
    {
        Initializer::zeroing()
    }

    /// Creates a "by reference" adaptor for this instance of `Read`.
    fn by_ref(&mut self) -> (r: &mut Self) where Self: Sized
        ensures
            *r == *old(self),
            *final(self) == *final(r),
    {
        self
    }

    /// Turns this reader into an iterator-like source of single bytes.
    fn bytes(self) -> (r: Bytes<Self>) where Self: Sized
        default_ensures
            r.inner == self,
    {
        Bytes { inner: self }
    }

    /// Turns this reader into an iterator-like source of UTF-8 characters.
    fn chars(self) -> (r: Chars<Self>) where Self: Sized
        default_ensures
            r.inner == self,
    {
        Chars { inner: self }
    }

    /// Creates an adaptor that reads at most `limit` bytes from this reader.
    fn take(self, limit: u64) -> (r: Take<Self>) where Self: Sized
        default_ensures
            r.inner == self,
            r.limit == limit,
    {
        Take { inner: self, limit }
    }
}

/// The `Write` trait is for byte-oriented sinks.
pub trait Write {
    /// Writes some prefix of `buf` into this sink, returning how many bytes
    /// were written.
    fn write(&mut self, buf: &Vec<u8>) -> (r: Result<usize, Error>)
        ensures
            r matches Ok(n) ==> n <= buf@.len(),
    ;

    /// Pushes any buffered bytes out to the true sink.
    fn flush(&mut self) -> Result<(), Error>;

    /// Writes all of `buf`, retrying interrupted and partial writes. Fails
    /// with `WriteZero` when the sink stops accepting bytes.
    fn write_all(&mut self, buf: &Vec<u8>) -> (r: Result<(), Error>) {
        let total = buf.len();
        let mut written: usize = 0;
        let mut budget: u64 = INTERRUPT_RETRY_BUDGET;
        loop
            invariant
                written <= buf@.len(),
                buf@.len() == total,
            decreases buf@.len() - written, budget,
        {
            if written >= buf.len() {
                return Ok(());
            }
            let rest = tail_copy(buf, written);
            match self.write(&rest) {
                Ok(0) => {
                    return Err(Error::new(ErrorKind::WriteZero));
                },
                Ok(n) => {
                    written = written + n;
                    budget = INTERRUPT_RETRY_BUDGET;
                },
                Err(e) => {
                    if e.kind() == ErrorKind::Interrupted && budget > 0 {
                        budget = budget - 1;
                    } else {
                        return Err(e);
                    }
                },
            }
        }
    }

    /// Creates a "by reference" adaptor for this instance of `Write`.
    fn by_ref(&mut self) -> (r: &mut Self) where Self: Sized
        ensures
            *r == *old(self),
            *final(self) == *final(r),
    {
        self
    }
}

/// Enumeration of possible methods to seek within an I/O object.
#[derive(Clone, Copy, Debug, PartialEq, Eq)]
pub enum SeekFrom {
    /// Sets the offset to the provided number of bytes.
    Start(u64),
    /// Sets the offset to the size of this object plus the specified number
    /// of bytes.
    End(i64),
    /// Sets the offset to the current position plus the specified number of
    /// bytes.
    Current(i64),
}

/// The `Seek` trait provides a cursor within a stream of bytes.
pub trait Seek {
    /// Seeks to an offset, in bytes, in a stream, returning the new position
    /// from the start of the stream.
    fn seek(&mut self, pos: SeekFrom) -> Result<u64, Error>;
}

/// A `Read`er with an internal buffer, allowing a caller to look at bytes
/// before consuming them.
pub trait BufRead: Read {
    /// Returns a copy of the buffered bytes, filling the internal buffer
    /// from the inner reader when it is empty.
    fn fill_buf(&mut self) -> Result<Vec<u8>, Error>;

    /// Marks `amt` buffered bytes as consumed, so they are no longer
    /// returned by reads.
    fn consume(&mut self, amt: usize);
}

/// A type used to conditionally initialize buffers passed to `Read` methods.
#[derive(Clone, Copy, Debug, PartialEq, Eq, Structural)]
pub struct Initializer(pub bool);

impl Initializer {
    /// Returns a new `Initializer` which will zero out buffers.
    pub fn zeroing() -> (r: Initializer)
        ensures
            r.0 == true,
    {
        Initializer(true)
    }

    /// Returns a new `Initializer` which will not zero out buffers. Safe
    /// here, unlike its namesake over raw buffers: every read of this crate
    /// works on vectors whose bytes are already initialized.
    pub fn nop() -> (r: Initializer)
        ensures
            r.0 == false,
    {
        Initializer(false)
    }

    /// Indicates if a buffer should be initialized.
    pub fn should_initialize(&self) -> (r: bool)
        ensures
            r == self.0,
    {
        self.0
    }

    /// Initializes a buffer if necessary: a zeroing initializer sets every
    /// byte to zero, any other leaves the buffer untouched.
    pub fn initialize(&self, buf: &mut Vec<u8>)
        ensures
            final(buf)@.len() == old(buf)@.len(),
            self.0 ==> forall|j: int| 0 <= j < final(buf)@.len() ==> final(buf)@[j] == 0u8,
            !self.0 ==> final(buf)@ == old(buf)@,
    {
        if self.should_initialize() {
            let mut i: usize = 0;
            while i < buf.len()
                invariant
                    0 <= i <= buf@.len(),
                    buf@.len() == old(buf)@.len(),
                    forall|j: int| 0 <= j < i ==> buf@[j] == 0u8,
                decreases buf@.len() - i,
            {
                buf.set(i, 0);
                i = i + 1;
            }
        }
    }
}

/// Reads one byte from `reader`, retrying interrupted reads: `None` at the
/// end of the stream, otherwise the byte or the error the read ended with.
pub fn read_one_byte<R: Read>(reader: &mut R) -> (r: Option<Result<u8, Error>>) {
    let mut budget: u64 = INTERRUPT_RETRY_BUDGET;
    loop
        decreases budget,
    {
        let mut buf = zero_vec(1);
        match reader.read(&mut buf) {
            Ok(0) => {
                return None;
            },
            Ok(n) => {
                return Some(Ok(buf[0]));
            },
            Err(e) => {
                if e.kind() == ErrorKind::Interrupted && budget > 0 {
                    budget = budget - 1;
                } else {
                    return Some(Err(e));
                }
            },
        }
    }
}

/// Adaptor to chain together two readers, reading the first to its end and
/// then the second.
#[derive(Debug)]
pub struct Chain<T, U> {
    /// The reader drained first.
    pub first: T,
    /// The reader drained once `first` is exhausted.
    pub second: U,
    /// Whether `first` has already reported its end.
    pub done_first: bool,
}

impl<T, U> Chain<T, U> {
    /// Consumes the `Chain`, returning the wrapped readers.
    pub fn into_inner(self) -> (r: (T, U))
        ensures
            r.0 == self.first,
            r.1 == self.second,
    {
        (self.first, self.second)
    }

    /// Gets references to the underlying readers in this `Chain`.
    pub fn get_ref(&self) -> (r: (&T, &U))
        ensures
            *r.0 == self.first,
            *r.1 == self.second,
    {
        (&self.first, &self.second)
    }

    /// Gets mutable references to the underlying readers in this `Chain`.
    pub fn get_mut(&mut self) -> (r: (&mut T, &mut U))
        ensures
            *r.0 == old(self).first,
            *r.1 == old(self).second,
            final(self).first == *final(r.0),
            final(self).second == *final(r.1),
            final(self).done_first == old(self).done_first,
    {
        (&mut self.first, &mut self.second)
    }
}

impl<T: Read, U: Read> Read for Chain<T, U> {
    fn read(&mut self, buf: &mut Vec<u8>) -> (r: Result<usize, Error>) {
        if !self.done_first {
            match self.first.read(buf) {
                Ok(0) => {
                    if buf.len() != 0 {
                        self.done_first = true;
                    } else {
                        return Ok(0);
                    }
                },
                Ok(n) => {
                    return Ok(n);
                },
                Err(e) => {
                    return Err(e);
                },
            }
        }
        self.second.read(buf)
    }

    fn initializer(&self) -> (r: Initializer) {
        let first = self.first.initializer();
        if first.should_initialize() {
            first
        } else {
            self.second.initializer()
        }
    }
}

impl<T: BufRead, U: BufRead> BufRead for Chain<T, U> {
    fn fill_buf(&mut self) -> Result<Vec<u8>, Error> {
        if !self.done_first {
            match self.first.fill_buf() {
                Ok(buf) => {
                    if buf.len() == 0 {
                        self.done_first = true;
                    } else {
                        return Ok(buf);
                    }
                },
                Err(e) => {
                    return Err(e);
                },
            }
        }
        self.second.fill_buf()
    }

    fn consume(&mut self, amt: usize) {
        if !self.done_first {
            self.first.consume(amt)
        } else {
            self.second.consume(amt)
        }
    }
}

/// Reader adaptor which limits the bytes read from an underlying reader.
#[derive(Debug)]
pub struct Take<T> {
    /// The wrapped reader.
    pub inner: T,
    /// How many more bytes may be read before this adaptor reports its end.
    pub limit: u64,
}

impl<T> Take<T> {
    /// Returns the number of bytes that can be read before this instance
    /// will return its end.
    pub fn limit(&self) -> (r: u64)
        ensures
            r == self.limit,
    {
        self.limit
    }

    /// Sets the number of bytes that can be read before this instance will
    /// return its end; bytes already read do not count against it.
    pub fn set_limit(&mut self, limit: u64)
        ensures
            final(self).limit == limit,
            final(self).inner == old(self).inner,
    {
        self.limit = limit;
    }

    /// Consumes the `Take`, returning the wrapped reader.
    pub fn into_inner(self) -> (r: T)
        ensures
            r == self.inner,
    {
        self.inner
    }

    /// Gets a reference to the underlying reader.
    pub fn get_ref(&self) -> (r: &T)
        ensures
            *r == self.inner,
    {
        &self.inner
    }

    /// Gets a mutable reference to the underlying reader.
    pub fn get_mut(&mut self) -> (r: &mut T)
        ensures
            *r == old(self).inner,
            final(self).inner == *final(r),
            final(self).limit == old(self).limit,
    {
        &mut self.inner
    }
}

impl<T: Read> Read for Take<T> {
    fn read(&mut self, buf: &mut Vec<u8>) -> (r: Result<usize, Error>) {
        if self.limit == 0 {
            return Ok(0);
        }
        let max: usize = if (buf.len() as u64) < self.limit {
            buf.len()
        } else {
            self.limit as usize
        };
        let mut tmp = zero_vec(max);
        match self.inner.read(&mut tmp) {
            Ok(n) => {
                copy_into(buf, 0, &tmp, n);
                self.limit = self.limit - n as u64;
                Ok(n)
            },
            Err(e) => Err(e),
        }
    }

    fn initializer(&self) -> (r: Initializer) {
        self.inner.initializer()
    }
}

impl<T: BufRead> BufRead for Take<T> {
    fn fill_buf(&mut self) -> Result<Vec<u8>, Error> {
        if self.limit == 0 {
            return Ok(Vec::new());
        }
        match self.inner.fill_buf() {
            Ok(mut buf) => {
                if (buf.len() as u64) > self.limit {
                    buf.truncate(self.limit as usize);
                }
                Ok(buf)
            },
            Err(e) => Err(e),
        }
    }

    fn consume(&mut self, amt: usize) {
        // never let a caller reset the limit by consuming more than it
        let capped: usize = if (amt as u64) < self.limit {
            amt
        } else {
            self.limit as usize
        };
        self.limit = self.limit - capped as u64;
        self.inner.consume(capped);
    }
}

/// An iterator-like source over the `u8` values of a reader.
#[derive(Debug)]
pub struct Bytes<R> {
    /// The wrapped reader.
    pub inner: R,
}

impl<R: Read> Bytes<R> {
    /// The next byte of the reader: `None` at the end of the stream.
    pub fn next(&mut self) -> (r: Option<Result<u8, Error>>) {
        read_one_byte(&mut self.inner)
    }
}

/// An iterator-like source over the UTF-8 characters of a reader.
#[derive(Debug)]
pub struct Chars<R> {
    /// The wrapped reader.
    pub inner: R,
}

/// An enumeration of possible errors that can be generated from the `Chars`
/// adapter.
#[derive(Clone, Copy, Debug, PartialEq, Eq)]
pub enum CharsError {
    /// The underlying stream was read successfully but it did not contain
    /// valid UTF-8 data.
    NotUtf8,
    /// An I/O error occurred.
    Other(Error),
}

/// How many bytes long a UTF-8 sequence led by `b` is: 0 when `b` cannot
/// lead one (a continuation byte, an overlong leader, or a value past the
/// last Unicode plane).
pub open spec fn utf8_width_spec(b: u8) -> nat {
    if b < 0x80 {
        1
    } else if 0xC2 <= b && b <= 0xDF {
        2
    } else if 0xE0 <= b && b <= 0xEF {
        3
    } else if 0xF0 <= b && b <= 0xF4 {
        4
    } else {
        0
    }
}

/// How many bytes long a UTF-8 sequence led by `b` is; 0 when `b` cannot
/// lead one.
pub fn utf8_char_width(b: u8) -> (r: usize)
    ensures
        r == utf8_width_spec(b),
{
    if b < 0x80 {
        1
    } else if 0xC2 <= b && b <= 0xDF {
        2
    } else if 0xE0 <= b && b <= 0xEF {
        3
    } else if 0xF0 <= b && b <= 0xF4 {
        4
    } else {
        0
    }
}

/// A byte that may continue a multi-byte UTF-8 sequence.
pub open spec fn is_utf8_continuation(b: u8) -> bool {
    0x80 <= b && b <= 0xBF
}

/// The number a multi-byte UTF-8 sequence spells: six payload bits from each
/// continuation byte under the leader's remaining bits.
pub open spec fn utf8_scalar_spec(first: u8, rest: Seq<u8>) -> int {
    if utf8_width_spec(first) == 2 {
        (first - 0xC0) * 0x40 + (rest[0] - 0x80)
    } else if utf8_width_spec(first) == 3 {
        (first - 0xE0) * 0x1000 + (rest[0] - 0x80) * 0x40 + (rest[1] - 0x80)
    } else {
        (first - 0xF0) * 0x40000 + (rest[0] - 0x80) * 0x1000 + (rest[1] - 0x80) * 0x40 + (rest[2]
            - 0x80)
    }
}

/// A well-formed multi-byte UTF-8 sequence: every following byte is a
/// continuation byte, the spelled number is not overlong for its width, and
/// it is a Unicode scalar value.
pub open spec fn utf8_valid_multibyte(first: u8, rest: Seq<u8>) -> bool {
    &&& utf8_width_spec(first) >= 2
    &&& rest.len() == utf8_width_spec(first) - 1
    &&& forall|j: int| 0 <= j < rest.len() ==> is_utf8_continuation(#[trigger] rest[j])
    &&& utf8_width_spec(first) == 3 ==> utf8_scalar_spec(first, rest) >= 0x800 && !(0xD800
        <= utf8_scalar_spec(first, rest) < 0xE000)
    &&& utf8_width_spec(first) == 4 ==> 0x10000 <= utf8_scalar_spec(first, rest) <= 0x10FFFF
}

/// Relies on core::char::from_u32: it returns `Some` exactly for the Unicode
/// scalar values — the numbers below the surrogate range at 0xD800, and
/// those from 0xE000 through 0x10FFFF — and the returned character converts
/// back to the same number.
#[verifier::external_body]
fn char_from_u32(v: u32) -> (r: Option<char>)
    ensures
        r matches Some(c) ==> c as u32 == v,
        r is Some <==> (v < 0xD800 || (0xE000 <= v && v <= 0x10FFFF)),
{
    char::from_u32(v)
}

/// Decodes the multi-byte UTF-8 sequence `first`, `rest`: the character it
/// spells, or nothing when the sequence is not well-formed UTF-8.
fn decode_multibyte(first: u8, rest: &Vec<u8>) -> (r: Option<char>)
    requires
        utf8_width_spec(first) >= 2,
        rest@.len() == utf8_width_spec(first) - 1,
    ensures
        r is Some <==> utf8_valid_multibyte(first, rest@),
        r matches Some(c) ==> c as u32 == utf8_scalar_spec(first, rest@),
{
    let width = utf8_char_width(first);
    let mut j: usize = 0;
    while j < width - 1
        invariant
            0 <= j <= width - 1,
            width == utf8_width_spec(first),
            rest@.len() == width - 1,
            forall|k: int| 0 <= k < j ==> is_utf8_continuation(#[trigger] rest@[k]),
        decreases width - j,
    {
        let b = rest[j];
        if b < 0x80 || b > 0xBF {
            return None;
        }
        j = j + 1;
    }
    let cp: u32 = if width == 2 {
        (first as u32 - 0xC0) * 0x40 + (rest[0] as u32 - 0x80)
    } else if width == 3 {
        (first as u32 - 0xE0) * 0x1000 + (rest[0] as u32 - 0x80) * 0x40 + (rest[1] as u32 - 0x80)
    } else {
        (first as u32 - 0xF0) * 0x40000 + (rest[0] as u32 - 0x80) * 0x1000 + (rest[1] as u32 - 0x80)
            * 0x40 + (rest[2] as u32 - 0x80)
    };
    if width == 3 && cp < 0x800 {
        return None;
    }
    if width == 4 && cp < 0x10000 {
        return None;
    }
    char_from_u32(cp)
}

impl<R: Read> Chars<R> {
    /// The next UTF-8 character of the reader: `None` at the end of the
    /// stream, the character or a `NotUtf8` error otherwise. A stream that
    /// ends in the middle of a character is not UTF-8.
    pub fn next(&mut self) -> (r: Option<Result<char, CharsError>>) {
        let first = match read_one_byte(&mut self.inner) {
            None => {
                return None;
            },
            Some(Ok(b)) => b,
            Some(Err(e)) => {
                return Some(Err(CharsError::Other(e)));
            },
        };
        let width = utf8_char_width(first);
        if width == 0 {
            return Some(Err(CharsError::NotUtf8));
        }
        if width == 1 {
            return match char_from_u32(first as u32) {
                Some(c) => Some(Ok(c)),
                None => Some(Err(CharsError::NotUtf8)),
            };
        }
        let mut rest = zero_vec(width - 1);
        match self.inner.read_exact(&mut rest) {
            Ok(_) => {},
            Err(e) => {
                return Some(
                    Err(
                        if e.kind() == ErrorKind::UnexpectedEof {
                            CharsError::NotUtf8
                        } else {
                            CharsError::Other(e)
                        },
                    ),
                );
            },
        }
        match decode_multibyte(first, &rest) {
            Some(c) => Some(Ok(c)),
            None => Some(Err(CharsError::NotUtf8)),
        }
    }
}

} // verus!

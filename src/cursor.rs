use byteorder::{ByteOrder, LittleEndian};
use vstd::prelude::*;
use vstd::slice::{slice_subrange, slice_to_vec};

verus! {

/// Why an event could not be decoded.
#[derive(Debug, Clone, Copy, PartialEq, Eq, Structural)]
pub enum DecodeError {
    /// Fewer bytes are available than the fixed header needs, or the header
    /// declares an event shorter than itself.
    TruncatedHeader,
    /// A fixed-size, length-prefixed or skipped field of a body runs past the
    /// available bytes.
    TruncatedBody,
    /// A "rest of the event" length computes to a negative number.
    NegativeRemainingLength,
    /// The event kind has no body decoder here; the caller skips the event.
    UnsupportedEventKind,
}

/// Little-endian value of the two bytes of `s` at `i`.
pub open spec fn le16_at(s: Seq<u8>, i: int) -> int {
    s[i] as int + 256 * (s[i + 1] as int)
}

/// Little-endian value of the four bytes of `s` at `i`.
pub open spec fn le32_at(s: Seq<u8>, i: int) -> int {
    le16_at(s, i) + 65536 * le16_at(s, i + 2)
}

/// Little-endian value of the eight bytes of `s` at `i`.
pub open spec fn le64_at(s: Seq<u8>, i: int) -> int {
    le32_at(s, i) + 4294967296 * le32_at(s, i + 4)
}

/// The text that a byte string decodes to when invalid UTF-8 sequences are
/// replaced by U+FFFD.
pub uninterp spec fn lossy_text(b: Seq<u8>) -> Seq<char>;

/// Relies on byteorder's `LittleEndian::read_u16`: the first two bytes, least
/// significant first (it panics on fewer than two).
#[verifier::external_body]
fn le_u16(b: &[u8]) -> (r: u16)
    requires
        b@.len() >= 2,
    ensures
        r as int == le16_at(b@, 0),
{
    LittleEndian::read_u16(b)
}

/// Relies on byteorder's `LittleEndian::read_u32`: the first four bytes, least
/// significant first (it panics on fewer than four).
#[verifier::external_body]
fn le_u32(b: &[u8]) -> (r: u32)
    requires
        b@.len() >= 4,
    ensures
        r as int == le32_at(b@, 0),
{
    LittleEndian::read_u32(b)
}

/// Relies on byteorder's `LittleEndian::read_u64`: the first eight bytes, least
/// significant first (it panics on fewer than eight).
#[verifier::external_body]
fn le_u64(b: &[u8]) -> (r: u64)
    requires
        b@.len() >= 8,
    ensures
        r as int == le64_at(b@, 0),
{
    LittleEndian::read_u64(b)
}

/// Relies on `String::from_utf8_lossy`: a function of the bytes alone, and
/// no bytes give the empty text.
#[verifier::external_body]
pub(crate) fn decode_text(b: &[u8]) -> (r: String)
    ensures
        r@ == lossy_text(b@),
        b@.len() == 0 ==> r@.len() == 0,
{
    String::from_utf8_lossy(b).into_owned()
}

/// Reports the current absolute offset of a cursor without moving it.
pub trait Tell {
    spec fn spec_tell(&self) -> nat;

    fn tell(&self) -> (r: u64)
        ensures
            r as nat == self.spec_tell(),
    ;
}

/// A read position over an in-memory byte buffer. The position may stand
/// past the end; reads there fail.
pub struct ByteCursor {
    pub data: Vec<u8>,
    pub pos: usize,
}

impl ByteCursor {
    /// The bytes from the position to the end (none when it stands past the end).
    pub open spec fn rest(&self) -> Seq<u8> {
        if self.pos <= self.data@.len() {
            self.data@.subrange(self.pos as int, self.data@.len() as int)
        } else {
            Seq::empty()
        }
    }

    /// The cursor moved forward by `n` bytes over the same buffer.
    pub open spec fn advanced(&self, before: &ByteCursor, n: int) -> bool {
        self.data@ == before.data@ && self.pos == before.pos + n
    }

    pub fn new(data: Vec<u8>) -> (r: ByteCursor)
        ensures
            r.data@ == data@,
            r.pos == 0,
    {
        ByteCursor { data, pos: 0 }
    }

    /// How many bytes are left after the position.
    pub fn remaining(&self) -> (r: usize)
        ensures
            r == self.rest().len(),
            self.data@.len() <= usize::MAX,
    {
        if self.pos <= self.data.len() {
            self.data.len() - self.pos
        } else {
            0
        }
    }

    /// The next `n` bytes, if there are that many; the cursor does not move.
    fn peek(&self, n: usize) -> (r: Option<&[u8]>)
        ensures
            r is Some <==> n <= self.rest().len(),
            r matches Some(s) ==> s@ == self.rest().subrange(0, n as int),
            self.data@.len() <= usize::MAX,
    {
        let rem = self.remaining();
        if n == 0 {
            let s = slice_subrange(self.data.as_slice(), 0, 0);
            assert(s@ =~= self.rest().subrange(0, 0));
            Some(s)
        } else if n <= rem {
            let s = slice_subrange(self.data.as_slice(), self.pos, self.pos + n);
            assert(s@ =~= self.rest().subrange(0, n as int));
            Some(s)
        } else {
            None
        }
    }

    /// Moves past `n` bytes, which must be there.
    pub fn skip(&mut self, n: usize) -> (r: Result<(), DecodeError>)
        ensures
            n <= old(self).rest().len() ==> r is Ok && final(self).advanced(old(self), n as int),
            n > old(self).rest().len() ==> r == Err::<(), DecodeError>(DecodeError::TruncatedBody)
                && *final(self) == *old(self),
    {
        if n <= self.remaining() {
            self.pos = self.pos + n;
            Ok(())
        } else {
            Err(DecodeError::TruncatedBody)
        }
    }

    pub fn read_u8(&mut self) -> (r: Result<u8, DecodeError>)
        ensures
            1 <= old(self).rest().len() ==> r == Ok::<u8, DecodeError>(old(self).rest()[0])
                && final(self).advanced(old(self), 1),
            1 > old(self).rest().len() ==> r == Err::<u8, DecodeError>(DecodeError::TruncatedBody)
                && *final(self) == *old(self),
    {
        if 1 <= self.remaining() {
            let v = self.data[self.pos];
            self.pos = self.pos + 1;
            Ok(v)
        } else {
            Err(DecodeError::TruncatedBody)
        }
    }

    pub fn read_u16_le(&mut self) -> (r: Result<u16, DecodeError>)
        ensures
            2 <= old(self).rest().len() ==> (r matches Ok(v) && v as int == le16_at(old(self).rest(), 0)
                && final(self).advanced(old(self), 2)),
            2 > old(self).rest().len() ==> r == Err::<u16, DecodeError>(DecodeError::TruncatedBody)
                && *final(self) == *old(self),
    {
        match self.peek(2) {
            Some(s) => {
                let v = le_u16(s);
                self.pos = self.pos + 2;
                Ok(v)
            },
            None => Err(DecodeError::TruncatedBody),
        }
    }

    pub fn read_u32_le(&mut self) -> (r: Result<u32, DecodeError>)
        ensures
            4 <= old(self).rest().len() ==> (r matches Ok(v) && v as int == le32_at(old(self).rest(), 0)
                && final(self).advanced(old(self), 4)),
            4 > old(self).rest().len() ==> r == Err::<u32, DecodeError>(DecodeError::TruncatedBody)
                && *final(self) == *old(self),
    {
        match self.peek(4) {
            Some(s) => {
                let v = le_u32(s);
                self.pos = self.pos + 4;
                Ok(v)
            },
            None => Err(DecodeError::TruncatedBody),
        }
    }

    pub fn read_u64_le(&mut self) -> (r: Result<u64, DecodeError>)
        ensures
            8 <= old(self).rest().len() ==> (r matches Ok(v) && v as int == le64_at(old(self).rest(), 0)
                && final(self).advanced(old(self), 8)),
            8 > old(self).rest().len() ==> r == Err::<u64, DecodeError>(DecodeError::TruncatedBody)
                && *final(self) == *old(self),
    {
        match self.peek(8) {
            Some(s) => {
                let v = le_u64(s);
                self.pos = self.pos + 8;
                Ok(v)
            },
            None => Err(DecodeError::TruncatedBody),
        }
    }

    /// Reads `n` bytes as they are.
    pub fn read_bytes(&mut self, n: usize) -> (r: Result<Vec<u8>, DecodeError>)
        ensures
            n <= old(self).rest().len() ==> (r matches Ok(v) && v@ == old(self).rest().subrange(0, n as int)
                && final(self).advanced(old(self), n as int)),
            n > old(self).rest().len() ==> r == Err::<Vec<u8>, DecodeError>(DecodeError::TruncatedBody)
                && *final(self) == *old(self),
    {
        match self.peek(n) {
            Some(s) => {
                let v = slice_to_vec(s);
                self.pos = self.pos + n;
                Ok(v)
            },
            None => Err(DecodeError::TruncatedBody),
        }
    }

    /// Reads `n` bytes and decodes them as text.
    pub fn read_text(&mut self, n: usize) -> (r: Result<String, DecodeError>)
        ensures
            n <= old(self).rest().len() ==> (r matches Ok(t)
                && t@ == lossy_text(old(self).rest().subrange(0, n as int))
                && final(self).advanced(old(self), n as int)),
            n > old(self).rest().len() ==> r == Err::<String, DecodeError>(DecodeError::TruncatedBody)
                && *final(self) == *old(self),
    {
        match self.peek(n) {
            Some(s) => {
                let t = decode_text(s);
                self.pos = self.pos + n;
                Ok(t)
            },
            None => Err(DecodeError::TruncatedBody),
        }
    }
}

impl Tell for ByteCursor {
    open spec fn spec_tell(&self) -> nat {
        self.pos as nat
    }

    fn tell(&self) -> (r: u64) {
        self.pos as u64
    }
}

} // verus!

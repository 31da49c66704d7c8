//! Bounds-checked sequential reading of primitives, sized slices and
//! terminated slices over a borrowed byte buffer.
//!
//! All primitive reads are little-endian; no read sign-extends. A failed
//! read reports an [`Error`] and, except where noted, leaves the position
//! unchanged.

use vstd::prelude::*;
use vstd::slice::{slice_index_get, slice_subrange};
use vstd::utf8::{decode_utf8, valid_utf8};
use vstd::string::StringSliceAdditionalSpecFns;
use crate::error::Error;

verus! {

/// The little-endian 16-bit value stored at `i` in `s`.
pub open spec fn le_u16_at(s: Seq<u8>, i: int) -> int
    recommends
        0 <= i,
        i + 2 <= s.len(),
{
    s[i] + s[i + 1] * 0x100
}

/// The little-endian 32-bit value stored at `i` in `s`.
pub open spec fn le_u32_at(s: Seq<u8>, i: int) -> int
    recommends
        0 <= i,
        i + 4 <= s.len(),
{
    s[i] + s[i + 1] * 0x100 + s[i + 2] * 0x10000 + s[i + 3] * 0x1000000
}

/// The little-endian 64-bit value stored at `i` in `s`.
pub open spec fn le_u64_at(s: Seq<u8>, i: int) -> int
    recommends
        0 <= i,
        i + 8 <= s.len(),
{
    s[i] + s[i + 1] * 0x100 + s[i + 2] * 0x10000 + s[i + 3] * 0x1000000
        + s[i + 4] * 0x100000000 + s[i + 5] * 0x10000000000 + s[i + 6] * 0x1000000000000
        + s[i + 7] * 0x100000000000000
}

/// The first index `>= from` at which `s` holds `b`, if any.
pub open spec fn find_byte(s: Seq<u8>, from: int, b: u8) -> Option<int>
    decreases s.len() - from,
{
    if from < 0 || from >= s.len() {
        None
    } else if s[from] == b {
        Some(from)
    } else {
        find_byte(s, from + 1, b)
    }
}

/// Where [`find_byte`] finds an occurrence, it is the first one, within
/// bounds, and holds the sought byte.
pub proof fn lemma_find_byte_props(s: Seq<u8>, from: int, b: u8)
    requires
        0 <= from <= s.len(),
    ensures
        find_byte(s, from, b) matches Some(i) ==> (from <= i < s.len() && s[i] == b
            && forall|j: int| from <= j < i ==> s[j] != b),
        find_byte(s, from, b) is None ==> forall|j: int| from <= j < s.len() ==> s[j] != b,
    decreases s.len() - from,
{
    if from < s.len() && s[from] != b {
        lemma_find_byte_props(s, from + 1, b);
    }
}

/// What decoding a blob-length-style compressed unsigned at `i` in `s`
/// yields: the value and the position after it, or `None` when the bytes
/// run out or the first byte is an invalid lead (`0xE0..=0xFF`).
pub open spec fn spec_read_compressed_uint(s: Seq<u8>, i: int) -> Option<(u32, int)> {
    if i < 0 || i >= s.len() {
        None
    } else if s[i] < 0x80 {
        Some((s[i] as u32, i + 1))
    } else if s[i] < 0xC0 {
        if i + 2 <= s.len() {
            Some((((s[i] % 0x40) * 0x100 + s[i + 1]) as u32, i + 2))
        } else {
            None
        }
    } else if s[i] < 0xE0 {
        if i + 4 <= s.len() {
            Some((
                ((s[i] % 0x20) * 0x1000000 + s[i + 1] * 0x10000 + s[i + 2] * 0x100
                    + s[i + 3]) as u32,
                i + 4,
            ))
        } else {
            None
        }
    } else {
        None
    }
}

/// The canonical compressed encoding of `v`: one byte below `0x80`, two
/// bytes below `0x4000`, else four bytes.
pub open spec fn spec_compressed_uint_encoding(v: u32) -> Seq<u8>
    recommends
        v <= 0x1FFFFFFF,
{
    if v < 0x80 {
        seq![v as u8]
    } else if v < 0x4000 {
        seq![(0x80 + v / 0x100) as u8, (v % 0x100) as u8]
    } else {
        seq![
            (0xC0 + v / 0x1000000) as u8,
            ((v / 0x10000) % 0x100) as u8,
            ((v / 0x100) % 0x100) as u8,
            (v % 0x100) as u8,
        ]
    }
}

/// Encoding a value in range and decoding it back yields the value again,
/// consuming exactly the encoding.
pub proof fn lemma_compressed_uint_round_trip(v: u32)
    requires
        v <= 0x1FFFFFFF,
    ensures
        spec_read_compressed_uint(spec_compressed_uint_encoding(v), 0) == Some(
            (v, spec_compressed_uint_encoding(v).len() as int),
        ),
{
}

/// A bounds-checked cursor over a borrowed byte buffer.
///
/// Invariant: `0 <= position <= buffer length` (see [`ByteStream::wf`]).
#[derive(Debug, Clone)]
pub struct ByteStream<'a> {
    bytes: &'a [u8],
    position: usize,
}

impl<'a> ByteStream<'a> {
    /// The underlying buffer, as a sequence.
    pub closed spec fn buf(self) -> Seq<u8> {
        self.bytes@
    }

    /// The current position.
    pub closed spec fn pos(self) -> int {
        self.position as int
    }

    /// Well-formedness: the position never passes the buffer's end.
    pub open spec fn wf(self) -> bool {
        0 <= self.pos() <= self.buf().len()
    }

    /// A cursor over `bytes`, positioned at its start.
    pub fn new(bytes: &'a [u8]) -> (r: Self)
        ensures
            r.wf(),
            r.buf() == bytes@,
            r.pos() == 0,
    {
        Self { bytes, position: 0 }
    }

    /// The underlying buffer.
    pub fn bytes(&self) -> (r: &'a [u8])
        ensures
            r@ == self.buf(),
    {
        self.bytes
    }

    /// The current position.
    pub fn position(&self) -> (r: usize)
        ensures
            r == self.pos(),
    {
        self.position
    }

    /// How many bytes remain between the position and the buffer's end.
    pub fn remaining(&self) -> (r: usize)
        requires
            self.wf(),
        ensures
            r == self.buf().len() - self.pos(),
    {
        self.bytes.len() - self.position
    }

    /// Sets the position, returning the previous one; fails with
    /// `OffsetOutOfBounds` when `position` passes the buffer's end, leaving
    /// the cursor unchanged.
    pub fn seek(&mut self, position: usize) -> (r: Result<usize, Error>)
        requires
            old(self).wf(),
        ensures
            final(self).wf(),
            final(self).buf() == old(self).buf(),
            position <= old(self).buf().len() ==> (r matches Ok(prev) && prev == old(self).pos()
                && final(self).pos() == position),
            position > old(self).buf().len() ==> r == Err::<usize, Error>(
                Error::OffsetOutOfBounds(position),
            ) && final(self).pos() == old(self).pos(),
    {
        if position <= self.bytes.len() {
            let prev = self.position;
            self.position = position;
            Ok(prev)
        } else {
            Err(Error::OffsetOutOfBounds(position))
        }
    }

    /// Advances the position by `count`, returning the previous position;
    /// fails with `UnexpectedEndOfStream` when fewer than `count` bytes
    /// remain, leaving the cursor unchanged.
    pub fn skip(&mut self, count: usize) -> (r: Result<usize, Error>)
        requires
            old(self).wf(),
        ensures
            final(self).wf(),
            final(self).buf() == old(self).buf(),
            old(self).pos() + count <= old(self).buf().len() ==> (r matches Ok(prev)
                && prev == old(self).pos() && final(self).pos() == old(self).pos() + count),
            old(self).pos() + count > old(self).buf().len() ==> r == Err::<usize, Error>(
                Error::UnexpectedEndOfStream(old(self).buf().len() as usize),
            ) && final(self).pos() == old(self).pos(),
    {
        if count <= self.bytes.len() - self.position {
            let prev = self.position;
            self.position = self.position + count;
            Ok(prev)
        } else {
            Err(Error::UnexpectedEndOfStream(self.bytes.len()))
        }
    }

    /// Reads one byte.
    pub fn read_u8(&mut self) -> (r: Result<u8, Error>)
        requires
            old(self).wf(),
        ensures
            final(self).wf(),
            final(self).buf() == old(self).buf(),
            old(self).pos() + 1 <= old(self).buf().len() ==> (r matches Ok(v)
                && v == old(self).buf()[old(self).pos()]
                && final(self).pos() == old(self).pos() + 1),
            old(self).pos() + 1 > old(self).buf().len() ==> r == Err::<u8, Error>(
                Error::UnexpectedEndOfStream(old(self).buf().len() as usize),
            ) && final(self).pos() == old(self).pos(),
    {
        if self.position < self.bytes.len() {
            let v = *slice_index_get(self.bytes, self.position);
            self.position = self.position + 1;
            Ok(v)
        } else {
            Err(Error::UnexpectedEndOfStream(self.bytes.len()))
        }
    }

    /// Reads a little-endian 16-bit value.
    pub fn read_u16(&mut self) -> (r: Result<u16, Error>)
        requires
            old(self).wf(),
        ensures
            final(self).wf(),
            final(self).buf() == old(self).buf(),
            old(self).pos() + 2 <= old(self).buf().len() ==> (r matches Ok(v)
                && v == le_u16_at(old(self).buf(), old(self).pos())
                && final(self).pos() == old(self).pos() + 2),
            old(self).pos() + 2 > old(self).buf().len() ==> r == Err::<u16, Error>(
                Error::UnexpectedEndOfStream(old(self).buf().len() as usize),
            ) && final(self).pos() == old(self).pos(),
    {
        if 2 <= self.bytes.len() - self.position {
            let b0 = *slice_index_get(self.bytes, self.position);
            let b1 = *slice_index_get(self.bytes, self.position + 1);
            self.position = self.position + 2;
            Ok((b0 as u16) + (b1 as u16) * 0x100)
        } else {
            Err(Error::UnexpectedEndOfStream(self.bytes.len()))
        }
    }

    /// Reads a little-endian 32-bit value.
    pub fn read_u32(&mut self) -> (r: Result<u32, Error>)
        requires
            old(self).wf(),
        ensures
            final(self).wf(),
            final(self).buf() == old(self).buf(),
            old(self).pos() + 4 <= old(self).buf().len() ==> (r matches Ok(v)
                && v == le_u32_at(old(self).buf(), old(self).pos())
                && final(self).pos() == old(self).pos() + 4),
            old(self).pos() + 4 > old(self).buf().len() ==> r == Err::<u32, Error>(
                Error::UnexpectedEndOfStream(old(self).buf().len() as usize),
            ) && final(self).pos() == old(self).pos(),
    {
        if 4 <= self.bytes.len() - self.position {
            let b0 = *slice_index_get(self.bytes, self.position);
            let b1 = *slice_index_get(self.bytes, self.position + 1);
            let b2 = *slice_index_get(self.bytes, self.position + 2);
            let b3 = *slice_index_get(self.bytes, self.position + 3);
            self.position = self.position + 4;
            Ok(
                (b0 as u32) + (b1 as u32) * 0x100 + (b2 as u32) * 0x10000 + (b3 as u32)
                    * 0x1000000,
            )
        } else {
            Err(Error::UnexpectedEndOfStream(self.bytes.len()))
        }
    }

    /// Reads a little-endian 64-bit value.
    pub fn read_u64(&mut self) -> (r: Result<u64, Error>)
        requires
            old(self).wf(),
        ensures
            final(self).wf(),
            final(self).buf() == old(self).buf(),
            old(self).pos() + 8 <= old(self).buf().len() ==> (r matches Ok(v)
                && v == le_u64_at(old(self).buf(), old(self).pos())
                && final(self).pos() == old(self).pos() + 8),
            old(self).pos() + 8 > old(self).buf().len() ==> r == Err::<u64, Error>(
                Error::UnexpectedEndOfStream(old(self).buf().len() as usize),
            ) && final(self).pos() == old(self).pos(),
    {
        if 8 <= self.bytes.len() - self.position {
            let b0 = *slice_index_get(self.bytes, self.position);
            let b1 = *slice_index_get(self.bytes, self.position + 1);
            let b2 = *slice_index_get(self.bytes, self.position + 2);
            let b3 = *slice_index_get(self.bytes, self.position + 3);
            let b4 = *slice_index_get(self.bytes, self.position + 4);
            let b5 = *slice_index_get(self.bytes, self.position + 5);
            let b6 = *slice_index_get(self.bytes, self.position + 6);
            let b7 = *slice_index_get(self.bytes, self.position + 7);
            self.position = self.position + 8;
            Ok(
                (b0 as u64) + (b1 as u64) * 0x100 + (b2 as u64) * 0x10000 + (b3 as u64)
                    * 0x1000000 + (b4 as u64) * 0x100000000 + (b5 as u64) * 0x10000000000 + (
                b6 as u64) * 0x1000000000000 + (b7 as u64) * 0x100000000000000,
            )
        } else {
            Err(Error::UnexpectedEndOfStream(self.bytes.len()))
        }
    }

    /// Returns a borrowed view of the next `count` bytes and advances past
    /// them. Succeeds exactly when `count` bytes remain; on failure the
    /// position is unchanged.
    pub fn read_slice(&mut self, count: usize) -> (r: Result<&'a [u8], Error>)
        requires
            old(self).wf(),
        ensures
            final(self).wf(),
            final(self).buf() == old(self).buf(),
            old(self).pos() + count <= old(self).buf().len() ==> (r matches Ok(s)
                && s@ == old(self).buf().subrange(old(self).pos(), old(self).pos() + count)
                && final(self).pos() == old(self).pos() + count),
            old(self).pos() + count > old(self).buf().len() ==> r == Err::<&'a [u8], Error>(
                Error::UnexpectedEndOfStream(old(self).buf().len() as usize),
            ) && final(self).pos() == old(self).pos(),
    {
        if count <= self.bytes.len() - self.position {
            let s = slice_subrange(self.bytes, self.position, self.position + count);
            self.position = self.position + count;
            Ok(s)
        } else {
            Err(Error::UnexpectedEndOfStream(self.bytes.len()))
        }
    }

    /// Returns the bytes from the position up to and including the first
    /// occurrence of `byte`, advancing past it. When `byte` does not occur,
    /// fails with `UnexpectedEndOfStream` and leaves the position at the
    /// buffer's end.
    pub fn read_u8_slice_until(&mut self, byte: u8) -> (r: Result<&'a [u8], Error>)
        requires
            old(self).wf(),
        ensures
            final(self).wf(),
            final(self).buf() == old(self).buf(),
            find_byte(old(self).buf(), old(self).pos(), byte) matches Some(i) ==> (r matches Ok(s)
                && s@ == old(self).buf().subrange(old(self).pos(), i + 1)
                && final(self).pos() == i + 1),
            find_byte(old(self).buf(), old(self).pos(), byte) is None ==> r == Err::<
                &'a [u8],
                Error,
            >(Error::UnexpectedEndOfStream(old(self).buf().len() as usize)) && final(self).pos()
                == old(self).buf().len(),
    {
        let start = self.position;
        let len = self.bytes.len();
        let mut i: usize = start;
        while i < len
            invariant
                *self == *old(self),
                self.wf(),
                start == self.pos(),
                len == self.buf().len(),
                start <= i <= len,
                find_byte(self.buf(), start as int, byte) == find_byte(self.buf(), i as int, byte),
            decreases len - i,
        {
            if *slice_index_get(self.bytes, i) == byte {
                let s = slice_subrange(self.bytes, start, i + 1);
                self.position = i + 1;
                return Ok(s);
            }
            i = i + 1;
        }
        self.position = len;
        Err(Error::UnexpectedEndOfStream(len))
    }

    /// Reads a NUL-terminated UTF-8 string, consuming the terminator and
    /// returning the string without it; fails with `InvalidData` at the
    /// string's start when the bytes are not valid UTF-8.
    pub fn read_null_terminated_str(&mut self) -> (r: Result<&'a str, Error>)
        requires
            old(self).wf(),
        ensures
            final(self).wf(),
            final(self).buf() == old(self).buf(),
            find_byte(old(self).buf(), old(self).pos(), 0) matches Some(i) ==> {
                let content = old(self).buf().subrange(old(self).pos(), i);
                &&& final(self).pos() == i + 1
                &&& valid_utf8(content) ==> (r matches Ok(s) && s@ == decode_utf8(content)
                    && s.spec_bytes() == content)
                &&& !valid_utf8(content) ==> r == Err::<&'a str, Error>(
                    Error::InvalidData(old(self).pos() as usize, None),
                )
            },
            find_byte(old(self).buf(), old(self).pos(), 0) is None ==> r == Err::<&'a str, Error>(
                Error::UnexpectedEndOfStream(old(self).buf().len() as usize),
            ) && final(self).pos() == old(self).buf().len(),
    {
        let start = self.position;
        let with_nul = match self.read_u8_slice_until(0) {
            Ok(s) => s,
            Err(e) => {
                return Err(e);
            },
        };
        proof {
            lemma_find_byte_props(old(self).buf(), old(self).pos(), 0);
        }
        let content = slice_subrange(with_nul, 0, with_nul.len() - 1);
        proof {
            let i = find_byte(old(self).buf(), old(self).pos(), 0)->Some_0;
            assert(content@ =~= old(self).buf().subrange(old(self).pos(), i));
        }
        match str_from_utf8(content) {
            Some(s) => Ok(s),
            None => Err(Error::InvalidData(start, None)),
        }
    }

    /// Decodes a blob-length-style compressed unsigned: one byte below
    /// `0x80`, two below `0xC0`, four below `0xE0`; a first byte of
    /// `0xE0..=0xFF` is `InvalidData`. On failure the position is unchanged.
    pub fn read_compressed_uint(&mut self) -> (r: Result<u32, Error>)
        requires
            old(self).wf(),
        ensures
            final(self).wf(),
            final(self).buf() == old(self).buf(),
            spec_read_compressed_uint(old(self).buf(), old(self).pos()) matches Some(t)
                ==> (r == Ok::<u32, Error>(t.0) && final(self).pos() == t.1),
            spec_read_compressed_uint(old(self).buf(), old(self).pos()) is None ==> {
                &&& final(self).pos() == old(self).pos()
                &&& if old(self).pos() < old(self).buf().len()
                    && old(self).buf()[old(self).pos()] >= 0xE0 {
                    r == Err::<u32, Error>(
                        Error::InvalidData(old(self).pos() as usize, None),
                    )
                } else {
                    r == Err::<u32, Error>(
                        Error::UnexpectedEndOfStream(old(self).buf().len() as usize),
                    )
                }
            },
    {
        let len = self.bytes.len();
        if self.position >= len {
            return Err(Error::UnexpectedEndOfStream(len));
        }
        let b0 = *slice_index_get(self.bytes, self.position);
        if b0 < 0x80 {
            self.position = self.position + 1;
            Ok(b0 as u32)
        } else if b0 < 0xC0 {
            if 2 <= len - self.position {
                let b1 = *slice_index_get(self.bytes, self.position + 1);
                self.position = self.position + 2;
                Ok(((b0 % 0x40) as u32) * 0x100 + (b1 as u32))
            } else {
                Err(Error::UnexpectedEndOfStream(len))
            }
        } else if b0 < 0xE0 {
            if 4 <= len - self.position {
                let b1 = *slice_index_get(self.bytes, self.position + 1);
                let b2 = *slice_index_get(self.bytes, self.position + 2);
                let b3 = *slice_index_get(self.bytes, self.position + 3);
                self.position = self.position + 4;
                Ok(
                    ((b0 % 0x20) as u32) * 0x1000000 + (b1 as u32) * 0x10000 + (b2 as u32) * 0x100
                        + (b3 as u32),
                )
            } else {
                Err(Error::UnexpectedEndOfStream(len))
            }
        } else {
            Err(Error::InvalidData(self.position, None))
        }
    }
}

/// Encodes `v` in the canonical compressed form, or `None` when `v` passes
/// the largest encodable value `0x1FFFFFFF`.
pub fn encode_compressed_uint(v: u32) -> (r: Option<Vec<u8>>)
    ensures
        v <= 0x1FFFFFFF ==> (r matches Some(s) && s@ == spec_compressed_uint_encoding(v)),
        v > 0x1FFFFFFF ==> r is None,
{
    if v < 0x80 {
        let s: Vec<u8> = vec![v as u8];
        proof {
            assert(s@ =~= spec_compressed_uint_encoding(v));
        }
        Some(s)
    } else if v < 0x4000 {
        let s: Vec<u8> = vec![(0x80 + v / 0x100) as u8, (v % 0x100) as u8];
        proof {
            assert(s@ =~= spec_compressed_uint_encoding(v));
        }
        Some(s)
    } else if v <= 0x1FFFFFFF {
        let s: Vec<u8> = vec![
            (0xC0 + v / 0x1000000) as u8,
            ((v / 0x10000) % 0x100) as u8,
            ((v / 0x100) % 0x100) as u8,
            (v % 0x100) as u8,
        ];
        proof {
            assert(s@ =~= spec_compressed_uint_encoding(v));
        }
        Some(s)
    } else {
        None
    }
}

/// Relies on `std::str::from_utf8`: it succeeds exactly on valid UTF-8
/// input and returns the string slice over those same bytes.
#[verifier::external_body]
pub(crate) fn str_from_utf8<'a>(bytes: &'a [u8]) -> (r: Option<&'a str>)
    ensures
        r is Some <==> valid_utf8(bytes@),
        r matches Some(s) ==> s@ == decode_utf8(bytes@) && s.spec_bytes() == bytes@,
{
    std::str::from_utf8(bytes).ok()
}

} // verus!

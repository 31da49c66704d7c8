//! Typed accessors over the four data heaps: `#Strings`, `#US`, `#Blob`
//! and `#GUID`. Each wraps a borrowed slice of the image; lookups are
//! bounds-checked and yield borrowed views.

use vstd::prelude::*;
use vstd::slice::slice_subrange;
use vstd::utf8::{decode_utf8, valid_utf8};
use vstd::string::StringSliceAdditionalSpecFns;
use crate::cursor::{find_byte, spec_read_compressed_uint, str_from_utf8, ByteStream};
use crate::error::Error;

verus! {

/// The `#Strings` heap: concatenated NUL-terminated UTF-8 strings,
/// referenced by byte offset.
#[derive(Debug, Copy, Clone)]
pub struct StringHeap<'a> {
    bytes: &'a [u8],
}

impl<'a> StringHeap<'a> {
    /// The heap's bytes.
    pub closed spec fn src(self) -> Seq<u8> {
        self.bytes@
    }

    /// A string heap over the given stream bytes.
    pub fn new(bytes: &'a [u8]) -> (r: Self)
        ensures
            r.src() == bytes@,
    {
        Self { bytes }
    }

    /// The heap's bytes.
    pub fn bytes(&self) -> (r: &'a [u8])
        ensures
            r@ == self.src(),
    {
        self.bytes
    }

    /// The string starting at byte offset `index`: the bytes up to the
    /// next NUL (or the heap's end where none follows), decoded as UTF-8.
    /// Offset 0 yields the empty string of a well-formed heap.
    pub fn get_string(&self, index: u32) -> (r: Result<&'a str, Error>)
        ensures
            ({
                let b = self.src();
                let idx = index as int;
                &&& idx > b.len() ==> r == Err::<&'a str, Error>(
                    Error::InvalidData(index as usize, Some("string heap index")),
                )
                &&& idx <= b.len() ==> ({
                    let end = match find_byte(b, idx, 0) {
                        Some(i) => i,
                        None => b.len() as int,
                    };
                    let content = b.subrange(idx, end);
                    &&& valid_utf8(content) ==> (r matches Ok(s) && s@ == decode_utf8(content)
                        && s.spec_bytes() == content)
                    &&& !valid_utf8(content) ==> r == Err::<&'a str, Error>(
                        Error::InvalidData(index as usize, None),
                    )
                })
            }),
    {
        let len = self.bytes.len();
        if index as u64 > len as u64 {
            return Err(Error::InvalidData(index as usize, Some("string heap index")));
        }
        let start = index as usize;
        let mut c = ByteStream::new(self.bytes);
        match c.seek(start) {
            Ok(_) => {},
            Err(_) => {
                proof {
                    assert(false);
                }
                return Err(Error::InvalidData(index as usize, Some("string heap index")));
            },
        }
        proof {
            crate::cursor::lemma_find_byte_props(self.src(), start as int, 0);
        }
        let content: &'a [u8] = match c.read_u8_slice_until(0) {
            Ok(with_nul) => slice_subrange(with_nul, 0, with_nul.len() - 1),
            Err(_) => slice_subrange(self.bytes, start, len),
        };
        proof {
            let b = self.src();
            let end = match find_byte(b, start as int, 0) {
                Some(i) => i,
                None => b.len() as int,
            };
            assert(content@ =~= b.subrange(start as int, end));
        }
        match str_from_utf8(content) {
            Some(s) => Ok(s),
            None => Err(Error::InvalidData(index as usize, None)),
        }
    }
}

/// The `#GUID` heap: 16-byte GUIDs packed one after another, referenced
/// by 1-based index.
#[derive(Debug, Copy, Clone)]
pub struct GuidHeap<'a> {
    bytes: &'a [u8],
}

impl<'a> GuidHeap<'a> {
    /// The heap's bytes.
    pub closed spec fn src(self) -> Seq<u8> {
        self.bytes@
    }

    /// A GUID heap over the given stream bytes.
    pub fn new(bytes: &'a [u8]) -> (r: Self)
        ensures
            r.src() == bytes@,
    {
        Self { bytes }
    }

    /// The heap's bytes.
    pub fn bytes(&self) -> (r: &'a [u8])
        ensures
            r@ == self.src(),
    {
        self.bytes
    }

    /// The 16 bytes of the GUID with the given 1-based index; index 0
    /// means "absent".
    pub fn get_guid(&self, index: u32) -> (r: Result<Option<&'a [u8]>, Error>)
        ensures
            index == 0 ==> (r matches Ok(v) && v is None),
            index != 0 && 16 * index > self.src().len() ==> r == Err::<Option<&'a [u8]>, Error>(
                Error::InvalidData(index as usize, Some("GUID heap index")),
            ),
            index != 0 && 16 * index <= self.src().len() ==> (r matches Ok(v) && v matches Some(g)
                && g@ == self.src().subrange(16 * (index - 1), 16 * index)),
    {
        if index == 0 {
            return Ok(None);
        }
        let len = self.bytes.len();
        let end64 = 16u64 * index as u64;
        if end64 > len as u64 {
            return Err(Error::InvalidData(index as usize, Some("GUID heap index")));
        }
        let end = end64 as usize;
        let g = slice_subrange(self.bytes, end - 16, end);
        Ok(Some(g))
    }
}

/// The `#Blob` heap: length-prefixed byte sequences, referenced by byte
/// offset. The length prefix is the compressed-unsigned encoding.
#[derive(Debug, Copy, Clone)]
pub struct BlobHeap<'a> {
    bytes: &'a [u8],
}

impl<'a> BlobHeap<'a> {
    /// The heap's bytes.
    pub closed spec fn src(self) -> Seq<u8> {
        self.bytes@
    }

    /// A blob heap over the given stream bytes.
    pub fn new(bytes: &'a [u8]) -> (r: Self)
        ensures
            r.src() == bytes@,
    {
        Self { bytes }
    }

    /// The heap's bytes.
    pub fn bytes(&self) -> (r: &'a [u8])
        ensures
            r@ == self.src(),
    {
        self.bytes
    }

    /// The blob starting at byte offset `index`: its compressed length
    /// prefix is decoded and that many following bytes are returned.
    /// Offset 0 yields the empty blob.
    pub fn get_blob(&self, index: u32) -> (r: Result<&'a [u8], Error>)
        ensures
            ({
                let b = self.src();
                let idx = index as int;
                &&& index == 0 ==> (r matches Ok(s) && s@ == Seq::<u8>::empty())
                &&& index != 0 && idx > b.len() ==> r == Err::<&'a [u8], Error>(
                    Error::InvalidData(index as usize, Some("blob heap index")),
                )
                &&& index != 0 && idx <= b.len() ==> ({
                    match spec_read_compressed_uint(b, idx) {
                        Some(t) => {
                            &&& t.1 + t.0 <= b.len() ==> (r matches Ok(s) && s@ == b.subrange(
                                t.1,
                                t.1 + t.0,
                            ))
                            &&& t.1 + t.0 > b.len() ==> r == Err::<&'a [u8], Error>(
                                Error::UnexpectedEndOfStream(b.len() as usize),
                            )
                        },
                        None => if idx < b.len() && b[idx] >= 0xE0 {
                            r == Err::<&'a [u8], Error>(
                                Error::InvalidData(index as usize, None),
                            )
                        } else {
                            r == Err::<&'a [u8], Error>(
                                Error::UnexpectedEndOfStream(b.len() as usize),
                            )
                        },
                    }
                })
            }),
    {
        if index == 0 {
            let empty = slice_subrange(self.bytes, 0, 0);
            return Ok(empty);
        }
        let len = self.bytes.len();
        if index as u64 > len as u64 {
            return Err(Error::InvalidData(index as usize, Some("blob heap index")));
        }
        let mut c = ByteStream::new(self.bytes);
        match c.seek(index as usize) {
            Ok(_) => {},
            Err(_) => {
                proof {
                    assert(false);
                }
                return Err(Error::InvalidData(index as usize, Some("blob heap index")));
            },
        }
        let length = match c.read_compressed_uint() {
            Ok(v) => v,
            Err(e) => {
                return Err(
                    match e {
                        Error::InvalidData(_, lbl) => Error::InvalidData(index as usize, lbl),
                        other => other,
                    },
                );
            },
        };
        match c.read_slice(length as usize) {
            Ok(s) => Ok(s),
            Err(e) => Err(e),
        }
    }
}

/// The `#US` heap: length-prefixed user strings, structurally like the
/// blob heap and not decoded further here.
#[derive(Debug, Copy, Clone)]
pub struct UserStringHeap<'a> {
    bytes: &'a [u8],
}

impl<'a> UserStringHeap<'a> {
    /// The heap's bytes.
    pub closed spec fn src(self) -> Seq<u8> {
        self.bytes@
    }

    /// A user-string heap over the given stream bytes.
    pub fn new(bytes: &'a [u8]) -> (r: Self)
        ensures
            r.src() == bytes@,
    {
        Self { bytes }
    }

    /// The heap's bytes.
    pub fn bytes(&self) -> (r: &'a [u8])
        ensures
            r@ == self.src(),
    {
        self.bytes
    }
}

} // verus!

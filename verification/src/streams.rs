//! The metadata root: signature, version string, and the stream headers
//! that name the heaps (`#Strings`, `#US`, `#Blob`, `#GUID`, `#~`).

use vstd::prelude::*;
use vstd::slice::slice_subrange;
use vstd::utf8::{decode_utf8, valid_utf8};
use crate::cursor::{find_byte, le_u16_at, le_u32_at, ByteStream};
use crate::error::Error;
use crate::kinds::{heap_kind_name, HeapKind};

verus! {

/// One stream header of the metadata root: the stream's offset relative
/// to the root, its size, and its NUL-terminated name (stored here
/// without the terminator).
#[derive(Debug, Copy, Clone)]
pub struct StreamHeader<'a> {
    pub offset: u32,
    pub size: u32,
    pub name_bytes: &'a [u8],
}

/// The triple a stream header denotes, for specification purposes.
pub open spec fn spec_header_triple(h: StreamHeader) -> (u32, u32, Seq<u8>) {
    (h.offset, h.size, h.name_bytes@)
}

/// What parsing one stream header at `p` in `s` yields: offset, size,
/// name (without the NUL) and the position after the name's padding to
/// the next 4-byte boundary; `None` when the bytes run out.
pub open spec fn spec_stream_header(s: Seq<u8>, p: int) -> Option<(u32, u32, Seq<u8>, int)> {
    if p < 0 || p + 8 > s.len() {
        None
    } else {
        match find_byte(s, p + 8, 0) {
            None => None,
            Some(i) => {
                let nlen = i - (p + 8);
                let end = p + 8 + ((nlen + 4) / 4) * 4;
                if end > s.len() {
                    None
                } else {
                    Some(
                        (
                            le_u32_at(s, p) as u32,
                            le_u32_at(s, p + 4) as u32,
                            s.subrange(p + 8, i),
                            end,
                        ),
                    )
                }
            },
        }
    }
}

/// What parsing `n` consecutive stream headers at `p` in `s` yields: the
/// header triples and the position after the last one.
pub open spec fn spec_stream_headers(s: Seq<u8>, p: int, n: int) -> Option<
    (Seq<(u32, u32, Seq<u8>)>, int),
>
    decreases n,
{
    if n <= 0 {
        Some((Seq::empty(), p))
    } else {
        match spec_stream_header(s, p) {
            None => None,
            Some((off, size, nm, end)) => match spec_stream_headers(s, end, n - 1) {
                None => None,
                Some((rest, fin)) => Some((seq![(off, size, nm)] + rest, fin)),
            },
        }
    }
}

/// Parses one stream header: offset, size, NUL-terminated name, padding
/// to the next 4-byte boundary. The cursor always advances by a multiple
/// of 4 on success, so consecutive headers stay 4-byte-aligned.
pub fn parse_stream_header<'a>(c: &mut ByteStream<'a>) -> (r: Result<StreamHeader<'a>, Error>)
    requires
        old(c).wf(),
    ensures
        final(c).wf(),
        final(c).buf() == old(c).buf(),
        spec_stream_header(old(c).buf(), old(c).pos()) matches Some(t) ==> (r matches Ok(h)
            && h.offset == t.0 && h.size == t.1 && h.name_bytes@ == t.2 && final(c).pos() == t.3
            && (t.3 - old(c).pos()) % 4 == 0),
        spec_stream_header(old(c).buf(), old(c).pos()) is None ==> r == Err::<
            StreamHeader<'a>,
            Error,
        >(Error::UnexpectedEndOfStream(old(c).buf().len() as usize)),
{
    let len = c.bytes().len();
    let ghost p = old(c).pos();
    if c.remaining() < 8 {
        return Err(Error::UnexpectedEndOfStream(len));
    }
    let offset = match c.read_u32() {
        Ok(v) => v,
        Err(e) => { return Err(e); },
    };
    let size = match c.read_u32() {
        Ok(v) => v,
        Err(e) => { return Err(e); },
    };
    let with_nul = match c.read_u8_slice_until(0) {
        Ok(v) => v,
        Err(_) => {
            return Err(Error::UnexpectedEndOfStream(len));
        },
    };
    proof {
        crate::cursor::lemma_find_byte_props(old(c).buf(), p + 8, 0);
    }
    let name_bytes = slice_subrange(with_nul, 0, with_nul.len() - 1);
    let nlen = name_bytes.len();
    let pad = (4 - ((nlen + 1) % 4)) % 4;
    match c.skip(pad) {
        Ok(_) => {},
        Err(_) => {
            return Err(Error::UnexpectedEndOfStream(len));
        },
    }
    proof {
        let i = find_byte(old(c).buf(), p + 8, 0)->Some_0;
        assert(name_bytes@ =~= old(c).buf().subrange(p + 8, i));
        assert((i + 1 - (p + 8)) + ((4 - ((nlen as int + 1) % 4)) % 4) == (((i - (p + 8)) + 4) / 4)
            * 4);
    }
    Ok(StreamHeader { offset, size, name_bytes })
}

/// The first header (from `i` on) whose name is `name`, if any.
pub open spec fn spec_find_stream(
    hdrs: Seq<(u32, u32, Seq<u8>)>,
    name: Seq<u8>,
    i: int,
) -> Option<int>
    decreases hdrs.len() - i,
{
    if i < 0 || i >= hdrs.len() {
        None
    } else if hdrs[i].2 == name {
        Some(i)
    } else {
        spec_find_stream(hdrs, name, i + 1)
    }
}

/// What parsing a metadata root (given as the image's suffix from the
/// root offset on) yields: major, minor, declared version length, the
/// version string's characters, flags, stream count and the stream-header
/// triples - or the error the decode stops with.
pub open spec fn spec_metadata_root(s: Seq<u8>) -> Result<
    (u16, u16, u32, Seq<char>, u16, u16, Seq<(u32, u32, Seq<u8>)>),
    Error,
> {
    if s.len() < 16 {
        Err(Error::UnexpectedEndOfStream(s.len() as usize))
    } else if le_u32_at(s, 0) != 0x424A5342 {
        Err(Error::InvalidData(0, Some("metadata signature")))
    } else {
        let length = le_u32_at(s, 12);
        match find_byte(s, 16, 0) {
            None => Err(Error::UnexpectedEndOfStream(s.len() as usize)),
            Some(i) => {
                let vbytes = s.subrange(16, i);
                if !valid_utf8(vbytes) {
                    Err(Error::InvalidData(16, None))
                } else if length % 4 != 0 || i + 1 - 16 > length {
                    Err(Error::InvalidData(12, Some("version length")))
                } else if 16 + length + 4 > s.len() {
                    Err(Error::UnexpectedEndOfStream(s.len() as usize))
                } else {
                    let q = 16 + length;
                    match spec_stream_headers(s, q + 4, le_u16_at(s, q + 2)) {
                        None => Err(Error::UnexpectedEndOfStream(s.len() as usize)),
                        Some((hdrs, _end)) => Ok(
                            (
                                le_u16_at(s, 4) as u16,
                                le_u16_at(s, 6) as u16,
                                length as u32,
                                decode_utf8(vbytes),
                                le_u16_at(s, q) as u16,
                                le_u16_at(s, q + 2) as u16,
                                hdrs,
                            ),
                        ),
                    }
                }
            },
        }
    }
}

/// The parsed metadata root: its fixed fields, the version string, and
/// the stream headers, all borrowed from the image.
#[derive(Debug)]
pub struct MetadataHeader<'a> {
    /// The signature, `0x424A5342` after a successful parse.
    pub signature: u32,
    pub major_version: u16,
    pub minor_version: u16,
    /// The declared (padded) length of the version string field.
    pub length: u32,
    /// The version string, without its NUL terminator and padding.
    pub version: &'a str,
    pub flags: u16,
    pub stream_count: u16,
    offset: usize,
    bytes: &'a [u8],
    headers: Vec<StreamHeader<'a>>,
}

impl<'a> MetadataHeader<'a> {
    /// The whole image.
    pub closed spec fn spec_image(self) -> Seq<u8> {
        self.bytes@
    }

    /// The metadata root's offset within the image.
    pub closed spec fn spec_offset(self) -> int {
        self.offset as int
    }

    /// The image's suffix from the root offset on.
    pub open spec fn spec_root(self) -> Seq<u8> {
        self.spec_image().subrange(self.spec_offset(), self.spec_image().len() as int)
    }

    /// The stream-header triples.
    pub closed spec fn spec_headers(self) -> Seq<(u32, u32, Seq<u8>)> {
        Seq::new(self.headers@.len(), |i: int| spec_header_triple(self.headers@[i]))
    }

    /// Well-formedness: the stored fields are what parsing the root
    /// yields.
    pub closed spec fn wf(self) -> bool {
        &&& self.spec_offset() <= self.spec_image().len()
        &&& spec_metadata_root(self.spec_root()) matches Ok(t) && self.major_version == t.0
            && self.minor_version == t.1 && self.length == t.2 && self.version@ == t.3
            && self.flags == t.4 && self.stream_count == t.5 && self.spec_headers() == t.6
            && self.signature == 0x424A5342
    }

    /// A well-formed header's stored fields are what parsing the root
    /// yields.
    pub proof fn lemma_wf_bindings(self)
        requires
            self.wf(),
        ensures
            0 <= self.spec_offset() <= self.spec_image().len(),
            spec_metadata_root(self.spec_root()) matches Ok(t) && self.spec_headers() == t.6,
    {
    }

    /// Parses the metadata root found at `offset` in `bytes`: validates
    /// the signature, reads the padded version string, and collects the
    /// stream headers.
    pub fn new(bytes: &'a [u8], offset: usize) -> (r: Result<MetadataHeader<'a>, Error>)
        ensures
            offset > bytes@.len() ==> r == Err::<MetadataHeader<'a>, Error>(
                Error::OffsetOutOfBounds(offset),
            ),
            offset <= bytes@.len() ==> {
                let root = bytes@.subrange(offset as int, bytes@.len() as int);
                &&& (r is Ok <==> spec_metadata_root(root) is Ok)
                &&& (r matches Ok(h) ==> (h.wf() && h.spec_image() == bytes@ && h.spec_offset()
                    == offset))
                &&& (r matches Err(e) ==> Err::<
                    (u16, u16, u32, Seq<char>, u16, u16, Seq<(u32, u32, Seq<u8>)>),
                    Error,
                >(e) == spec_metadata_root(root))
            },
    {
        if offset > bytes.len() {
            return Err(Error::OffsetOutOfBounds(offset));
        }
        let root: &'a [u8] = slice_subrange(bytes, offset, bytes.len());
        let rlen = root.len();
        let mut c = ByteStream::new(root);
        if rlen < 16 {
            return Err(Error::UnexpectedEndOfStream(rlen));
        }
        let signature = match c.read_u32() {
            Ok(v) => v,
            Err(e) => { return Err(e); },
        };
        if signature != 0x424A5342 {
            return Err(Error::InvalidData(0, Some("metadata signature")));
        }
        let major_version = match c.read_u16() {
            Ok(v) => v,
            Err(e) => { return Err(e); },
        };
        let minor_version = match c.read_u16() {
            Ok(v) => v,
            Err(e) => { return Err(e); },
        };
        match c.skip(4) {
            Ok(_) => {},
            Err(e) => { return Err(e); },
        }
        let length = match c.read_u32() {
            Ok(v) => v,
            Err(e) => { return Err(e); },
        };
        let version = match c.read_null_terminated_str() {
            Ok(v) => v,
            Err(e) => {
                proof {
                    crate::cursor::lemma_find_byte_props(root@, 16, 0);
                }
                return Err(e);
            },
        };
        proof {
            crate::cursor::lemma_find_byte_props(root@, 16, 0);
        }
        let vlen = version.len();
        if length % 4 != 0 || vlen as u64 + 1 > length as u64 {
            return Err(Error::InvalidData(12, Some("version length")));
        }
        // Skip the version field's padding up to its declared length.
        let consumed = vlen + 1;
        match c.seek(16) {
            Ok(_) => {},
            Err(_) => { return Err(Error::UnexpectedEndOfStream(rlen)); },
        }
        if length as u64 + 16 + 4 > rlen as u64 {
            return Err(Error::UnexpectedEndOfStream(rlen));
        }
        match c.skip(length as usize) {
            Ok(_) => {},
            Err(_) => { return Err(Error::UnexpectedEndOfStream(rlen)); },
        }
        let flags = match c.read_u16() {
            Ok(v) => v,
            Err(_) => { return Err(Error::UnexpectedEndOfStream(rlen)); },
        };
        let stream_count = match c.read_u16() {
            Ok(v) => v,
            Err(_) => { return Err(Error::UnexpectedEndOfStream(rlen)); },
        };
        let ghost q = 16 + length as int;
        let mut headers: Vec<StreamHeader<'a>> = Vec::new();
        let mut i: usize = 0;
        let n = stream_count as usize;
        proof {
            assert(spec_stream_headers(root@, q + 4, n as int) is None ==> spec_metadata_root(
                root@,
            ) == Err::<(u16, u16, u32, Seq<char>, u16, u16, Seq<(u32, u32, Seq<u8>)>), Error>(
                Error::UnexpectedEndOfStream(rlen as usize),
            ));
            assert(spec_stream_headers(root@, q + 4, n as int) is Some ==> spec_metadata_root(
                root@,
            ) == Ok::<(u16, u16, u32, Seq<char>, u16, u16, Seq<(u32, u32, Seq<u8>)>), Error>(
                (
                    major_version,
                    minor_version,
                    length,
                    version@,
                    flags,
                    stream_count,
                    spec_stream_headers(root@, q + 4, n as int)->Some_0.0,
                ),
            ));
        }
        while i < n
            invariant
                c.wf(),
                c.buf() == root@,
                offset <= bytes@.len(),
                root@ == bytes@.subrange(offset as int, bytes@.len() as int),
                rlen == root@.len(),
                0 <= i <= n,
                headers@.len() == i,
                spec_stream_headers(root@, q + 4, n as int) is None ==> spec_metadata_root(root@)
                    == Err::<(u16, u16, u32, Seq<char>, u16, u16, Seq<(u32, u32, Seq<u8>)>), Error>(
                    Error::UnexpectedEndOfStream(rlen as usize),
                ),
                spec_stream_headers(root@, q + 4, n as int) is Some ==> spec_metadata_root(root@)
                    == Ok::<(u16, u16, u32, Seq<char>, u16, u16, Seq<(u32, u32, Seq<u8>)>), Error>(
                    (
                        major_version,
                        minor_version,
                        length,
                        version@,
                        flags,
                        stream_count,
                        spec_stream_headers(root@, q + 4, n as int)->Some_0.0,
                    ),
                ),
                spec_stream_headers(root@, q + 4, n as int) matches Some(t)
                    ==> (spec_stream_headers(root@, c.pos(), n - i as int) matches Some(u)
                    && t.0 == Seq::new(i as nat, |j: int| spec_header_triple(headers@[j])) + u.0
                    && t.1 == u.1),
                spec_stream_headers(root@, q + 4, n as int) is None ==> spec_stream_headers(
                    root@,
                    c.pos(),
                    n - i as int,
                ) is None,
            decreases n - i,
        {
            let h = match parse_stream_header(&mut c) {
                Ok(h) => h,
                Err(e) => {
                    return Err(Error::UnexpectedEndOfStream(rlen));
                },
            };
            headers.push(h);
            i = i + 1;
            proof {
                if spec_stream_headers(root@, q + 4, n as int) matches Some(t) {
                    assert(Seq::new(i as nat, |j: int| spec_header_triple(headers@[j])) =~= Seq::new(
                        (i - 1) as nat,
                        |j: int| spec_header_triple(headers@.take(i - 1)[j]),
                    ).push(spec_header_triple(headers@[i - 1])));
                    assert(spec_stream_headers(root@, q + 4, n as int) matches Some(t2)
                        ==> t2.0 == Seq::new(i as nat, |j: int| spec_header_triple(headers@[j]))
                        + spec_stream_headers(root@, c.pos(), n - i as int)->Some_0.0);
                }
            }
        }
        let mh = MetadataHeader {
            signature,
            major_version,
            minor_version,
            length,
            version,
            flags,
            stream_count,
            offset,
            bytes,
            headers,
        };
        proof {
            let sh = spec_stream_headers(root@, q + 4, n as int);
            if sh is Some {
                assert(mh.spec_headers() =~= sh->Some_0.0);
            }
        }
        Ok(mh)
    }

    /// The parsed stream headers, in file order.
    pub fn stream_headers(&self) -> (r: &Vec<StreamHeader<'a>>)
        requires
            self.wf(),
        ensures
            r@.len() == self.spec_headers().len(),
            forall|j: int|
                0 <= j < r@.len() ==> spec_header_triple(r@[j]) == self.spec_headers()[j],
    {
        &self.headers
    }

    /// The bytes of the named stream: the image slice that the first
    /// header with that name points at. `Ok(None)` when no header has the
    /// name, `UnexpectedEndOfStream` when the header points past the
    /// image.
    pub fn get_stream_bytes(&self, kind: HeapKind) -> (r: Result<Option<&'a [u8]>, Error>)
        requires
            self.wf(),
        ensures
            ({
                let f = spec_find_stream(self.spec_headers(), heap_kind_name(kind), 0);
                &&& f is None ==> (r matches Ok(v) && v is None)
                &&& f matches Some(j) ==> ({
                    let off = self.spec_headers()[j].0;
                    let size = self.spec_headers()[j].1;
                    &&& self.spec_offset() + off + size <= self.spec_image().len() ==> (
                    r matches Ok(v) && v matches Some(b) && b@ == self.spec_image().subrange(
                        self.spec_offset() + off,
                        self.spec_offset() + off + size,
                    ))
                    &&& self.spec_offset() + off + size > self.spec_image().len() ==> r == Err::<
                        Option<&'a [u8]>,
                        Error,
                    >(Error::UnexpectedEndOfStream(self.spec_image().len() as usize))
                })
            }),
    {
        let n = self.headers.len();
        let mut i: usize = 0;
        while i < n
            invariant
                self.wf(),
                n == self.headers@.len(),
                0 <= i <= n,
                spec_find_stream(self.spec_headers(), heap_kind_name(kind), 0)
                    == spec_find_stream(self.spec_headers(), heap_kind_name(kind), i as int),
            decreases n - i,
        {
            let h = &self.headers[i];
            if bytes_eq(h.name_bytes, kind.name_bytes().as_slice()) {
                let len = self.bytes.len();
                let avail = len - self.offset;
                if h.offset as u64 + h.size as u64 > avail as u64 {
                    return Err(Error::UnexpectedEndOfStream(len));
                }
                let start = self.offset + h.offset as usize;
                let end = start + h.size as usize;
                let b = slice_subrange(self.bytes, start, end);
                return Ok(Some(b));
            }
            i = i + 1;
        }
        Ok(None)
    }
}

/// Whether two byte slices hold the same bytes.
pub fn bytes_eq(a: &[u8], b: &[u8]) -> (r: bool)
    ensures
        r == (a@ == b@),
{
    if a.len() != b.len() {
        proof {
            assert(a@.len() != b@.len());
        }
        return false;
    }
    let n = a.len();
    let mut i: usize = 0;
    while i < n
        invariant
            n == a@.len(),
            n == b@.len(),
            0 <= i <= n,
            forall|j: int| 0 <= j < i ==> a@[j] == b@[j],
        decreases n - i,
    {
        if *vstd::slice::slice_index_get(a, i) != *vstd::slice::slice_index_get(b, i) {
            return false;
        }
        i = i + 1;
    }
    proof {
        assert(a@ =~= b@);
    }
    true
}

} // verus!

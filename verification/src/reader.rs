//! The image facade: opening a buffer walks the DOS stub, PE headers,
//! section table and CLI header to the metadata root, and hands out the
//! heaps; a reader over the heaps decodes the assembly identity, its
//! references and its type definitions.

use vstd::prelude::*;
use crate::cursor::{le_u16_at, le_u32_at, ByteStream};
use crate::error::Error;
use crate::heaps::{BlobHeap, StringHeap};
use crate::kinds::HeapKind;
use crate::pe::{
    resolve_rva, spec_cli_header_at, spec_cli_header_check, spec_data_directory_at,
    spec_dirs_offset, spec_find_section, spec_nt_fields_at, spec_opt_header_check,
    spec_opt_header_size, spec_pe_header_at, spec_pe_header_check, spec_section_at,
    spec_section_check, spec_standard_fields_at, CliHeader, PeHeader, PeOptionalHeader,
    SectionHeader,
};
use crate::assembly::{AssemblyName, AssemblyRefInfo, AssemblyVersion, TypeData};
use crate::indices::{spec_coded_decode, spec_token_value, MetadataToken};
use crate::kinds::TableKind;
use crate::streams::MetadataHeader;
use crate::tables::TableHeap;

verus! {

/// The file offset an RVA maps to through a section table, if a section
/// covers it.
pub open spec fn spec_resolved_rva(sections: Seq<SectionHeader>, rva: u32) -> Option<int> {
    match spec_find_section(sections, rva, 0) {
        Some(i) => Some(
            rva - sections[i].virtual_address + sections[i].pointer_to_raw_data,
        ),
        None => None,
    }
}

/// The section table of an image whose PE signature is at `p`: `n`
/// 40-byte entries right after the optional header.
pub open spec fn spec_image_sections(s: Seq<u8>, p: int) -> Seq<SectionHeader> {
    let q = p + 24;
    let pe64 = le_u16_at(s, q) == 0x20B;
    let st = q + spec_opt_header_size(pe64);
    Seq::new(
        spec_pe_header_at(s, p).number_of_sections as nat,
        |i: int| spec_section_at(s, st + 40 * i),
    )
}

/// Whether the PE file header and optional header parse: the `lfanew`
/// slot is readable and both headers lie within the buffer (and pass the
/// strict checks where asked).
pub open spec fn spec_headers_ok(s: Seq<u8>, strict: bool) -> bool {
    &&& 0x40 <= s.len()
    &&& le_u32_at(s, 0x3C) <= s.len()
    &&& ({
        let p = le_u32_at(s, 0x3C);
        let q = p + 24;
        &&& p + 24 <= s.len()
        &&& le_u32_at(s, p) == 0x4550
        &&& (strict ==> spec_pe_header_check(s, p) is None)
        &&& (le_u16_at(s, q) == 0x10B || le_u16_at(s, q) == 0x20B)
        &&& q + spec_opt_header_size(le_u16_at(s, q) == 0x20B) <= s.len()
        &&& (strict ==> spec_opt_header_check(s, q, le_u16_at(s, q) == 0x20B) is None)
    })
}

/// Whether, after the headers, the section table lies within the buffer
/// (passing the strict checks where asked).
pub open spec fn spec_sections_ok(s: Seq<u8>, strict: bool) -> bool {
    let p = le_u32_at(s, 0x3C);
    let q = p + 24;
    let pe64 = le_u16_at(s, q) == 0x20B;
    let st = q + spec_opt_header_size(pe64);
    let n = spec_pe_header_at(s, p).number_of_sections as int;
    &&& st + 40 * n <= s.len()
    &&& (strict ==> forall|i: int|
        0 <= i < n ==> (#[trigger] spec_section_check(s, st + 40 * i)) is None)
}

/// Whether data directory 14 resolves through the section table to a CLI
/// header within the buffer (passing the strict checks where asked).
pub open spec fn spec_cli_hdr_ok(s: Seq<u8>, strict: bool) -> bool {
    let p = le_u32_at(s, 0x3C);
    let q = p + 24;
    let pe64 = le_u16_at(s, q) == 0x20B;
    let sections = spec_image_sections(s, p);
    let cli_rva = spec_data_directory_at(s, q + spec_dirs_offset(pe64) + 8 * 14).rva;
    &&& spec_resolved_rva(sections, cli_rva) is Some
    &&& spec_resolved_rva(sections, cli_rva)->Some_0 <= usize::MAX
    &&& spec_resolved_rva(sections, cli_rva)->Some_0 + 72 <= s.len()
    &&& (strict ==> spec_cli_header_check(
        s,
        spec_resolved_rva(sections, cli_rva)->Some_0,
    ) is None)
}

/// Whether, after the headers, the section table and the CLI header are
/// both in reach.
pub open spec fn spec_cli_ok(s: Seq<u8>, strict: bool) -> bool {
    spec_sections_ok(s, strict) && spec_cli_hdr_ok(s, strict)
}

/// Whether locating the CLI header succeeds: the headers parse and the
/// section table leads to a CLI header within the buffer.
pub open spec fn spec_locate_ok(s: Seq<u8>, strict: bool) -> bool {
    spec_headers_ok(s, strict) && spec_cli_ok(s, strict)
}

/// The error the header walk stops with, where it fails: fields are
/// read and checked in order, so the first fault decides.
#[verifier::opaque]
pub open spec fn spec_headers_error(s: Seq<u8>, strict: bool) -> Error {
    let len = s.len() as usize;
    if 0x3C > s.len() {
        Error::OffsetOutOfBounds(0x3C)
    } else if 0x40 > s.len() {
        Error::UnexpectedEndOfStream(len)
    } else {
        let p = le_u32_at(s, 0x3C);
        if p > s.len() {
            Error::OffsetOutOfBounds(p as usize)
        } else if p + 4 > s.len() {
            Error::UnexpectedEndOfStream(len)
        } else if le_u32_at(s, p) != 0x4550 {
            Error::InvalidData(p as usize, Some("PE signature"))
        } else if p + 24 > s.len() {
            Error::UnexpectedEndOfStream(len)
        } else if strict && spec_pe_header_check(s, p) is Some {
            spec_pe_header_check(s, p)->Some_0
        } else {
            let q = p + 24;
            if q + 2 > s.len() {
                Error::UnexpectedEndOfStream(len)
            } else if le_u16_at(s, q) != 0x10B && le_u16_at(s, q) != 0x20B {
                Error::InvalidData(q as usize, Some("optional header magic"))
            } else if q + spec_opt_header_size(le_u16_at(s, q) == 0x20B) > s.len() {
                Error::UnexpectedEndOfStream(len)
            } else if strict && spec_opt_header_check(s, q, le_u16_at(s, q) == 0x20B) is Some {
                spec_opt_header_check(s, q, le_u16_at(s, q) == 0x20B)->Some_0
            } else {
                Error::UnexpectedEndOfStream(len)
            }
        }
    }
}

/// The error resolving and parsing the CLI header stops with, where it
/// fails after the headers and section table were read.
#[verifier::opaque]
pub open spec fn spec_cli_error(s: Seq<u8>, strict: bool) -> Error {
    let len = s.len() as usize;
    let p = le_u32_at(s, 0x3C);
    let q = p + 24;
    let pe64 = le_u16_at(s, q) == 0x20B;
    let sections = spec_image_sections(s, p);
    let cli_rva = spec_data_directory_at(s, q + spec_dirs_offset(pe64) + 8 * 14).rva;
    match spec_find_section(sections, cli_rva, 0) {
        None => Error::OffsetOutOfBounds(cli_rva as usize),
        Some(_) => {
            let off = spec_resolved_rva(sections, cli_rva)->Some_0;
            if off > usize::MAX {
                Error::OffsetOutOfBounds(cli_rva as usize)
            } else if off > s.len() {
                Error::OffsetOutOfBounds(off as usize)
            } else if off + 72 > s.len() {
                Error::UnexpectedEndOfStream(len)
            } else if strict && spec_cli_header_check(s, off) is Some {
                spec_cli_header_check(s, off)->Some_0
            } else {
                Error::UnexpectedEndOfStream(len)
            }
        },
    }
}

/// The error the whole walk to the CLI header stops with, where it
/// fails.
#[verifier::opaque]
pub open spec fn spec_locate_error(s: Seq<u8>, strict: bool) -> Error {
    if !spec_headers_ok(s, strict) {
        spec_headers_error(s, strict)
    } else if !spec_sections_ok(s, strict) {
        let p = le_u32_at(s, 0x3C);
        let q = p + 24;
        let pe64 = le_u16_at(s, q) == 0x20B;
        let st = q + spec_opt_header_size(pe64);
        let n = spec_pe_header_at(s, p).number_of_sections as int;
        match crate::pe::spec_section_table_error(s, st, n, strict) {
            Some(e) => e,
            None => spec_headers_error(s, strict),
        }
    } else {
        spec_cli_error(s, strict)
    }
}

/// The error opening an image stops with, where it fails: the walk to
/// the CLI header, then resolving the metadata directory, then parsing
/// the metadata root.
#[verifier::opaque]
pub open spec fn spec_open_error(s: Seq<u8>, strict: bool) -> Error {
    if !spec_locate_ok(s, strict) {
        spec_locate_error(s, strict)
    } else {
        let len = s.len() as usize;
        let p = le_u32_at(s, 0x3C);
        let sections = spec_image_sections(s, p);
        let md_rva = spec_cli_header_at(s, spec_cli_offset(s)).metadata.rva;
        match spec_find_section(sections, md_rva, 0) {
            None => Error::OffsetOutOfBounds(md_rva as usize),
            Some(_) => {
                let md = spec_resolved_rva(sections, md_rva)->Some_0;
                if md > usize::MAX {
                    Error::OffsetOutOfBounds(md_rva as usize)
                } else if md > s.len() {
                    Error::OffsetOutOfBounds(md as usize)
                } else {
                    match crate::streams::spec_metadata_root(s.subrange(md, s.len() as int)) {
                        Err(e) => e,
                        Ok(_) => Error::UnexpectedEndOfStream(len),
                    }
                }
            },
        }
    }
}

/// The CLI header's file offset, where [`spec_locate_ok`] holds.
pub open spec fn spec_cli_offset(s: Seq<u8>) -> int {
    let p = le_u32_at(s, 0x3C);
    let q = p + 24;
    let pe64 = le_u16_at(s, q) == 0x20B;
    spec_resolved_rva(
        spec_image_sections(s, p),
        spec_data_directory_at(s, q + spec_dirs_offset(pe64) + 8 * 14).rva,
    )->Some_0
}

/// Whether opening an image succeeds: the CLI header is located and its
/// metadata directory resolves to a parseable metadata root.
#[verifier::opaque]
pub open spec fn spec_open_ok(s: Seq<u8>, strict: bool) -> bool {
    &&& spec_locate_ok(s, strict)
    &&& ({
        let p = le_u32_at(s, 0x3C);
        let md_rva = spec_cli_header_at(s, spec_cli_offset(s)).metadata.rva;
        let md = spec_resolved_rva(spec_image_sections(s, p), md_rva);
        &&& md is Some
        &&& md->Some_0 <= usize::MAX
        &&& md->Some_0 <= s.len()
        &&& crate::streams::spec_metadata_root(s.subrange(md->Some_0, s.len() as int)) is Ok
    })
}

/// The metadata root's file offset within an image: where the CLI
/// header's metadata directory resolves to.
pub open spec fn spec_image_metadata_offset(s: Seq<u8>) -> int {
    spec_resolved_rva(
        spec_image_sections(s, le_u32_at(s, 0x3C)),
        spec_cli_header_at(s, spec_cli_offset(s)).metadata.rva,
    )->Some_0
}

/// The bytes of the named stream of an image's metadata root, where the
/// root parses, a header carries the stream's name, and the stream lies
/// within the image.
#[verifier::opaque]
pub open spec fn spec_image_stream(s: Seq<u8>, kind: HeapKind) -> Option<Seq<u8>> {
    let md = spec_image_metadata_offset(s);
    match crate::streams::spec_metadata_root(s.subrange(md, s.len() as int)) {
        Ok(t) => match crate::streams::spec_find_stream(
            t.6,
            crate::kinds::heap_kind_name(kind),
            0,
        ) {
            Some(j) => if md + t.6[j].0 + t.6[j].1 <= s.len() {
                Some(s.subrange(md + t.6[j].0, md + t.6[j].0 + t.6[j].1))
            } else {
                None
            },
            None => None,
        },
        Err(_) => None,
    }
}

/// An opened image: the PE headers, section table, CLI header and the
/// parsed metadata root, all borrowing the input buffer.
#[derive(Debug)]
pub struct Assembly<'a> {
    bytes: &'a [u8],
    pe_header: PeHeader,
    pe_optional_header: PeOptionalHeader,
    sections: Vec<SectionHeader>,
    cli_header: CliHeader,
    metadata_header: MetadataHeader<'a>,
}

impl<'a> Assembly<'a> {
    /// The image's bytes.
    pub closed spec fn spec_image(self) -> Seq<u8> {
        self.bytes@
    }

    /// The PE signature's file offset.
    pub open spec fn spec_pe_start(self) -> int {
        le_u32_at(self.spec_image(), 0x3C)
    }

    /// Whether this image uses the PE32+ layout.
    pub open spec fn spec_pe64(self) -> bool {
        le_u16_at(self.spec_image(), self.spec_pe_start() + 24) == 0x20B
    }

    /// The metadata root's file offset.
    pub open spec fn spec_metadata_offset(self) -> int {
        spec_image_metadata_offset(self.spec_image())
    }

    /// The parsed metadata root, as a specification value.
    pub closed spec fn spec_metadata(self) -> MetadataHeader<'a> {
        self.metadata_header
    }

    /// Well-formedness: every stored part is what decoding the image
    /// yields.
    pub closed spec fn wf(self) -> bool {
        let s = self.spec_image();
        let p = self.spec_pe_start();
        let pe64 = self.spec_pe64();
        &&& self.pe_header == spec_pe_header_at(s, p)
        &&& self.pe_optional_header.standard_fields == spec_standard_fields_at(s, p + 24, pe64)
        &&& self.pe_optional_header.nt_specific_fields == spec_nt_fields_at(s, p + 24, pe64)
        &&& self.pe_optional_header.data_directories@ == crate::pe::spec_data_directories_at(
            s,
            p + 24,
            pe64,
        )
        &&& self.sections@ == spec_image_sections(s, p)
        &&& self.cli_header == spec_cli_header_at(s, spec_cli_offset(s))
        &&& self.metadata_header.wf()
        &&& self.metadata_header.spec_image() == s
        &&& self.metadata_header.spec_offset() == self.spec_metadata_offset()
    }

    /// Opens an image: walks `lfanew` to the PE headers, the section
    /// table and the CLI header, and parses the metadata root that its
    /// metadata directory points at.
    pub fn open(bytes: &'a [u8], strict: bool) -> (r: Result<Assembly<'a>, Error>)
        ensures
            r is Ok <==> spec_open_ok(bytes@, strict),
            r matches Err(e) ==> e == spec_open_error(bytes@, strict),
            r matches Ok(a) ==> (a.wf() && a.spec_image() == bytes@),
    {
        proof {
            reveal(spec_open_ok);
            reveal(spec_open_error);
        }
        let (pe_header, pe_optional_header, sections, cli_header) = match locate_cli(
            bytes,
            strict,
        ) {
            Ok(v) => v,
            Err(e) => {
                return Err(e);
            },
        };
        let metadata_offset = match resolve_rva(cli_header.metadata.rva, &sections) {
            Ok(v) => v,
            Err(e) => {
                return Err(e);
            },
        };
        if metadata_offset > bytes.len() {
            return Err(Error::OffsetOutOfBounds(metadata_offset));
        }
        let metadata_header = match MetadataHeader::new(bytes, metadata_offset) {
            Ok(h) => h,
            Err(e) => {
                return Err(e);
            },
        };
        Ok(Assembly {
            bytes,
            pe_header,
            pe_optional_header,
            sections,
            cli_header,
            metadata_header,
        })
    }

    /// The image's bytes.
    pub fn bytes(&self) -> (r: &'a [u8])
        ensures
            r@ == self.spec_image(),
    {
        self.bytes
    }

    /// The PE file header.
    pub fn pe_header(&self) -> (r: &PeHeader)
        requires
            self.wf(),
        ensures
            *r == spec_pe_header_at(self.spec_image(), self.spec_pe_start()),
    {
        &self.pe_header
    }

    /// The PE optional header.
    pub fn pe_optional_header(&self) -> (r: &PeOptionalHeader)
        requires
            self.wf(),
        ensures
            r.standard_fields == spec_standard_fields_at(
                self.spec_image(),
                self.spec_pe_start() + 24,
                self.spec_pe64(),
            ),
            r.nt_specific_fields == spec_nt_fields_at(
                self.spec_image(),
                self.spec_pe_start() + 24,
                self.spec_pe64(),
            ),
    {
        &self.pe_optional_header
    }

    /// The section table.
    pub fn sections(&self) -> (r: &Vec<SectionHeader>)
        requires
            self.wf(),
        ensures
            r@ == spec_image_sections(self.spec_image(), self.spec_pe_start()),
    {
        &self.sections
    }

    /// The CLI header.
    pub fn cli_header(&self) -> (r: &CliHeader)
        requires
            self.wf(),
        ensures
            *r == spec_cli_header_at(self.spec_image(), spec_cli_offset(self.spec_image())),
    {
        &self.cli_header
    }

    /// The parsed metadata root.
    pub fn metadata_header(&self) -> (r: &MetadataHeader<'a>)
        requires
            self.wf(),
        ensures
            r.wf(),
            r.spec_image() == self.spec_image(),
            r.spec_offset() == self.spec_metadata_offset(),
    {
        &self.metadata_header
    }

    /// The bytes of the named heap, or `None` where the image lacks it.
    pub fn get_heap(&self, kind: HeapKind) -> (r: Result<Option<&'a [u8]>, Error>)
        requires
            self.wf(),
        ensures
            ({
                let f = crate::streams::spec_find_stream(
                    self.spec_metadata().spec_headers(),
                    crate::kinds::heap_kind_name(kind),
                    0,
                );
                &&& f is None ==> (r matches Ok(v) && v is None)
                &&& f matches Some(j) ==> ({
                    let off = self.spec_metadata().spec_headers()[j].0;
                    let size = self.spec_metadata().spec_headers()[j].1;
                    &&& self.spec_metadata_offset() + off + size <= self.spec_image().len() ==> (
                    r matches Ok(v) && v matches Some(b) && b@ == self.spec_image().subrange(
                        self.spec_metadata_offset() + off,
                        self.spec_metadata_offset() + off + size,
                    ))
                    &&& self.spec_metadata_offset() + off + size > self.spec_image().len() ==> r
                        == Err::<Option<&'a [u8]>, Error>(
                        Error::UnexpectedEndOfStream(self.spec_image().len() as usize),
                    )
                })
            }),
    {
        self.metadata_header.get_stream_bytes(kind)
    }
}


/// Reads the `lfanew` slot and parses the PE file header and optional
/// header behind it.
#[verifier::rlimit(100)]
#[verifier::spinoff_prover]
fn read_pe_headers<'a>(bytes: &'a [u8], strict: bool) -> (r: Result<
    (PeHeader, PeOptionalHeader),
    Error,
>)
    ensures
        r is Ok <==> spec_headers_ok(bytes@, strict),
        r matches Err(e) ==> e == spec_headers_error(bytes@, strict),
        r matches Ok(t) ==> ({
            let s = bytes@;
            let p = le_u32_at(s, 0x3C);
            let q = p + 24;
            let pe64 = le_u16_at(s, q) == 0x20B;
            &&& t.0 == spec_pe_header_at(s, p)
            &&& t.1.standard_fields == spec_standard_fields_at(s, q, pe64)
            &&& t.1.nt_specific_fields == spec_nt_fields_at(s, q, pe64)
            &&& t.1.data_directories@ == crate::pe::spec_data_directories_at(s, q, pe64)
        }),
{
    proof {
        reveal(spec_headers_error);
    }
    let mut c = ByteStream::new(bytes);
    match c.seek(0x3C) {
        Ok(_) => {},
        Err(e) => {
            return Err(e);
        },
    }
    let lfanew = match c.read_u32() {
        Ok(v) => v,
        Err(e) => {
            return Err(e);
        },
    };
    match c.seek(lfanew as usize) {
        Ok(_) => {},
        Err(e) => {
            return Err(e);
        },
    }
    let pe_header = match PeHeader::parse(&mut c, strict) {
        Ok(h) => h,
        Err(e) => {
            return Err(e);
        },
    };
    let pe_optional_header = match PeOptionalHeader::parse(&mut c, strict) {
        Ok(h) => h,
        Err(e) => {
            return Err(e);
        },
    };
    Ok((pe_header, pe_optional_header))
}

/// Reads the section table that follows the optional header.
#[verifier::rlimit(100)]
#[verifier::spinoff_prover]
fn read_sections_stage<'a>(
    bytes: &'a [u8],
    strict: bool,
    pe_header: &PeHeader,
    pe_optional_header: &PeOptionalHeader,
) -> (r: Result<Vec<SectionHeader>, Error>)
    requires
        spec_headers_ok(bytes@, strict),
        *pe_header == spec_pe_header_at(bytes@, le_u32_at(bytes@, 0x3C)),
        pe_optional_header.standard_fields == spec_standard_fields_at(
            bytes@,
            le_u32_at(bytes@, 0x3C) + 24,
            le_u16_at(bytes@, le_u32_at(bytes@, 0x3C) + 24) == 0x20B,
        ),
    ensures
        r is Ok <==> spec_sections_ok(bytes@, strict),
        r matches Err(e) ==> ({
            let s = bytes@;
            let p = le_u32_at(s, 0x3C);
            let q = p + 24;
            let st = q + spec_opt_header_size(le_u16_at(s, q) == 0x20B);
            Some(e) == crate::pe::spec_section_table_error(
                s,
                st,
                spec_pe_header_at(s, p).number_of_sections as int,
                strict,
            )
        }),
        r matches Ok(v) ==> v@ == spec_image_sections(bytes@, le_u32_at(bytes@, 0x3C)),
{
    let mut c = ByteStream::new(bytes);
    let mut lc = ByteStream::new(bytes);
    match lc.seek(0x3C) {
        Ok(_) => {},
        Err(_) => {
            proof {
                assert(false);
            }
            return Err(Error::OffsetOutOfBounds(0x3C));
        },
    }
    let lfanew = match lc.read_u32() {
        Ok(v) => v,
        Err(_) => {
            proof {
                assert(false);
            }
            return Err(Error::UnexpectedEndOfStream(bytes.len()));
        },
    };
    let ghost s = bytes@;
    let ghost p = lfanew as int;
    let ghost q = p + 24;
    let ghost pe64 = le_u16_at(s, q) == 0x20B;
    let opt_size: u64 = if pe_optional_header.standard_fields.magic == 0x20B {
        240
    } else {
        224
    };
    proof {
        assert(pe_optional_header.standard_fields.magic == le_u16_at(s, q));
        assert(opt_size as int == spec_opt_header_size(pe64));
    }
    let sections_start: u64 = lfanew as u64 + 24 + opt_size;
    let blen = bytes.len();
    proof {
        assert(q + spec_opt_header_size(pe64) <= s.len());
        assert(sections_start as int == q + spec_opt_header_size(pe64));
        assert(sections_start <= blen as u64);
    }
    match c.seek(sections_start as usize) {
        Ok(_) => {},
        Err(_) => {
            proof {
                assert(false);
            }
            return Err(Error::UnexpectedEndOfStream(bytes.len()));
        },
    }
    let sections = match crate::pe::read_section_table(
        &mut c,
        pe_header.number_of_sections as usize,
        strict,
    ) {
        Ok(v) => v,
        Err(e) => {
            return Err(e);
        },
    };
    proof {
        assert(sections@.len() == spec_image_sections(s, p).len());
        assert forall|i: int| 0 <= i < sections@.len() implies sections@[i]
            == spec_image_sections(s, p)[i] by {
            assert(sections@[i] == spec_section_at(s, sections_start as int + 40 * i));
        }
        assert(sections@ =~= spec_image_sections(s, p));
    }
    Ok(sections)
}

/// Resolves data directory 14 through the section table and parses the
/// CLI header there.
#[verifier::rlimit(100)]
#[verifier::spinoff_prover]
fn read_cli_stage<'a>(
    bytes: &'a [u8],
    strict: bool,
    pe_optional_header: &PeOptionalHeader,
    sections: &Vec<SectionHeader>,
) -> (r: Result<CliHeader, Error>)
    requires
        spec_headers_ok(bytes@, strict),
        pe_optional_header.data_directories@ == crate::pe::spec_data_directories_at(
            bytes@,
            le_u32_at(bytes@, 0x3C) + 24,
            le_u16_at(bytes@, le_u32_at(bytes@, 0x3C) + 24) == 0x20B,
        ),
        sections@ == spec_image_sections(bytes@, le_u32_at(bytes@, 0x3C)),
    ensures
        r is Ok <==> spec_cli_hdr_ok(bytes@, strict),
        r matches Err(e) ==> e == spec_cli_error(bytes@, strict),
        r matches Ok(h) ==> h == spec_cli_header_at(bytes@, spec_cli_offset(bytes@)),
{
    proof {
        reveal(spec_cli_error);
    }
    let ghost s = bytes@;
    let ghost p = le_u32_at(s, 0x3C);
    let ghost q = p + 24;
    let ghost pe64 = le_u16_at(s, q) == 0x20B;
    let cli_rva = pe_optional_header.data_directories[14].rva;
    proof {
        assert(cli_rva == spec_data_directory_at(s, q + spec_dirs_offset(pe64) + 8 * 14).rva);
    }
    let cli_offset = match resolve_rva(cli_rva, sections) {
        Ok(v) => v,
        Err(e) => {
            return Err(e);
        },
    };
    let mut c2 = ByteStream::new(bytes);
    match c2.seek(cli_offset) {
        Ok(_) => {},
        Err(e) => {
            return Err(e);
        },
    }
    let cli_header = match CliHeader::parse(&mut c2, strict) {
        Ok(h) => h,
        Err(e) => {
            return Err(e);
        },
    };
    Ok(cli_header)
}

/// Walks the image to the CLI header: `lfanew`, PE signature, file
/// header, optional header, section table, and data directory 14
/// resolved through it.
#[verifier::rlimit(100)]
#[verifier::spinoff_prover]
fn locate_cli<'a>(bytes: &'a [u8], strict: bool) -> (r: Result<
    (PeHeader, PeOptionalHeader, Vec<SectionHeader>, CliHeader),
    Error,
>)
    ensures
        r is Ok <==> spec_locate_ok(bytes@, strict),
        r matches Err(e) ==> e == spec_locate_error(bytes@, strict),
        r matches Ok(t) ==> ({
            let s = bytes@;
            let p = le_u32_at(s, 0x3C);
            let q = p + 24;
            let pe64 = le_u16_at(s, q) == 0x20B;
            &&& t.0 == spec_pe_header_at(s, p)
            &&& t.1.standard_fields == spec_standard_fields_at(s, q, pe64)
            &&& t.1.nt_specific_fields == spec_nt_fields_at(s, q, pe64)
            &&& t.1.data_directories@ == crate::pe::spec_data_directories_at(s, q, pe64)
            &&& t.2@ == spec_image_sections(s, p)
            &&& t.3 == spec_cli_header_at(s, spec_cli_offset(s))
        }),
{
    proof {
        reveal(spec_locate_error);
    }
    let (pe_header, pe_optional_header) = match read_pe_headers(bytes, strict) {
        Ok(v) => v,
        Err(e) => {
            return Err(e);
        },
    };
    let sections = match read_sections_stage(bytes, strict, &pe_header, &pe_optional_header) {
        Ok(v) => v,
        Err(e) => {
            return Err(e);
        },
    };
    let cli_header = match read_cli_stage(bytes, strict, &pe_optional_header, &sections) {
        Ok(v) => v,
        Err(e) => {
            return Err(e);
        },
    };
    Ok((pe_header, pe_optional_header, sections, cli_header))
}


/// The characters of the heap string at byte offset `idx`: the bytes up
/// to the next NUL (or the heap's end), decoded as UTF-8.
pub open spec fn spec_heap_string(heap: Seq<u8>, idx: int) -> Seq<char> {
    let end = match crate::cursor::find_byte(heap, idx, 0) {
        Some(i) => i,
        None => heap.len() as int,
    };
    vstd::utf8::decode_utf8(heap.subrange(idx, end))
}

/// The bytes of the blob at byte offset `idx`, where its length prefix
/// decodes and the blob lies within the heap; offset 0 is the empty blob.
pub open spec fn spec_heap_blob(heap: Seq<u8>, idx: int) -> Option<Seq<u8>> {
    if idx == 0 {
        Some(Seq::empty())
    } else if idx > heap.len() {
        None
    } else {
        match crate::cursor::spec_read_compressed_uint(heap, idx) {
            Some(t) => if t.1 + t.0 <= heap.len() {
                Some(heap.subrange(t.1, t.1 + t.0))
            } else {
                None
            },
            None => None,
        }
    }
}

/// The body slice of the named table within a tables stream.
pub open spec fn spec_table_slice(src: Seq<u8>, kind: crate::kinds::TableKind) -> Seq<u8> {
    let id = crate::kinds::table_kind_id(kind) as int;
    src.subrange(
        crate::tables::spec_layout_pos(src, id)->Some_0,
        crate::tables::spec_layout_pos(src, id + 1)->Some_0,
    )
}

/// The field values of row `i` (0-based) of the named table within a
/// tables stream.
pub open spec fn spec_table_row(src: Seq<u8>, kind: crate::kinds::TableKind, i: int) -> Seq<u32> {
    let hs = src[6];
    let valid = crate::cursor::le_u64_at(src, 8) as u64;
    let counts = crate::tables::spec_counts_of(src, valid);
    let sch = crate::tables::spec_table_schema(kind)->Some_0;
    crate::tables::spec_row_values(
        spec_table_slice(src, kind),
        i * crate::tables::spec_row_size(sch, hs, counts),
        sch,
        hs,
        counts,
    )
}

/// What one decoded type-reference entry must satisfy: its token is the
/// decoded resolution scope, its names are the string-heap joins.
pub open spec fn spec_type_ref_entry_ok(
    tables_src: Seq<u8>,
    strings: Seq<u8>,
    e: (MetadataToken, String, String),
    i: int,
) -> bool {
    let rv = spec_table_row(tables_src, crate::kinds::TableKind::TypeRef, i);
    let dec = spec_coded_decode(crate::kinds::CodedIndexKind::ResolutionScope, rv[0]);
    &&& dec is Some
    &&& e.0.0 == spec_token_value(dec->Some_0.0, dec->Some_0.1)
    &&& e.1@ == spec_heap_string(strings, rv[2] as int)
    &&& e.2@ == spec_heap_string(strings, rv[1] as int)
}

/// What one decoded type-definition surface must satisfy: flags, names,
/// base and own token, and the owned-member ranges ending at the next
/// row's start (or at the owned table's end for the last row).
pub open spec fn spec_type_def_entry_ok(
    tables_src: Seq<u8>,
    strings: Seq<u8>,
    counts: Seq<u32>,
    n: int,
    d: TypeData,
    i: int,
) -> bool {
    let rv = spec_table_row(tables_src, crate::kinds::TableKind::TypeDef, i);
    let dec = spec_coded_decode(crate::kinds::CodedIndexKind::TypeDefOrRef, rv[3]);
    &&& d.flags == rv[0]
    &&& d.name@ == spec_heap_string(strings, rv[1] as int)
    &&& d.namespace@ == spec_heap_string(strings, rv[2] as int)
    &&& dec is Some
    &&& d.base.0 == spec_token_value(dec->Some_0.0, dec->Some_0.1)
    &&& d.token.0 == spec_token_value(crate::kinds::MetadataTokenKind::TypeDef, (i + 1) as u32)
    &&& d.field_range.0 == rv[4]
    &&& d.method_range.0 == rv[5]
    &&& i + 1 < n ==> d.field_range.1 == spec_table_row(
        tables_src,
        crate::kinds::TableKind::TypeDef,
        i + 1,
    )[4]
    &&& i + 1 == n ==> d.field_range.1 == counts[0x04] + 1
    &&& i + 1 < n ==> d.method_range.1 == spec_table_row(
        tables_src,
        crate::kinds::TableKind::TypeDef,
        i + 1,
    )[5]
    &&& i + 1 == n ==> d.method_range.1 == counts[0x06] + 1
}

/// Whether a string-heap lookup at `idx` succeeds: the offset lies in
/// the heap and the bytes up to the next NUL (or the heap's end) are
/// valid UTF-8.
pub open spec fn spec_heap_string_ok(heap: Seq<u8>, idx: int) -> bool {
    let end = match crate::cursor::find_byte(heap, idx, 0) {
        Some(i) => i,
        None => heap.len() as int,
    };
    0 <= idx <= heap.len() && vstd::utf8::valid_utf8(heap.subrange(idx, end))
}

/// Whether decoding the assembly identity succeeds: the `Assembly` table
/// is present with a first row whose name and culture strings and
/// public-key blob are valid.
pub open spec fn spec_assembly_def_ok(ts: Seq<u8>, ss: Seq<u8>, bs: Seq<u8>) -> bool {
    let valid = crate::cursor::le_u64_at(ts, 8) as u64;
    let counts = crate::tables::spec_counts_of(ts, valid);
    let v = spec_table_row(ts, crate::kinds::TableKind::Assembly, 0);
    &&& crate::tables::bit_set(valid, 0x20)
    &&& counts[0x20] >= 1
    &&& spec_heap_blob(bs, v[6] as int) is Some
    &&& spec_heap_string_ok(ss, v[7] as int)
    &&& spec_heap_string_ok(ss, v[8] as int)
}

/// Whether one `AssemblyRef` row's joins are valid: its name and culture
/// strings and its public-key and hash blobs.
pub open spec fn spec_assembly_ref_row_ok(ts: Seq<u8>, ss: Seq<u8>, bs: Seq<u8>, i: int) -> bool {
    let rv = spec_table_row(ts, crate::kinds::TableKind::AssemblyRef, i);
    &&& spec_heap_blob(bs, rv[5] as int) is Some
    &&& spec_heap_string_ok(ss, rv[6] as int)
    &&& spec_heap_string_ok(ss, rv[7] as int)
    &&& spec_heap_blob(bs, rv[8] as int) is Some
}

/// Whether decoding the assembly references succeeds: every row's joins
/// are valid (trivially so when the table is absent).
pub open spec fn spec_assembly_refs_ok(ts: Seq<u8>, ss: Seq<u8>, bs: Seq<u8>) -> bool {
    let valid = crate::cursor::le_u64_at(ts, 8) as u64;
    let counts = crate::tables::spec_counts_of(ts, valid);
    crate::tables::bit_set(valid, 0x23) ==> forall|i: int|
        0 <= i < counts[0x23] ==> #[trigger] spec_assembly_ref_row_ok(ts, ss, bs, i)
}

/// Whether one `TypeRef` row's joins are valid: its resolution scope
/// decodes and its name and namespace strings are valid.
pub open spec fn spec_type_ref_row_ok(ts: Seq<u8>, ss: Seq<u8>, i: int) -> bool {
    let rv = spec_table_row(ts, crate::kinds::TableKind::TypeRef, i);
    &&& spec_coded_decode(crate::kinds::CodedIndexKind::ResolutionScope, rv[0]) is Some
    &&& spec_heap_string_ok(ss, rv[1] as int)
    &&& spec_heap_string_ok(ss, rv[2] as int)
}

/// Whether decoding the type references succeeds: the rows fit a token's
/// row bytes and every row's joins are valid.
pub open spec fn spec_type_refs_ok(ts: Seq<u8>, ss: Seq<u8>) -> bool {
    let valid = crate::cursor::le_u64_at(ts, 8) as u64;
    let counts = crate::tables::spec_counts_of(ts, valid);
    crate::tables::bit_set(valid, 0x01) ==> (counts[0x01] <= 0xFFFFFF && forall|i: int|
        0 <= i < counts[0x01] ==> #[trigger] spec_type_ref_row_ok(ts, ss, i))
}

/// Whether one `TypeDef` row's joins are valid: its base coded index
/// decodes and its name and namespace strings are valid.
pub open spec fn spec_type_def_row_ok(ts: Seq<u8>, ss: Seq<u8>, i: int) -> bool {
    let rv = spec_table_row(ts, crate::kinds::TableKind::TypeDef, i);
    &&& spec_coded_decode(crate::kinds::CodedIndexKind::TypeDefOrRef, rv[3]) is Some
    &&& spec_heap_string_ok(ss, rv[1] as int)
    &&& spec_heap_string_ok(ss, rv[2] as int)
}

/// Whether decoding the type definitions succeeds: the rows fit a
/// token's row bytes, the owned tables' counts leave room for the
/// one-past-the-end row number, and every row's joins are valid.
pub open spec fn spec_type_defs_ok(ts: Seq<u8>, ss: Seq<u8>) -> bool {
    let valid = crate::cursor::le_u64_at(ts, 8) as u64;
    let counts = crate::tables::spec_counts_of(ts, valid);
    crate::tables::bit_set(valid, 0x02) ==> ({
        &&& counts[0x02] <= 0xFFFFFF
        &&& counts[0x04] < 0xFFFFFFFF
        &&& counts[0x06] < 0xFFFFFFFF
        &&& forall|i: int| 0 <= i < counts[0x02] ==> #[trigger] spec_type_def_row_ok(ts, ss, i)
    })
}

/// A reader over one image's heaps and tables stream, decoding the
/// assembly surface.
pub struct AssemblyReader<'a> {
    strings: StringHeap<'a>,
    blobs: BlobHeap<'a>,
    tables: TableHeap<'a>,
}

impl<'a> AssemblyReader<'a> {
    /// The `#Strings` heap's bytes.
    pub closed spec fn spec_strings(self) -> Seq<u8> {
        self.strings.src()
    }

    /// The `#Blob` heap's bytes.
    pub closed spec fn spec_blobs(self) -> Seq<u8> {
        self.blobs.src()
    }

    /// The `#~` stream's bytes.
    pub closed spec fn spec_tables_src(self) -> Seq<u8> {
        self.tables.src()
    }

    /// The dense row-count array of the tables stream.
    pub open spec fn spec_counts(self) -> Seq<u32> {
        crate::tables::spec_counts_of(
            self.spec_tables_src(),
            crate::cursor::le_u64_at(self.spec_tables_src(), 8) as u64,
        )
    }

    /// Whether the named table is present.
    pub open spec fn spec_has_table(self, kind: crate::kinds::TableKind) -> bool {
        crate::tables::bit_set(
            crate::cursor::le_u64_at(self.spec_tables_src(), 8) as u64,
            crate::kinds::table_kind_id(kind) as int,
        )
    }

    /// Well-formedness: the tables stream parsed and its stored widths
    /// agree with its bytes.
    pub closed spec fn wf(self) -> bool {
        &&& self.tables.wf()
        &&& self.tables.spec_heap_sizes() == self.tables.src()[6]
        &&& self.tables.spec_valid() == crate::cursor::le_u64_at(self.tables.src(), 8) as u64
        &&& self.tables.spec_counts() == crate::tables::spec_counts_of(
            self.tables.src(),
            self.tables.spec_valid(),
        )
    }

    /// Opens a reader over an image's heaps: the `#Strings`, `#Blob` and
    /// `#~` streams must all be present, and the tables stream must
    /// parse.
    pub fn new(assembly: &Assembly<'a>) -> (r: Result<AssemblyReader<'a>, Error>)
        requires
            assembly.wf(),
        ensures
            ({
                let hdrs = assembly.spec_metadata().spec_headers();
                let img = assembly.spec_image();
                let base = assembly.spec_metadata_offset();
                let fs = crate::streams::spec_find_stream(
                    hdrs,
                    crate::kinds::heap_kind_name(HeapKind::Strings),
                    0,
                );
                let fb = crate::streams::spec_find_stream(
                    hdrs,
                    crate::kinds::heap_kind_name(HeapKind::Blob),
                    0,
                );
                let ft = crate::streams::spec_find_stream(
                    hdrs,
                    crate::kinds::heap_kind_name(HeapKind::Tables),
                    0,
                );
                &&& fs is None ==> r == Err::<AssemblyReader<'a>, Error>(
                    Error::MissingHeap(HeapKind::Strings),
                )
                &&& (fs is Some && base + hdrs[fs->Some_0].0 + hdrs[fs->Some_0].1 > img.len())
                    ==> r == Err::<AssemblyReader<'a>, Error>(
                    Error::UnexpectedEndOfStream(img.len() as usize),
                )
                &&& (fs is Some && base + hdrs[fs->Some_0].0 + hdrs[fs->Some_0].1 <= img.len()
                    && fb is None) ==> r == Err::<AssemblyReader<'a>, Error>(
                    Error::MissingHeap(HeapKind::Blob),
                )
                &&& (fs is Some && base + hdrs[fs->Some_0].0 + hdrs[fs->Some_0].1 <= img.len()
                    && fb is Some && base + hdrs[fb->Some_0].0 + hdrs[fb->Some_0].1 > img.len())
                    ==> r == Err::<AssemblyReader<'a>, Error>(
                    Error::UnexpectedEndOfStream(img.len() as usize),
                )
                &&& (fs is Some && base + hdrs[fs->Some_0].0 + hdrs[fs->Some_0].1 <= img.len()
                    && fb is Some && base + hdrs[fb->Some_0].0 + hdrs[fb->Some_0].1 <= img.len()
                    && ft is None) ==> r == Err::<AssemblyReader<'a>, Error>(
                    Error::MissingHeap(HeapKind::Tables),
                )
                &&& (fs is Some && base + hdrs[fs->Some_0].0 + hdrs[fs->Some_0].1 <= img.len()
                    && fb is Some && base + hdrs[fb->Some_0].0 + hdrs[fb->Some_0].1 <= img.len()
                    && ft is Some && base + hdrs[ft->Some_0].0 + hdrs[ft->Some_0].1 > img.len())
                    ==> r == Err::<AssemblyReader<'a>, Error>(
                    Error::UnexpectedEndOfStream(img.len() as usize),
                )
                &&& (fs is Some && base + hdrs[fs->Some_0].0 + hdrs[fs->Some_0].1 <= img.len()
                    && fb is Some && base + hdrs[fb->Some_0].0 + hdrs[fb->Some_0].1 <= img.len()
                    && ft is Some && base + hdrs[ft->Some_0].0 + hdrs[ft->Some_0].1 <= img.len())
                    ==> ({
                    let ts = img.subrange(
                        base + hdrs[ft->Some_0].0,
                        base + hdrs[ft->Some_0].0 + hdrs[ft->Some_0].1,
                    );
                    &&& !crate::tables::spec_tables_stream_ok(ts) ==> r == Err::<
                        AssemblyReader<'a>,
                        Error,
                    >(Error::UnexpectedEndOfStream(ts.len() as usize))
                    &&& crate::tables::spec_tables_stream_ok(ts) ==> r is Ok
                })
                &&& (r matches Ok(rd) ==> ({
                    &&& rd.wf()
                    &&& fs is Some
                    &&& fb is Some
                    &&& ft is Some
                    &&& rd.spec_strings() == img.subrange(
                        base + hdrs[fs->Some_0].0,
                        base + hdrs[fs->Some_0].0 + hdrs[fs->Some_0].1,
                    )
                    &&& rd.spec_blobs() == img.subrange(
                        base + hdrs[fb->Some_0].0,
                        base + hdrs[fb->Some_0].0 + hdrs[fb->Some_0].1,
                    )
                    &&& rd.spec_tables_src() == img.subrange(
                        base + hdrs[ft->Some_0].0,
                        base + hdrs[ft->Some_0].0 + hdrs[ft->Some_0].1,
                    )
                    &&& base + hdrs[fs->Some_0].0 + hdrs[fs->Some_0].1 <= img.len()
                    &&& base + hdrs[fb->Some_0].0 + hdrs[fb->Some_0].1 <= img.len()
                    &&& base + hdrs[ft->Some_0].0 + hdrs[ft->Some_0].1 <= img.len()
                }))
            }),
    {
        let strings_bytes = match assembly.get_heap(HeapKind::Strings) {
            Ok(Some(b)) => b,
            Ok(None) => {
                return Err(Error::MissingHeap(HeapKind::Strings));
            },
            Err(e) => {
                return Err(e);
            },
        };
        let blob_bytes = match assembly.get_heap(HeapKind::Blob) {
            Ok(Some(b)) => b,
            Ok(None) => {
                return Err(Error::MissingHeap(HeapKind::Blob));
            },
            Err(e) => {
                return Err(e);
            },
        };
        let tables_bytes = match assembly.get_heap(HeapKind::Tables) {
            Ok(Some(b)) => b,
            Ok(None) => {
                return Err(Error::MissingHeap(HeapKind::Tables));
            },
            Err(e) => {
                return Err(e);
            },
        };
        let tables = match TableHeap::new(tables_bytes) {
            Ok(t) => t,
            Err(e) => {
                return Err(e);
            },
        };
        Ok(AssemblyReader {
            strings: StringHeap::new(strings_bytes),
            blobs: BlobHeap::new(blob_bytes),
            tables,
        })
    }

    /// The tables stream.
    pub fn tables(&self) -> (r: &TableHeap<'a>)
        ensures
            r.src() == self.spec_tables_src(),
    {
        &self.tables
    }

    /// The string heap.
    pub fn strings(&self) -> (r: &StringHeap<'a>)
        ensures
            r.src() == self.spec_strings(),
    {
        &self.strings
    }

    /// The blob heap.
    pub fn blobs(&self) -> (r: &BlobHeap<'a>)
        ensures
            r.src() == self.spec_blobs(),
    {
        &self.blobs
    }

    /// Decodes the assembly's identity from row 1 of the `Assembly`
    /// table, joining its name and culture with the string heap and its
    /// public key with the blob heap.
    pub fn read_assembly_definition(&self) -> (r: Result<AssemblyName, Error>)
        requires
            self.wf(),
        ensures
            r is Ok <==> spec_assembly_def_ok(
                self.spec_tables_src(),
                self.spec_strings(),
                self.spec_blobs(),
            ),
            !self.spec_has_table(crate::kinds::TableKind::Assembly) ==> r == Err::<
                AssemblyName,
                Error,
            >(Error::MissingTable(crate::kinds::TableKind::Assembly)),
            r matches Ok(nm) ==> ({
                let v = spec_table_row(self.spec_tables_src(), crate::kinds::TableKind::Assembly, 0);
                &&& self.spec_has_table(crate::kinds::TableKind::Assembly)
                &&& nm.version.major == v[1] as u16
                &&& nm.version.minor == v[2] as u16
                &&& nm.version.build == v[3] as u16
                &&& nm.version.revision == v[4] as u16
                &&& nm.flags == v[5]
                &&& spec_heap_blob(self.spec_blobs(), v[6] as int) == Some(nm.public_key@)
                &&& nm.name@ == spec_heap_string(self.spec_strings(), v[7] as int)
                &&& nm.culture@ == spec_heap_string(self.spec_strings(), v[8] as int)
            }),
    {
        proof {
            crate::tables::lemma_layout_defined_low(self.spec_tables_src(), 0x21);
            crate::kinds::lemma_table_kind_id_inverse();
        }
        let view = match self.tables.get_table(TableKind::Assembly) {
            Ok(Some(v)) => v,
            Ok(None) => {
                return Err(Error::MissingTable(TableKind::Assembly));
            },
            Err(e) => {
                proof {
                    assert(false);
                }
                return Err(e);
            },
        };
        let vals = match view.get(crate::indices::TableIndex(1)) {
            Ok(v) => v,
            Err(e) => {
                return Err(e);
            },
        };
        proof {
            crate::tables::lemma_row_values_len(
                view.src(),
                0,
                crate::tables::spec_table_schema(TableKind::Assembly)->Some_0,
                view.spec_heap_sizes(),
                view.spec_counts(),
            );
        }
        proof {
            assert(crate::tables::spec_table_schema(TableKind::Assembly) is Some);
            assert(view.spec_kind() == TableKind::Assembly);
            assert(1 <= view.spec_row_count());
            assert(vals@ == crate::tables::spec_row_values(
                view.src(),
                0,
                crate::tables::spec_table_schema(TableKind::Assembly)->Some_0,
                view.spec_heap_sizes(),
                view.spec_counts(),
            ));
            assert(vals@.len() == 9);
        }
        let row = match crate::rows::Assembly::from_values(&vals) {
            Some(rw) => rw,
            None => {
                proof {
                    assert(false);
                }
                return Err(Error::MissingTable(TableKind::Assembly));
            },
        };
        let name = match self.strings.get_string(row.name.0) {
            Ok(s) => s,
            Err(e) => {
                return Err(e);
            },
        };
        let culture = match self.strings.get_string(row.culture.0) {
            Ok(s) => s,
            Err(e) => {
                return Err(e);
            },
        };
        let public_key = match self.blobs.get_blob(row.public_key.0) {
            Ok(b) => b,
            Err(e) => {
                return Err(e);
            },
        };
        Ok(AssemblyName {
            name: name.to_owned(),
            culture: culture.to_owned(),
            version: AssemblyVersion {
                major: row.major_version,
                minor: row.minor_version,
                build: row.build_number,
                revision: row.revision_number,
            },
            flags: row.flags,
            public_key: vstd::slice::slice_to_vec(public_key),
        })
    }

    /// Decodes the referenced assemblies from the `AssemblyRef` table;
    /// an image without that table references nothing.
    pub fn read_assembly_refs(&self) -> (r: Result<Vec<AssemblyRefInfo>, Error>)
        requires
            self.wf(),
        ensures
            r is Ok <==> spec_assembly_refs_ok(
                self.spec_tables_src(),
                self.spec_strings(),
                self.spec_blobs(),
            ),
            !self.spec_has_table(crate::kinds::TableKind::AssemblyRef) ==> (r matches Ok(v)
                && v@.len() == 0),
            r matches Ok(v) ==> (self.spec_has_table(crate::kinds::TableKind::AssemblyRef) ==> {
                &&& v@.len() == self.spec_counts()[0x23]
                &&& forall|i: int|
                    0 <= i < v@.len() ==> ({
                        let rv = spec_table_row(
                            self.spec_tables_src(),
                            crate::kinds::TableKind::AssemblyRef,
                            i,
                        );
                        &&& (#[trigger] v@[i]).version.major == rv[0] as u16
                        &&& v@[i].version.minor == rv[1] as u16
                        &&& v@[i].version.build == rv[2] as u16
                        &&& v@[i].version.revision == rv[3] as u16
                        &&& v@[i].flags == rv[4]
                        &&& spec_heap_blob(self.spec_blobs(), rv[5] as int) == Some(
                            v@[i].public_key@,
                        )
                        &&& v@[i].name@ == spec_heap_string(self.spec_strings(), rv[6] as int)
                        &&& v@[i].culture@ == spec_heap_string(self.spec_strings(), rv[7] as int)
                        &&& spec_heap_blob(self.spec_blobs(), rv[8] as int) == Some(
                            v@[i].hash_value@,
                        )
                    })
            }),
    {
        proof {
            crate::tables::lemma_layout_defined_low(self.spec_tables_src(), 0x24);
            crate::kinds::lemma_table_kind_id_inverse();
        }
        let view = match self.tables.get_table(TableKind::AssemblyRef) {
            Ok(Some(v)) => v,
            Ok(None) => {
                return Ok(Vec::new());
            },
            Err(e) => {
                proof {
                    assert(false);
                }
                return Err(e);
            },
        };
        let n = view.len();
        let mut out: Vec<AssemblyRefInfo> = Vec::new();
        let mut i: usize = 0;
        while i < n
            invariant
                self.wf(),
                self.spec_has_table(TableKind::AssemblyRef),
                view.wf(),
                view.spec_kind() == TableKind::AssemblyRef,
                view.spec_row_count() == n,
                n == self.spec_counts()[0x23],
                n <= u32::MAX,
                view.src() == spec_table_slice(self.spec_tables_src(), TableKind::AssemblyRef),
                view.spec_heap_sizes() == self.spec_tables_src()[6],
                view.spec_counts() == self.spec_counts(),
                self.strings.src() == self.spec_strings(),
                self.blobs.src() == self.spec_blobs(),
                0 <= i <= n,
                out@.len() == i,
                forall|j: int|
                    0 <= j < i ==> #[trigger] spec_assembly_ref_row_ok(
                        self.spec_tables_src(),
                        self.spec_strings(),
                        self.spec_blobs(),
                        j,
                    ),
                forall|j: int|
                    0 <= j < i ==> ({
                        let rv = spec_table_row(
                            self.spec_tables_src(),
                            crate::kinds::TableKind::AssemblyRef,
                            j,
                        );
                        &&& (#[trigger] out@[j]).version.major == rv[0] as u16
                        &&& out@[j].version.minor == rv[1] as u16
                        &&& out@[j].version.build == rv[2] as u16
                        &&& out@[j].version.revision == rv[3] as u16
                        &&& out@[j].flags == rv[4]
                        &&& spec_heap_blob(self.spec_blobs(), rv[5] as int) == Some(
                            out@[j].public_key@,
                        )
                        &&& out@[j].name@ == spec_heap_string(self.spec_strings(), rv[6] as int)
                        &&& out@[j].culture@ == spec_heap_string(
                            self.spec_strings(),
                            rv[7] as int,
                        )
                        &&& spec_heap_blob(self.spec_blobs(), rv[8] as int) == Some(
                            out@[j].hash_value@,
                        )
                    }),
            decreases n - i,
        {
            let ghost ts = self.spec_tables_src();
            let ghost ss = self.spec_strings();
            let ghost bs = self.spec_blobs();
            let vals = match view.get(crate::indices::TableIndex((i + 1) as u32)) {
                Ok(v) => v,
                Err(e) => {
                    proof {
                        assert(false);
                    }
                    return Err(e);
                },
            };
            proof {
                crate::tables::lemma_row_values_len(
                    view.src(),
                    i as int * view.spec_row_size(),
                    crate::tables::spec_table_schema(TableKind::AssemblyRef)->Some_0,
                    view.spec_heap_sizes(),
                    view.spec_counts(),
                );
            }
            let row = match crate::rows::AssemblyRef::from_values(&vals) {
                Some(rw) => rw,
                None => {
                    proof {
                        assert(false);
                    }
                    return Err(Error::InvalidData(0, None));
                },
            };
            let name = match self.strings.get_string(row.name.0) {
                Ok(s) => s,
                Err(e) => {
                    proof {
                        assert(!spec_assembly_ref_row_ok(ts, ss, bs, i as int));
                    }
                    return Err(e);
                },
            };
            let culture = match self.strings.get_string(row.culture.0) {
                Ok(s) => s,
                Err(e) => {
                    proof {
                        assert(!spec_assembly_ref_row_ok(ts, ss, bs, i as int));
                    }
                    return Err(e);
                },
            };
            let public_key = match self.blobs.get_blob(row.public_key.0) {
                Ok(b) => b,
                Err(e) => {
                    proof {
                        assert(!spec_assembly_ref_row_ok(ts, ss, bs, i as int));
                    }
                    return Err(e);
                },
            };
            let hash_value = match self.blobs.get_blob(row.hash_value.0) {
                Ok(b) => b,
                Err(e) => {
                    proof {
                        assert(!spec_assembly_ref_row_ok(ts, ss, bs, i as int));
                    }
                    return Err(e);
                },
            };
            proof {
                assert(spec_assembly_ref_row_ok(ts, ss, bs, i as int));
            }
            out.push(AssemblyRefInfo {
                name: name.to_owned(),
                culture: culture.to_owned(),
                version: AssemblyVersion {
                    major: row.major_version,
                    minor: row.minor_version,
                    build: row.build_number,
                    revision: row.revision_number,
                },
                flags: row.flags,
                public_key: vstd::slice::slice_to_vec(public_key),
                hash_value: vstd::slice::slice_to_vec(hash_value),
            });
            i = i + 1;
        }
        Ok(out)
    }

    /// Decodes the type references: each `TypeRef` row's resolution
    /// scope as a token, with its namespace and name from the string
    /// heap; an image without that table references no types.
    pub fn read_assembly_type_refs(&self) -> (r: Result<
        Vec<(MetadataToken, String, String)>,
        Error,
    >)
        requires
            self.wf(),
        ensures
            r is Ok <==> spec_type_refs_ok(self.spec_tables_src(), self.spec_strings()),
            !self.spec_has_table(crate::kinds::TableKind::TypeRef) ==> (r matches Ok(v)
                && v@.len() == 0),
            r matches Ok(v) ==> (self.spec_has_table(crate::kinds::TableKind::TypeRef) ==> {
                &&& v@.len() == self.spec_counts()[0x01]
                &&& forall|i: int|
                    0 <= i < v@.len() ==> spec_type_ref_entry_ok(
                        self.spec_tables_src(),
                        self.spec_strings(),
                        #[trigger] v@[i],
                        i,
                    )
            }),
    {
        proof {
            crate::tables::lemma_layout_defined_low(self.spec_tables_src(), 0x02);
            crate::kinds::lemma_table_kind_id_inverse();
        }
        let view = match self.tables.get_table(TableKind::TypeRef) {
            Ok(Some(v)) => v,
            Ok(None) => {
                return Ok(Vec::new());
            },
            Err(e) => {
                proof {
                    assert(false);
                }
                return Err(e);
            },
        };
        let n = view.len();
        if n > 0xFFFFFF {
            return Err(Error::InvalidData(0, Some("row count")));
        }
        let mut out: Vec<(MetadataToken, String, String)> = Vec::new();
        let mut i: usize = 0;
        while i < n
            invariant
                self.wf(),
                self.spec_has_table(TableKind::TypeRef),
                view.wf(),
                view.spec_kind() == TableKind::TypeRef,
                view.spec_row_count() == n,
                n == self.spec_counts()[0x01],
                n <= 0xFFFFFF,
                view.src() == spec_table_slice(self.spec_tables_src(), TableKind::TypeRef),
                view.spec_heap_sizes() == self.spec_tables_src()[6],
                view.spec_counts() == self.spec_counts(),
                self.strings.src() == self.spec_strings(),
                0 <= i <= n,
                out@.len() == i,
                forall|j: int|
                    0 <= j < i ==> #[trigger] spec_type_ref_row_ok(
                        self.spec_tables_src(),
                        self.spec_strings(),
                        j,
                    ),
                forall|j: int|
                    0 <= j < i ==> spec_type_ref_entry_ok(
                        self.spec_tables_src(),
                        self.spec_strings(),
                        #[trigger] out@[j],
                        j,
                    ),
            decreases n - i,
        {
            let ghost ts = self.spec_tables_src();
            let ghost ss = self.spec_strings();
            let vals = match view.get(crate::indices::TableIndex((i + 1) as u32)) {
                Ok(v) => v,
                Err(e) => {
                    proof {
                        assert(false);
                    }
                    return Err(e);
                },
            };
            proof {
                crate::tables::lemma_row_values_len(
                    view.src(),
                    i as int * view.spec_row_size(),
                    crate::tables::spec_table_schema(TableKind::TypeRef)->Some_0,
                    view.spec_heap_sizes(),
                    view.spec_counts(),
                );
            }
            let row = match crate::rows::TypeRef::from_values(&vals) {
                Some(rw) => rw,
                None => {
                    proof {
                        assert(false);
                    }
                    return Err(Error::InvalidData(0, None));
                },
            };
            let token = match row.resolution_scope.decode(
                crate::kinds::CodedIndexKind::ResolutionScope,
            ) {
                Some(tok) => tok,
                None => {
                    proof {
                        assert(!spec_type_ref_row_ok(ts, ss, i as int));
                    }
                    return Err(Error::InvalidData(i + 1, Some("resolution scope")));
                },
            };
            let name = match self.strings.get_string(row.name.0) {
                Ok(s) => s,
                Err(e) => {
                    proof {
                        assert(!spec_type_ref_row_ok(ts, ss, i as int));
                    }
                    return Err(e);
                },
            };
            let namespace = match self.strings.get_string(row.namespace.0) {
                Ok(s) => s,
                Err(e) => {
                    proof {
                        assert(!spec_type_ref_row_ok(ts, ss, i as int));
                    }
                    return Err(e);
                },
            };
            out.push((token, namespace.to_owned(), name.to_owned()));
            proof {
                assert(spec_type_ref_row_ok(ts, ss, i as int));
                assert(spec_type_ref_entry_ok(
                    self.spec_tables_src(),
                    self.spec_strings(),
                    out@[i as int],
                    i as int,
                ));
            }
            i = i + 1;
        }
        Ok(out)
    }

    /// Decodes the type definitions: each `TypeDef` row's names from the
    /// string heap, its base as a token, its own token, and the 1-based
    /// ranges of the `Field` and `MethodDef` rows it owns - each range
    /// ends where the next row's starts (clamped to the owned table's
    /// length), and the last row's at the end of the owned table.
    pub fn read_type_definitions(&self) -> (r: Result<Vec<TypeData>, Error>)
        requires
            self.wf(),
        ensures
            r is Ok <==> spec_type_defs_ok(self.spec_tables_src(), self.spec_strings()),
            !self.spec_has_table(crate::kinds::TableKind::TypeDef) ==> (r matches Ok(v)
                && v@.len() == 0),
            r matches Ok(v) ==> (self.spec_has_table(crate::kinds::TableKind::TypeDef) ==> {
                &&& v@.len() == self.spec_counts()[0x02]
                &&& forall|i: int|
                    0 <= i < v@.len() ==> ({
                        let rv = spec_table_row(
                            self.spec_tables_src(),
                            crate::kinds::TableKind::TypeDef,
                            i,
                        );
                        &&& (#[trigger] v@[i]).flags == rv[0]
                        &&& v@[i].name@ == spec_heap_string(self.spec_strings(), rv[1] as int)
                        &&& v@[i].namespace@ == spec_heap_string(
                            self.spec_strings(),
                            rv[2] as int,
                        )
                        &&& spec_coded_decode(
                            crate::kinds::CodedIndexKind::TypeDefOrRef,
                            rv[3],
                        ) matches Some(p) && v@[i].base.0 == spec_token_value(p.0, p.1)
                        &&& v@[i].token.0 == spec_token_value(
                            crate::kinds::MetadataTokenKind::TypeDef,
                            (i + 1) as u32,
                        )
                        &&& v@[i].field_range.0 == rv[4]
                        &&& v@[i].method_range.0 == rv[5]
                        &&& i + 1 < v@.len() ==> v@[i].field_range.1
                            == crate::assembly::spec_owned_end(
                            spec_table_row(
                                self.spec_tables_src(),
                                crate::kinds::TableKind::TypeDef,
                                i + 1,
                            )[4],
                            self.spec_counts()[0x04],
                        )
                        &&& i + 1 == v@.len() ==> v@[i].field_range.1 == self.spec_counts()[0x04]
                            + 1
                        &&& i + 1 < v@.len() ==> v@[i].method_range.1
                            == crate::assembly::spec_owned_end(
                            spec_table_row(
                                self.spec_tables_src(),
                                crate::kinds::TableKind::TypeDef,
                                i + 1,
                            )[5],
                            self.spec_counts()[0x06],
                        )
                        &&& i + 1 == v@.len() ==> v@[i].method_range.1 == self.spec_counts()[0x06]
                            + 1
                        &&& v@[i].field_range.1 <= self.spec_counts()[0x04] + 1
                        &&& v@[i].method_range.1 <= self.spec_counts()[0x06] + 1
                    })
            }),
    {
        proof {
            crate::tables::lemma_layout_defined_low(self.spec_tables_src(), 0x03);
            crate::kinds::lemma_table_kind_id_inverse();
        }
        let view = match self.tables.get_table(TableKind::TypeDef) {
            Ok(Some(v)) => v,
            Ok(None) => {
                return Ok(Vec::new());
            },
            Err(e) => {
                proof {
                    assert(false);
                }
                return Err(e);
            },
        };
        let n = view.len();
        if n > 0xFFFFFF {
            return Err(Error::InvalidData(0, Some("row count")));
        }
        let field_count = self.tables.sizing().row_count(TableKind::Field);
        let method_count = self.tables.sizing().row_count(TableKind::MethodDef);
        if field_count == 0xFFFFFFFF || method_count == 0xFFFFFFFF {
            return Err(Error::InvalidData(0, Some("row count")));
        }
        let mut rows: Vec<crate::rows::TypeDef> = Vec::new();
        let mut i: usize = 0;
        while i < n
            invariant
                self.wf(),
                self.spec_has_table(TableKind::TypeDef),
                view.wf(),
                view.spec_kind() == TableKind::TypeDef,
                view.spec_row_count() == n,
                n == self.spec_counts()[0x02],
                n <= 0xFFFFFF,
                view.src() == spec_table_slice(self.spec_tables_src(), TableKind::TypeDef),
                view.spec_heap_sizes() == self.spec_tables_src()[6],
                view.spec_counts() == self.spec_counts(),
                0 <= i <= n,
                rows@.len() == i,
                forall|j: int|
                    0 <= j < i ==> ({
                        let rv = spec_table_row(
                            self.spec_tables_src(),
                            crate::kinds::TableKind::TypeDef,
                            j,
                        );
                        &&& (#[trigger] rows@[j]).flags == rv[0]
                        &&& rows@[j].name.0 == rv[1]
                        &&& rows@[j].namespace.0 == rv[2]
                        &&& rows@[j].base_type.0 == rv[3]
                        &&& rows@[j].fields.0 == rv[4]
                        &&& rows@[j].methods.0 == rv[5]
                    }),
            decreases n - i,
        {
            let vals = match view.get(crate::indices::TableIndex((i + 1) as u32)) {
                Ok(v) => v,
                Err(e) => {
                    proof {
                        assert(false);
                    }
                    return Err(e);
                },
            };
            proof {
                crate::tables::lemma_row_values_len(
                    view.src(),
                    i as int * view.spec_row_size(),
                    crate::tables::spec_table_schema(TableKind::TypeDef)->Some_0,
                    view.spec_heap_sizes(),
                    view.spec_counts(),
                );
            }
            let row = match crate::rows::TypeDef::from_values(&vals) {
                Some(rw) => rw,
                None => {
                    proof {
                        assert(false);
                    }
                    return Err(Error::InvalidData(0, None));
                },
            };
            rows.push(row);
            i = i + 1;
        }
        let mut out: Vec<TypeData> = Vec::new();
        let mut k: usize = 0;
        while k < n
            invariant
                self.wf(),
                self.spec_has_table(TableKind::TypeDef),
                n <= 0xFFFFFF,
                n == self.spec_counts()[0x02],
                field_count == self.spec_counts()[0x04],
                method_count == self.spec_counts()[0x06],
                field_count < 0xFFFFFFFF,
                method_count < 0xFFFFFFFF,
                self.strings.src() == self.spec_strings(),
                rows@.len() == n,
                forall|j: int|
                    0 <= j < n ==> ({
                        let rv = spec_table_row(
                            self.spec_tables_src(),
                            crate::kinds::TableKind::TypeDef,
                            j,
                        );
                        &&& (#[trigger] rows@[j]).flags == rv[0]
                        &&& rows@[j].name.0 == rv[1]
                        &&& rows@[j].namespace.0 == rv[2]
                        &&& rows@[j].base_type.0 == rv[3]
                        &&& rows@[j].fields.0 == rv[4]
                        &&& rows@[j].methods.0 == rv[5]
                    }),
                0 <= k <= n,
                out@.len() == k,
                forall|j: int|
                    0 <= j < k ==> #[trigger] spec_type_def_row_ok(
                        self.spec_tables_src(),
                        self.spec_strings(),
                        j,
                    ),
                forall|j: int|
                    0 <= j < k ==> ({
                        let rv = spec_table_row(
                            self.spec_tables_src(),
                            crate::kinds::TableKind::TypeDef,
                            j,
                        );
                        &&& (#[trigger] out@[j]).flags == rv[0]
                        &&& out@[j].name@ == spec_heap_string(self.spec_strings(), rv[1] as int)
                        &&& out@[j].namespace@ == spec_heap_string(
                            self.spec_strings(),
                            rv[2] as int,
                        )
                        &&& spec_coded_decode(
                            crate::kinds::CodedIndexKind::TypeDefOrRef,
                            rv[3],
                        ) matches Some(p) && out@[j].base.0 == spec_token_value(p.0, p.1)
                        &&& out@[j].token.0 == spec_token_value(
                            crate::kinds::MetadataTokenKind::TypeDef,
                            (j + 1) as u32,
                        )
                        &&& out@[j].field_range.0 == rv[4]
                        &&& out@[j].method_range.0 == rv[5]
                        &&& j + 1 < n ==> out@[j].field_range.1
                            == crate::assembly::spec_owned_end(
                            spec_table_row(
                                self.spec_tables_src(),
                                crate::kinds::TableKind::TypeDef,
                                j + 1,
                            )[4],
                            self.spec_counts()[0x04] as u32,
                        )
                        &&& j + 1 == n ==> out@[j].field_range.1 == self.spec_counts()[0x04] + 1
                        &&& j + 1 < n ==> out@[j].method_range.1
                            == crate::assembly::spec_owned_end(
                            spec_table_row(
                                self.spec_tables_src(),
                                crate::kinds::TableKind::TypeDef,
                                j + 1,
                            )[5],
                            self.spec_counts()[0x06] as u32,
                        )
                        &&& j + 1 == n ==> out@[j].method_range.1 == self.spec_counts()[0x06] + 1
                        &&& out@[j].field_range.1 <= self.spec_counts()[0x04] + 1
                        &&& out@[j].method_range.1 <= self.spec_counts()[0x06] + 1
                    }),
            decreases n - k,
        {
            let ghost ts = self.spec_tables_src();
            let ghost ss = self.spec_strings();
            let row = rows[k];
            let name = match self.strings.get_string(row.name.0) {
                Ok(s) => s,
                Err(e) => {
                    proof {
                        assert(!spec_type_def_row_ok(ts, ss, k as int));
                    }
                    return Err(e);
                },
            };
            let namespace = match self.strings.get_string(row.namespace.0) {
                Ok(s) => s,
                Err(e) => {
                    proof {
                        assert(!spec_type_def_row_ok(ts, ss, k as int));
                    }
                    return Err(e);
                },
            };
            let base = match row.base_type.decode(crate::kinds::CodedIndexKind::TypeDefOrRef) {
                Some(tok) => tok,
                None => {
                    proof {
                        assert(!spec_type_def_row_ok(ts, ss, k as int));
                    }
                    return Err(Error::InvalidData(k + 1, Some("type base")));
                },
            };
            let token = MetadataToken::new((k + 1) as u32, crate::kinds::MetadataTokenKind::TypeDef);
            let field_end_raw: u32 = if n - k > 1 {
                rows[k + 1].fields.0
            } else {
                field_count + 1
            };
            let field_end: u32 = if field_end_raw > field_count + 1 {
                field_count + 1
            } else {
                field_end_raw
            };
            let method_end_raw: u32 = if n - k > 1 {
                rows[k + 1].methods.0
            } else {
                method_count + 1
            };
            let method_end: u32 = if method_end_raw > method_count + 1 {
                method_count + 1
            } else {
                method_end_raw
            };
            proof {
                assert(spec_type_def_row_ok(ts, ss, k as int));
            }
            out.push(TypeData {
                name: name.to_owned(),
                namespace: namespace.to_owned(),
                flags: row.flags,
                base,
                token,
                field_range: (row.fields.0, field_end),
                method_range: (row.methods.0, method_end),
            });
            k = k + 1;
        }
        Ok(out)
    }
}

/// Where the metadata root parses, the byte-level stream locator finds
/// the named stream exactly when a header carries its name and the
/// stream lies within the image, and then yields exactly that slice.
#[verifier::rlimit(100)]
#[verifier::spinoff_prover]
proof fn lemma_stream_located(img: Seq<u8>, kind: HeapKind)
    requires
        0 <= spec_image_metadata_offset(img) <= img.len(),
        crate::streams::spec_metadata_root(
            img.subrange(spec_image_metadata_offset(img), img.len() as int),
        ) is Ok,
    ensures
        ({
            let base = spec_image_metadata_offset(img);
            let hdrs = crate::streams::spec_metadata_root(
                img.subrange(base, img.len() as int),
            )->Ok_0.6;
            let f = crate::streams::spec_find_stream(
                hdrs,
                crate::kinds::heap_kind_name(kind),
                0,
            );
            &&& (spec_image_stream(img, kind) is Some <==> (f is Some && base
                + hdrs[f->Some_0].0 + hdrs[f->Some_0].1 <= img.len()))
            &&& (spec_image_stream(img, kind) matches Some(b) ==> b == img.subrange(
                base + hdrs[f->Some_0].0,
                base + hdrs[f->Some_0].0 + hdrs[f->Some_0].1,
            ))
        }),
{
    reveal(spec_image_stream);
}

/// Whether reading an image into its decoded assembly surface succeeds:
/// the image opens, the `#Strings`, `#Blob` and `#~` streams are present
/// and in bounds, the tables stream is well-formed, and the row and heap
/// joins of the Assembly, AssemblyRef, TypeRef and TypeDef tables are
/// all valid.
pub open spec fn spec_read_assembly_ok(s: Seq<u8>, strict: bool) -> bool {
    &&& spec_open_ok(s, strict)
    &&& spec_image_stream(s, HeapKind::Strings) is Some
    &&& spec_image_stream(s, HeapKind::Blob) is Some
    &&& spec_image_stream(s, HeapKind::Tables) is Some
    &&& ({
        let ts = spec_image_stream(s, HeapKind::Tables)->Some_0;
        let ss = spec_image_stream(s, HeapKind::Strings)->Some_0;
        let bs = spec_image_stream(s, HeapKind::Blob)->Some_0;
        &&& crate::tables::spec_tables_stream_ok(ts)
        &&& spec_assembly_def_ok(ts, ss, bs)
        &&& spec_assembly_refs_ok(ts, ss, bs)
        &&& spec_type_refs_ok(ts, ss)
        &&& spec_type_defs_ok(ts, ss)
    })
}

/// Decodes the assembly surface over an opened reader: identity,
/// references, type references and classified type definitions.
fn assemble_surface(rd: &AssemblyReader) -> (r: Result<crate::assembly::Assembly, Error>)
    requires
        rd.wf(),
    ensures
        r is Ok <==> ({
            &&& spec_assembly_def_ok(rd.spec_tables_src(), rd.spec_strings(), rd.spec_blobs())
            &&& spec_assembly_refs_ok(rd.spec_tables_src(), rd.spec_strings(), rd.spec_blobs())
            &&& spec_type_refs_ok(rd.spec_tables_src(), rd.spec_strings())
            &&& spec_type_defs_ok(rd.spec_tables_src(), rd.spec_strings())
        }),
        r matches Ok(a) ==> ({
            let ts = rd.spec_tables_src();
            let valid = crate::cursor::le_u64_at(ts, 8) as u64;
            let counts = crate::tables::spec_counts_of(ts, valid);
            let v = spec_table_row(ts, TableKind::Assembly, 0);
            &&& crate::tables::bit_set(valid, 0x20)
            &&& a.name.version.major == v[1] as u16
            &&& a.name.version.minor == v[2] as u16
            &&& a.name.version.build == v[3] as u16
            &&& a.name.version.revision == v[4] as u16
            &&& a.name.flags == v[5]
            &&& spec_heap_blob(rd.spec_blobs(), v[6] as int) == Some(a.name.public_key@)
            &&& a.name.name@ == spec_heap_string(rd.spec_strings(), v[7] as int)
            &&& a.name.culture@ == spec_heap_string(rd.spec_strings(), v[8] as int)
            &&& a.types@.len() == (if crate::tables::bit_set(valid, 0x02) {
                counts[0x02] as int
            } else {
                0int
            })
            &&& a.dependencies@.len() == (if crate::tables::bit_set(valid, 0x23) {
                counts[0x23] as int
            } else {
                0int
            })
        }),
{
    let name = match rd.read_assembly_definition() {
        Ok(v) => v,
        Err(e) => {
            return Err(e);
        },
    };
    let dependencies = match rd.read_assembly_refs() {
        Ok(v) => v,
        Err(e) => {
            return Err(e);
        },
    };
    let type_refs = match rd.read_assembly_type_refs() {
        Ok(v) => v,
        Err(e) => {
            return Err(e);
        },
    };
    let defs = match rd.read_type_definitions() {
        Ok(v) => v,
        Err(e) => {
            return Err(e);
        },
    };
    let types = crate::assembly::classify_types(defs, &type_refs);
    Ok(crate::assembly::Assembly { name, types, dependencies, type_refs })
}

/// Reads an image into its decoded assembly surface: identity,
/// references, type references and classified type definitions. The
/// components are decoded by [`Assembly::open`] and the [`AssemblyReader`]
/// methods, whose contracts pin each piece down.
#[verifier::rlimit(100)]
#[verifier::spinoff_prover]
pub fn read_assembly(bytes: &[u8], strict: bool) -> (r: Result<crate::assembly::Assembly, Error>)
    ensures
        r is Ok <==> spec_read_assembly_ok(bytes@, strict),
        r matches Err(e) ==> (!spec_open_ok(bytes@, strict) ==> e == spec_open_error(
            bytes@,
            strict,
        )),
        r matches Ok(a) ==> ({
            let ts = spec_image_stream(bytes@, HeapKind::Tables)->Some_0;
            let ss = spec_image_stream(bytes@, HeapKind::Strings)->Some_0;
            let bs = spec_image_stream(bytes@, HeapKind::Blob)->Some_0;
            let valid = crate::cursor::le_u64_at(ts, 8) as u64;
            let counts = crate::tables::spec_counts_of(ts, valid);
            let v = spec_table_row(ts, TableKind::Assembly, 0);
            &&& spec_image_stream(bytes@, HeapKind::Tables) is Some
            &&& spec_image_stream(bytes@, HeapKind::Strings) is Some
            &&& spec_image_stream(bytes@, HeapKind::Blob) is Some
            &&& crate::tables::bit_set(valid, 0x20)
            &&& a.name.version.major == v[1] as u16
            &&& a.name.version.minor == v[2] as u16
            &&& a.name.version.build == v[3] as u16
            &&& a.name.version.revision == v[4] as u16
            &&& a.name.flags == v[5]
            &&& spec_heap_blob(bs, v[6] as int) == Some(a.name.public_key@)
            &&& a.name.name@ == spec_heap_string(ss, v[7] as int)
            &&& a.name.culture@ == spec_heap_string(ss, v[8] as int)
            &&& a.types@.len() == (if crate::tables::bit_set(valid, 0x02) {
                counts[0x02] as int
            } else {
                0int
            })
            &&& a.dependencies@.len() == (if crate::tables::bit_set(valid, 0x23) {
                counts[0x23] as int
            } else {
                0int
            })
        }),
{
    let assembly = match Assembly::open(bytes, strict) {
        Ok(a) => a,
        Err(e) => {
            return Err(e);
        },
    };
    proof {
        assembly.spec_metadata().lemma_wf_bindings();
        lemma_stream_located(bytes@, HeapKind::Tables);
        lemma_stream_located(bytes@, HeapKind::Strings);
        lemma_stream_located(bytes@, HeapKind::Blob);
    }
    let rd = match AssemblyReader::new(&assembly) {
        Ok(v) => v,
        Err(e) => {
            return Err(e);
        },
    };
    assemble_surface(&rd)
}

} // verus!

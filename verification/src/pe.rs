//! The PE locator: DOS stub, PE file header, optional header (PE32 and
//! PE32+), section table and CLI header, and the RVA-to-file-offset map.
//!
//! Every parse takes a `strict` policy flag: under the strict policy the
//! informational fields are held to their expected values and a violation
//! is `InvalidData` at the field's offset; under the lenient policy they
//! are read as-is. Structural fields (signatures, the optional-header
//! magic) are always validated.

use vstd::prelude::*;
use crate::cursor::{le_u16_at, le_u32_at, le_u64_at, ByteStream};
use crate::error::Error;

verus! {

/// The `IL_ONLY` bit of the CLI header's runtime flags.
pub const RUNTIME_FLAG_IL_ONLY: u32 = 0x01;

/// The `REQUIRE_32BIT` bit of the CLI header's runtime flags.
pub const RUNTIME_FLAG_REQUIRE_32BIT: u32 = 0x02;

/// The `STRONG_NAME_SIGNED` bit of the CLI header's runtime flags.
pub const RUNTIME_FLAG_STRONG_NAME_SIGNED: u32 = 0x08;

/// The `NATIVE_ENTRYPOINT` bit of the CLI header's runtime flags.
pub const RUNTIME_FLAG_NATIVE_ENTRYPOINT: u32 = 0x10;

/// The `TRACK_DEBUG_DATA` bit of the CLI header's runtime flags.
pub const RUNTIME_FLAG_TRACK_DEBUG_DATA: u32 = 0x10000;

/// The DOS stub: 128 bytes whose offset `0x3C` holds the file offset of
/// the PE signature.
#[derive(Debug, Copy, Clone, PartialEq, Eq, Structural)]
pub struct DosHeader {
    pub lfanew_field: u32,
}

impl DosHeader {
    /// Reads the 128-byte DOS stub from the cursor's position.
    pub fn parse(c: &mut ByteStream) -> (r: Result<DosHeader, Error>)
        requires
            old(c).wf(),
        ensures
            final(c).wf(),
            final(c).buf() == old(c).buf(),
            old(c).pos() + 128 <= old(c).buf().len() ==> (r matches Ok(h) && h.lfanew_field
                == le_u32_at(old(c).buf(), old(c).pos() + 0x3C) && final(c).pos() == old(c).pos()
                + 128),
            old(c).pos() + 128 > old(c).buf().len() ==> (r == Err::<DosHeader, Error>(
                Error::UnexpectedEndOfStream(old(c).buf().len() as usize),
            ) && final(c).pos() == old(c).pos()),
    {
        let len = c.bytes().len();
        if c.remaining() < 128 {
            return Err(Error::UnexpectedEndOfStream(len));
        }
        let start = c.position();
        let mut probe = ByteStream::new(c.bytes());
        match probe.seek(start + 0x3C) {
            Ok(_) => {},
            Err(e) => {
                return Err(e);
            },
        }
        let lfanew = match probe.read_u32() {
            Ok(v) => v,
            Err(e) => {
                return Err(e);
            },
        };
        match c.skip(128) {
            Ok(_) => {},
            Err(e) => {
                return Err(e);
            },
        }
        Ok(DosHeader { lfanew_field: lfanew })
    }

    /// The file offset of the PE signature, stored at `0x3C`.
    pub fn lfanew(&self) -> (r: u32)
        ensures
            r == self.lfanew_field,
    {
        self.lfanew_field
    }
}

/// The 20-byte PE file header that follows the 4-byte PE signature.
#[derive(Debug, Copy, Clone, PartialEq, Eq, Structural)]
pub struct PeHeader {
    pub machine: u16,
    pub number_of_sections: u16,
    pub timestamp: u32,
    pub pointer_to_symbol_table: u32,
    pub number_of_symbols: u32,
    pub optional_header_size: u16,
    pub characteristics: u16,
}

/// The PE file header stored at `p` in `s`, right after the signature.
pub open spec fn spec_pe_header_at(s: Seq<u8>, p: int) -> PeHeader {
    PeHeader {
        machine: le_u16_at(s, p + 4) as u16,
        number_of_sections: le_u16_at(s, p + 6) as u16,
        timestamp: le_u32_at(s, p + 8) as u32,
        pointer_to_symbol_table: le_u32_at(s, p + 12) as u32,
        number_of_symbols: le_u32_at(s, p + 16) as u32,
        optional_header_size: le_u16_at(s, p + 20) as u16,
        characteristics: le_u16_at(s, p + 22) as u16,
    }
}

/// The first strict-policy violation of a PE file header stored at `p`,
/// if any: an unexpected machine, a nonzero symbol-table slot, or
/// characteristics without the executable-image bit pattern.
pub open spec fn spec_pe_header_check(s: Seq<u8>, p: int) -> Option<Error> {
    let h = spec_pe_header_at(s, p);
    if h.machine != 0x14C && h.machine != 0x8664 {
        Some(Error::InvalidData((p + 4) as usize, Some("machine")))
    } else if h.pointer_to_symbol_table != 0 {
        Some(Error::InvalidData((p + 12) as usize, Some("pointer to symbol table")))
    } else if h.number_of_symbols != 0 {
        Some(Error::InvalidData((p + 16) as usize, Some("number of symbols")))
    } else if h.characteristics & 0x000F != 0x2 {
        Some(Error::InvalidData((p + 22) as usize, Some("characteristics")))
    } else {
        None
    }
}

impl PeHeader {
    /// Reads the 4-byte PE signature and the PE file header from the
    /// cursor's position. A wrong signature is `InvalidData` at that
    /// position whatever the policy; the machine, symbol slots and
    /// characteristics are held to their expected values only under the
    /// strict policy.
    pub fn parse(c: &mut ByteStream, strict: bool) -> (r: Result<PeHeader, Error>)
        requires
            old(c).wf(),
        ensures
            final(c).wf(),
            final(c).buf() == old(c).buf(),
            ({
                let s = old(c).buf();
                let p = old(c).pos();
                let len = s.len() as usize;
                &&& p + 4 > s.len() ==> r == Err::<PeHeader, Error>(
                    Error::UnexpectedEndOfStream(len),
                )
                &&& p + 4 <= s.len() && le_u32_at(s, p) != 0x4550 ==> r == Err::<PeHeader, Error>(
                    Error::InvalidData(p as usize, Some("PE signature")),
                )
                &&& p + 4 <= s.len() && le_u32_at(s, p) == 0x4550 && p + 24 > s.len() ==> r
                    == Err::<PeHeader, Error>(Error::UnexpectedEndOfStream(len))
                &&& p + 24 <= s.len() && le_u32_at(s, p) == 0x4550 && strict ==> (
                spec_pe_header_check(s, p) matches Some(e) ==> r == Err::<PeHeader, Error>(e))
                &&& p + 24 <= s.len() && le_u32_at(s, p) == 0x4550 && (!strict
                    || spec_pe_header_check(s, p) is None) ==> (r == Ok::<PeHeader, Error>(
                    spec_pe_header_at(s, p),
                ) && final(c).pos() == p + 24)
            }),
    {
        let ghost p = old(c).pos();
        let signature = match c.read_u32() {
            Ok(v) => v,
            Err(e) => {
                return Err(e);
            },
        };
        if signature != 0x4550 {
            return Err(Error::InvalidData(c.position() - 4, Some("PE signature")));
        }
        let machine = match c.read_u16() {
            Ok(v) => v,
            Err(e) => {
                return Err(e);
            },
        };
        let number_of_sections = match c.read_u16() {
            Ok(v) => v,
            Err(e) => {
                return Err(e);
            },
        };
        let timestamp = match c.read_u32() {
            Ok(v) => v,
            Err(e) => {
                return Err(e);
            },
        };
        let pointer_to_symbol_table = match c.read_u32() {
            Ok(v) => v,
            Err(e) => {
                return Err(e);
            },
        };
        let number_of_symbols = match c.read_u32() {
            Ok(v) => v,
            Err(e) => {
                return Err(e);
            },
        };
        let optional_header_size = match c.read_u16() {
            Ok(v) => v,
            Err(e) => {
                return Err(e);
            },
        };
        let characteristics = match c.read_u16() {
            Ok(v) => v,
            Err(e) => {
                return Err(e);
            },
        };
        let h = PeHeader {
            machine,
            number_of_sections,
            timestamp,
            pointer_to_symbol_table,
            number_of_symbols,
            optional_header_size,
            characteristics,
        };
        if strict {
            if machine != 0x14C && machine != 0x8664 {
                return Err(Error::InvalidData(c.position() - 20, Some("machine")));
            }
            if pointer_to_symbol_table != 0 {
                return Err(
                    Error::InvalidData(c.position() - 12, Some("pointer to symbol table")),
                );
            }
            if number_of_symbols != 0 {
                return Err(Error::InvalidData(c.position() - 8, Some("number of symbols")));
            }
            if characteristics & 0x000F != 0x2 {
                return Err(Error::InvalidData(c.position() - 2, Some("characteristics")));
            }
        }
        Ok(h)
    }
}

/// The standard fields of the PE optional header. `base_of_data` is 0 for
/// a PE32+ image, which does not store it.
#[derive(Debug, Copy, Clone, PartialEq, Eq, Structural)]
pub struct StandardFields {
    pub magic: u16,
    pub l_major: u8,
    pub l_minor: u8,
    pub code_size: u32,
    pub initialized_data_size: u32,
    pub uninitialized_data_size: u32,
    pub entry_point_rva: u32,
    pub base_of_code: u32,
    pub base_of_data: u32,
}

/// The NT-specific fields of the PE optional header. The fields that a
/// PE32 image stores in 4 bytes are widened to `u64`.
#[derive(Debug, Copy, Clone, PartialEq, Eq, Structural)]
pub struct NTSpecificFields {
    pub image_base: u64,
    pub section_alignment: u32,
    pub file_alignment: u32,
    pub os_major: u16,
    pub os_minor: u16,
    pub user_major: u16,
    pub user_minor: u16,
    pub sub_sys_major: u16,
    pub sub_sys_minor: u16,
    pub reserved: u32,
    pub image_size: u32,
    pub header_size: u32,
    pub file_checksum: u32,
    pub sub_system: u16,
    pub dll_flags: u16,
    pub stack_reserve_size: u64,
    pub stack_commit_size: u64,
    pub heap_reserve_size: u64,
    pub heap_commit_size: u64,
    pub loader_flags: u32,
    pub number_of_data_directories: u32,
}

/// One data-directory entry: an RVA and a size.
#[derive(Debug, Copy, Clone, PartialEq, Eq, Structural)]
pub struct DataDirectory {
    pub rva: u32,
    pub size: u32,
}

/// The data directory stored at `p` in `s`.
pub open spec fn spec_data_directory_at(s: Seq<u8>, p: int) -> DataDirectory {
    DataDirectory { rva: le_u32_at(s, p) as u32, size: le_u32_at(s, p + 4) as u32 }
}

/// The PE optional header: standard fields, NT-specific fields, and the
/// 16 data directories.
#[derive(Debug, Clone, PartialEq, Eq)]
pub struct PeOptionalHeader {
    pub standard_fields: StandardFields,
    pub nt_specific_fields: NTSpecificFields,
    pub data_directories: Vec<DataDirectory>,
}

/// The total stored size of an optional header whose magic is at `p`:
/// 224 bytes for PE32, 240 for PE32+.
pub open spec fn spec_opt_header_size(pe64: bool) -> int {
    if pe64 {
        240
    } else {
        224
    }
}

/// The standard fields stored at `p` in `s` (where `p` holds the magic).
pub open spec fn spec_standard_fields_at(s: Seq<u8>, p: int, pe64: bool) -> StandardFields {
    StandardFields {
        magic: le_u16_at(s, p) as u16,
        l_major: s[p + 2],
        l_minor: s[p + 3],
        code_size: le_u32_at(s, p + 4) as u32,
        initialized_data_size: le_u32_at(s, p + 8) as u32,
        uninitialized_data_size: le_u32_at(s, p + 12) as u32,
        entry_point_rva: le_u32_at(s, p + 16) as u32,
        base_of_code: le_u32_at(s, p + 20) as u32,
        base_of_data: if pe64 {
            0u32
        } else {
            le_u32_at(s, p + 24) as u32
        },
    }
}

/// The NT-specific fields stored after the standard fields at `p` (the
/// magic's offset) in `s`.
pub open spec fn spec_nt_fields_at(s: Seq<u8>, p: int, pe64: bool) -> NTSpecificFields {
    NTSpecificFields {
        image_base: if pe64 {
            le_u64_at(s, p + 24) as u64
        } else {
            le_u32_at(s, p + 28) as u64
        },
        section_alignment: le_u32_at(s, p + 32) as u32,
        file_alignment: le_u32_at(s, p + 36) as u32,
        os_major: le_u16_at(s, p + 40) as u16,
        os_minor: le_u16_at(s, p + 42) as u16,
        user_major: le_u16_at(s, p + 44) as u16,
        user_minor: le_u16_at(s, p + 46) as u16,
        sub_sys_major: le_u16_at(s, p + 48) as u16,
        sub_sys_minor: le_u16_at(s, p + 50) as u16,
        reserved: le_u32_at(s, p + 52) as u32,
        image_size: le_u32_at(s, p + 56) as u32,
        header_size: le_u32_at(s, p + 60) as u32,
        file_checksum: le_u32_at(s, p + 64) as u32,
        sub_system: le_u16_at(s, p + 68) as u16,
        dll_flags: le_u16_at(s, p + 70) as u16,
        stack_reserve_size: if pe64 {
            le_u64_at(s, p + 72) as u64
        } else {
            le_u32_at(s, p + 72) as u64
        },
        stack_commit_size: if pe64 {
            le_u64_at(s, p + 80) as u64
        } else {
            le_u32_at(s, p + 76) as u64
        },
        heap_reserve_size: if pe64 {
            le_u64_at(s, p + 88) as u64
        } else {
            le_u32_at(s, p + 80) as u64
        },
        heap_commit_size: if pe64 {
            le_u64_at(s, p + 96) as u64
        } else {
            le_u32_at(s, p + 84) as u64
        },
        loader_flags: if pe64 {
            le_u32_at(s, p + 104) as u32
        } else {
            le_u32_at(s, p + 88) as u32
        },
        number_of_data_directories: if pe64 {
            le_u32_at(s, p + 108) as u32
        } else {
            le_u32_at(s, p + 92) as u32
        },
    }
}

/// Where the 16 data directories start, relative to the magic's offset.
pub open spec fn spec_dirs_offset(pe64: bool) -> int {
    if pe64 {
        112
    } else {
        96
    }
}

/// The 16 data directories stored at the end of an optional header whose
/// magic is at `p` in `s`.
pub open spec fn spec_data_directories_at(s: Seq<u8>, p: int, pe64: bool) -> Seq<DataDirectory> {
    Seq::new(16, |i: int| spec_data_directory_at(s, p + spec_dirs_offset(pe64) + 8 * i))
}

/// The first strict-policy violation of the NT-specific fields of an
/// optional header whose magic is at `p` in `s`, if any. The checks run
/// in field order; the offsets name the bad field's position.
pub open spec fn spec_opt_header_check(s: Seq<u8>, p: int, pe64: bool) -> Option<Error> {
    let nt = spec_nt_fields_at(s, p, pe64);
    if nt.file_alignment != 0x200 && nt.file_alignment != 0x1000 {
        Some(Error::InvalidData((p + 36) as usize, Some("file alignment")))
    } else if nt.section_alignment < nt.file_alignment {
        Some(Error::InvalidData((p + 32) as usize, Some("section alignment")))
    } else if nt.image_size as int % nt.section_alignment as int != 0 {
        Some(Error::InvalidData((p + 56) as usize, Some("image size")))
    } else if nt.header_size as int % nt.file_alignment as int != 0 {
        Some(Error::InvalidData((p + 60) as usize, Some("header size")))
    } else if nt.sub_system != 0x2 && nt.sub_system != 0x3 {
        Some(Error::InvalidData((p + 68) as usize, Some("subsystem")))
    } else if nt.dll_flags & 0x100F != 0 {
        Some(Error::InvalidData((p + 70) as usize, Some("DLL flags")))
    } else if nt.stack_reserve_size != (if pe64 { 0x400000u64 } else { 0x100000u64 }) {
        Some(
            Error::InvalidData(
                (p + 72) as usize,
                Some("stack reserve size"),
            ),
        )
    } else if nt.stack_commit_size != (if pe64 { 0x4000u64 } else { 0x1000u64 }) {
        Some(
            Error::InvalidData(
                (p + if pe64 { 80int } else { 76int }) as usize,
                Some("stack commit size"),
            ),
        )
    } else if nt.heap_reserve_size != 0x100000 {
        Some(
            Error::InvalidData(
                (p + if pe64 { 88int } else { 80int }) as usize,
                Some("heap reserve size"),
            ),
        )
    } else if nt.heap_commit_size != (if pe64 { 0x2000u64 } else { 0x1000u64 }) {
        Some(
            Error::InvalidData(
                (p + if pe64 { 96int } else { 84int }) as usize,
                Some("heap commit size"),
            ),
        )
    } else if nt.loader_flags != 0 {
        Some(
            Error::InvalidData(
                (p + if pe64 { 104int } else { 88int }) as usize,
                Some("loader flags"),
            ),
        )
    } else if nt.number_of_data_directories != 0x10 {
        Some(
            Error::InvalidData(
                (p + if pe64 { 108int } else { 92int }) as usize,
                Some("number of data directories"),
            ),
        )
    } else {
        None
    }
}


impl PeOptionalHeader {
    /// Reads the optional header from the cursor's position: the magic
    /// decides between the PE32 and PE32+ layouts (`0x10B` / `0x20B`; any
    /// other magic is `InvalidData` whatever the policy). Under the strict
    /// policy the NT-specific fields are held to their expected values.
    #[verifier::rlimit(100)]
    pub fn parse(c: &mut ByteStream, strict: bool) -> (r: Result<PeOptionalHeader, Error>)
        requires
            old(c).wf(),
        ensures
            final(c).wf(),
            final(c).buf() == old(c).buf(),
            ({
                let s = old(c).buf();
                let p = old(c).pos();
                let len = s.len() as usize;
                let magic = le_u16_at(s, p);
                let pe64 = magic == 0x20B;
                let total = spec_opt_header_size(pe64);
                &&& p + 2 > s.len() ==> r == Err::<PeOptionalHeader, Error>(
                    Error::UnexpectedEndOfStream(len),
                )
                &&& p + 2 <= s.len() && magic != 0x10B && magic != 0x20B ==> r == Err::<
                    PeOptionalHeader,
                    Error,
                >(Error::InvalidData(p as usize, Some("optional header magic")))
                &&& p + 2 <= s.len() && (magic == 0x10B || magic == 0x20B) && p + total > s.len()
                    ==> r == Err::<PeOptionalHeader, Error>(Error::UnexpectedEndOfStream(len))
                &&& p + 2 <= s.len() && (magic == 0x10B || magic == 0x20B) && p + total <= s.len()
                    && strict ==> (spec_opt_header_check(s, p, pe64) matches Some(e) ==> r
                    == Err::<PeOptionalHeader, Error>(e))
                &&& p + 2 <= s.len() && (magic == 0x10B || magic == 0x20B) && p + total <= s.len()
                    && (!strict || spec_opt_header_check(s, p, pe64) is None) ==> (r matches Ok(h)
                    && h.standard_fields == spec_standard_fields_at(s, p, pe64)
                    && h.nt_specific_fields == spec_nt_fields_at(s, p, pe64)
                    && h.data_directories@ == spec_data_directories_at(s, p, pe64)
                    && final(c).pos() == p + total)
            }),
    {
        let len = c.bytes().len();
        let start = c.position();
        let magic = match c.read_u16() {
            Ok(v) => v,
            Err(e) => {
                return Err(e);
            },
        };
        if magic != 0x10B && magic != 0x20B {
            return Err(Error::InvalidData(start, Some("optional header magic")));
        }
        let pe64 = magic == 0x20B;
        let total: usize = if pe64 {
            240
        } else {
            224
        };
        if c.remaining() < total - 2 {
            match c.seek(start) {
                Ok(_) => {},
                Err(_) => {},
            }
            return Err(Error::UnexpectedEndOfStream(len));
        }
        let l_major = match c.read_u8() {
            Ok(v) => v,
            Err(e) => { return Err(e); },
        };
        let l_minor = match c.read_u8() {
            Ok(v) => v,
            Err(e) => { return Err(e); },
        };
        let code_size = match c.read_u32() {
            Ok(v) => v,
            Err(e) => { return Err(e); },
        };
        let initialized_data_size = match c.read_u32() {
            Ok(v) => v,
            Err(e) => { return Err(e); },
        };
        let uninitialized_data_size = match c.read_u32() {
            Ok(v) => v,
            Err(e) => { return Err(e); },
        };
        let entry_point_rva = match c.read_u32() {
            Ok(v) => v,
            Err(e) => { return Err(e); },
        };
        let base_of_code = match c.read_u32() {
            Ok(v) => v,
            Err(e) => { return Err(e); },
        };
        let base_of_data: u32 = if pe64 {
            0
        } else {
            match c.read_u32() {
                Ok(v) => v,
                Err(e) => { return Err(e); },
            }
        };
        let image_base: u64 = if pe64 {
            match c.read_u64() {
                Ok(v) => v,
                Err(e) => { return Err(e); },
            }
        } else {
            match c.read_u32() {
                Ok(v) => v as u64,
                Err(e) => { return Err(e); },
            }
        };
        let section_alignment = match c.read_u32() {
            Ok(v) => v,
            Err(e) => { return Err(e); },
        };
        let file_alignment = match c.read_u32() {
            Ok(v) => v,
            Err(e) => { return Err(e); },
        };
        let os_major = match c.read_u16() {
            Ok(v) => v,
            Err(e) => { return Err(e); },
        };
        let os_minor = match c.read_u16() {
            Ok(v) => v,
            Err(e) => { return Err(e); },
        };
        let user_major = match c.read_u16() {
            Ok(v) => v,
            Err(e) => { return Err(e); },
        };
        let user_minor = match c.read_u16() {
            Ok(v) => v,
            Err(e) => { return Err(e); },
        };
        let sub_sys_major = match c.read_u16() {
            Ok(v) => v,
            Err(e) => { return Err(e); },
        };
        let sub_sys_minor = match c.read_u16() {
            Ok(v) => v,
            Err(e) => { return Err(e); },
        };
        let reserved = match c.read_u32() {
            Ok(v) => v,
            Err(e) => { return Err(e); },
        };
        let image_size = match c.read_u32() {
            Ok(v) => v,
            Err(e) => { return Err(e); },
        };
        let header_size = match c.read_u32() {
            Ok(v) => v,
            Err(e) => { return Err(e); },
        };
        let file_checksum = match c.read_u32() {
            Ok(v) => v,
            Err(e) => { return Err(e); },
        };
        let sub_system = match c.read_u16() {
            Ok(v) => v,
            Err(e) => { return Err(e); },
        };
        let dll_flags = match c.read_u16() {
            Ok(v) => v,
            Err(e) => { return Err(e); },
        };
        let stack_reserve_size: u64 = if pe64 {
            match c.read_u64() {
                Ok(v) => v,
                Err(e) => { return Err(e); },
            }
        } else {
            match c.read_u32() {
                Ok(v) => v as u64,
                Err(e) => { return Err(e); },
            }
        };
        let stack_commit_size: u64 = if pe64 {
            match c.read_u64() {
                Ok(v) => v,
                Err(e) => { return Err(e); },
            }
        } else {
            match c.read_u32() {
                Ok(v) => v as u64,
                Err(e) => { return Err(e); },
            }
        };
        let heap_reserve_size: u64 = if pe64 {
            match c.read_u64() {
                Ok(v) => v,
                Err(e) => { return Err(e); },
            }
        } else {
            match c.read_u32() {
                Ok(v) => v as u64,
                Err(e) => { return Err(e); },
            }
        };
        let heap_commit_size: u64 = if pe64 {
            match c.read_u64() {
                Ok(v) => v,
                Err(e) => { return Err(e); },
            }
        } else {
            match c.read_u32() {
                Ok(v) => v as u64,
                Err(e) => { return Err(e); },
            }
        };
        let loader_flags = match c.read_u32() {
            Ok(v) => v,
            Err(e) => { return Err(e); },
        };
        let number_of_data_directories = match c.read_u32() {
            Ok(v) => v,
            Err(e) => { return Err(e); },
        };
        if strict {
            if file_alignment != 0x200 && file_alignment != 0x1000 {
                return Err(Error::InvalidData(start + 36, Some("file alignment")));
            }
            if section_alignment < file_alignment {
                return Err(Error::InvalidData(start + 32, Some("section alignment")));
            }
            if image_size % section_alignment != 0 {
                return Err(Error::InvalidData(start + 56, Some("image size")));
            }
            if header_size % file_alignment != 0 {
                return Err(Error::InvalidData(start + 60, Some("header size")));
            }
            if sub_system != 0x2 && sub_system != 0x3 {
                return Err(Error::InvalidData(start + 68, Some("subsystem")));
            }
            if dll_flags & 0x100F != 0 {
                return Err(Error::InvalidData(start + 70, Some("DLL flags")));
            }
            if stack_reserve_size != (if pe64 { 0x400000u64 } else { 0x100000u64 }) {
                return Err(Error::InvalidData(start + 72, Some("stack reserve size")));
            }
            if stack_commit_size != (if pe64 { 0x4000u64 } else { 0x1000u64 }) {
                let off: usize = if pe64 { start + 80 } else { start + 76 };
                return Err(Error::InvalidData(off, Some("stack commit size")));
            }
            if heap_reserve_size != 0x100000 {
                let off: usize = if pe64 { start + 88 } else { start + 80 };
                return Err(Error::InvalidData(off, Some("heap reserve size")));
            }
            if heap_commit_size != (if pe64 { 0x2000u64 } else { 0x1000u64 }) {
                let off: usize = if pe64 { start + 96 } else { start + 84 };
                return Err(Error::InvalidData(off, Some("heap commit size")));
            }
            if loader_flags != 0 {
                let off: usize = if pe64 { start + 104 } else { start + 88 };
                return Err(Error::InvalidData(off, Some("loader flags")));
            }
            if number_of_data_directories != 0x10 {
                let off: usize = if pe64 { start + 108 } else { start + 92 };
                return Err(Error::InvalidData(off, Some("number of data directories")));
            }
        }
        let ghost s = old(c).buf();
        let ghost p = old(c).pos();
        let mut data_directories: Vec<DataDirectory> = Vec::new();
        let mut i: usize = 0;
        while i < 16
            invariant
                c.wf(),
                c.buf() == s,
                p == old(c).pos(),
                0 <= i <= 16,
                p + spec_opt_header_size(pe64) <= s.len(),
                c.pos() == p + spec_dirs_offset(pe64) + 8 * i,
                data_directories@.len() == i,
                forall|j: int|
                    0 <= j < i ==> data_directories@[j] == spec_data_directory_at(
                        s,
                        p + spec_dirs_offset(pe64) + 8 * j,
                    ),
            decreases 16 - i,
        {
            let rva = match c.read_u32() {
                Ok(v) => v,
                Err(e) => {
                    proof {
                        assert(false);
                    }
                    return Err(e);
                },
            };
            let size = match c.read_u32() {
                Ok(v) => v,
                Err(e) => {
                    proof {
                        assert(false);
                    }
                    return Err(e);
                },
            };
            data_directories.push(DataDirectory { rva, size });
            i = i + 1;
        }
        proof {
            assert(data_directories@ =~= spec_data_directories_at(s, p, pe64));
        }
        Ok(PeOptionalHeader {
            standard_fields: StandardFields {
                magic,
                l_major,
                l_minor,
                code_size,
                initialized_data_size,
                uninitialized_data_size,
                entry_point_rva,
                base_of_code,
                base_of_data,
            },
            nt_specific_fields: NTSpecificFields {
                image_base,
                section_alignment,
                file_alignment,
                os_major,
                os_minor,
                user_major,
                user_minor,
                sub_sys_major,
                sub_sys_minor,
                reserved,
                image_size,
                header_size,
                file_checksum,
                sub_system,
                dll_flags,
                stack_reserve_size,
                stack_commit_size,
                heap_reserve_size,
                heap_commit_size,
                loader_flags,
                number_of_data_directories,
            },
            data_directories,
        })
    }
}


/// One entry of the section table: 40 bytes.
#[derive(Debug, Copy, Clone, PartialEq, Eq, Structural)]
pub struct SectionHeader {
    pub name: u64,
    pub virtual_size: u32,
    pub virtual_address: u32,
    pub size_of_raw_data: u32,
    pub pointer_to_raw_data: u32,
    pub pointer_to_relocations: u32,
    pub pointer_to_line_numbers: u32,
    pub number_of_relocations: u16,
    pub number_of_line_numbers: u16,
    pub characteristics: u32,
}

/// The section-table entry stored at `p` in `s`.
pub open spec fn spec_section_at(s: Seq<u8>, p: int) -> SectionHeader {
    SectionHeader {
        name: le_u64_at(s, p) as u64,
        virtual_size: le_u32_at(s, p + 8) as u32,
        virtual_address: le_u32_at(s, p + 12) as u32,
        size_of_raw_data: le_u32_at(s, p + 16) as u32,
        pointer_to_raw_data: le_u32_at(s, p + 20) as u32,
        pointer_to_relocations: le_u32_at(s, p + 24) as u32,
        pointer_to_line_numbers: le_u32_at(s, p + 28) as u32,
        number_of_relocations: le_u16_at(s, p + 32) as u16,
        number_of_line_numbers: le_u16_at(s, p + 34) as u16,
        characteristics: le_u32_at(s, p + 36) as u32,
    }
}

/// The first strict-policy violation of a section-table entry stored at
/// `p`, if any: a nonzero relocation or line-number slot.
pub open spec fn spec_section_check(s: Seq<u8>, p: int) -> Option<Error> {
    let h = spec_section_at(s, p);
    if h.pointer_to_relocations != 0 {
        Some(Error::InvalidData((p + 24) as usize, Some("pointer to relocations")))
    } else if h.pointer_to_line_numbers != 0 {
        Some(Error::InvalidData((p + 28) as usize, Some("pointer to line numbers")))
    } else if h.number_of_relocations != 0 {
        Some(Error::InvalidData((p + 32) as usize, Some("number of relocations")))
    } else if h.number_of_line_numbers != 0 {
        Some(Error::InvalidData((p + 34) as usize, Some("number of line numbers")))
    } else {
        None
    }
}

impl SectionHeader {
    /// Reads one 40-byte section-table entry from the cursor's position.
    /// Under the strict policy the relocation and line-number slots must
    /// be zero.
    pub fn parse(c: &mut ByteStream, strict: bool) -> (r: Result<SectionHeader, Error>)
        requires
            old(c).wf(),
        ensures
            final(c).wf(),
            final(c).buf() == old(c).buf(),
            ({
                let s = old(c).buf();
                let p = old(c).pos();
                let len = s.len() as usize;
                &&& p + 40 > s.len() ==> (r == Err::<SectionHeader, Error>(
                    Error::UnexpectedEndOfStream(len),
                ) && final(c).pos() == p)
                &&& p + 40 <= s.len() && strict ==> (spec_section_check(s, p) matches Some(e)
                    ==> r == Err::<SectionHeader, Error>(e))
                &&& p + 40 <= s.len() && (!strict || spec_section_check(s, p) is None) ==> (r
                    == Ok::<SectionHeader, Error>(spec_section_at(s, p)) && final(c).pos() == p
                    + 40)
            }),
    {
        let len = c.bytes().len();
        if c.remaining() < 40 {
            return Err(Error::UnexpectedEndOfStream(len));
        }
        let start = c.position();
        let name = match c.read_u64() {
            Ok(v) => v,
            Err(e) => { return Err(e); },
        };
        let virtual_size = match c.read_u32() {
            Ok(v) => v,
            Err(e) => { return Err(e); },
        };
        let virtual_address = match c.read_u32() {
            Ok(v) => v,
            Err(e) => { return Err(e); },
        };
        let size_of_raw_data = match c.read_u32() {
            Ok(v) => v,
            Err(e) => { return Err(e); },
        };
        let pointer_to_raw_data = match c.read_u32() {
            Ok(v) => v,
            Err(e) => { return Err(e); },
        };
        let pointer_to_relocations = match c.read_u32() {
            Ok(v) => v,
            Err(e) => { return Err(e); },
        };
        let pointer_to_line_numbers = match c.read_u32() {
            Ok(v) => v,
            Err(e) => { return Err(e); },
        };
        let number_of_relocations = match c.read_u16() {
            Ok(v) => v,
            Err(e) => { return Err(e); },
        };
        let number_of_line_numbers = match c.read_u16() {
            Ok(v) => v,
            Err(e) => { return Err(e); },
        };
        let characteristics = match c.read_u32() {
            Ok(v) => v,
            Err(e) => { return Err(e); },
        };
        if strict {
            if pointer_to_relocations != 0 {
                return Err(Error::InvalidData(start + 24, Some("pointer to relocations")));
            }
            if pointer_to_line_numbers != 0 {
                return Err(Error::InvalidData(start + 28, Some("pointer to line numbers")));
            }
            if number_of_relocations != 0 {
                return Err(Error::InvalidData(start + 32, Some("number of relocations")));
            }
            if number_of_line_numbers != 0 {
                return Err(Error::InvalidData(start + 34, Some("number of line numbers")));
            }
        }
        Ok(SectionHeader {
            name,
            virtual_size,
            virtual_address,
            size_of_raw_data,
            pointer_to_raw_data,
            pointer_to_relocations,
            pointer_to_line_numbers,
            number_of_relocations,
            number_of_line_numbers,
            characteristics,
        })
    }
}

/// The error reading a section table stops with, if any: entries are
/// read in order, so the first entry that runs out of bytes or (under
/// the strict policy) fails its checks decides.
pub open spec fn spec_section_table_error(
    s: Seq<u8>,
    p: int,
    count: int,
    strict: bool,
) -> Option<Error>
    decreases count,
{
    if count <= 0 {
        None
    } else if p + 40 > s.len() {
        Some(Error::UnexpectedEndOfStream(s.len() as usize))
    } else if strict && spec_section_check(s, p) is Some {
        spec_section_check(s, p)
    } else {
        spec_section_table_error(s, p + 40, count - 1, strict)
    }
}

/// Reads the section table: `count` entries of 40 bytes each.
pub fn read_section_table(c: &mut ByteStream, count: usize, strict: bool) -> (r: Result<
    Vec<SectionHeader>,
    Error,
>)
    requires
        old(c).wf(),
        count <= 0xFFFF,
    ensures
        final(c).wf(),
        final(c).buf() == old(c).buf(),
        ({
            let s = old(c).buf();
            let p = old(c).pos();
            &&& (p + 40 * count <= s.len() && (!strict || forall|i: int|
                0 <= i < count ==> (#[trigger] spec_section_check(s, p + 40 * i)) is None)) ==> r
                is Ok
            &&& r matches Ok(v) ==> (v@ == Seq::new(
                count as nat,
                |i: int| spec_section_at(s, p + 40 * i),
            ) && final(c).pos() == p + 40 * count && p + 40 * count <= s.len() && (strict
                ==> forall|i: int|
                0 <= i < count ==> (#[trigger] spec_section_check(s, p + 40 * i)) is None))
            &&& r is Err ==> (p + 40 * count > s.len() || (strict && exists|i: int|
                0 <= i < count && (#[trigger] spec_section_check(s, p + 40 * i)) is Some))
            &&& r matches Err(e) ==> Some(e) == spec_section_table_error(s, p, count as int, strict)
        }),
{
    let ghost s = old(c).buf();
    let ghost p = old(c).pos();
    let mut sections: Vec<SectionHeader> = Vec::new();
    let mut i: usize = 0;
    while i < count
        invariant
            c.wf(),
            c.buf() == s,
            s == old(c).buf(),
            p == old(c).pos(),
            count <= 0xFFFF,
            0 <= i <= count,
            c.pos() == p + 40 * i,
            p + 40 * i <= s.len(),
            sections@.len() == i,
            forall|j: int| 0 <= j < i ==> sections@[j] == spec_section_at(s, p + 40 * j),
            forall|j: int|
                0 <= j < i && strict ==> (#[trigger] spec_section_check(s, p + 40 * j)) is None,
            spec_section_table_error(s, p, count as int, strict) == spec_section_table_error(
                s,
                p + 40 * i,
                count - i as int,
                strict,
            ),
        decreases count - i,
    {
        let sec = match SectionHeader::parse(c, strict) {
            Ok(v) => v,
            Err(e) => {
                proof {
                    if p + 40 * count <= s.len() {
                        assert(p + 40 * (i as int) + 40 <= s.len());
                    }
                }
                return Err(e);
            },
        };
        sections.push(sec);
        i = i + 1;
    }
    proof {
        assert(sections@ =~= Seq::new(count as nat, |j: int| spec_section_at(s, p + 40 * j)));
    }
    Ok(sections)
}

/// The CLI header: 72 bytes found through data directory 14.
#[derive(Debug, Copy, Clone, PartialEq, Eq, Structural)]
pub struct CliHeader {
    pub size: u32,
    pub major_runtime_version: u16,
    pub minor_runtime_version: u16,
    pub metadata: DataDirectory,
    pub flags: u32,
    pub entry_point_token: u32,
    pub resources: DataDirectory,
    pub strong_name_signature_rva: u64,
    pub code_manager_table: u64,
    pub v_table_fixups_rva: u64,
    pub export_address_table_jumps: u64,
    pub managed_native_header: u64,
}

/// The CLI header stored at `p` in `s`.
pub open spec fn spec_cli_header_at(s: Seq<u8>, p: int) -> CliHeader {
    CliHeader {
        size: le_u32_at(s, p) as u32,
        major_runtime_version: le_u16_at(s, p + 4) as u16,
        minor_runtime_version: le_u16_at(s, p + 6) as u16,
        metadata: spec_data_directory_at(s, p + 8),
        flags: le_u32_at(s, p + 16) as u32,
        entry_point_token: le_u32_at(s, p + 20) as u32,
        resources: spec_data_directory_at(s, p + 24),
        strong_name_signature_rva: le_u64_at(s, p + 32) as u64,
        code_manager_table: le_u64_at(s, p + 40) as u64,
        v_table_fixups_rva: le_u64_at(s, p + 48) as u64,
        export_address_table_jumps: le_u64_at(s, p + 56) as u64,
        managed_native_header: le_u64_at(s, p + 64) as u64,
    }
}

/// The first strict-policy violation of a CLI header stored at `p`, if
/// any: a cleared IL-only flag bit, or a nonzero reserved slot.
pub open spec fn spec_cli_header_check(s: Seq<u8>, p: int) -> Option<Error> {
    let h = spec_cli_header_at(s, p);
    if h.flags & RUNTIME_FLAG_IL_ONLY == 0 {
        Some(Error::InvalidData((p + 16) as usize, Some("runtime flags")))
    } else if h.code_manager_table != 0 {
        Some(Error::InvalidData((p + 40) as usize, Some("code manager table")))
    } else if h.export_address_table_jumps != 0 {
        Some(Error::InvalidData((p + 56) as usize, Some("export address table jumps")))
    } else {
        None
    }
}

impl CliHeader {
    /// Reads the 72-byte CLI header from the cursor's position. Under the
    /// strict policy the IL-only flag must be set and the reserved slots
    /// zero.
    pub fn parse(c: &mut ByteStream, strict: bool) -> (r: Result<CliHeader, Error>)
        requires
            old(c).wf(),
        ensures
            final(c).wf(),
            final(c).buf() == old(c).buf(),
            ({
                let s = old(c).buf();
                let p = old(c).pos();
                let len = s.len() as usize;
                &&& p + 72 > s.len() ==> (r == Err::<CliHeader, Error>(
                    Error::UnexpectedEndOfStream(len),
                ) && final(c).pos() == p)
                &&& p + 72 <= s.len() && strict ==> (spec_cli_header_check(s, p) matches Some(e)
                    ==> r == Err::<CliHeader, Error>(e))
                &&& p + 72 <= s.len() && (!strict || spec_cli_header_check(s, p) is None) ==> (r
                    == Ok::<CliHeader, Error>(spec_cli_header_at(s, p)) && final(c).pos() == p
                    + 72)
            }),
    {
        let len = c.bytes().len();
        if c.remaining() < 72 {
            return Err(Error::UnexpectedEndOfStream(len));
        }
        let start = c.position();
        let size = match c.read_u32() {
            Ok(v) => v,
            Err(e) => { return Err(e); },
        };
        let major_runtime_version = match c.read_u16() {
            Ok(v) => v,
            Err(e) => { return Err(e); },
        };
        let minor_runtime_version = match c.read_u16() {
            Ok(v) => v,
            Err(e) => { return Err(e); },
        };
        let metadata_rva = match c.read_u32() {
            Ok(v) => v,
            Err(e) => { return Err(e); },
        };
        let metadata_size = match c.read_u32() {
            Ok(v) => v,
            Err(e) => { return Err(e); },
        };
        let flags = match c.read_u32() {
            Ok(v) => v,
            Err(e) => { return Err(e); },
        };
        let entry_point_token = match c.read_u32() {
            Ok(v) => v,
            Err(e) => { return Err(e); },
        };
        let resources_rva = match c.read_u32() {
            Ok(v) => v,
            Err(e) => { return Err(e); },
        };
        let resources_size = match c.read_u32() {
            Ok(v) => v,
            Err(e) => { return Err(e); },
        };
        let strong_name_signature_rva = match c.read_u64() {
            Ok(v) => v,
            Err(e) => { return Err(e); },
        };
        let code_manager_table = match c.read_u64() {
            Ok(v) => v,
            Err(e) => { return Err(e); },
        };
        let v_table_fixups_rva = match c.read_u64() {
            Ok(v) => v,
            Err(e) => { return Err(e); },
        };
        let export_address_table_jumps = match c.read_u64() {
            Ok(v) => v,
            Err(e) => { return Err(e); },
        };
        let managed_native_header = match c.read_u64() {
            Ok(v) => v,
            Err(e) => { return Err(e); },
        };
        if strict {
            if flags & RUNTIME_FLAG_IL_ONLY == 0 {
                return Err(Error::InvalidData(start + 16, Some("runtime flags")));
            }
            if code_manager_table != 0 {
                return Err(Error::InvalidData(start + 40, Some("code manager table")));
            }
            if export_address_table_jumps != 0 {
                return Err(
                    Error::InvalidData(start + 56, Some("export address table jumps")),
                );
            }
        }
        Ok(CliHeader {
            size,
            major_runtime_version,
            minor_runtime_version,
            metadata: DataDirectory { rva: metadata_rva, size: metadata_size },
            flags,
            entry_point_token,
            resources: DataDirectory { rva: resources_rva, size: resources_size },
            strong_name_signature_rva,
            code_manager_table,
            v_table_fixups_rva,
            export_address_table_jumps,
            managed_native_header,
        })
    }
}

/// Whether a section's raw data covers the RVA.
pub open spec fn spec_section_match(sec: SectionHeader, rva: u32) -> bool {
    sec.virtual_address <= rva < sec.virtual_address + sec.size_of_raw_data
}

/// The first section (from `i` on) whose raw data covers the RVA, if any.
pub open spec fn spec_find_section(sections: Seq<SectionHeader>, rva: u32, i: int) -> Option<int>
    decreases sections.len() - i,
{
    if i < 0 || i >= sections.len() {
        None
    } else if spec_section_match(sections[i], rva) {
        Some(i)
    } else {
        spec_find_section(sections, rva, i + 1)
    }
}

/// Maps an RVA to a file offset by linear search over the section table:
/// the first section with `va <= rva < va + raw_size` maps it to
/// `rva - va + raw_pointer`. `OffsetOutOfBounds` when no section covers
/// the RVA or the offset does not fit the machine's word.
pub fn resolve_rva(rva: u32, sections: &Vec<SectionHeader>) -> (r: Result<usize, Error>)
    ensures
        spec_find_section(sections@, rva, 0) matches Some(i) ==> ({
            let sec = sections@[i];
            &&& rva - sec.virtual_address + sec.pointer_to_raw_data <= usize::MAX ==> (r
                matches Ok(o) && o == rva - sec.virtual_address + sec.pointer_to_raw_data)
            &&& rva - sec.virtual_address + sec.pointer_to_raw_data > usize::MAX ==> r == Err::<
                usize,
                Error,
            >(Error::OffsetOutOfBounds(rva as usize))
        }),
        spec_find_section(sections@, rva, 0) is None ==> r == Err::<usize, Error>(
            Error::OffsetOutOfBounds(rva as usize),
        ),
{
    let n = sections.len();
    let mut i: usize = 0;
    while i < n
        invariant
            n == sections@.len(),
            0 <= i <= n,
            spec_find_section(sections@, rva, 0) == spec_find_section(sections@, rva, i as int),
        decreases n - i,
    {
        let sec = sections[i];
        if sec.virtual_address <= rva && (rva as u64) < sec.virtual_address as u64
            + sec.size_of_raw_data as u64 {
            let off64: u64 = rva as u64 - sec.virtual_address as u64
                + sec.pointer_to_raw_data as u64;
            if off64 > usize::MAX as u64 {
                return Err(Error::OffsetOutOfBounds(rva as usize));
            }
            return Ok(off64 as usize);
        }
        i = i + 1;
    }
    Err(Error::OffsetOutOfBounds(rva as usize))
}


/// The 16 data directories under their conventional names.
#[derive(Debug, Copy, Clone, PartialEq, Eq, Structural)]
pub struct DataDirectories {
    pub export_table: DataDirectory,
    pub import_table: DataDirectory,
    pub resource_table: DataDirectory,
    pub exception_table: DataDirectory,
    pub certificate_table: DataDirectory,
    pub base_relocation_table: DataDirectory,
    pub debug: DataDirectory,
    pub copyright: DataDirectory,
    pub global_ptr: DataDirectory,
    pub tls_table: DataDirectory,
    pub load_config_table: DataDirectory,
    pub bound_import: DataDirectory,
    pub import_address_table: DataDirectory,
    pub delay_import_descriptor: DataDirectory,
    pub cli_header: DataDirectory,
    pub reserved: DataDirectory,
}

/// The named data directories stored at `p` in `s`.
pub open spec fn spec_data_directories_struct_at(s: Seq<u8>, p: int) -> DataDirectories {
    DataDirectories {
        export_table: spec_data_directory_at(s, p),
        import_table: spec_data_directory_at(s, p + 8),
        resource_table: spec_data_directory_at(s, p + 16),
        exception_table: spec_data_directory_at(s, p + 24),
        certificate_table: spec_data_directory_at(s, p + 32),
        base_relocation_table: spec_data_directory_at(s, p + 40),
        debug: spec_data_directory_at(s, p + 48),
        copyright: spec_data_directory_at(s, p + 56),
        global_ptr: spec_data_directory_at(s, p + 64),
        tls_table: spec_data_directory_at(s, p + 72),
        load_config_table: spec_data_directory_at(s, p + 80),
        bound_import: spec_data_directory_at(s, p + 88),
        import_address_table: spec_data_directory_at(s, p + 96),
        delay_import_descriptor: spec_data_directory_at(s, p + 104),
        cli_header: spec_data_directory_at(s, p + 112),
        reserved: spec_data_directory_at(s, p + 120),
    }
}

/// Whether a data directory is all zero.
pub open spec fn spec_dir_zero(d: DataDirectory) -> bool {
    d.rva == 0 && d.size == 0
}

/// The first strict-policy violation among the data directories the
/// format expects to be zero, if any, in field order.
pub open spec fn spec_data_directories_check(s: Seq<u8>, p: int) -> Option<Error> {
    let d = spec_data_directories_struct_at(s, p);
    if !spec_dir_zero(d.export_table) {
        Some(Error::InvalidData(p as usize, Some("export table")))
    } else if !spec_dir_zero(d.resource_table) {
        Some(Error::InvalidData((p + 16) as usize, Some("resource table")))
    } else if !spec_dir_zero(d.exception_table) {
        Some(Error::InvalidData((p + 24) as usize, Some("exception table")))
    } else if !spec_dir_zero(d.certificate_table) {
        Some(Error::InvalidData((p + 32) as usize, Some("certificate table")))
    } else if !spec_dir_zero(d.debug) {
        Some(Error::InvalidData((p + 48) as usize, Some("debug")))
    } else if !spec_dir_zero(d.copyright) {
        Some(Error::InvalidData((p + 56) as usize, Some("copyright")))
    } else if !spec_dir_zero(d.global_ptr) {
        Some(Error::InvalidData((p + 64) as usize, Some("global pointer")))
    } else if !spec_dir_zero(d.tls_table) {
        Some(Error::InvalidData((p + 72) as usize, Some("TLS table")))
    } else if !spec_dir_zero(d.load_config_table) {
        Some(Error::InvalidData((p + 80) as usize, Some("load config table")))
    } else if !spec_dir_zero(d.bound_import) {
        Some(Error::InvalidData((p + 88) as usize, Some("bound import")))
    } else if !spec_dir_zero(d.delay_import_descriptor) {
        Some(Error::InvalidData((p + 104) as usize, Some("delay import descriptor")))
    } else if !spec_dir_zero(d.reserved) {
        Some(Error::InvalidData((p + 120) as usize, Some("reserved data directory")))
    } else {
        None
    }
}

impl DataDirectories {
    /// Reads the 16 named data directories from the cursor's position.
    /// Under the strict policy the directories the format leaves unused
    /// must be zero.
    #[verifier::rlimit(50)]
    pub fn parse(c: &mut ByteStream, strict: bool) -> (r: Result<DataDirectories, Error>)
        requires
            old(c).wf(),
        ensures
            final(c).wf(),
            final(c).buf() == old(c).buf(),
            ({
                let s = old(c).buf();
                let p = old(c).pos();
                let len = s.len() as usize;
                &&& p + 128 > s.len() ==> (r == Err::<DataDirectories, Error>(
                    Error::UnexpectedEndOfStream(len),
                ) && final(c).pos() == p)
                &&& p + 128 <= s.len() && strict ==> (spec_data_directories_check(s, p)
                    matches Some(e) ==> r == Err::<DataDirectories, Error>(e))
                &&& p + 128 <= s.len() && (!strict || spec_data_directories_check(s, p) is None)
                    ==> (r == Ok::<DataDirectories, Error>(spec_data_directories_struct_at(s, p))
                    && final(c).pos() == p + 128)
            }),
    {
        let len = c.bytes().len();
        if c.remaining() < 128 {
            return Err(Error::UnexpectedEndOfStream(len));
        }
        let start = c.position();
        let mut dirs: Vec<DataDirectory> = Vec::new();
        let mut i: usize = 0;
        while i < 16
            invariant
                c.wf(),
                c.buf() == old(c).buf(),
                start == old(c).pos(),
                start + 128 <= c.buf().len(),
                0 <= i <= 16,
                c.pos() == start + 8 * i,
                dirs@.len() == i,
                forall|j: int|
                    0 <= j < i ==> dirs@[j] == spec_data_directory_at(c.buf(), start + 8 * j),
            decreases 16 - i,
        {
            let rva = match c.read_u32() {
                Ok(v) => v,
                Err(e) => {
                    proof {
                        assert(false);
                    }
                    return Err(e);
                },
            };
            let size = match c.read_u32() {
                Ok(v) => v,
                Err(e) => {
                    proof {
                        assert(false);
                    }
                    return Err(e);
                },
            };
            dirs.push(DataDirectory { rva, size });
            i = i + 1;
        }
        let d = DataDirectories {
            export_table: dirs[0],
            import_table: dirs[1],
            resource_table: dirs[2],
            exception_table: dirs[3],
            certificate_table: dirs[4],
            base_relocation_table: dirs[5],
            debug: dirs[6],
            copyright: dirs[7],
            global_ptr: dirs[8],
            tls_table: dirs[9],
            load_config_table: dirs[10],
            bound_import: dirs[11],
            import_address_table: dirs[12],
            delay_import_descriptor: dirs[13],
            cli_header: dirs[14],
            reserved: dirs[15],
        };
        if strict {
            if d.export_table.rva != 0 || d.export_table.size != 0 {
                return Err(Error::InvalidData(start, Some("export table")));
            }
            if d.resource_table.rva != 0 || d.resource_table.size != 0 {
                return Err(Error::InvalidData(start + 16, Some("resource table")));
            }
            if d.exception_table.rva != 0 || d.exception_table.size != 0 {
                return Err(Error::InvalidData(start + 24, Some("exception table")));
            }
            if d.certificate_table.rva != 0 || d.certificate_table.size != 0 {
                return Err(Error::InvalidData(start + 32, Some("certificate table")));
            }
            if d.debug.rva != 0 || d.debug.size != 0 {
                return Err(Error::InvalidData(start + 48, Some("debug")));
            }
            if d.copyright.rva != 0 || d.copyright.size != 0 {
                return Err(Error::InvalidData(start + 56, Some("copyright")));
            }
            if d.global_ptr.rva != 0 || d.global_ptr.size != 0 {
                return Err(Error::InvalidData(start + 64, Some("global pointer")));
            }
            if d.tls_table.rva != 0 || d.tls_table.size != 0 {
                return Err(Error::InvalidData(start + 72, Some("TLS table")));
            }
            if d.load_config_table.rva != 0 || d.load_config_table.size != 0 {
                return Err(Error::InvalidData(start + 80, Some("load config table")));
            }
            if d.bound_import.rva != 0 || d.bound_import.size != 0 {
                return Err(Error::InvalidData(start + 88, Some("bound import")));
            }
            if d.delay_import_descriptor.rva != 0 || d.delay_import_descriptor.size != 0 {
                return Err(
                    Error::InvalidData(start + 104, Some("delay import descriptor")),
                );
            }
            if d.reserved.rva != 0 || d.reserved.size != 0 {
                return Err(Error::InvalidData(start + 120, Some("reserved data directory")));
            }
        }
        Ok(d)
    }
}

/// One import-table entry: 40 bytes, the last 20 reserved.
#[derive(Debug, Copy, Clone, PartialEq, Eq, Structural)]
pub struct ImportTable {
    pub import_lookup_table_rva: u32,
    pub date_time_stamp: u32,
    pub forwarder_chain: u32,
    pub name: u32,
    pub import_address_table_rva: u32,
}

/// The import-table entry stored at `p` in `s`.
pub open spec fn spec_import_table_at(s: Seq<u8>, p: int) -> ImportTable {
    ImportTable {
        import_lookup_table_rva: le_u32_at(s, p) as u32,
        date_time_stamp: le_u32_at(s, p + 4) as u32,
        forwarder_chain: le_u32_at(s, p + 8) as u32,
        name: le_u32_at(s, p + 12) as u32,
        import_address_table_rva: le_u32_at(s, p + 16) as u32,
    }
}

impl ImportTable {
    /// Reads one 40-byte import-table entry (the trailing 20 bytes are
    /// padding). Under the strict policy its timestamp and forwarder
    /// chain must be zero.
    pub fn parse(c: &mut ByteStream, strict: bool) -> (r: Result<ImportTable, Error>)
        requires
            old(c).wf(),
        ensures
            final(c).wf(),
            final(c).buf() == old(c).buf(),
            ({
                let s = old(c).buf();
                let p = old(c).pos();
                let len = s.len() as usize;
                let h = spec_import_table_at(s, p);
                &&& p + 40 > s.len() ==> (r == Err::<ImportTable, Error>(
                    Error::UnexpectedEndOfStream(len),
                ) && final(c).pos() == p)
                &&& p + 40 <= s.len() && strict && h.date_time_stamp != 0 ==> r == Err::<
                    ImportTable,
                    Error,
                >(Error::InvalidData((p + 4) as usize, Some("timestamp")))
                &&& p + 40 <= s.len() && strict && h.date_time_stamp == 0 && h.forwarder_chain
                    != 0 ==> r == Err::<ImportTable, Error>(
                    Error::InvalidData((p + 8) as usize, Some("forwarder chain")),
                )
                &&& p + 40 <= s.len() && (!strict || (h.date_time_stamp == 0
                    && h.forwarder_chain == 0)) ==> (r == Ok::<ImportTable, Error>(h)
                    && final(c).pos() == p + 40)
            }),
    {
        let len = c.bytes().len();
        if c.remaining() < 40 {
            return Err(Error::UnexpectedEndOfStream(len));
        }
        let start = c.position();
        let import_lookup_table_rva = match c.read_u32() {
            Ok(v) => v,
            Err(e) => { return Err(e); },
        };
        let date_time_stamp = match c.read_u32() {
            Ok(v) => v,
            Err(e) => { return Err(e); },
        };
        let forwarder_chain = match c.read_u32() {
            Ok(v) => v,
            Err(e) => { return Err(e); },
        };
        let name = match c.read_u32() {
            Ok(v) => v,
            Err(e) => { return Err(e); },
        };
        let import_address_table_rva = match c.read_u32() {
            Ok(v) => v,
            Err(e) => { return Err(e); },
        };
        match c.skip(20) {
            Ok(_) => {},
            Err(e) => { return Err(e); },
        }
        if strict {
            if date_time_stamp != 0 {
                return Err(Error::InvalidData(start + 4, Some("timestamp")));
            }
            if forwarder_chain != 0 {
                return Err(Error::InvalidData(start + 8, Some("forwarder chain")));
            }
        }
        Ok(ImportTable {
            import_lookup_table_rva,
            date_time_stamp,
            forwarder_chain,
            name,
            import_address_table_rva,
        })
    }
}

} // verus!

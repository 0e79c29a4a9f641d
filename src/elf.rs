//! Executable and Linkable Format headers for Intel 80386 (ELF32) and
//! x86-64 / AArch64 (ELF64) little-endian images, format version 1.
//!
//! Everything here reads bytes that the caller has already placed in memory;
//! each record is read at an offset checked against the bounds of its byte view.
use vstd::prelude::*;
use crate::bytes::{le16, le32, le64, read_u16, read_u32, read_u64};

verus! {

/// Length of the identification prefix of an ELF header.
pub const EI_NIDENT: usize = 16;
/// Value of the class byte of a 32-bit image.
pub const ELF_CLASS32: u8 = 1;
/// Value of the class byte of a 64-bit image.
pub const ELF_CLASS64: u8 = 2;
pub const EM_386: u16 = 3;
pub const EM_X86_64: u16 = 62;
pub const EM_AARCH64: u16 = 183;
/// Program-header type of a segment to be loaded into memory.
pub const PT_LOAD: u32 = 1;
/// Lowest object-file version accepted.
pub const ELF_VERSION: u32 = 1;
/// Size in bytes of an ELF32 header.
pub const ELF32_HEADER_SIZE: usize = 52;
/// Size in bytes of an ELF64 header.
pub const ELF64_HEADER_SIZE: usize = 64;
/// Size in bytes of an ELF32 program-header record.
pub const ELF32_PHDR_SIZE: usize = 32;
/// Size in bytes of an ELF64 program-header record.
pub const ELF64_PHDR_SIZE: usize = 56;

/// The exact identification bytes required of an image of the given class:
/// magic, class, little-endian encoding, header version 1, zero padding.
pub open spec fn elf_identifier(class: u8) -> Seq<u8> {
    seq![0x7fu8, 0x45u8, 0x4cu8, 0x46u8, class, 1u8, 1u8, 0u8, 0u8, 0u8, 0u8, 0u8, 0u8, 0u8, 0u8, 0u8]
}

fn identifier_byte(class: u8, i: usize) -> (r: u8)
    requires
        i < EI_NIDENT,
    ensures
        r == elf_identifier(class)[i as int],
{
    if i == 0 {
        0x7f
    } else if i == 1 {
        0x45
    } else if i == 2 {
        0x4c
    } else if i == 3 {
        0x46
    } else if i == 4 {
        class
    } else if i == 5 || i == 6 {
        1
    } else {
        0
    }
}

/// Whether `ident` is exactly the identifier of the given class.
pub(crate) fn identifier_matches(ident: &[u8; 16], class: u8) -> (r: bool)
    ensures
        r == (ident@ == elf_identifier(class)),
{
    let mut i: usize = 0;
    while i < EI_NIDENT
        invariant
            i <= EI_NIDENT,
            ident@.len() == EI_NIDENT,
            forall|j: int| 0 <= j < i ==> ident@[j] == elf_identifier(class)[j],
        decreases EI_NIDENT - i,
    {
        if ident[i] != identifier_byte(class, i) {
            return false;
        }
        i = i + 1;
    }
    assert(ident@ =~= elf_identifier(class));
    true
}

/// The identification prefix of `b`, copied into an array.
fn read_ident(b: &[u8]) -> (r: [u8; 16])
    requires
        EI_NIDENT <= b@.len(),
    ensures
        r@ == b@.subrange(0, 16),
{
    let r = [
        b[0], b[1], b[2], b[3], b[4], b[5], b[6], b[7],
        b[8], b[9], b[10], b[11], b[12], b[13], b[14], b[15],
    ];
    assert(r@ =~= b@.subrange(0, 16));
    r
}

/// Loadable-segment description taken from one program-header record.
#[derive(Debug, Clone, Copy)]
pub struct SegmentInfo {
    pub virtual_base_address: usize,
    pub physical_base_address: usize,
    pub file_offset: usize,
    pub memory_size: usize,
    pub file_size: usize,
    pub readable: bool,
    pub writable: bool,
    pub executable: bool,
}

/// Flags word decoding: bit 2 readable, bit 1 writable, bit 0 executable.
pub open spec fn flag_readable(flags: u32) -> bool {
    flags & 4 != 0
}

pub open spec fn flag_writable(flags: u32) -> bool {
    flags & 2 != 0
}

pub open spec fn flag_executable(flags: u32) -> bool {
    flags & 1 != 0
}

/// Offset of record `index` in a program-header table of the given stride,
/// when the whole record of `rec` bytes lies inside a table of `len` bytes.
pub open spec fn record_in_bounds(index: int, stride: int, rec: int, len: int) -> bool {
    index * stride + rec <= len
}

/// Byte offset of record `index` inside its table, or `None` when the record
/// is not wholly inside the table.
fn record_offset(index: usize, stride: u16, rec: usize, len: usize) -> (r: Option<usize>)
    requires
        index < 65536,
    ensures
        r is Some <==> record_in_bounds(index as int, stride as int, rec as int, len as int),
        r is Some ==> r->0 == index * stride,
{
    assert(index * (stride as usize) <= 65535 * 65535) by (nonlinear_arith)
        requires
            index < 65536,
            stride < 65536,
    ;
    let off = index * (stride as usize);
    if off <= len && rec <= len - off {
        Some(off)
    } else {
        None
    }
}

/// The segment described by the ELF32 program-header record at `off`.
pub open spec fn segment32(t: Seq<u8>, off: int) -> SegmentInfo {
    let flags = le32(t, off + 24) as u32;
    SegmentInfo {
        file_offset: le32(t, off + 4) as usize,
        virtual_base_address: le32(t, off + 8) as usize,
        physical_base_address: le32(t, off + 12) as usize,
        file_size: le32(t, off + 16) as usize,
        memory_size: le32(t, off + 20) as usize,
        readable: flag_readable(flags),
        writable: flag_writable(flags),
        executable: flag_executable(flags),
    }
}

/// The segment described by the ELF64 program-header record at `off`.
pub open spec fn segment64(t: Seq<u8>, off: int) -> SegmentInfo {
    let flags = le32(t, off + 4) as u32;
    SegmentInfo {
        file_offset: le64(t, off + 8) as usize,
        virtual_base_address: le64(t, off + 16) as usize,
        physical_base_address: le64(t, off + 24) as usize,
        file_size: le64(t, off + 32) as usize,
        memory_size: le64(t, off + 40) as usize,
        readable: flag_readable(flags),
        writable: flag_writable(flags),
        executable: flag_executable(flags),
    }
}

fn decode_flags(flags: u32) -> (r: (bool, bool, bool))
    ensures
        r == (flag_readable(flags), flag_writable(flags), flag_executable(flags)),
{
    ((flags & 0x4) != 0, (flags & 0x2) != 0, (flags & 0x1) != 0)
}

/// ELF32 file header, as laid out at the start of the image.
pub struct Elf32Header {
    pub e_ident: [u8; 16],
    pub e_type: u16,
    pub e_machine: u16,
    pub e_version: u32,
    pub e_entry: u32,
    pub e_phoff: u32,
    pub e_shoff: u32,
    pub e_flags: u32,
    pub e_ehsize: u16,
    pub e_phentsize: u16,
    pub e_phnum: u16,
    pub e_shentsize: u16,
    pub e_shnum: u16,
    pub e_shstrndx: u16,
}

/// Whether `h` holds, field for field, the header stored at the start of `b`.
pub open spec fn is_elf32_header_of(h: Elf32Header, b: Seq<u8>) -> bool {
    &&& h.e_ident@ == b.subrange(0, 16)
    &&& h.e_type == le16(b, 16) as u16
    &&& h.e_machine == le16(b, 18) as u16
    &&& h.e_version == le32(b, 20) as u32
    &&& h.e_entry == le32(b, 24) as u32
    &&& h.e_phoff == le32(b, 28) as u32
    &&& h.e_shoff == le32(b, 32) as u32
    &&& h.e_flags == le32(b, 36) as u32
    &&& h.e_ehsize == le16(b, 40) as u16
    &&& h.e_phentsize == le16(b, 42) as u16
    &&& h.e_phnum == le16(b, 44) as u16
    &&& h.e_shentsize == le16(b, 46) as u16
    &&& h.e_shnum == le16(b, 48) as u16
    &&& h.e_shstrndx == le16(b, 50) as u16
}

impl Elf32Header {
    /// A header that passes validation: exact identifier, allowed machine,
    /// version at least the minimum.
    pub open spec fn is_valid(&self) -> bool {
        &&& self.e_ident@ == elf_identifier(ELF_CLASS32)
        &&& self.e_machine == EM_386
        &&& self.e_version >= ELF_VERSION
    }

    /// The segment that record `index` of the program-header table `t` describes,
    /// present only for an in-range index whose record lies inside `t` and is of
    /// load type.
    pub open spec fn segment_at(&self, index: int, t: Seq<u8>) -> Option<SegmentInfo> {
        if index < self.e_phnum
            && record_in_bounds(index, self.e_phentsize as int, ELF32_PHDR_SIZE as int, t.len() as int)
            && le32(t, index * self.e_phentsize) == PT_LOAD as int {
            Some(segment32(t, index * self.e_phentsize))
        } else {
            None
        }
    }

    /// Reads the header from the first bytes of `b`; absent when `b` is shorter
    /// than a header.
    pub fn from_bytes(b: &[u8]) -> (r: Option<Elf32Header>)
        ensures
            r is Some <==> b@.len() >= ELF32_HEADER_SIZE,
            r is Some ==> is_elf32_header_of(r->0, b@),
    {
        if b.len() < ELF32_HEADER_SIZE {
            return None;
        }
        Some(Elf32Header {
            e_ident: read_ident(b),
            e_type: read_u16(b, 16),
            e_machine: read_u16(b, 18),
            e_version: read_u32(b, 20),
            e_entry: read_u32(b, 24),
            e_phoff: read_u32(b, 28),
            e_shoff: read_u32(b, 32),
            e_flags: read_u32(b, 36),
            e_ehsize: read_u16(b, 40),
            e_phentsize: read_u16(b, 42),
            e_phnum: read_u16(b, 44),
            e_shentsize: read_u16(b, 46),
            e_shnum: read_u16(b, 48),
            e_shstrndx: read_u16(b, 50),
        })
    }

    /// Validates identifier, machine and version.
    pub fn check_elf_header(&self) -> (r: bool)
        ensures
            r == self.is_valid(),
    {
        if !identifier_matches(&self.e_ident, ELF_CLASS32) {
            return false;
        }
        if self.e_machine != EM_386 {
            return false;
        }
        if self.e_version < ELF_VERSION {
            return false;
        }
        true
    }

    pub fn get_entry_point(&self) -> (r: usize)
        ensures
            r == self.e_entry as usize,
    {
        self.e_entry as usize
    }

    pub fn get_num_of_program_header_entries(&self) -> (r: usize)
        ensures
            r == self.e_phnum,
    {
        self.e_phnum as usize
    }

    pub fn get_program_header_offset(&self) -> (r: usize)
        ensures
            r == self.e_phoff as usize,
    {
        self.e_phoff as usize
    }

    pub fn get_program_header_entry_size(&self) -> (r: usize)
        ensures
            r == self.e_phentsize,
    {
        self.e_phentsize as usize
    }

    /// Looks up record `index` of the program-header table held in
    /// `program_headers`: a segment for a load-type record, absent for any other
    /// record, an index past the entry count, or a record outside the table.
    pub fn get_segment_info(&self, index: usize, program_headers: &[u8]) -> (r: Option<SegmentInfo>)
        ensures
            r == self.segment_at(index as int, program_headers@),
    {
        if self.get_num_of_program_header_entries() <= index {
            return None;
        }
        let off = match record_offset(index, self.e_phentsize, ELF32_PHDR_SIZE, program_headers.len()) {
            Some(off) => off,
            None => return None,
        };
        let t = program_headers;
        if read_u32(t, off) != PT_LOAD {
            return None;
        }
        let (readable, writable, executable) = decode_flags(read_u32(t, off + 24));
        Some(SegmentInfo {
            file_offset: read_u32(t, off + 4) as usize,
            virtual_base_address: read_u32(t, off + 8) as usize,
            physical_base_address: read_u32(t, off + 12) as usize,
            file_size: read_u32(t, off + 16) as usize,
            memory_size: read_u32(t, off + 20) as usize,
            readable,
            writable,
            executable,
        })
    }
}

/// ELF64 file header, as laid out at the start of the image.
pub struct Elf64Header {
    pub e_ident: [u8; 16],
    pub e_type: u16,
    pub e_machine: u16,
    pub e_version: u32,
    pub e_entry: u64,
    pub e_phoff: u64,
    pub e_shoff: u64,
    pub e_flags: u32,
    pub e_ehsize: u16,
    pub e_phentsize: u16,
    pub e_phnum: u16,
    pub e_shentsize: u16,
    pub e_shnum: u16,
    pub e_shstrndx: u16,
}

/// Whether `h` holds, field for field, the header stored at the start of `b`.
pub open spec fn is_elf64_header_of(h: Elf64Header, b: Seq<u8>) -> bool {
    &&& h.e_ident@ == b.subrange(0, 16)
    &&& h.e_type == le16(b, 16) as u16
    &&& h.e_machine == le16(b, 18) as u16
    &&& h.e_version == le32(b, 20) as u32
    &&& h.e_entry == le64(b, 24) as u64
    &&& h.e_phoff == le64(b, 32) as u64
    &&& h.e_shoff == le64(b, 40) as u64
    &&& h.e_flags == le32(b, 48) as u32
    &&& h.e_ehsize == le16(b, 52) as u16
    &&& h.e_phentsize == le16(b, 54) as u16
    &&& h.e_phnum == le16(b, 56) as u16
    &&& h.e_shentsize == le16(b, 58) as u16
    &&& h.e_shnum == le16(b, 60) as u16
    &&& h.e_shstrndx == le16(b, 62) as u16
}

impl Elf64Header {
    /// A header that passes validation: exact identifier, allowed machine,
    /// version at least the minimum.
    pub open spec fn is_valid(&self) -> bool {
        &&& self.e_ident@ == elf_identifier(ELF_CLASS64)
        &&& (self.e_machine == EM_X86_64 || self.e_machine == EM_AARCH64)
        &&& self.e_version >= ELF_VERSION
    }

    /// The segment that record `index` of the program-header table `t` describes,
    /// present only for an in-range index whose record lies inside `t` and is of
    /// load type.
    pub open spec fn segment_at(&self, index: int, t: Seq<u8>) -> Option<SegmentInfo> {
        if index < self.e_phnum
            && record_in_bounds(index, self.e_phentsize as int, ELF64_PHDR_SIZE as int, t.len() as int)
            && le32(t, index * self.e_phentsize) == PT_LOAD as int {
            Some(segment64(t, index * self.e_phentsize))
        } else {
            None
        }
    }

    /// Reads the header from the first bytes of `b`; absent when `b` is shorter
    /// than a header.
    pub fn from_bytes(b: &[u8]) -> (r: Option<Elf64Header>)
        ensures
            r is Some <==> b@.len() >= ELF64_HEADER_SIZE,
            r is Some ==> is_elf64_header_of(r->0, b@),
    {
        if b.len() < ELF64_HEADER_SIZE {
            return None;
        }
        Some(Elf64Header {
            e_ident: read_ident(b),
            e_type: read_u16(b, 16),
            e_machine: read_u16(b, 18),
            e_version: read_u32(b, 20),
            e_entry: read_u64(b, 24),
            e_phoff: read_u64(b, 32),
            e_shoff: read_u64(b, 40),
            e_flags: read_u32(b, 48),
            e_ehsize: read_u16(b, 52),
            e_phentsize: read_u16(b, 54),
            e_phnum: read_u16(b, 56),
            e_shentsize: read_u16(b, 58),
            e_shnum: read_u16(b, 60),
            e_shstrndx: read_u16(b, 62),
        })
    }

    /// Validates identifier, machine and version.
    pub fn check_elf_header(&self) -> (r: bool)
        ensures
            r == self.is_valid(),
    {
        if !identifier_matches(&self.e_ident, ELF_CLASS64) {
            return false;
        }
        if self.e_machine != EM_X86_64 && self.e_machine != EM_AARCH64 {
            return false;
        }
        if self.e_version < ELF_VERSION {
            return false;
        }
        true
    }

    pub fn get_entry_point(&self) -> (r: usize)
        ensures
            r == self.e_entry as usize,
    {
        self.e_entry as usize
    }

    pub fn get_num_of_program_header_entries(&self) -> (r: usize)
        ensures
            r == self.e_phnum,
    {
        self.e_phnum as usize
    }

    pub fn get_program_header_offset(&self) -> (r: usize)
        ensures
            r == self.e_phoff as usize,
    {
        self.e_phoff as usize
    }

    pub fn get_program_header_entry_size(&self) -> (r: usize)
        ensures
            r == self.e_phentsize,
    {
        self.e_phentsize as usize
    }

    /// Looks up record `index` of the program-header table held in
    /// `program_headers`: a segment for a load-type record, absent for any other
    /// record, an index past the entry count, or a record outside the table.
    pub fn get_segment_info(&self, index: usize, program_headers: &[u8]) -> (r: Option<SegmentInfo>)
        ensures
            r == self.segment_at(index as int, program_headers@),
    {
        if self.get_num_of_program_header_entries() <= index {
            return None;
        }
        let off = match record_offset(index, self.e_phentsize, ELF64_PHDR_SIZE, program_headers.len()) {
            Some(off) => off,
            None => return None,
        };
        let t = program_headers;
        if read_u32(t, off) != PT_LOAD {
            return None;
        }
        let (readable, writable, executable) = decode_flags(read_u32(t, off + 4));
        Some(SegmentInfo {
            file_offset: read_u64(t, off + 8) as usize,
            virtual_base_address: read_u64(t, off + 16) as usize,
            physical_base_address: read_u64(t, off + 24) as usize,
            file_size: read_u64(t, off + 32) as usize,
            memory_size: read_u64(t, off + 40) as usize,
            readable,
            writable,
            executable,
        })
    }
}

/// Changing any one identifier byte of a valid ELF32 header makes validation
/// fail, whatever the other fields hold; so does a machine other than EM_386 or
/// a version below the minimum.
pub proof fn lemma_elf32_validation_rejects(h: Elf32Header, g: Elf32Header, i: int)
    requires
        h.is_valid(),
        0 <= i < EI_NIDENT,
    ensures
        g.e_ident@[i] != h.e_ident@[i] ==> !g.is_valid(),
        g.e_machine != EM_386 ==> !g.is_valid(),
        g.e_version < ELF_VERSION ==> !g.is_valid(),
{
}

/// Changing any one identifier byte of a valid ELF64 header makes validation
/// fail, whatever the other fields hold; so does a machine outside
/// {EM_X86_64, EM_AARCH64} or a version below the minimum.
pub proof fn lemma_elf64_validation_rejects(h: Elf64Header, g: Elf64Header, i: int)
    requires
        h.is_valid(),
        0 <= i < EI_NIDENT,
    ensures
        g.e_ident@[i] != h.e_ident@[i] ==> !g.is_valid(),
        g.e_machine != EM_X86_64 && g.e_machine != EM_AARCH64 ==> !g.is_valid(),
        g.e_version < ELF_VERSION ==> !g.is_valid(),
{
}

/// A header read from bytes that carry the ELF64 identifier, an allowed machine
/// and a version of at least one passes validation.
pub proof fn lemma_elf64_well_formed_bytes_valid(h: Elf64Header, b: Seq<u8>)
    requires
        b.len() >= ELF64_HEADER_SIZE,
        is_elf64_header_of(h, b),
        b.subrange(0, 16) == elf_identifier(ELF_CLASS64),
        le16(b, 18) == EM_X86_64 || le16(b, 18) == EM_AARCH64,
        le32(b, 20) >= ELF_VERSION,
    ensures
        h.is_valid(),
{
}

/// A header read from bytes that carry the ELF32 identifier, machine EM_386 and
/// a version of at least one passes validation.
pub proof fn lemma_elf32_well_formed_bytes_valid(h: Elf32Header, b: Seq<u8>)
    requires
        b.len() >= ELF32_HEADER_SIZE,
        is_elf32_header_of(h, b),
        b.subrange(0, 16) == elf_identifier(ELF_CLASS32),
        le16(b, 18) == EM_386,
        le32(b, 20) >= ELF_VERSION,
    ensures
        h.is_valid(),
{
}

/// A lookup at an index at or past the entry count is absent, whatever the table.
pub proof fn lemma_segment_past_count(h32: Elf32Header, h64: Elf64Header, index: int, t: Seq<u8>)
    ensures
        index >= h32.e_phnum ==> h32.segment_at(index, t) is None,
        index >= h64.e_phnum ==> h64.segment_at(index, t) is None,
{
}

/// The flags word decodes bit 2 as readable, bit 1 as writable and bit 0 as
/// executable, each independently of the others.
pub proof fn lemma_flag_bits(flags: u32)
    ensures
        flag_readable(flags) == (flags % 8 >= 4),
        flag_writable(flags) == (flags % 4 >= 2),
        flag_executable(flags) == (flags % 2 == 1),
{
    assert(((flags & 4) != 0) == (flags % 8 >= 4)) by (bit_vector);
    assert(((flags & 2) != 0) == (flags % 4 >= 2)) by (bit_vector);
    assert(((flags & 1) != 0) == (flags % 2 == 1)) by (bit_vector);
}

} // verus!

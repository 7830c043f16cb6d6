//! The decoded 64-bit header record and its decoder.
//!
//! [`Elf64Ehdr::new`] turns a raw byte buffer into the one record the
//! buffer denotes: the ident block verbatim and classified, and every
//! remaining field read at its table-derived offset in the byte order the
//! buffer itself declares.  The record is an immutable aggregate; nothing
//! in it is guessed, and unknown enumerated codes survive as raw codes.

use vstd::prelude::*;
use crate::errors::DecodeError;
use crate::ident::DataEncoding;
use crate::ident::Ident;
use crate::ident::IdentV;
use crate::ident::decode_ident;
use crate::ident::spec_classify_class;
use crate::ident::spec_classify_encoding;
use crate::ident::spec_encoding_supported;
use crate::ident::spec_ident_of;
use crate::layout::F_EHSIZE;
use crate::layout::F_ENTRY;
use crate::layout::F_FLAGS;
use crate::layout::F_MACHINE;
use crate::layout::F_OBJECT_TYPE;
use crate::layout::F_PHENTSIZE;
use crate::layout::F_PHNUM;
use crate::layout::F_PHOFF;
use crate::layout::F_SHENTSIZE;
use crate::layout::F_SHNUM;
use crate::layout::F_SHOFF;
use crate::layout::F_SHSTRNDX;
use crate::layout::F_VERSION;
use crate::layout::FIELD_COUNT;
use crate::layout::IDENT_SIZE;
use crate::layout::field_offset;
use crate::layout::field_width;
use crate::layout::header_size;
use crate::layout::lemma_field_offset_increases;
use crate::layout::lemma_field_offsets;
use crate::layout::spec_field_offset;
use crate::layout::spec_field_width;
use crate::layout::spec_header_size;
use crate::reader::lemma_pow256_values;
use crate::reader::pow256;
use crate::reader::read_unsigned;
use crate::reader::spec_field_nat;
use crate::registry::machine_label;
use crate::registry::spec_machine_label;

verus! {

/// What kind of object the file is; unknown codes keep their raw value.
#[derive(Clone, Copy, Debug, PartialEq, Eq, Structural)]
pub enum ObjectType {
    TypeNone,
    Rel,
    Exec,
    Dyn,
    Core,
    TypeOther(u16),
}

/// Classification of the object-type field; total, with an explicit
/// raw-code arm.
pub open spec fn spec_classify_object_type(t: u16) -> ObjectType {
    if t == 0 {
        ObjectType::TypeNone
    } else if t == 1 {
        ObjectType::Rel
    } else if t == 2 {
        ObjectType::Exec
    } else if t == 3 {
        ObjectType::Dyn
    } else if t == 4 {
        ObjectType::Core
    } else {
        ObjectType::TypeOther(t)
    }
}

/// Classifies the object-type field.
pub fn classify_object_type(t: u16) -> (r: ObjectType)
    ensures
        r == spec_classify_object_type(t),
{
    if t == 0 {
        ObjectType::TypeNone
    } else if t == 1 {
        ObjectType::Rel
    } else if t == 2 {
        ObjectType::Exec
    } else if t == 3 {
        ObjectType::Dyn
    } else if t == 4 {
        ObjectType::Core
    } else {
        ObjectType::TypeOther(t)
    }
}

/// The decoded 64-bit header: the ident block plus every fixed-width field
/// that follows it, produced once per decode and never mutated.
pub struct Elf64Ehdr {
    /// The decoded ident block.
    pub ident: Ident,
    /// What kind of object the file is.
    pub object_type: ObjectType,
    /// Numeric code of the target instruction-set architecture.
    pub machine: u16,
    /// Object-file version.
    pub version: u32,
    /// Entry point virtual address.
    pub entry_address: u64,
    /// File offset of the program header table.
    pub program_header_offset: u64,
    /// File offset of the section header table.
    pub section_header_offset: u64,
    /// Processor-specific flags.
    pub flags: u32,
    /// Size of this header in bytes, as the file itself states it.
    pub header_size: u16,
    /// Size of one program header table entry.
    pub program_header_entry_size: u16,
    /// Number of program header table entries.
    pub program_header_count: u16,
    /// Size of one section header table entry.
    pub section_header_entry_size: u16,
    /// Number of section header table entries.
    pub section_header_count: u16,
    /// Table index of the section-name string section.
    pub section_header_string_index: u16,
}

/// Mathematical image of an [`Elf64Ehdr`].
pub ghost struct HeaderV {
    pub ident: IdentV,
    pub object_type: ObjectType,
    pub machine: u16,
    pub version: u32,
    pub entry_address: u64,
    pub program_header_offset: u64,
    pub section_header_offset: u64,
    pub flags: u32,
    pub header_size: u16,
    pub program_header_entry_size: u16,
    pub program_header_count: u16,
    pub section_header_entry_size: u16,
    pub section_header_count: u16,
    pub section_header_string_index: u16,
}

impl View for Elf64Ehdr {
    type V = HeaderV;

    open spec fn view(&self) -> HeaderV {
        HeaderV {
            ident: self.ident@,
            object_type: self.object_type,
            machine: self.machine,
            version: self.version,
            entry_address: self.entry_address,
            program_header_offset: self.program_header_offset,
            section_header_offset: self.section_header_offset,
            flags: self.flags,
            header_size: self.header_size,
            program_header_entry_size: self.program_header_entry_size,
            program_header_count: self.program_header_count,
            section_header_entry_size: self.section_header_entry_size,
            section_header_count: self.section_header_count,
            section_header_string_index: self.section_header_string_index,
        }
    }
}

impl HeaderV {
    /// A record is well formed when its ident block is.
    pub open spec fn wf(self) -> bool {
        self.ident.wf()
    }
}

/// Whether a buffer begins with the four magic bytes.  Advisory only: the
/// decoder itself never gates on the magic, so callers that want strict
/// validation must opt in by checking this first.
pub open spec fn spec_has_elf_magic(bytes: Seq<u8>) -> bool {
    &&& bytes.len() >= 4
    &&& bytes[0] == 0x7f
    &&& bytes[1] == 0x45
    &&& bytes[2] == 0x4c
    &&& bytes[3] == 0x46
}

/// Tests for the four magic bytes; advisory, not a decode gate.
pub fn is_elf(bytes: &[u8]) -> (r: bool)
    ensures
        r == spec_has_elf_magic(bytes@),
{
    bytes.len() >= 4 && bytes[0] == 0x7f && bytes[1] == 0x45 && bytes[2] == 0x4c && bytes[3]
        == 0x46
}

/// Tests whether the class byte declares the 32-bit layout; advisory, and
/// no more than noted: this library decodes only the 64-bit layout.
pub fn is_elf32(bytes: &[u8]) -> (r: bool)
    ensures
        r == (bytes@.len() > 4 && spec_classify_class(bytes@[4]) is Class32),
{
    bytes.len() > 4 && bytes[4] == 1
}

/// Tests whether the class byte declares the 64-bit layout; advisory, not
/// a decode gate.
pub fn is_elf64(bytes: &[u8]) -> (r: bool)
    ensures
        r == (bytes@.len() > 4 && spec_classify_class(bytes@[4]) is Class64),
{
    bytes.len() > 4 && bytes[4] == 2
}

/// How decoding a buffer ends: truncated before the ident block, refused
/// for an uninterpretable declared encoding, truncated before the end of
/// the fixed fields, or successful.
pub open spec fn spec_decode_result(bytes: Seq<u8>) -> Option<DecodeError> {
    if bytes.len() < IDENT_SIZE {
        Some(DecodeError::TruncatedInput)
    } else if !spec_encoding_supported(spec_classify_encoding(bytes[5])) {
        Some(DecodeError::UnsupportedEncoding)
    } else if bytes.len() < spec_header_size() {
        Some(DecodeError::TruncatedInput)
    } else {
        None
    }
}

/// The one record a decodable buffer denotes: the ident block classified,
/// and every field read at its table-derived offset in the declared byte
/// order.
pub open spec fn spec_decode_fields(bytes: Seq<u8>) -> HeaderV
    recommends
        spec_decode_result(bytes) is None,
{
    let little = spec_classify_encoding(bytes[5]) is LittleEndian;
    HeaderV {
        ident: spec_ident_of(bytes),
        object_type: spec_classify_object_type(
            spec_field_nat(bytes, F_OBJECT_TYPE as int, little) as u16,
        ),
        machine: spec_field_nat(bytes, F_MACHINE as int, little) as u16,
        version: spec_field_nat(bytes, F_VERSION as int, little) as u32,
        entry_address: spec_field_nat(bytes, F_ENTRY as int, little) as u64,
        program_header_offset: spec_field_nat(bytes, F_PHOFF as int, little) as u64,
        section_header_offset: spec_field_nat(bytes, F_SHOFF as int, little) as u64,
        flags: spec_field_nat(bytes, F_FLAGS as int, little) as u32,
        header_size: spec_field_nat(bytes, F_EHSIZE as int, little) as u16,
        program_header_entry_size: spec_field_nat(bytes, F_PHENTSIZE as int, little) as u16,
        program_header_count: spec_field_nat(bytes, F_PHNUM as int, little) as u16,
        section_header_entry_size: spec_field_nat(bytes, F_SHENTSIZE as int, little) as u16,
        section_header_count: spec_field_nat(bytes, F_SHNUM as int, little) as u16,
        section_header_string_index: spec_field_nat(bytes, F_SHSTRNDX as int, little) as u16,
    }
}

/// Reads the field at table position `i` of a buffer already known to hold
/// the whole fixed header; the value is bounded by its width's capacity.
fn read_whole_field(bytes: &[u8], i: usize, little: bool) -> (v: u64)
    requires
        i < FIELD_COUNT,
        spec_header_size() <= bytes@.len(),
    ensures
        v as nat == spec_field_nat(bytes@, i as int, little),
        (v as nat) < pow256(spec_field_width(i as int) as nat),
{
    let off = field_offset(i);
    let width = field_width(i);
    proof {
        assert(spec_field_offset(i as int + 1) == spec_field_offset(i as int)
            + spec_field_width(i as int));
        lemma_field_offset_increases(i as int + 1, FIELD_COUNT as int);
    }
    read_unsigned(bytes, off, width, little)
}

impl Elf64Ehdr {
    /// Decodes the fixed 64-bit header of `bytes`.  Succeeds exactly on
    /// buffers that hold the whole fixed header and declare one of the two
    /// real byte orders, and then returns the one record the bytes denote;
    /// fails as [`spec_decode_result`] says, producing no partial record.
    pub fn new(bytes: &[u8]) -> (r: Result<Elf64Ehdr, DecodeError>)
        ensures
            r is Ok <==> spec_decode_result(bytes@) is None,
            match r {
                Ok(h) => h@ == spec_decode_fields(bytes@) && h@.wf(),
                Err(e) => spec_decode_result(bytes@) == Some(e),
            },
    {
        let ident = match decode_ident(bytes) {
            Ok(id) => id,
            Err(e) => {
                return Err(e);
            },
        };
        let little = match ident.data_encoding {
            DataEncoding::LittleEndian => true,
            DataEncoding::BigEndian => false,
            _ => {
                return Err(DecodeError::UnsupportedEncoding);
            },
        };
        if bytes.len() < header_size() {
            return Err(DecodeError::TruncatedInput);
        }
        proof {
            lemma_field_offsets();
            lemma_pow256_values();
        }
        let h = Elf64Ehdr {
            object_type: classify_object_type(
                read_whole_field(bytes, F_OBJECT_TYPE, little) as u16,
            ),
            machine: read_whole_field(bytes, F_MACHINE, little) as u16,
            version: read_whole_field(bytes, F_VERSION, little) as u32,
            entry_address: read_whole_field(bytes, F_ENTRY, little),
            program_header_offset: read_whole_field(bytes, F_PHOFF, little),
            section_header_offset: read_whole_field(bytes, F_SHOFF, little),
            flags: read_whole_field(bytes, F_FLAGS, little) as u32,
            header_size: read_whole_field(bytes, F_EHSIZE, little) as u16,
            program_header_entry_size: read_whole_field(bytes, F_PHENTSIZE, little) as u16,
            program_header_count: read_whole_field(bytes, F_PHNUM, little) as u16,
            section_header_entry_size: read_whole_field(bytes, F_SHENTSIZE, little) as u16,
            section_header_count: read_whole_field(bytes, F_SHNUM, little) as u16,
            section_header_string_index: read_whole_field(bytes, F_SHSTRNDX, little) as u16,
            ident,
        };
        Ok(h)
    }

    /// The label of this record's machine code, resolved through the
    /// machine registry; unknown codes get the fallback that embeds the
    /// raw code.
    pub fn get_machine_name(&self) -> (r: String)
        ensures
            r@ == spec_machine_label(self.machine),
    {
        machine_label(self.machine)
    }
}

} // verus!

//! The ident block: the first 16 bytes of the header.
//!
//! Decoding is permissive — every byte value is accepted, and codes outside
//! the known sets become `..Other(code)` variants rather than failures.
//! Judgment about unknown codes is deferred to presentation.

use vstd::prelude::*;
use crate::errors::DecodeError;
use crate::layout::IDENT_SIZE;

verus! {

/// Whether the file uses the 32-bit or the 64-bit header layout.
#[derive(Clone, Copy, Debug, PartialEq, Eq, Structural)]
pub enum FileClass {
    ClassNone,
    Class32,
    Class64,
    ClassOther(u8),
}

/// The byte order the header declares for all of its multi-byte fields.
#[derive(Clone, Copy, Debug, PartialEq, Eq, Structural)]
pub enum DataEncoding {
    EncodingNone,
    LittleEndian,
    BigEndian,
    EncodingOther(u8),
}

/// Classification of the class byte; total, with an explicit raw-code arm.
pub open spec fn spec_classify_class(b: u8) -> FileClass {
    if b == 0 {
        FileClass::ClassNone
    } else if b == 1 {
        FileClass::Class32
    } else if b == 2 {
        FileClass::Class64
    } else {
        FileClass::ClassOther(b)
    }
}

/// Classification of the data-encoding byte; total, with an explicit
/// raw-code arm.
pub open spec fn spec_classify_encoding(b: u8) -> DataEncoding {
    if b == 0 {
        DataEncoding::EncodingNone
    } else if b == 1 {
        DataEncoding::LittleEndian
    } else if b == 2 {
        DataEncoding::BigEndian
    } else {
        DataEncoding::EncodingOther(b)
    }
}

/// An encoding the field reader can interpret: one of the two real byte
/// orders, never a guess for the declared-absent or unknown ones.
pub open spec fn spec_encoding_supported(e: DataEncoding) -> bool {
    e is LittleEndian || e is BigEndian
}

/// Classifies the class byte.
pub fn classify_class(b: u8) -> (c: FileClass)
    ensures
        c == spec_classify_class(b),
{
    if b == 0 {
        FileClass::ClassNone
    } else if b == 1 {
        FileClass::Class32
    } else if b == 2 {
        FileClass::Class64
    } else {
        FileClass::ClassOther(b)
    }
}

/// Classifies the data-encoding byte.
pub fn classify_encoding(b: u8) -> (e: DataEncoding)
    ensures
        e == spec_classify_encoding(b),
{
    if b == 0 {
        DataEncoding::EncodingNone
    } else if b == 1 {
        DataEncoding::LittleEndian
    } else if b == 2 {
        DataEncoding::BigEndian
    } else {
        DataEncoding::EncodingOther(b)
    }
}

/// The decoded ident block: the 16 raw bytes verbatim, plus the
/// classification of the bytes that steer the rest of the decode.
pub struct Ident {
    /// All 16 ident bytes, copied unchanged; the first four are the magic.
    pub bytes: Vec<u8>,
    /// Classification of byte 4.
    pub file_class: FileClass,
    /// Classification of byte 5.
    pub data_encoding: DataEncoding,
    /// Byte 6, the ident-block version, kept raw.
    pub ident_version: u8,
    /// Byte 7, the OS/ABI code; its label is resolved at presentation.
    pub os_abi: u8,
    /// Byte 8, the ABI version, kept raw.
    pub abi_version: u8,
}

/// Mathematical image of an [`Ident`].
pub ghost struct IdentV {
    pub bytes: Seq<u8>,
    pub file_class: FileClass,
    pub data_encoding: DataEncoding,
    pub ident_version: u8,
    pub os_abi: u8,
    pub abi_version: u8,
}

impl View for Ident {
    type V = IdentV;

    open spec fn view(&self) -> IdentV {
        IdentV {
            bytes: self.bytes@,
            file_class: self.file_class,
            data_encoding: self.data_encoding,
            ident_version: self.ident_version,
            os_abi: self.os_abi,
            abi_version: self.abi_version,
        }
    }
}

impl IdentV {
    /// An ident block always holds exactly 16 bytes, and its classification
    /// fields restate its own classification bytes.
    pub open spec fn wf(self) -> bool {
        &&& self.bytes.len() == IDENT_SIZE
        &&& self.file_class == spec_classify_class(self.bytes[4])
        &&& self.data_encoding == spec_classify_encoding(self.bytes[5])
        &&& self.ident_version == self.bytes[6]
        &&& self.os_abi == self.bytes[7]
        &&& self.abi_version == self.bytes[8]
    }
}

/// The one ident value a buffer decodes to, defined for buffers that hold
/// at least the full ident block.
pub open spec fn spec_ident_of(bytes: Seq<u8>) -> IdentV
    recommends
        bytes.len() >= IDENT_SIZE,
{
    IdentV {
        bytes: bytes.subrange(0, IDENT_SIZE as int),
        file_class: spec_classify_class(bytes[4]),
        data_encoding: spec_classify_encoding(bytes[5]),
        ident_version: bytes[6],
        os_abi: bytes[7],
        abi_version: bytes[8],
    }
}

/// Decodes the ident block: succeeds exactly when the buffer holds at least
/// 16 bytes, and then copies those bytes verbatim and classifies them.
pub fn decode_ident(bytes: &[u8]) -> (r: Result<Ident, DecodeError>)
    ensures
        r is Ok <==> bytes@.len() >= IDENT_SIZE,
        match r {
            Ok(id) => id@ == spec_ident_of(bytes@) && id@.wf(),
            Err(e) => e == DecodeError::TruncatedInput,
        },
{
    if bytes.len() < IDENT_SIZE {
        return Err(DecodeError::TruncatedInput);
    }
    let mut raw: Vec<u8> = Vec::new();
    let mut i: usize = 0;
    while i < IDENT_SIZE
        invariant
            i <= IDENT_SIZE <= bytes@.len(),
            raw@ == bytes@.subrange(0, i as int),
        decreases IDENT_SIZE - i,
    {
        raw.push(bytes[i]);
        proof {
            assert(raw@ =~= bytes@.subrange(0, i + 1));
        }
        i = i + 1;
    }
    let id = Ident {
        file_class: classify_class(bytes[4]),
        data_encoding: classify_encoding(bytes[5]),
        ident_version: bytes[6],
        os_abi: bytes[7],
        abi_version: bytes[8],
        bytes: raw,
    };
    Ok(id)
}

} // verus!

//! The closed code-to-label registries.
//!
//! Each lookup is a total function: a known code resolves to its exact
//! label, an unknown one to a deterministic fallback that embeds the raw
//! numeric code.  A lookup never fails, so judgment about unknown codes
//! stays here, at presentation, and never blocks decoding.

use vstd::prelude::*;
use vstd::string::StringExecFns;
use crate::elf::ObjectType;
use crate::ident::DataEncoding;
use crate::ident::FileClass;
use crate::numfmt::dec_digits;
use crate::numfmt::dec_string;

verus! {

/// The label the class registry resolves a file class to.
pub open spec fn spec_class_label(c: FileClass) -> Seq<char> {
    match c {
        FileClass::ClassNone => ("ELF None")@,
        FileClass::Class32 => ("ELF32")@,
        FileClass::Class64 => ("ELF64")@,
        FileClass::ClassOther(b) => dec_digits(b as nat),
    }
}

/// The label the encoding registry resolves a data encoding to.
pub open spec fn spec_encoding_label(e: DataEncoding) -> Seq<char> {
    match e {
        DataEncoding::EncodingNone => ("Invalid data encoding")@,
        DataEncoding::LittleEndian => ("2's complement, little endian")@,
        DataEncoding::BigEndian => ("2's complement, big endian")@,
        DataEncoding::EncodingOther(b) => dec_digits(b as nat),
    }
}

/// The label the OS/ABI registry resolves a code to.
pub open spec fn spec_os_abi_label(b: u8) -> Seq<char> {
    if b == 0 {
        ("UNIX - System V")@
    } else if b == 1 {
        ("HP-UX")@
    } else if b == 2 {
        ("NetBSD")@
    } else if b == 3 {
        ("Object uses GNU ELF extensions.")@
    } else if b == 6 {
        ("Sun Solaris.")@
    } else if b == 7 {
        ("IBM AIX.")@
    } else if b == 8 {
        ("SGI Irix.")@
    } else if b == 9 {
        ("FreeBSD.")@
    } else if b == 10 {
        ("Compaq TRU64 UNIX.")@
    } else if b == 11 {
        ("Novell Modesto.")@
    } else if b == 12 {
        ("OpenBSD.")@
    } else if b == 64 {
        ("ARM EABI")@
    } else if b == 97 {
        ("ARM")@
    } else if b == 255 {
        ("Standalone (embedded) application")@
    } else {
        dec_digits(b as nat)
    }
}

/// The label the object-type registry resolves an object type to.
pub open spec fn spec_object_type_label(t: ObjectType) -> Seq<char> {
    match t {
        ObjectType::TypeNone => ("None")@,
        ObjectType::Rel => ("REL")@,
        ObjectType::Exec => ("EXE (Executable file)")@,
        ObjectType::Dyn => ("DYN (Shared object file)")@,
        ObjectType::Core => ("Core")@,
        ObjectType::TypeOther(c) => dec_digits(c as nat),
    }
}

/// The label the machine registry resolves a machine code to: the name of
/// a known instruction-set architecture, or a fallback embedding the raw
/// code.
pub open spec fn spec_machine_label(m: u16) -> Seq<char> {
    if m == 0 {
        ("No machine")@
    } else if m == 3 {
        ("Intel 80386")@
    } else if m == 40 {
        ("ARM")@
    } else if m == 62 {
        ("Advanced Micro Devices X86-64")@
    } else if m == 173 {
        ("Renesas RX")@
    } else if m == 183 {
        ("ARM AARCH64")@
    } else if m == 243 {
        ("RISC-V")@
    } else {
        ("Unknown Machine:[")@ + dec_digits(m as nat) + ("]")@
    }
}

/// Resolves a file class to its label.
pub fn class_label(c: FileClass) -> (r: String)
    ensures
        r@ == spec_class_label(c),
{
    match c {
        FileClass::ClassNone => String::from_str("ELF None"),
        FileClass::Class32 => String::from_str("ELF32"),
        FileClass::Class64 => String::from_str("ELF64"),
        FileClass::ClassOther(b) => dec_string(b as u64),
    }
}

/// Resolves a data encoding to its label.
pub fn encoding_label(e: DataEncoding) -> (r: String)
    ensures
        r@ == spec_encoding_label(e),
{
    match e {
        DataEncoding::EncodingNone => String::from_str("Invalid data encoding"),
        DataEncoding::LittleEndian => String::from_str("2's complement, little endian"),
        DataEncoding::BigEndian => String::from_str("2's complement, big endian"),
        DataEncoding::EncodingOther(b) => dec_string(b as u64),
    }
}

/// Resolves an OS/ABI code to its label.
pub fn os_abi_label(b: u8) -> (r: String)
    ensures
        r@ == spec_os_abi_label(b),
{
    if b == 0 {
        String::from_str("UNIX - System V")
    } else if b == 1 {
        String::from_str("HP-UX")
    } else if b == 2 {
        String::from_str("NetBSD")
    } else if b == 3 {
        String::from_str("Object uses GNU ELF extensions.")
    } else if b == 6 {
        String::from_str("Sun Solaris.")
    } else if b == 7 {
        String::from_str("IBM AIX.")
    } else if b == 8 {
        String::from_str("SGI Irix.")
    } else if b == 9 {
        String::from_str("FreeBSD.")
    } else if b == 10 {
        String::from_str("Compaq TRU64 UNIX.")
    } else if b == 11 {
        String::from_str("Novell Modesto.")
    } else if b == 12 {
        String::from_str("OpenBSD.")
    } else if b == 64 {
        String::from_str("ARM EABI")
    } else if b == 97 {
        String::from_str("ARM")
    } else if b == 255 {
        String::from_str("Standalone (embedded) application")
    } else {
        dec_string(b as u64)
    }
}

/// Resolves an object type to its label.
pub fn object_type_label(t: ObjectType) -> (r: String)
    ensures
        r@ == spec_object_type_label(t),
{
    match t {
        ObjectType::TypeNone => String::from_str("None"),
        ObjectType::Rel => String::from_str("REL"),
        ObjectType::Exec => String::from_str("EXE (Executable file)"),
        ObjectType::Dyn => String::from_str("DYN (Shared object file)"),
        ObjectType::Core => String::from_str("Core"),
        ObjectType::TypeOther(c) => dec_string(c as u64),
    }
}

/// Resolves a machine code to its label; unknown codes get the fallback
/// that embeds the raw code.
pub fn machine_label(m: u16) -> (r: String)
    ensures
        r@ == spec_machine_label(m),
{
    if m == 0 {
        String::from_str("No machine")
    } else if m == 3 {
        String::from_str("Intel 80386")
    } else if m == 40 {
        String::from_str("ARM")
    } else if m == 62 {
        String::from_str("Advanced Micro Devices X86-64")
    } else if m == 173 {
        String::from_str("Renesas RX")
    } else if m == 183 {
        String::from_str("ARM AARCH64")
    } else if m == 243 {
        String::from_str("RISC-V")
    } else {
        let s = String::from_str("Unknown Machine:[");
        let s = s.concat(dec_string(m as u64).as_str());
        s.concat("]")
    }
}

} // verus!

//! The presenter: renders a decoded header as the canonical multi-line
//! text report.
//!
//! Rendering is pure: the spec functions below pin the exact report text
//! for every record, one labelled line per field in a fixed order, with
//! every enumerated field resolved through the registries.  Writing the
//! text to an output sink is the caller's business.

use vstd::prelude::*;
use vstd::string::StringExecFns;
use crate::elf::Elf64Ehdr;
use crate::elf::HeaderV;
use crate::numfmt::byte_hex_digits;
use crate::numfmt::byte_hex_string;
use crate::numfmt::dec_digits;
use crate::numfmt::dec_string;
use crate::numfmt::hex_digits;
use crate::numfmt::hex_string;
use crate::registry::class_label;
use crate::registry::encoding_label;
use crate::registry::machine_label;
use crate::registry::object_type_label;
use crate::registry::os_abi_label;
use crate::registry::spec_class_label;
use crate::registry::spec_encoding_label;
use crate::registry::spec_machine_label;
use crate::registry::spec_object_type_label;
use crate::registry::spec_os_abi_label;

verus! {

/// The magic line's byte dump: every ident byte as two lowercase hex
/// digits, each followed by one space.
pub open spec fn magic_digits(s: Seq<u8>) -> Seq<char>
    decreases s.len(),
{
    if s.len() == 0 {
        Seq::empty()
    } else {
        magic_digits(s.drop_last()) + byte_hex_digits(s.last() as nat) + seq![' ']
    }
}

/// The report's opening block: the lines drawn from the ident block alone.
pub open spec fn spec_report_ident(hv: HeaderV) -> Seq<char> {
    ("ELF Header:\n  Magic:   ")@ + magic_digits(hv.ident.bytes) + ("\n")@ + (
    "  Class:                             ")@ + spec_class_label(hv.ident.file_class) + ("\n")@
        + ("  Data:                              ")@ + spec_encoding_label(
        hv.ident.data_encoding,
    ) + ("\n")@ + ("  Version:                           ")@ + dec_digits(
        hv.ident.ident_version as nat,
    ) + (" (current)\n")@ + ("  OS/ABI:                            ")@ + spec_os_abi_label(
        hv.ident.os_abi,
    ) + ("\n")@ + ("  ABI Version:                       ")@ + dec_digits(
        hv.ident.abi_version as nat,
    ) + ("\n")@
}

/// The report's closing block: the lines drawn from the fields after the
/// ident block.  It depends on those fields alone, never on the ident.
pub open spec fn spec_report_fields(hv: HeaderV) -> Seq<char> {
    ("  Type:                              ")@ + spec_object_type_label(hv.object_type) + ("\n")@
        + ("  Machine:                           ")@ + spec_machine_label(hv.machine) + ("\n")@
        + ("  Version:                           0x")@ + hex_digits(hv.version as nat) + ("\n")@
        + ("  Entry point address:               0x")@ + hex_digits(hv.entry_address as nat) + (
    "\n")@ + ("  Start of program headers:          ")@ + dec_digits(
        hv.program_header_offset as nat,
    ) + (" (bytes into file)\n")@ + ("  Start of section headers:          ")@ + dec_digits(
        hv.section_header_offset as nat,
    ) + (" (bytes into file)\n")@ + ("  Flags:                             0x")@ + hex_digits(
        hv.flags as nat,
    ) + ("\n")@ + ("  Size of this header:               ")@ + dec_digits(hv.header_size as nat)
        + (" (bytes)\n")@ + ("  Size of program headers:           ")@ + dec_digits(
        hv.program_header_entry_size as nat,
    ) + (" (bytes)\n")@ + ("  Number of program headers:         ")@ + dec_digits(
        hv.program_header_count as nat,
    ) + ("\n")@ + ("  Size of section headers:           ")@ + dec_digits(
        hv.section_header_entry_size as nat,
    ) + (" (bytes)\n")@ + ("  Number of section headers:         ")@ + dec_digits(
        hv.section_header_count as nat,
    ) + ("\n")@ + ("  Section header string table index: ")@ + dec_digits(
        hv.section_header_string_index as nat,
    ) + ("\n")@
}

/// The whole canonical report for one record.
pub open spec fn spec_report(hv: HeaderV) -> Seq<char> {
    spec_report_ident(hv) + spec_report_fields(hv)
}

/// Renders the magic line's byte dump.
fn render_magic(bytes: &Vec<u8>) -> (r: String)
    ensures
        r@ == magic_digits(bytes@),
{
    let mut s = String::new();
    let mut i: usize = 0;
    while i < bytes.len()
        invariant
            i <= bytes@.len(),
            s@ == magic_digits(bytes@.take(i as int)),
        decreases bytes@.len() - i,
    {
        proof {
            assert(bytes@.take(i + 1).drop_last() =~= bytes@.take(i as int));
            assert(bytes@.take(i + 1).last() == bytes@[i as int]);
            reveal_strlit(" ");
            assert((" ")@ =~= seq![' ']);
        }
        s.append(byte_hex_string(bytes[i]).as_str());
        s.append(" ");
        i = i + 1;
    }
    proof {
        assert(bytes@.take(bytes@.len() as int) =~= bytes@);
    }
    s
}

/// Renders the report's opening block.
fn render_ident_part(h: &Elf64Ehdr) -> (r: String)
    ensures
        r@ == spec_report_ident(h@),
{
    let mut s = String::from_str("ELF Header:\n  Magic:   ");
    s.append(render_magic(&h.ident.bytes).as_str());
    s.append("\n");
    s.append("  Class:                             ");
    s.append(class_label(h.ident.file_class).as_str());
    s.append("\n");
    s.append("  Data:                              ");
    s.append(encoding_label(h.ident.data_encoding).as_str());
    s.append("\n");
    s.append("  Version:                           ");
    s.append(dec_string(h.ident.ident_version as u64).as_str());
    s.append(" (current)\n");
    s.append("  OS/ABI:                            ");
    s.append(os_abi_label(h.ident.os_abi).as_str());
    s.append("\n");
    s.append("  ABI Version:                       ");
    s.append(dec_string(h.ident.abi_version as u64).as_str());
    s.append("\n");
    s
}

/// Renders the report's closing block.
fn render_fields_part(h: &Elf64Ehdr) -> (r: String)
    ensures
        r@ == spec_report_fields(h@),
{
    let mut s = String::from_str("  Type:                              ");
    s.append(object_type_label(h.object_type).as_str());
    s.append("\n");
    s.append("  Machine:                           ");
    s.append(machine_label(h.machine).as_str());
    s.append("\n");
    s.append("  Version:                           0x");
    s.append(hex_string(h.version as u64).as_str());
    s.append("\n");
    s.append("  Entry point address:               0x");
    s.append(hex_string(h.entry_address).as_str());
    s.append("\n");
    s.append("  Start of program headers:          ");
    s.append(dec_string(h.program_header_offset).as_str());
    s.append(" (bytes into file)\n");
    s.append("  Start of section headers:          ");
    s.append(dec_string(h.section_header_offset).as_str());
    s.append(" (bytes into file)\n");
    s.append("  Flags:                             0x");
    s.append(hex_string(h.flags as u64).as_str());
    s.append("\n");
    s.append("  Size of this header:               ");
    s.append(dec_string(h.header_size as u64).as_str());
    s.append(" (bytes)\n");
    s.append("  Size of program headers:           ");
    s.append(dec_string(h.program_header_entry_size as u64).as_str());
    s.append(" (bytes)\n");
    s.append("  Number of program headers:         ");
    s.append(dec_string(h.program_header_count as u64).as_str());
    s.append("\n");
    s.append("  Size of section headers:           ");
    s.append(dec_string(h.section_header_entry_size as u64).as_str());
    s.append(" (bytes)\n");
    s.append("  Number of section headers:         ");
    s.append(dec_string(h.section_header_count as u64).as_str());
    s.append("\n");
    s.append("  Section header string table index: ");
    s.append(dec_string(h.section_header_string_index as u64).as_str());
    s.append("\n");
    s
}

impl Elf64Ehdr {
    /// Renders this record as the canonical report, exactly the text that
    /// [`spec_report`] pins for it; the caller decides where it goes.
    pub fn show_elf_header_info(&self) -> (r: String)
        ensures
            r@ == spec_report(self@),
    {
        let s = render_ident_part(self);
        s.concat(render_fields_part(self).as_str())
    }
}

} // verus!

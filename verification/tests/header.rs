use elfhdr::elf::Elf64Ehdr;
use elfhdr::elf::ObjectType;
use elfhdr::elf::is_elf;
use elfhdr::elf::is_elf32;
use elfhdr::elf::is_elf64;
use elfhdr::errors::DecodeError;
use elfhdr::ident::DataEncoding;
use elfhdr::ident::FileClass;
use elfhdr::ident::decode_ident;

/// A synthetic little-endian 64-byte header: class 64, entry 0x400000,
/// machine 62 (x86-64), object type 2 (executable).
fn le_buffer() -> Vec<u8> {
    let mut b = vec![0u8; 64];
    b[0] = 0x7f;
    b[1] = 0x45;
    b[2] = 0x4c;
    b[3] = 0x46;
    b[4] = 2; // class: 64-bit
    b[5] = 1; // data encoding: little endian
    b[6] = 1; // ident version
    b[16] = 2; // object type: executable
    b[18] = 62; // machine: x86-64
    b[20] = 1; // version
    b[26] = 0x40; // entry address 0x0000_0000_0040_0000
    b[32] = 64; // program header offset
    b[40] = 0x80; // section header offset 128
    b[48] = 5; // flags
    b[52] = 64; // header size
    b[54] = 56; // program header entry size
    b[56] = 2; // program header count
    b[58] = 64; // section header entry size
    b[60] = 3; // section header count
    b[62] = 1; // section header string index
    b
}

/// The same logical values as [`le_buffer`], declared big-endian: every
/// multi-byte field's bytes reversed in place.
fn be_buffer() -> Vec<u8> {
    let mut b = le_buffer();
    b[5] = 2; // data encoding: big endian
    let widths = [2usize, 2, 4, 8, 8, 8, 4, 2, 2, 2, 2, 2, 2];
    let mut off = 16usize;
    for w in widths {
        b[off..off + w].reverse();
        off += w;
    }
    b
}

#[test]
fn short_input_is_truncated() {
    let b = vec![0x7fu8, 0x45, 0x4c, 0x46, 2, 1, 1, 0, 0, 0];
    assert!(matches!(Elf64Ehdr::new(&b), Err(DecodeError::TruncatedInput)));
    assert!(decode_ident(&b).is_err());
    let empty: Vec<u8> = Vec::new();
    assert!(matches!(Elf64Ehdr::new(&empty), Err(DecodeError::TruncatedInput)));
}

#[test]
fn ident_alone_decodes_but_fields_are_truncated() {
    let b = &le_buffer()[..20];
    let id = decode_ident(b).unwrap();
    assert_eq!(id.file_class, FileClass::Class64);
    assert_eq!(id.data_encoding, DataEncoding::LittleEndian);
    assert_eq!(id.ident_version, 1);
    assert!(matches!(Elf64Ehdr::new(b), Err(DecodeError::TruncatedInput)));
}

#[test]
fn sixty_three_bytes_are_still_truncated() {
    let b = &le_buffer()[..63];
    assert!(decode_ident(b).is_ok());
    assert!(matches!(Elf64Ehdr::new(b), Err(DecodeError::TruncatedInput)));
}

#[test]
fn unsupported_encoding_is_refused() {
    let mut b = le_buffer();
    b[5] = 0;
    assert!(matches!(Elf64Ehdr::new(&b), Err(DecodeError::UnsupportedEncoding)));
    b[5] = 3;
    assert!(matches!(Elf64Ehdr::new(&b), Err(DecodeError::UnsupportedEncoding)));
    // The ident block itself still decodes: classification never fails.
    let id = decode_ident(&b).unwrap();
    assert_eq!(id.data_encoding, DataEncoding::EncodingOther(3));
}

#[test]
fn round_trip_of_synthetic_header() {
    let b = le_buffer();
    let h = Elf64Ehdr::new(&b).unwrap();
    assert_eq!(h.entry_address, 0x400000);
    assert_eq!(h.machine, 62);
    assert_eq!(h.object_type, ObjectType::Exec);
    assert_eq!(h.ident.file_class, FileClass::Class64);
    assert_eq!(h.ident.data_encoding, DataEncoding::LittleEndian);
    assert_eq!(h.version, 1);
    assert_eq!(h.program_header_offset, 64);
    assert_eq!(h.section_header_offset, 128);
    assert_eq!(h.flags, 5);
    assert_eq!(h.header_size, 64);
    assert_eq!(h.program_header_entry_size, 56);
    assert_eq!(h.program_header_count, 2);
    assert_eq!(h.section_header_entry_size, 64);
    assert_eq!(h.section_header_count, 3);
    assert_eq!(h.section_header_string_index, 1);
    let report = h.show_elf_header_info();
    assert!(report.contains("0x400000"));
    assert!(report.contains("Advanced Micro Devices X86-64"));
    assert!(report.contains("EXE (Executable file)"));
}

#[test]
fn report_text_is_exact() {
    let b = le_buffer();
    let h = Elf64Ehdr::new(&b).unwrap();
    let lines = [
        "ELF Header:",
        "  Magic:   7f 45 4c 46 02 01 01 00 00 00 00 00 00 00 00 00 ",
        "  Class:                             ELF64",
        "  Data:                              2's complement, little endian",
        "  Version:                           1 (current)",
        "  OS/ABI:                            UNIX - System V",
        "  ABI Version:                       0",
        "  Type:                              EXE (Executable file)",
        "  Machine:                           Advanced Micro Devices X86-64",
        "  Version:                           0x1",
        "  Entry point address:               0x400000",
        "  Start of program headers:          64 (bytes into file)",
        "  Start of section headers:          128 (bytes into file)",
        "  Flags:                             0x5",
        "  Size of this header:               64 (bytes)",
        "  Size of program headers:           56 (bytes)",
        "  Number of program headers:         2",
        "  Size of section headers:           64 (bytes)",
        "  Number of section headers:         3",
        "  Section header string table index: 1",
    ];
    let mut expected = String::new();
    for line in lines {
        expected.push_str(line);
        expected.push('\n');
    }
    assert_eq!(h.show_elf_header_info(), expected);
}

#[test]
fn unknown_machine_code_gets_fallback_label() {
    let mut b = le_buffer();
    b[18] = 0x0f; // machine 9999 little-endian
    b[19] = 0x27;
    let h = Elf64Ehdr::new(&b).unwrap();
    assert_eq!(h.machine, 9999);
    assert_eq!(h.get_machine_name(), "Unknown Machine:[9999]");
    assert!(h.show_elf_header_info().contains("Unknown Machine:[9999]"));
}

#[test]
fn opposite_encodings_decode_alike() {
    let hl = Elf64Ehdr::new(&le_buffer()).unwrap();
    let hb = Elf64Ehdr::new(&be_buffer()).unwrap();
    assert_eq!(hb.ident.data_encoding, DataEncoding::BigEndian);
    assert_eq!(hl.object_type, hb.object_type);
    assert_eq!(hl.machine, hb.machine);
    assert_eq!(hl.version, hb.version);
    assert_eq!(hl.entry_address, hb.entry_address);
    assert_eq!(hl.program_header_offset, hb.program_header_offset);
    assert_eq!(hl.section_header_offset, hb.section_header_offset);
    assert_eq!(hl.flags, hb.flags);
    assert_eq!(hl.header_size, hb.header_size);
    assert_eq!(hl.program_header_entry_size, hb.program_header_entry_size);
    assert_eq!(hl.program_header_count, hb.program_header_count);
    assert_eq!(hl.section_header_entry_size, hb.section_header_entry_size);
    assert_eq!(hl.section_header_count, hb.section_header_count);
    assert_eq!(hl.section_header_string_index, hb.section_header_string_index);
    // The reports agree line for line after the ident block.
    let rl = hl.show_elf_header_info();
    let rb = hb.show_elf_header_info();
    let tail_l: Vec<&str> = rl.lines().skip(7).collect();
    let tail_b: Vec<&str> = rb.lines().skip(7).collect();
    assert_eq!(tail_l, tail_b);
}

#[test]
fn decode_then_present_is_deterministic() {
    let b = le_buffer();
    let r1 = Elf64Ehdr::new(&b).unwrap().show_elf_header_info();
    let r2 = Elf64Ehdr::new(&b).unwrap().show_elf_header_info();
    assert_eq!(r1, r2);
}

#[test]
fn magic_check_is_advisory() {
    let mut b = le_buffer();
    assert!(is_elf(&b));
    assert!(is_elf64(&b));
    assert!(!is_elf32(&b));
    b[0] = 0;
    assert!(!is_elf(&b));
    // A wrong magic does not gate decoding.
    assert!(Elf64Ehdr::new(&b).is_ok());
    let short = [0x7fu8, 0x45];
    assert!(!is_elf(&short));
    assert!(!is_elf32(&short));
    assert!(!is_elf64(&short));
}

use elfhdr::elf::ObjectType;
use elfhdr::errors::DecodeError;
use elfhdr::ident::DataEncoding;
use elfhdr::ident::FileClass;
use elfhdr::ident::classify_class;
use elfhdr::ident::classify_encoding;
use elfhdr::layout::FIELD_COUNT;
use elfhdr::layout::F_ENTRY;
use elfhdr::layout::F_OBJECT_TYPE;
use elfhdr::layout::F_VERSION;
use elfhdr::layout::field_offset;
use elfhdr::layout::field_width;
use elfhdr::layout::header_size;
use elfhdr::numfmt::byte_hex_string;
use elfhdr::numfmt::dec_string;
use elfhdr::numfmt::hex_string;
use elfhdr::reader::read_field;
use elfhdr::reader::read_unsigned;
use elfhdr::registry::class_label;
use elfhdr::registry::encoding_label;
use elfhdr::registry::machine_label;
use elfhdr::registry::object_type_label;
use elfhdr::registry::os_abi_label;

#[test]
fn layout_offsets_are_the_known_ones() {
    let expected = [16usize, 18, 20, 24, 32, 40, 48, 52, 54, 56, 58, 60, 62];
    for (i, off) in expected.iter().enumerate() {
        assert_eq!(field_offset(i), *off);
    }
    assert_eq!(header_size(), 64);
    assert_eq!(field_width(F_OBJECT_TYPE), 2);
    assert_eq!(field_width(F_VERSION), 4);
    assert_eq!(field_width(F_ENTRY), 8);
    assert_eq!(field_width(FIELD_COUNT - 1), 2);
}

#[test]
fn read_unsigned_respects_byte_order() {
    let b = [0x34u8, 0x12, 0xff];
    assert_eq!(read_unsigned(&b, 0, 2, true), 0x1234);
    assert_eq!(read_unsigned(&b, 0, 2, false), 0x3412);
    assert_eq!(read_unsigned(&b, 1, 2, true), 0xff12);
    assert_eq!(read_unsigned(&b, 0, 0, true), 0);
    let max = [0xffu8; 8];
    assert_eq!(read_unsigned(&max, 0, 8, true), u64::MAX);
    assert_eq!(read_unsigned(&max, 0, 8, false), u64::MAX);
}

#[test]
fn read_field_reports_truncation_and_encoding() {
    let b = [0u8; 20];
    assert_eq!(read_field(&b, F_OBJECT_TYPE, DataEncoding::LittleEndian), Ok(0));
    assert_eq!(
        read_field(&b, F_VERSION, DataEncoding::LittleEndian),
        Err(DecodeError::TruncatedInput)
    );
    assert_eq!(
        read_field(&b, F_OBJECT_TYPE, DataEncoding::EncodingNone),
        Err(DecodeError::UnsupportedEncoding)
    );
    assert_eq!(
        read_field(&b, F_OBJECT_TYPE, DataEncoding::EncodingOther(9)),
        Err(DecodeError::UnsupportedEncoding)
    );
    let mut c = [0u8; 64];
    c[18] = 0x01;
    c[19] = 0x02;
    assert_eq!(read_field(&c, 1, DataEncoding::LittleEndian), Ok(0x0201));
    assert_eq!(read_field(&c, 1, DataEncoding::BigEndian), Ok(0x0102));
}

#[test]
fn number_formatting_is_exact() {
    assert_eq!(dec_string(0), "0");
    assert_eq!(dec_string(9999), "9999");
    assert_eq!(dec_string(u64::MAX), "18446744073709551615");
    assert_eq!(hex_string(0), "0");
    assert_eq!(hex_string(0x400000), "400000");
    assert_eq!(hex_string(0xdeadbeef), "deadbeef");
    assert_eq!(hex_string(u64::MAX), "ffffffffffffffff");
    assert_eq!(byte_hex_string(0x00), "00");
    assert_eq!(byte_hex_string(0x0f), "0f");
    assert_eq!(byte_hex_string(0x7f), "7f");
    assert_eq!(byte_hex_string(0xff), "ff");
}

#[test]
fn classification_is_total() {
    assert_eq!(classify_class(0), FileClass::ClassNone);
    assert_eq!(classify_class(1), FileClass::Class32);
    assert_eq!(classify_class(2), FileClass::Class64);
    assert_eq!(classify_class(77), FileClass::ClassOther(77));
    assert_eq!(classify_encoding(0), DataEncoding::EncodingNone);
    assert_eq!(classify_encoding(1), DataEncoding::LittleEndian);
    assert_eq!(classify_encoding(2), DataEncoding::BigEndian);
    assert_eq!(classify_encoding(9), DataEncoding::EncodingOther(9));
}

#[test]
fn registry_labels_are_exact() {
    assert_eq!(class_label(FileClass::ClassNone), "ELF None");
    assert_eq!(class_label(FileClass::Class32), "ELF32");
    assert_eq!(class_label(FileClass::Class64), "ELF64");
    assert_eq!(class_label(FileClass::ClassOther(200)), "200");
    assert_eq!(encoding_label(DataEncoding::EncodingNone), "Invalid data encoding");
    assert_eq!(encoding_label(DataEncoding::LittleEndian), "2's complement, little endian");
    assert_eq!(encoding_label(DataEncoding::BigEndian), "2's complement, big endian");
    assert_eq!(encoding_label(DataEncoding::EncodingOther(7)), "7");
    assert_eq!(os_abi_label(0), "UNIX - System V");
    assert_eq!(os_abi_label(3), "Object uses GNU ELF extensions.");
    assert_eq!(os_abi_label(9), "FreeBSD.");
    assert_eq!(os_abi_label(255), "Standalone (embedded) application");
    assert_eq!(os_abi_label(42), "42");
    assert_eq!(object_type_label(ObjectType::TypeNone), "None");
    assert_eq!(object_type_label(ObjectType::Rel), "REL");
    assert_eq!(object_type_label(ObjectType::Exec), "EXE (Executable file)");
    assert_eq!(object_type_label(ObjectType::Dyn), "DYN (Shared object file)");
    assert_eq!(object_type_label(ObjectType::Core), "Core");
    assert_eq!(object_type_label(ObjectType::TypeOther(5)), "5");
}

#[test]
fn machine_registry_knows_its_table() {
    assert_eq!(machine_label(0), "No machine");
    assert_eq!(machine_label(3), "Intel 80386");
    assert_eq!(machine_label(40), "ARM");
    assert_eq!(machine_label(62), "Advanced Micro Devices X86-64");
    assert_eq!(machine_label(173), "Renesas RX");
    assert_eq!(machine_label(183), "ARM AARCH64");
    assert_eq!(machine_label(243), "RISC-V");
    assert_eq!(machine_label(1), "Unknown Machine:[1]");
    assert_eq!(machine_label(9999), "Unknown Machine:[9999]");
    assert_eq!(machine_label(u16::MAX), "Unknown Machine:[65535]");
}

//! Library-wide laws, proved once over the spec functions that the
//! executable functions' contracts are stated in.

use vstd::prelude::*;
use crate::elf::spec_decode_fields;
use crate::elf::spec_decode_result;
use crate::ident::spec_classify_encoding;
use crate::layout::FIELD_COUNT;
use crate::layout::lemma_field_offset_increases;
use crate::layout::lemma_field_offsets;
use crate::layout::spec_field_offset;
use crate::layout::spec_field_width;
use crate::layout::spec_header_size;
use crate::present::spec_report;
use crate::present::spec_report_fields;
use crate::reader::lemma_be_of_reversed;
use crate::reader::spec_field_nat;

verus! {

/// Decoding is total on well-formed input and deterministic end to end:
/// any buffer that holds the whole fixed header and declares the
/// little-endian encoding decodes successfully, and two equal buffers
/// yield the same record and the same report text.
pub proof fn lemma_decode_then_present_deterministic(b1: Seq<u8>, b2: Seq<u8>)
    requires
        b1 == b2,
        b1.len() >= spec_header_size(),
        spec_classify_encoding(b1[5]) is LittleEndian,
    ensures
        spec_decode_result(b1) is None,
        spec_decode_result(b2) is None,
        spec_decode_fields(b1) == spec_decode_fields(b2),
        spec_report(spec_decode_fields(b1)) == spec_report(spec_decode_fields(b2)),
{
    lemma_field_offsets();
}

/// The bytes of one field, mirrored: the field at table position `i` of
/// `b2` holds the same bytes as that field of `b1`, in the opposite order.
pub open spec fn field_bytes_mirrored(b1: Seq<u8>, b2: Seq<u8>, i: int) -> bool {
    forall|j: int|
        0 <= j < spec_field_width(i) ==> #[trigger] b2[spec_field_offset(i) + j] == b1[
            spec_field_offset(i) + spec_field_width(i) - 1 - j]
}

/// A mirrored field read big-endian denotes what the original denotes
/// little-endian.
proof fn lemma_field_mirrored(b1: Seq<u8>, b2: Seq<u8>, i: int)
    requires
        0 <= i < FIELD_COUNT as int,
        b1.len() >= spec_header_size(),
        b2.len() >= spec_header_size(),
        field_bytes_mirrored(b1, b2, i),
    ensures
        spec_field_nat(b2, i, false) == spec_field_nat(b1, i, true),
{
    let o = spec_field_offset(i);
    let w = spec_field_width(i);
    lemma_field_offset_increases(0, i);
    assert(spec_field_offset(i + 1) == o + w);
    lemma_field_offset_increases(i + 1, FIELD_COUNT as int);
    let s1 = b1.subrange(o, o + w);
    let s2 = b2.subrange(o, o + w);
    assert forall|j: int| 0 <= j < s1.len() implies s2[j] == s1[s1.len() - 1 - j] by {
        assert(s2[j] == b2[o + j]);
        assert(s1[s1.len() - 1 - j] == b1[o + w - 1 - j]);
    }
    lemma_be_of_reversed(s1, s2);
}

/// Decoding respects the declared byte order and nothing else: two
/// buffers that declare opposite encodings, and whose post-ident fields
/// hold byte-for-byte mirrored contents, decode to records that agree on
/// every field after the ident block, and the report lines for those
/// fields are identical.  (The ident blocks themselves cannot agree in
/// full — each embeds its own encoding byte — so the records' ident parts
/// are exempt.)
pub proof fn lemma_opposite_encodings_agree(b1: Seq<u8>, b2: Seq<u8>)
    requires
        b1.len() >= spec_header_size(),
        b2.len() >= spec_header_size(),
        spec_classify_encoding(b1[5]) is LittleEndian,
        spec_classify_encoding(b2[5]) is BigEndian,
        forall|i: int| 0 <= i < FIELD_COUNT as int ==> #[trigger] field_bytes_mirrored(b1, b2, i),
    ensures
        spec_decode_result(b1) is None,
        spec_decode_result(b2) is None,
        spec_decode_fields(b1).object_type == spec_decode_fields(b2).object_type,
        spec_decode_fields(b1).machine == spec_decode_fields(b2).machine,
        spec_decode_fields(b1).version == spec_decode_fields(b2).version,
        spec_decode_fields(b1).entry_address == spec_decode_fields(b2).entry_address,
        spec_decode_fields(b1).program_header_offset == spec_decode_fields(
            b2,
        ).program_header_offset,
        spec_decode_fields(b1).section_header_offset == spec_decode_fields(
            b2,
        ).section_header_offset,
        spec_decode_fields(b1).flags == spec_decode_fields(b2).flags,
        spec_decode_fields(b1).header_size == spec_decode_fields(b2).header_size,
        spec_decode_fields(b1).program_header_entry_size == spec_decode_fields(
            b2,
        ).program_header_entry_size,
        spec_decode_fields(b1).program_header_count == spec_decode_fields(
            b2,
        ).program_header_count,
        spec_decode_fields(b1).section_header_entry_size == spec_decode_fields(
            b2,
        ).section_header_entry_size,
        spec_decode_fields(b1).section_header_count == spec_decode_fields(
            b2,
        ).section_header_count,
        spec_decode_fields(b1).section_header_string_index == spec_decode_fields(
            b2,
        ).section_header_string_index,
        spec_report_fields(spec_decode_fields(b1)) == spec_report_fields(spec_decode_fields(b2)),
{
    lemma_field_offsets();
    assert forall|i: int| 0 <= i < FIELD_COUNT as int implies spec_field_nat(b2, i, false)
        == spec_field_nat(b1, i, true) by {
        assert(field_bytes_mirrored(b1, b2, i));
        lemma_field_mirrored(b1, b2, i);
    }
}

} // verus!

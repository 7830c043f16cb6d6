//! The fixed layout of the 64-bit header.
//!
//! One ordered table gives each field's byte width; every absolute offset is
//! derived from it by prefix sum, starting where the 16-byte ident block
//! ends.  No offset constant exists anywhere else in the library.

use vstd::prelude::*;

verus! {

/// Length of the ident block, the first bytes of every header.
pub const IDENT_SIZE: usize = 16;

/// How many fixed-width fields follow the ident block.
pub const FIELD_COUNT: usize = 13;

/// Table positions of the fields, in layout order.
pub const F_OBJECT_TYPE: usize = 0;

pub const F_MACHINE: usize = 1;

pub const F_VERSION: usize = 2;

pub const F_ENTRY: usize = 3;

pub const F_PHOFF: usize = 4;

pub const F_SHOFF: usize = 5;

pub const F_FLAGS: usize = 6;

pub const F_EHSIZE: usize = 7;

pub const F_PHENTSIZE: usize = 8;

pub const F_PHNUM: usize = 9;

pub const F_SHENTSIZE: usize = 10;

pub const F_SHNUM: usize = 11;

pub const F_SHSTRNDX: usize = 12;

/// Byte width of the field at table position `i`: object type and machine
/// are half words, version and flags are words, the three file positions
/// are double words, and every remaining field is a half word.
pub open spec fn spec_field_width(i: int) -> int {
    if i == F_VERSION || i == F_FLAGS {
        4
    } else if i == F_ENTRY || i == F_PHOFF || i == F_SHOFF {
        8
    } else {
        2
    }
}

/// Absolute byte offset of the field at table position `i`: the prefix sum
/// of all widths before it, starting at the end of the ident block.
pub open spec fn spec_field_offset(i: int) -> int
    decreases i,
{
    if i <= 0 {
        IDENT_SIZE as int
    } else {
        spec_field_offset(i - 1) + spec_field_width(i - 1)
    }
}

/// Total size of the fixed header: the offset just past the last field.
pub open spec fn spec_header_size() -> int {
    spec_field_offset(FIELD_COUNT as int)
}

/// The offsets the table derives, written out once so that callers can name
/// them; the header ends at byte 64.
pub proof fn lemma_field_offsets()
    ensures
        spec_field_offset(0) == 16,
        spec_field_offset(1) == 18,
        spec_field_offset(2) == 20,
        spec_field_offset(3) == 24,
        spec_field_offset(4) == 32,
        spec_field_offset(5) == 40,
        spec_field_offset(6) == 48,
        spec_field_offset(7) == 52,
        spec_field_offset(8) == 54,
        spec_field_offset(9) == 56,
        spec_field_offset(10) == 58,
        spec_field_offset(11) == 60,
        spec_field_offset(12) == 62,
        spec_header_size() == 64,
{
    assert(spec_field_offset(0) == 16);
    assert(spec_field_offset(1) == 18);
    assert(spec_field_offset(2) == 20);
    assert(spec_field_offset(3) == 24);
    assert(spec_field_offset(4) == 32);
    assert(spec_field_offset(5) == 40);
    assert(spec_field_offset(6) == 48);
    assert(spec_field_offset(7) == 52);
    assert(spec_field_offset(8) == 54);
    assert(spec_field_offset(9) == 56);
    assert(spec_field_offset(10) == 58);
    assert(spec_field_offset(11) == 60);
    assert(spec_field_offset(12) == 62);
    assert(spec_field_offset(13) == 64);
}

/// Offsets grow by at most the widest field per table position.
pub proof fn lemma_field_offset_bound(i: int)
    requires
        0 <= i,
    ensures
        spec_field_offset(i) <= 16 + 8 * i,
    decreases i,
{
    if i > 0 {
        lemma_field_offset_bound(i - 1);
    }
}

/// Later fields stand no earlier in the layout.
pub proof fn lemma_field_offset_increases(i: int, j: int)
    requires
        0 <= i <= j,
    ensures
        spec_field_offset(i) <= spec_field_offset(j),
    decreases j,
{
    if i < j {
        lemma_field_offset_increases(i, j - 1);
    }
}

/// Width of the field at table position `i`.
pub fn field_width(i: usize) -> (w: usize)
    requires
        i < FIELD_COUNT,
    ensures
        w == spec_field_width(i as int),
        1 <= w <= 8,
{
    if i == F_VERSION || i == F_FLAGS {
        4
    } else if i == F_ENTRY || i == F_PHOFF || i == F_SHOFF {
        8
    } else {
        2
    }
}

/// Offset of the field at table position `i`, computed as the prefix sum of
/// the widths before it.
pub fn field_offset(i: usize) -> (o: usize)
    requires
        i <= FIELD_COUNT,
    ensures
        o == spec_field_offset(i as int),
        o <= 120,
{
    let mut acc: usize = IDENT_SIZE;
    let mut j: usize = 0;
    while j < i
        invariant
            j <= i <= FIELD_COUNT,
            acc == spec_field_offset(j as int),
            acc <= 16 + 8 * j,
        decreases i - j,
    {
        acc = acc + field_width(j);
        j = j + 1;
    }
    proof {
        lemma_field_offset_bound(i as int);
    }
    acc
}

/// Total size of the fixed header in bytes.
pub fn header_size() -> (n: usize)
    ensures
        n == spec_header_size(),
        n == 64,
{
    proof {
        lemma_field_offsets();
    }
    field_offset(FIELD_COUNT)
}

} // verus!

//! Endianness-aware decoding of fixed-width unsigned integers.
//!
//! The mathematical model is [`le_value`] / [`be_value`]: the number a byte
//! sequence denotes when read least- or most-significant byte first.  The
//! executable reader [`read_unsigned`] is proved to return exactly that
//! number for any field of up to eight bytes.

use vstd::prelude::*;
use crate::errors::DecodeError;
use crate::ident::DataEncoding;
use crate::ident::spec_encoding_supported;
use crate::layout::FIELD_COUNT;
use crate::layout::field_offset;
use crate::layout::field_width;
use crate::layout::spec_field_offset;
use crate::layout::spec_field_width;

verus! {

/// The value of a byte sequence read least-significant byte first.
pub open spec fn le_value(s: Seq<u8>) -> nat
    decreases s.len(),
{
    if s.len() == 0 {
        0
    } else {
        s[0] as nat + 256 * le_value(s.drop_first())
    }
}

/// The value of a byte sequence read most-significant byte first.
pub open spec fn be_value(s: Seq<u8>) -> nat
    decreases s.len(),
{
    if s.len() == 0 {
        0
    } else {
        be_value(s.drop_last()) * 256 + s.last() as nat
    }
}

/// `256^n`: the number of values a field of `n` bytes can take.
pub open spec fn pow256(n: nat) -> nat
    decreases n,
{
    if n == 0 {
        1
    } else {
        256 * pow256((n - 1) as nat)
    }
}

/// The value of the `width`-byte field of `s` at `off`, in the byte order
/// chosen by `little`.
pub open spec fn field_value(s: Seq<u8>, off: int, width: int, little: bool) -> nat {
    let f = s.subrange(off, off + width);
    if little {
        le_value(f)
    } else {
        be_value(f)
    }
}

/// A little-endian value is bounded by the capacity of its width.
pub proof fn lemma_le_value_bound(s: Seq<u8>)
    ensures
        le_value(s) < pow256(s.len()),
    decreases s.len(),
{
    if s.len() > 0 {
        lemma_le_value_bound(s.drop_first());
    }
}

/// A big-endian value is bounded by the capacity of its width.
pub proof fn lemma_be_value_bound(s: Seq<u8>)
    ensures
        be_value(s) < pow256(s.len()),
    decreases s.len(),
{
    if s.len() > 0 {
        lemma_be_value_bound(s.drop_last());
    }
}

/// `pow256` grows with the width.
pub proof fn lemma_pow256_increases(a: nat, b: nat)
    requires
        a <= b,
    ensures
        pow256(a) <= pow256(b),
    decreases b,
{
    if a < b {
        lemma_pow256_increases(a, (b - 1) as nat);
        assert(pow256(b) == 256 * pow256((b - 1) as nat));
    }
}

/// The capacities of the field widths the layout uses; the widest fits a
/// `u64` exactly.
pub proof fn lemma_pow256_values()
    ensures
        pow256(2) == 0x1_0000,
        pow256(4) == 0x1_0000_0000,
        pow256(8) == 0x1_0000_0000_0000_0000,
{
    assert(pow256(0) == 1);
    assert(pow256(1) == 256);
    assert(pow256(2) == 0x1_0000);
    assert(pow256(3) == 0x100_0000);
    assert(pow256(4) == 0x1_0000_0000);
    assert(pow256(5) == 0x100_0000_0000);
    assert(pow256(6) == 0x1_0000_0000_0000);
    assert(pow256(7) == 0x100_0000_0000_0000);
    assert(pow256(8) == 0x1_0000_0000_0000_0000);
}

/// Reversing the bytes of a field swaps the two byte orders: a sequence
/// whose bytes mirror another's denotes big-endian what the other denotes
/// little-endian.
pub proof fn lemma_be_of_reversed(s1: Seq<u8>, s2: Seq<u8>)
    requires
        s1.len() == s2.len(),
        forall|j: int| 0 <= j < s1.len() ==> s2[j] == s1[s1.len() - 1 - j],
    ensures
        be_value(s2) == le_value(s1),
    decreases s1.len(),
{
    if s1.len() > 0 {
        let t1 = s1.drop_first();
        let t2 = s2.drop_last();
        assert(t2.len() == t1.len());
        assert forall|j: int| 0 <= j < t1.len() implies t2[j] == t1[t1.len() - 1 - j] by {
            assert(t2[j] == s2[j]);
            assert(t1[t1.len() - 1 - j] == s1[s1.len() - 1 - j]);
        }
        lemma_be_of_reversed(t1, t2);
        assert(s2.last() == s1[0]);
    }
}

/// Reads the `width`-byte unsigned field of `bytes` at `off`, least- or
/// most-significant byte first as `little` says.
pub fn read_unsigned(bytes: &[u8], off: usize, width: usize, little: bool) -> (r: u64)
    requires
        off + width <= bytes@.len(),
        width <= 8,
    ensures
        r as nat == field_value(bytes@, off as int, width as int, little),
        (r as nat) < pow256(width as nat),
{
    let n: usize = bytes.len();
    let ghost f = bytes@.subrange(off as int, off as int + width as int);
    let mut acc: u64 = 0;
    if little {
        let mut k: usize = 0;
        while k < width
            invariant
                k <= width <= 8,
                off + width <= n == bytes@.len(),
                f == bytes@.subrange(off as int, off as int + width as int),
                acc as nat == le_value(f.skip(width - k)),
                (acc as nat) < pow256(k as nat),
            decreases width - k,
        {
            let ghost j = width - k - 1;
            let ghost rest = f.skip(j + 1);
            proof {
                assert(f.skip(j).drop_first() =~= rest);
                assert(f.skip(j)[0] == f[j]);
                lemma_le_value_bound(f.skip(j));
                lemma_pow256_increases((k + 1) as nat, 8);
                lemma_pow256_values();
            }
            acc = acc * 256 + (bytes[off + (width - 1 - k)] as u64);
            k = k + 1;
        }
        proof {
            assert(f.skip(0) =~= f);
        }
    } else {
        let mut k: usize = 0;
        while k < width
            invariant
                k <= width <= 8,
                off + width <= n == bytes@.len(),
                f == bytes@.subrange(off as int, off as int + width as int),
                acc as nat == be_value(f.take(k as int)),
                (acc as nat) < pow256(k as nat),
            decreases width - k,
        {
            proof {
                assert(f.take(k + 1).drop_last() =~= f.take(k as int));
                assert(f.take(k + 1).last() == f[k as int]);
                lemma_be_value_bound(f.take(k + 1));
                lemma_pow256_increases((k + 1) as nat, 8);
                lemma_pow256_values();
            }
            acc = acc * 256 + (bytes[off + k] as u64);
            k = k + 1;
        }
        proof {
            assert(f.take(width as int) =~= f);
        }
    }
    acc
}

/// The number held by the field at table position `i` of `bytes`, read in
/// the byte order that `little` selects.
pub open spec fn spec_field_nat(bytes: Seq<u8>, i: int, little: bool) -> nat {
    field_value(bytes, spec_field_offset(i), spec_field_width(i), little)
}

/// Reads the field at table position `i` under the declared data encoding.
/// An encoding other than the two real byte orders is a hard failure, never
/// a guess; a buffer that ends before the field does is truncated.
pub fn read_field(bytes: &[u8], i: usize, encoding: DataEncoding) -> (r: Result<
    u64,
    DecodeError,
>)
    requires
        i < FIELD_COUNT,
    ensures
        r is Ok <==> spec_encoding_supported(encoding) && spec_field_offset(i as int)
            + spec_field_width(i as int) <= bytes@.len(),
        match r {
            Ok(v) => v as nat == spec_field_nat(bytes@, i as int, encoding is LittleEndian),
            Err(e) => if spec_encoding_supported(encoding) {
                e == DecodeError::TruncatedInput
            } else {
                e == DecodeError::UnsupportedEncoding
            },
        },
{
    let little = match encoding {
        DataEncoding::LittleEndian => true,
        DataEncoding::BigEndian => false,
        _ => {
            return Err(DecodeError::UnsupportedEncoding);
        },
    };
    let off = field_offset(i);
    let width = field_width(i);
    if off > bytes.len() || width > bytes.len() - off {
        return Err(DecodeError::TruncatedInput);
    }
    Ok(read_unsigned(bytes, off, width, little))
}

} // verus!

//! Bit-level helpers shared by the interpreter and the x86 emitter.
use vstd::prelude::*;

verus! {

/// The low `len` bits set; all 64 bits when `len` is 64 or more.
pub open spec fn mask_spec(len: u64) -> u64 {
    if len >= 64 {
        0xffff_ffff_ffff_ffffu64
    } else {
        ((1u64 << len) - 1) as u64
    }
}

/// Returns a value whose low `len` bits are set and whose other bits are clear
/// (all ones for `len >= 64`).
pub fn mask(len: u32) -> (r: u64)
    ensures
        r == mask_spec(len as u64),
{
    if len >= 64 {
        0xffff_ffff_ffff_ffffu64
    } else {
        let l: u64 = len as u64;
        assert(1u64 << l >= 1) by (bit_vector)
            requires
                l < 64,
        ;
        (1u64 << l) - 1
    }
}

} // verus!

verus! {

/// What `bit_insert` computes: the `length` bits of `target` starting at bit
/// `start` replaced by the low `length` bits of `source`.
pub open spec fn bit_insert_spec(target: u64, source: u64, start: u64, length: u64) -> u64 {
    if start >= 64 {
        0
    } else {
        (target & !(mask_spec(length) << start)) | ((source & mask_spec(length)) << start)
    }
}

/// What `bit_extract` computes: `length` bits of `value` starting at `start`.
pub open spec fn bit_extract_spec(value: u64, start: u64, length: u64) -> u64 {
    (value >> start) & mask_spec(length)
}

/// Inserts the low `length` bits of `source` into `target` at bit `start`.
///
/// An insertion at or beyond bit 64 is only accepted for a zero source, and
/// then gives zero.
pub fn bit_insert(target: u64, source: u64, start: u64, length: u64) -> (r: u64)
    requires
        start >= 64 ==> source == 0,
        length <= u32::MAX,
    ensures
        r == bit_insert_spec(target, source, start, length),
{
    if start >= 64 {
        return 0;
    }
    let length: u32 = length as u32;
    let m = mask(length);
    let cleared_target = target & !(m << start);
    let shifted_source = (source & m) << start;
    cleared_target | shifted_source
}

/// Extracts `length` bits of `value` starting at bit `start`.
pub fn bit_extract(value: u64, start: u64, length: u64) -> (r: u64)
    requires
        start < 64,
        length <= u32::MAX,
    ensures
        r == bit_extract_spec(value, start, length),
{
    (value >> start) & mask(length as u32)
}

/// Bit `k` of the results of the bitwise operations, and the identities
/// of masking with all ones and with zero.
pub proof fn lemma_bitwise_at(x: u64, y: u64, k: u64)
    by (bit_vector)
    requires
        k < 64,
    ensures
        (((x & y) >> k) & 1 == 1) == ((x >> k) & 1 == 1 && (y >> k) & 1 == 1),
        (((x | y) >> k) & 1 == 1) == ((x >> k) & 1 == 1 || (y >> k) & 1 == 1),
        (((x ^ y) >> k) & 1 == 1) == (((x >> k) & 1 == 1) != ((y >> k) & 1 == 1)),
        (((!x & y) >> k) & 1 == 1) == ((x >> k) & 1 != 1 && (y >> k) & 1 == 1),
        (0u64 >> k) & 1 != 1,
        x & 0xffff_ffff_ffff_ffffu64 == x,
        x & 0 == 0,
        ((1u64 << 0u64) - 1) as u64 == 0,
{
}

/// Bit `k` of the mask of length `len` is set exactly below `len`.
pub proof fn lemma_mask_bits(len: u64, k: u64)
    requires
        k < 64,
    ensures
        ((mask_spec(len) >> k) & 1 == 1) == (k < len),
{
    if len >= 64 {
        assert((0xffff_ffff_ffff_ffffu64 >> k) & 1 == 1) by (bit_vector)
            requires
                k < 64,
        ;
    } else {
        let m = mask_spec(len);
        assert(((m >> k) & 1 == 1) == (k < len)) by (bit_vector)
            requires
                k < 64,
                len < 64,
                m == ((1u64 << len) - 1) as u64,
        ;
    }
}

/// Bit `k` of an extracted field is bit `start + k` of the value, for `k`
/// below the field's length (and inside the value); the other bits are
/// clear.
pub proof fn lemma_extract_bits(value: u64, start: u64, length: u64, k: u64)
    requires
        start < 64,
        k < 64,
    ensures
        ((bit_extract_spec(value, start, length) >> k) & 1 == 1) == (k < length && start + k < 64 && (value >> (start
            + k) as u64) & 1 == 1),
{
    let m = mask_spec(length);
    let x = value >> start;
    lemma_mask_bits(length, k);
    lemma_bitwise_at(x, m, k);
    if start + k < 64 {
        let sk = (start + k) as u64;
        assert((x >> k) & 1 == (value >> sk) & 1) by (bit_vector)
            requires
                x == value >> start,
                sk == start + k,
                sk < 64,
        ;
    } else {
        assert((x >> k) & 1 == 0) by (bit_vector)
            requires
                x == value >> start,
                start < 64,
                k < 64,
                start + k >= 64,
        ;
    }
}

/// Bits of the inserted field come from the low bits of the source: bit
/// `start + j` of the result is bit `j` of the source.
pub proof fn lemma_insert_field_bits(target: u64, source: u64, start: u64, length: u64, j: u64)
    requires
        start + length <= 64,
        j < length,
    ensures
        (bit_insert_spec(target, source, start, length) >> (start + j) as u64) & 1 == (source >> j) & 1,
{
    let m = mask_spec(length);
    let b = (start + j) as u64;
    if length == 64 {
        assert(m == 0xffff_ffff_ffff_ffffu64);
        assert((((target & !(m << 0u64)) | ((source & m) << 0u64)) >> j) & 1 == (source >> j) & 1) by (bit_vector)
            requires
                m == 0xffff_ffff_ffff_ffffu64,
                j < 64,
        ;
    } else {
        assert(m == ((1u64 << length) - 1) as u64);
        assert((((target & !(m << start)) | ((source & m) << start)) >> b) & 1 == (source >> j) & 1) by (bit_vector)
            requires
                start < 64,
                length < 64,
                start + length <= 64,
                j < length,
                b == start + j,
                m == ((1u64 << length) - 1) as u64,
        ;
    }
}

/// Sign extension from bit `width - 1`: bit `k` of the result is bit `k` of
/// the value below `width` and bit `width - 1` of the value from there on;
/// a width of 64 or more keeps the value, a width of 0 gives 0.
pub proof fn lemma_sign_extend_bits(value: u64, width: u64, k: u64)
    requires
        k < 64,
    ensures
        1 <= width < 64 ==> ((sign_extend_spec(value, width) >> k) & 1 == 1) == (if k < width {
            (value >> k) & 1 == 1
        } else {
            (value >> (width - 1) as u64) & 1 == 1
        }),
        width >= 64 ==> sign_extend_spec(value, width) == value,
        width == 0 ==> sign_extend_spec(value, width) == 0,
{
    let m = mask_spec(width);
    if width >= 64 {
        lemma_bitwise_at(value, 0, 0);
    } else if width == 0 {
        lemma_bitwise_at(value, 0, 0);
        assert(m == 0);
    } else {
        let w1 = (width - 1) as u64;
        assert(m == ((1u64 << width) - 1) as u64);
        assert(((((value & m) | !m) >> k) & 1 == 1) == (if k < width { (value >> k) & 1 == 1 } else { true })) by (bit_vector)
            requires
                k < 64,
                width < 64,
                m == ((1u64 << width) - 1) as u64,
        ;
        assert((((value & m) >> k) & 1 == 1) == (k < width && (value >> k) & 1 == 1)) by (bit_vector)
            requires
                k < 64,
                width < 64,
                m == ((1u64 << width) - 1) as u64,
        ;
        assert((((value & m) >> w1) & 1 == 1) == ((value >> w1) & 1 == 1)) by (bit_vector)
            requires
                1 <= width < 64,
                w1 == width - 1,
                m == ((1u64 << width) - 1) as u64,
        ;
    }
}

/// Reading back an inserted field gives the low bits of the inserted source.
pub proof fn lemma_extract_after_insert(target: u64, source: u64, start: u64, length: u64)
    requires
        start < 64,
        start + length <= 64,
    ensures
        bit_extract_spec(bit_insert_spec(target, source, start, length), start, length)
            == source & mask_spec(length),
{
    let m = mask_spec(length);
    if length == 64 {
        assert(start == 0);
        assert(m == 0xffff_ffff_ffff_ffffu64);
        assert(((((target & !(m << 0u64)) | ((source & m) << 0u64)) >> 0u64) & m) == source & m) by (bit_vector)
            requires
                m == 0xffff_ffff_ffff_ffffu64,
        ;
    } else {
        assert(m == ((1u64 << length) - 1) as u64);
        assert(((((target & !(m << start)) | ((source & m) << start)) >> start) & m) == source & m)
            by (bit_vector)
            requires
                start < 64,
                length < 64,
                start + length <= 64,
                m == ((1u64 << length) - 1) as u64,
        ;
    }
}

/// Bits of the target outside the inserted field are left as they were.
pub proof fn lemma_insert_preserves_other_bits(
    target: u64,
    source: u64,
    start: u64,
    length: u64,
    bit: u64,
)
    requires
        start < 64,
        start + length <= 64,
        bit < 64,
        bit < start || bit >= start + length,
    ensures
        (bit_insert_spec(target, source, start, length) >> bit) & 1 == (target >> bit) & 1,
{
    if length == 64 {
        assert(false);
    }
    let m = mask_spec(length);
    assert(m == ((1u64 << length) - 1) as u64);
    assert(((((target & !(m << start)) | ((source & m) << start)) >> bit) & 1) == (target >> bit)
        & 1) by (bit_vector)
        requires
            start < 64,
            length < 64,
            start + length <= 64,
            bit < 64,
            bit < start || bit >= start + length,
            m == ((1u64 << length) - 1) as u64,
    ;
}

} // verus!

verus! {

/// The low `width` bits of `value` with the top one of them copied into every
/// bit above: the two's complement sign extension of a `width`-bit field to 64
/// bits.
pub open spec fn sign_extend_spec(value: u64, width: u64) -> u64 {
    let low = value & mask_spec(width);
    if 1 <= width < 64 && (low >> ((width - 1) as u64)) & 1 == 1 {
        low | !mask_spec(width)
    } else {
        low
    }
}

pub(crate) fn sign_extend_bits(value: u64, width: u32) -> (r: u64)
    requires
        1 <= width <= 64,
    ensures
        r == sign_extend_spec(value, width as u64),
{
    let m = mask(width);
    let low = value & m;
    if width < 64 && (low >> (width - 1)) & 1 == 1 {
        low | !m
    } else {
        low
    }
}

/// Sign-extends the low `source_width` bits of `value` and keeps the low
/// `dest_width` bits of the outcome.
pub fn sign_extend(value: i64, source_width: usize, dest_width: usize) -> (r: i64)
    requires
        1 <= source_width <= 64,
        dest_width <= u32::MAX,
    ensures
        r == (sign_extend_spec(value as u64, source_width as u64) & mask_spec(dest_width as u64)) as i64,
{
    let extended = sign_extend_bits(value as u64, source_width as u32);
    (extended & mask(dest_width as u32)) as i64
}

/// Sign-extends a constant of `original_width` bits to 64 bits; zero stays
/// zero whatever the widths.
pub fn sign_extend_constant(value: u64, original_width: u16, target_width: u16) -> (r: u64)
    requires
        value != 0 ==> 1 <= original_width <= 64,
    ensures
        r == sign_extend_spec(value, original_width as u64),
{
    if value == 0 {
        assert(sign_extend_spec(0, original_width as u64) == 0) by {
            let m = mask_spec(original_width as u64);
            assert(0u64 & m == 0) by (bit_vector);
            assert(forall|k: u64| (0u64 >> k) & 1 == 0) by (bit_vector);
        }
        return 0;
    }
    sign_extend_bits(value, original_width as u32)
}

/// The value of a 64-bit pattern read as a two's complement signed integer.
pub open spec fn as_signed(x: u64) -> int {
    if x < 0x8000_0000_0000_0000 {
        x as int
    } else {
        x as int - 0x1_0000_0000_0000_0000
    }
}

/// The 64-bit result of the AArch64 `AddWithCarry` operation.
pub open spec fn add_with_carry_result(x: u64, y: u64, carry: u64) -> u64 {
    ((x as int + y as int + carry as int) % 0x1_0000_0000_0000_0000) as u64
}

/// The NZCV flags of the AArch64 `AddWithCarry` operation, packed as
/// `n << 3 | z << 2 | c << 1 | v`.
pub open spec fn add_with_carry_flags(x: u64, y: u64, carry: u64) -> u8 {
    let unsigned_sum = x as int + y as int + carry as int;
    let signed_sum = as_signed(x) + as_signed(y) + as_signed(carry);
    let result = add_with_carry_result(x, y, carry);
    let n: u8 = if result >= 0x8000_0000_0000_0000 { 1 } else { 0 };
    let z: u8 = if result == 0 { 1 } else { 0 };
    let c: u8 = if result as int != unsigned_sum { 1 } else { 0 };
    let v: u8 = if as_signed(result) != signed_sum { 1 } else { 0 };
    (8 * n + 4 * z + 2 * c + v) as u8
}

fn signed_wide(x: u64) -> (r: i128)
    ensures
        r == as_signed(x),
{
    if x < 0x8000_0000_0000_0000 {
        x as i128
    } else {
        x as i128 - 0x1_0000_0000_0000_0000i128
    }
}

/// AArch64 `AddWithCarry` on 64-bit operands: the sum and its NZCV flags.
pub fn add_with_carry(x: u64, y: u64, carry: u64) -> (r: (u64, u8))
    ensures
        r.0 == add_with_carry_result(x, y, carry),
        r.1 == add_with_carry_flags(x, y, carry),
{
    let unsigned_sum: u128 = x as u128 + y as u128 + carry as u128;
    let signed_sum: i128 = signed_wide(x) + signed_wide(y) + signed_wide(carry);
    let result: u64 = if unsigned_sum >= 0x2_0000_0000_0000_0000u128 {
        (unsigned_sum - 0x2_0000_0000_0000_0000u128) as u64
    } else if unsigned_sum >= 0x1_0000_0000_0000_0000u128 {
        (unsigned_sum - 0x1_0000_0000_0000_0000u128) as u64
    } else {
        unsigned_sum as u64
    };
    let n: u8 = if result >= 0x8000_0000_0000_0000 { 1 } else { 0 };
    let z: u8 = if result == 0 { 1 } else { 0 };
    let c: u8 = if result as u128 != unsigned_sum { 1 } else { 0 };
    let v: u8 = if signed_wide(result) != signed_sum { 1 } else { 0 };
    (result, 8 * n + 4 * z + 2 * c + v)
}

} // verus!

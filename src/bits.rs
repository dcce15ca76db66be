use vstd::arithmetic::power2::pow2;
use vstd::bits::{
    low_bits_mask, lemma_u64_low_bits_mask_is_mod, lemma_u64_pow2_no_overflow,
    lemma_u64_shl_is_mul, lemma_u64_shr_is_div,
};
use vstd::prelude::*;

verus! {

/// The value of the inclusive bit range `start..=end` of `val`, moved down to bit 0.
pub open spec fn field_of(val: u32, start: u32, end: u32) -> u32 {
    (((val as u64) >> (start as u64)) & (((1u64 << ((end - start + 1) as u64)) - 1) as u64)) as u32
}

/// Extracts the inclusive bit range `start_bit..=end_bit` of `val` (bit 0 is the
/// least significant), right-aligned.
pub fn bits_of(val: u32, start_bit: u8, end_bit: u8) -> (r: u32)
    requires
        start_bit <= end_bit <= 31,
    ensures
        r == field_of(val, start_bit as u32, end_bit as u32),
        r as nat == (val as nat / pow2(start_bit as nat)) % pow2((end_bit - start_bit + 1) as nat),
{
    let width: u64 = (end_bit - start_bit) as u64 + 1;
    proof {
        assert(1u64 <= (1u64 << width)) by (bit_vector)
            requires
                1 <= width <= 32,
        ;
    }
    let mask: u64 = (1u64 << width) - 1;
    let shifted: u64 = (val as u64) >> (start_bit as u64);
    proof {
        let v = val as u64;
        let s = start_bit as u64;
        assert((v >> s) & mask <= 0xffff_ffffu64) by (bit_vector)
            requires
                v <= 0xffff_ffffu64,
        ;
        lemma_u64_shr_is_div(v, s);
        lemma_u64_pow2_no_overflow(width as nat);
        lemma_u64_shl_is_mul(1u64, width);
        assert(mask == low_bits_mask(width as nat) as u64);
        lemma_u64_low_bits_mask_is_mod(shifted, width as nat);
    }
    (shifted & mask) as u32
}

/// Whether bit `i` of `v` is set.
pub open spec fn bit_set(v: u32, i: u32) -> bool {
    (v >> i) & 1u32 == 1u32
}

/// Extracting the full range `0..=31` returns the word unchanged.
pub proof fn lemma_full_range_is_identity(v: u32)
    ensures
        field_of(v, 0, 31) == v,
{
    assert(field_of(v, 0, 31) == v) by (bit_vector);
}

/// Extracting a single bit gives 0 or 1, and 1 exactly when that bit is set.
pub proof fn lemma_single_bit(v: u32, i: u32)
    requires
        i <= 31,
    ensures
        field_of(v, i, i) <= 1,
        field_of(v, i, i) == 1 <==> bit_set(v, i),
{
    assert(field_of(v, i, i) <= 1) by (bit_vector)
        requires
            i <= 31,
    ;
    assert(field_of(v, i, i) == 1 <==> bit_set(v, i)) by (bit_vector)
        requires
            i <= 31,
    ;
}

/// The extracted field holds exactly bits `start..=end` of the word and no others:
/// shifted back into place it equals the word masked to that range, and its bit `j`
/// is bit `start + j` of the word within the field's width and clear beyond it.
pub proof fn lemma_field_reconstructs(v: u32, start: u32, end: u32)
    requires
        start <= end <= 31,
    ensures
        ((field_of(v, start, end) as u64) << (start as u64)) == (v as u64) & ((((1u64 << ((end
            - start + 1) as u64)) - 1) as u64) << (start as u64)),
        forall|j: u32|
            j < 32 ==> #[trigger] bit_set(field_of(v, start, end), j) == (j <= end - start
                && bit_set(v, (j + start) as u32)),
{
    assert(((field_of(v, start, end) as u64) << (start as u64)) == (v as u64) & ((((1u64 << ((end
        - start + 1) as u64)) - 1) as u64) << (start as u64))) by (bit_vector)
        requires
            start <= end <= 31,
    ;
    assert forall|j: u32| j < 32 implies #[trigger] bit_set(field_of(v, start, end), j) == (j
        <= end - start && bit_set(v, (j + start) as u32)) by {
        assert(bit_set(field_of(v, start, end), j) == (j <= end - start && bit_set(
            v,
            (j + start) as u32,
        ))) by (bit_vector)
            requires
                start <= end <= 31,
                j < 32,
        ;
    }
}

/// Whether bit `index` of `v` is set.
pub fn flag(v: u32, index: u32) -> (r: bool)
    requires
        index <= 31,
    ensures
        r == bit_set(v, index),
{
    proof {
        assert(((v >> index) & 1u32 != 0) == bit_set(v, index)) by (bit_vector);
    }
    ((v >> index) & 1) != 0
}

/// The four bytes of `w` in memory order, least significant first.
pub open spec fn word_bytes(w: u32) -> Seq<u8> {
    seq![w as u8, (w >> 8u32) as u8, (w >> 16u32) as u8, (w >> 24u32) as u8]
}

/// Appends the four bytes of `w`, least significant first.
pub fn push_word_bytes(out: &mut Vec<u8>, w: u32)
    ensures
        final(out)@ == old(out)@ + word_bytes(w),
{
    out.push(#[verifier::truncate] (w as u8));
    out.push(#[verifier::truncate] ((w >> 8) as u8));
    out.push(#[verifier::truncate] ((w >> 16) as u8));
    out.push(#[verifier::truncate] ((w >> 24) as u8));
    assert(final(out)@ =~= old(out)@ + word_bytes(w));
}

} // verus!

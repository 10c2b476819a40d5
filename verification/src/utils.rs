//! Size and alignment arithmetic used when laying out GPU memory.

use vstd::prelude::*;

use vstd::arithmetic::power2::{
    lemma2_to64, lemma2_to64_rest, lemma_pow2_pos, lemma_pow2_unfold, pow2,
};
use vstd::bits::{lemma_u64_low_bits_mask_is_mod, low_bits_mask};

verus! {

/// Is `a` a power of two?
pub open spec fn is_pow2_u32(a: u32) -> bool {
    a != 0 && (a & (a - 1) as u32) == 0
}

/// Is `a` a power of two?
pub open spec fn is_pow2_u64(a: u64) -> bool {
    a != 0 && (a & (a - 1) as u64) == 0
}

/// Round `size` up to the next multiple of `alignment`, which must be a
/// power of two. The result is the smallest aligned value not below `size`.
pub fn compute_aligned_size(size: u32, alignment: u32) -> (r: u32)
    requires
        is_pow2_u32(alignment),
        size + alignment - 1 <= u32::MAX,
    ensures
        r % alignment == 0,
        size <= r < size + alignment,
{
    let mask = alignment - 1;
    let r = (size + mask) & !mask;
    proof {
        let s = size;
        let a = alignment;
        assert((((s + mask) as u32) & !mask) % a == 0 && s <= (((s + mask) as u32) & !mask) && ((((s
            + mask) as u32) & !mask)) < s + a) by (bit_vector)
            requires
                a != 0,
                (a & mask) == 0,
                mask == (a - 1) as u32,
                s + mask < 0x1_0000_0000,
        ;
        assert(((s + mask) as u32) == s + mask);
    }
    r
}

/// A value that passes the mask test really is two to some power below 64.
proof fn lemma_pow2_exponent_u64(a: u64)
    requires
        is_pow2_u64(a),
    ensures
        exists|n: nat| n < 64 && a == pow2(n),
    decreases a,
{
    if a == 1 {
        lemma2_to64();
        assert(0nat < 64 && a == pow2(0));
    } else {
        let h = (a / 2) as u64;
        assert(h != 0 && (h & (h - 1) as u64) == 0 && h < a && a == 2 * h) by (bit_vector)
            requires
                a != 0,
                a != 1,
                (a & (a - 1) as u64) == 0,
                h == (a / 2) as u64,
        ;
        lemma_pow2_exponent_u64(h);
        let n = choose|n: nat| n < 64 && h == pow2(n);
        lemma_pow2_unfold(n + 1);
        assert(a == pow2(n + 1));
        if n + 1 >= 64 {
            lemma2_to64_rest();
            assert(a == pow2(64));
            assert(false);
        }
        assert(n + 1 < 64 && a == pow2(n + 1));
    }
}

/// Round a 64-bit `size` up to the next multiple of `alignment`, which must
/// be a power of two.
pub fn compute_aligned_size_u64(size: u64, alignment: u64) -> (r: u64)
    requires
        is_pow2_u64(alignment),
        size + alignment - 1 <= u64::MAX,
    ensures
        r % alignment == 0,
        size <= r < size + alignment,
{
    let mask = alignment - 1;
    let r = (size + mask) & !mask;
    proof {
        let s = size;
        let a = alignment;
        assert(s <= (((s + mask) as u64) & !mask) && ((((s + mask) as u64) & !mask)) < s + a)
            by (bit_vector)
            requires
                a != 0,
                (a & mask) == 0,
                mask == (a - 1) as u64,
                s + mask < 0x1_0000_0000_0000_0000,
        ;
        assert(((s + mask) as u64) == s + mask);
        assert(r == ((s + mask) as u64) & !mask);
        assert(r & mask == 0) by (bit_vector)
            requires
                r == ((s + mask) as u64) & !mask,
        ;
        lemma_pow2_exponent_u64(a);
        let n = choose|n: nat| n < 64 && a == pow2(n);
        lemma_pow2_pos(n);
        lemma_u64_low_bits_mask_is_mod(r, n);
        assert((low_bits_mask(n) as u64) == mask);
        assert((pow2(n) as u64) == a);
        assert(r % a == 0);
    }
    r
}

} // verus!

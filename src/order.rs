use vstd::arithmetic::div_mod::{lemma_fundamental_div_mod, lemma_fundamental_div_mod_converse, lemma_mod_mod};
use vstd::arithmetic::power2::{lemma2_to64, lemma_pow2_adds, lemma_pow2_pos, pow2};
use vstd::bits::{low_bits_mask, lemma_u32_low_bits_mask_is_mod};
use vstd::prelude::*;

verus! {

/// True when `mask` is `2^k - 1` for some `k` in `0..=32`: its set bits are
/// exactly the lowest ones.
pub open spec fn is_low_mask(mask: u32) -> bool {
    mask & ((mask + 1) as u32) == 0
}

/// Distance travelled going forward from `from` to `to` on a circle of
/// `mask + 1` points.
pub open spec fn circle_dist(from: u32, to: u32, mask: u32) -> int {
    (to - from) % (mask + 1)
}

/// `lhs` comes before `rhs` when `rhs` is nearer going forward than going back.
pub open spec fn precedes(lhs: u32, rhs: u32, mask: u32) -> bool {
    circle_dist(lhs, rhs, mask) < circle_dist(rhs, lhs, mask)
}

/// A mask of low bits is `2^k - 1` for the number `k` of its set bits.
proof fn lemma_low_mask_width(mask: u32) -> (k: nat)
    requires
        is_low_mask(mask),
    ensures
        k <= 32,
        mask as nat == low_bits_mask(k),
    decreases mask,
{
    if mask == 0 {
        lemma2_to64();
        0
    } else {
        let half: u32 = mask >> 1;
        assert(half & ((half + 1) as u32) == 0 && mask == 2 * half + 1 && half < mask)
            by (bit_vector)
            requires
                mask & ((mask + 1) as u32) == 0,
                mask != 0,
                half == mask >> 1,
        ;
        let j = lemma_low_mask_width(half);
        if j == 32 {
            lemma2_to64();
            assert(false);
        }
        lemma2_to64();
        lemma_pow2_adds(j, 1);
        j + 1
    }
}

/// Masking a wrapping difference with a low mask gives the difference
/// reduced modulo `mask + 1`.
proof fn lemma_masked_wrapping_sub(a: u32, b: u32, mask: u32)
    requires
        is_low_mask(mask),
    ensures
        (a.wrapping_sub(b) & mask) as int == circle_dist(b, a, mask),
{
    let w = a.wrapping_sub(b);
    let m32: int = 0x1_0000_0000;
    assert(w as int == (a - b) % m32) by {
        if a - b < 0 {
            lemma_fundamental_div_mod_converse(a - b, m32, -1, a - b + m32);
        } else {
            lemma_fundamental_div_mod_converse(a - b, m32, 0, a - b);
        }
    }
    let k = lemma_low_mask_width(mask);
    lemma2_to64();
    if k == 32 {
        assert(w & mask == w) by (bit_vector)
            requires
                mask == 0xffff_ffffu32,
        ;
    } else {
        let n: int = pow2(k) as int;
        lemma_pow2_pos(k);
        lemma_pow2_pos((32 - k) as nat);
        lemma_pow2_adds(k, (32 - k) as nat);
        lemma_u32_low_bits_mask_is_mod(w, k);
        assert(n == mask + 1);
        lemma_mod_mod(a - b, n, pow2((32 - k) as nat) as int);
    }
}

/// Wrapping "less than": `lhs` precedes `rhs` on the circle of `mask + 1`
/// counter values, as if both were reinterpreted as signed numbers.
pub fn wrapping_lt(lhs: u32, rhs: u32, mask: u32) -> (r: bool)
    requires
        is_low_mask(mask),
    ensures
        r == precedes(lhs, rhs, mask),
{
    let dist_dn = lhs.wrapping_sub(rhs) & mask;
    let dist_up = rhs.wrapping_sub(lhs) & mask;
    proof {
        lemma_masked_wrapping_sub(lhs, rhs, mask);
        lemma_masked_wrapping_sub(rhs, lhs, mask);
    }
    dist_up < dist_dn
}

/// Of two distinct points on the circle that are not exactly half the circle
/// apart, exactly one precedes the other.
pub proof fn lemma_precedes_antisymmetric(lhs: u32, rhs: u32, mask: u32)
    requires
        is_low_mask(mask),
        circle_dist(lhs, rhs, mask) != 0,
        circle_dist(lhs, rhs, mask) != mask / 2 + 1,
    ensures
        precedes(lhs, rhs, mask) != precedes(rhs, lhs, mask),
{
    let n: int = mask + 1;
    let d = circle_dist(lhs, rhs, mask);
    lemma_fundamental_div_mod(rhs - lhs, n);
    let q = (rhs - lhs) / n;
    assert(lhs - rhs == (-q - 1) * n + (n - d)) by (nonlinear_arith)
        requires
            rhs - lhs == n * q + d,
    ;
    lemma_fundamental_div_mod_converse(lhs - rhs, n, -q - 1, n - d);
}

} // verus!

use vstd::arithmetic::power2::{lemma_pow2_unfold, pow2};
use vstd::bits::lemma_u32_shr_is_div;
use vstd::prelude::*;

verus! {

/// The exponent of the largest power of two not above `n` (zero for zero and one).
pub open spec fn log2_floor(n: nat) -> nat
    decreases n,
{
    if n <= 1 {
        0
    } else {
        1 + log2_floor(n / 2)
    }
}

/// The size of one side of a mip level: the base size halved `level` times, never below one.
pub open spec fn mip_side(side: u32, level: nat) -> nat {
    let s = side as nat / pow2(level);
    if s > 1 {
        s
    } else {
        1
    }
}

proof fn lemma_log2_floor_below(n: nat, k: nat)
    requires
        n < pow2(k),
    ensures
        log2_floor(n) < k || (n <= 1 && k == 0),
    decreases k,
{
    vstd::arithmetic::power2::lemma2_to64();
    if k > 0 {
        lemma_pow2_unfold(k);
        if n > 1 {
            assert(n / 2 < pow2((k - 1) as nat));
            lemma_log2_floor_below(n / 2, (k - 1) as nat);
        }
    }
}

/// Number of levels in a full mip chain for an image of the given size:
/// one more than the base-two logarithm of the longer side, rounded down.
pub fn calculate_mipcount(width: u32, height: u32) -> (r: u32)
    ensures
        r == 1 + log2_floor(if width > height { width as nat } else { height as nat }),
{
    let longest: u32 = if width > height { width } else { height };
    let mut m: u32 = longest;
    let mut count: u32 = 1;
    proof {
        vstd::arithmetic::power2::lemma2_to64();
        lemma_log2_floor_below(longest as nat, 32);
    }
    while m > 1
        invariant
            count + log2_floor(m as nat) == 1 + log2_floor(longest as nat),
            log2_floor(longest as nat) < 32,
        decreases m,
    {
        m = m / 2;
        count = count + 1;
    }
    count
}

/// Width and height of mip level `level` of an image of the given size.
pub fn mip_resolution(width: u32, height: u32, level: u32) -> (r: (u32, u32))
    requires
        level < 32,
    ensures
        r.0 == mip_side(width, level as nat),
        r.1 == mip_side(height, level as nat),
{
    let w: u32 = width >> level;
    let h: u32 = height >> level;
    proof {
        lemma_u32_shr_is_div(width, level);
        lemma_u32_shr_is_div(height, level);
    }
    let w: u32 = if w > 1 { w } else { 1 };
    let h: u32 = if h > 1 { h } else { 1 };
    (w, h)
}

} // verus!

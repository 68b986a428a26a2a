use vstd::prelude::*;

use vstd::arithmetic::power2::pow2;

verus! {

/// Largest subdivision count that the recorder offers.
pub const MAX_SUBDIVS: u32 = 25;

/// Settings of the calibration recorder.
#[derive(Debug, Clone, Copy, PartialEq, Eq, Structural)]
pub struct RecorderConfig {
    /// Number of horizontal subdivisions; the pattern's resolution is `2^n`.
    pub horiz_subdivs: usize,
    /// Number of vertical subdivisions; the pattern's resolution is `2^n`.
    pub vert_subdivs: usize,
    /// Number of frames to capture for each pattern.
    pub pics_per_pattern: usize,
}

impl Default for RecorderConfig {
    fn default() -> (r: Self)
        ensures
            r.horiz_subdivs == 11,
            r.vert_subdivs == 10,
            r.pics_per_pattern == 1,
    {
        RecorderConfig { horiz_subdivs: 11, vert_subdivs: 10, pics_per_pattern: 1 }
    }
}

/// Pixel resolution of a calibration pattern with `subdivs` subdivisions.
pub fn subdivision_resolution(subdivs: u32) -> (r: u64)
    requires
        subdivs < 64,
    ensures
        r == pow2(subdivs as nat),
{
    let mut r: u64 = 1;
    let mut k: u32 = 0;
    proof {
        vstd::arithmetic::power2::lemma2_to64();
    }
    while k < subdivs
        invariant
            k <= subdivs < 64,
            r == pow2(k as nat),
        decreases subdivs - k,
    {
        proof {
            vstd::arithmetic::power2::lemma_pow2_unfold((k + 1) as nat);
            vstd::arithmetic::power2::lemma_pow2_strictly_increases((k + 1) as nat, 64);
            vstd::arithmetic::power2::lemma2_to64();
        }
        r = r * 2;
        k += 1;
    }
    r
}

/// Fewest subdivisions whose pattern resolution covers `pixels` pixels: the
/// smallest `n` with `2^n >= pixels`.
pub fn subdivs_to_cover(pixels: u64) -> (r: u32)
    ensures
        r <= 64,
        pixels <= pow2(r as nat),
        r > 0 ==> pow2((r - 1) as nat) < pixels,
{
    proof {
        vstd::arithmetic::power2::lemma2_to64();
    }
    let mut n: u32 = 0;
    let mut covered: u64 = 1;
    while n < 63 && covered < pixels
        invariant
            n <= 63,
            covered == pow2(n as nat),
            n > 0 ==> pow2((n - 1) as nat) < pixels,
        decreases 63 - n,
    {
        proof {
            vstd::arithmetic::power2::lemma_pow2_unfold((n + 1) as nat);
            vstd::arithmetic::power2::lemma_pow2_strictly_increases((n + 1) as nat, 64);
            vstd::arithmetic::power2::lemma2_to64();
        }
        covered = covered * 2;
        n += 1;
    }
    if covered < pixels {
        // Only 2^64 covers more than 2^63 pixels.
        proof {
            vstd::arithmetic::power2::lemma_pow2_unfold(64);
        }
        return 64;
    }
    n
}

} // verus!

//! The per-frame sampling seed.
//!
//! The kernel's stochastic sampling is reseeded every frame with a fresh
//! uniform value in `[0, 1)`, carried as an IEEE-754 single-precision bit
//! pattern. Only the raw random word comes from the `rand` crate; the
//! encoding of the draw as a float bit pattern — the value `m / 2^24` for
//! the word's 24 most significant bits `m` — is computed and verified here.

use vstd::arithmetic::power2::lemma2_to64;
use vstd::arithmetic::power2::lemma_pow2_adds;
use vstd::arithmetic::power2::pow2;
use vstd::prelude::*;

verus! {

/// The thread-local random generator of the `rand` crate, held by the
/// orchestrator for the lifetime of the renderer.
#[verifier::external_type_specification]
#[verifier::external_body]
pub struct ExThreadRng(rand::rngs::ThreadRng);

/// The bit pattern of 1.0: every seed encodes a value in `[0, 1)`, so every
/// seed's bit pattern lies strictly below this.
pub const SEED_BITS_LIMIT: u32 = 0x3F80_0000;

/// Relies on rand::thread_rng: hands out the thread-local generator.
#[verifier::external_body]
pub fn fresh_rng() -> rand::rngs::ThreadRng {
    rand::thread_rng()
}

/// Relies on rand's Standard distribution for u32: one uniformly random
/// word. Nothing is promised of a random draw.
#[verifier::external_body]
pub fn draw_word(rng: &mut rand::rngs::ThreadRng) -> u32 {
    rand::Rng::gen::<u32>(rng)
}

/// Position of the highest set bit of `m` (0 for `m` 0 or 1).
pub open spec fn spec_msb(m: nat) -> nat
    decreases m,
{
    if m < 2 {
        0
    } else {
        1 + spec_msb((m / 2) as nat)
    }
}

/// The IEEE-754 single-precision bit pattern of the value `m / 2^24`, for
/// `0 <= m < 2^24`. The value lies in `[2^(msb-24), 2^(msb-23))`, so its
/// biased exponent is `127 + msb - 24` and its 23 mantissa bits are the bits
/// of `m` below the leading one; `m` has at most 24 significant bits, so the
/// encoding is exact.
pub open spec fn seed_bits_of(m: int) -> int {
    if 0 < m < 0x1000000 {
        (103 + spec_msb(m as nat)) * 0x800000 + (m - pow2(spec_msb(m as nat))) * pow2(
            (23 - spec_msb(m as nat)) as nat,
        )
    } else {
        0
    }
}

/// The highest set bit is the unique `k` with `2^k <= m < 2^(k+1)`.
proof fn lemma_msb_unique(m: nat, k: nat)
    requires
        pow2(k) <= m < pow2(k + 1),
    ensures
        spec_msb(m) == k,
    decreases k,
{
    lemma2_to64();
    if k == 0 {
        assert(m == 1);
    } else {
        lemma_pow2_adds((k - 1) as nat, 1);
        lemma_pow2_adds(k, 1);
        assert(pow2(1) == 2);
        assert(m >= 2);
        assert(spec_msb(m) == 1 + spec_msb((m / 2) as nat));
        assert(pow2((k - 1) as nat) <= m / 2 < pow2(k)) by (nonlinear_arith)
            requires
                pow2(k) == pow2((k - 1) as nat) * 2,
                pow2(k + 1) == pow2(k) * 2,
                pow2(k) <= m < pow2(k + 1),
        ;
        lemma_msb_unique((m / 2) as nat, (k - 1) as nat);
    }
}

/// Encodes the 24 most significant bits `m` of a random word as the float
/// bit pattern of `m / 2^24`: a value in `[0, 1)`, uniform when the word is.
pub fn seed_bits_from_word(n: u32) -> (r: u32)
    ensures
        r == seed_bits_of(n as int / 0x100),
        r < SEED_BITS_LIMIT,
{
    let m: u32 = n / 0x100;
    if m == 0 {
        0
    } else {
        let mut k: u32 = 0;
        let mut p: u32 = 1;
        proof {
            lemma2_to64();
        }
        while p * 2 <= m
            invariant
                0 < m < 0x1000000,
                p == pow2(k as nat),
                p <= m,
                k <= 23,
            decreases m - p,
        {
            proof {
                lemma2_to64();
                lemma_pow2_adds(k as nat, 1);
                assert(pow2((k + 1) as nat) == p * 2);
            }
            p = p * 2;
            k = k + 1;
        }
        proof {
            lemma2_to64();
            lemma_pow2_adds(k as nat, 1);
            lemma_msb_unique(m as nat, k as nat);
            lemma_pow2_adds((23 - k) as nat, k as nat);
        }
        let q: u32 = 0x80_0000 / p;
        assert(q == pow2((23 - k) as nat)) by (nonlinear_arith)
            requires
                0x80_0000 == pow2((23 - k) as nat) * p,
                p > 0,
                q == 0x80_0000 as int / p as int,
        ;
        assert(p * q == 0x80_0000) by (nonlinear_arith)
            requires
                q == pow2((23 - k) as nat),
                0x80_0000 == pow2((23 - k) as nat) * p,
        ;
        assert((m - p) * q < 0x80_0000) by (nonlinear_arith)
            requires
                m < 2 * p,
                q > 0,
                p * q == 0x80_0000,
        ;
        let mantissa: u32 = (m - p) * q;
        (103 + k) * 0x80_0000 + mantissa
    }
}

/// Draws one frame's fresh sampling seed: the bit pattern of a uniform
/// value in `[0, 1)`.
pub fn draw_seed_bits(rng: &mut rand::rngs::ThreadRng) -> (r: u32)
    ensures
        r < SEED_BITS_LIMIT,
{
    let n = draw_word(rng);
    seed_bits_from_word(n)
}

} // verus!

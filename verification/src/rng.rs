//! A deterministic, explicitly seeded pseudo-random generator.
//!
//! The renderer threads an explicit generator through every sampling call,
//! so a fixed seed reproduces a pixel buffer exactly; each pixel derives its
//! own stream from the frame seed, which keeps pixels independent.  The
//! update and output functions are fully specified, so every draw is a
//! mathematical function of the seed.

use vstd::prelude::*;

verus! {

/// The additive constant of the splitmix64 state update.
pub const GAMMA: u64 = 0x9E3779B97F4A7C15;

/// The state after one update step.
pub open spec fn next_state_s(s: u64) -> u64 {
    s.wrapping_add(GAMMA)
}

/// The splitmix64 output mix of a state word.
#[verifier::opaque]
pub open spec fn mix_s(z0: u64) -> u64 {
    let z1 = (z0 ^ (z0 >> 30u64)).wrapping_mul(0xBF58476D1CE4E5B9u64);
    let z2 = (z1 ^ (z1 >> 27u64)).wrapping_mul(0x94D049BB133111EBu64);
    z2 ^ (z2 >> 31u64)
}

/// The word a generator in state `s` hands out next.
pub open spec fn next_u64_s(s: u64) -> u64 {
    mix_s(next_state_s(s))
}

/// The top 16 bits of a word, as a fixed-point value in `[0, 1)`.
pub open spec fn unit_of(r: u64) -> i64 {
    ((r >> 48u64) as int) as i64
}

/// The top 17 bits of a word, shifted to a fixed-point value in `[-1, 1)`.
pub open spec fn sym_of(r: u64) -> i64 {
    ((r >> 47u64) as int - 65536) as i64
}

/// A fixed-point draw in `[0, 1)` and the state after it.
pub open spec fn draw_unit_s(s: u64) -> (i64, u64) {
    (unit_of(next_u64_s(s)), next_state_s(s))
}

/// A fixed-point draw in `[-1, 1)` and the state after it.
pub open spec fn draw_sym_s(s: u64) -> (i64, u64) {
    (sym_of(next_u64_s(s)), next_state_s(s))
}

/// An explicitly seeded splitmix64 generator.
#[derive(Clone, Copy, PartialEq, Eq, Structural, Debug)]
pub struct Rng {
    pub state: u64,
}

impl Rng {
    /// A generator with the given seed.
    pub fn new(seed: u64) -> (r: Rng)
        ensures
            r.state == seed,
    {
        Rng { state: seed }
    }

    /// The next raw 64-bit word.
    pub fn next_u64(&mut self) -> (r: u64)
        ensures
            final(self).state == next_state_s(old(self).state),
            r == next_u64_s(old(self).state),
    {
        proof {
            reveal(mix_s);
        }
        self.state = self.state.wrapping_add(GAMMA);
        let z0: u64 = self.state;
        let z1: u64 = (z0 ^ (z0 >> 30)).wrapping_mul(0xBF58476D1CE4E5B9);
        let z2: u64 = (z1 ^ (z1 >> 27)).wrapping_mul(0x94D049BB133111EB);
        z2 ^ (z2 >> 31)
    }

    /// A fixed-point draw uniform in `[0, 1)` (granularity `1/65536`).
    pub fn next_unit(&mut self) -> (v: i64)
        ensures
            final(self).state == draw_unit_s(old(self).state).1,
            v == draw_unit_s(old(self).state).0,
            0 <= v < crate::fixed::ONE,
    {
        let r: u64 = self.next_u64();
        let t: u64 = r >> 48;
        proof {
            assert(r >> 48u64 <= 0xFFFFu64) by (bit_vector);
        }
        t as i64
    }

    /// A fixed-point draw uniform in `[-1, 1)` (granularity `1/65536`).
    pub fn next_sym(&mut self) -> (v: i64)
        ensures
            final(self).state == draw_sym_s(old(self).state).1,
            v == draw_sym_s(old(self).state).0,
            -crate::fixed::ONE <= v < crate::fixed::ONE,
    {
        let r: u64 = self.next_u64();
        let t: u64 = r >> 47;
        proof {
            assert(r >> 47u64 <= 0x1FFFFu64) by (bit_vector);
        }
        (t as i64) - 65536
    }
}

/// The seed of the per-pixel stream: the frame seed combined with the pixel
/// index and mixed once, so neighbouring pixels get unrelated streams.
pub open spec fn pixel_seed_s(seed: u64, i: u64) -> u64 {
    mix_s(seed.wrapping_add(i.wrapping_mul(GAMMA)))
}

/// The seed of the per-pixel stream.
pub fn pixel_seed(seed: u64, i: u64) -> (r: u64)
    ensures
        r == pixel_seed_s(seed, i),
{
    proof {
        reveal(mix_s);
    }
    let z0: u64 = seed.wrapping_add(i.wrapping_mul(GAMMA));
    let z1: u64 = (z0 ^ (z0 >> 30)).wrapping_mul(0xBF58476D1CE4E5B9);
    let z2: u64 = (z1 ^ (z1 >> 27)).wrapping_mul(0x94D049BB133111EB);
    z2 ^ (z2 >> 31)
}

/// Relies on `rand::random::<u64>()`: a fresh word from the thread-local
/// generator, used only to seed a run that was not given a seed.  Nothing is
/// promised of the value.
#[verifier::external_body]
pub(crate) fn entropy_seed() -> u64 {
    rand::random::<u64>()
}

} // verus!

//! Deterministic pseudo-random generator.
//!
//! Every random draw the renderer makes comes from this explicit state, so
//! a render is a pure function of its seed: the same seed always yields the
//! same stream, whichever thread runs the row. The generator is a splitmix
//! step: a Weyl increment followed by a mixing permutation.

use vstd::prelude::*;
use crate::fx::SCALE;

verus! {

/// The mixing permutation applied to the advanced state.
pub open spec fn mix(z0: u64) -> u64 {
    let z1 = (z0 ^ (z0 >> 30)).wrapping_mul(0xBF58476D1CE4E5B9u64);
    let z2 = (z1 ^ (z1 >> 27)).wrapping_mul(0x94D049BB133111EBu64);
    z2 ^ (z2 >> 31)
}

/// State after one draw.
pub open spec fn step_state(s: u64) -> u64 {
    s.wrapping_add(0x9E3779B97F4A7C15u64)
}

/// The word produced by one draw from state `s`.
pub open spec fn next_of(s: u64) -> u64 {
    mix(step_state(s))
}

/// A fixed-point sample in `[0, SCALE)` from one draw.
pub open spec fn unit_of(s: u64) -> int {
    (next_of(s) >> 48) as int
}

/// A fixed-point sample in `[-SCALE, SCALE)` from one draw.
pub open spec fn sym_of(s: u64) -> int {
    2 * unit_of(s) - SCALE as int
}

/// The seed a given image row draws from, derived from the master seed.
pub open spec fn row_seed_of(master: u64, row: u64) -> u64 {
    mix(master.wrapping_add(mix(row)))
}

/// Explicit random state, advanced by every draw.
pub struct Rng {
    pub state: u64,
}

/// The mixing permutation, executably.
fn mix_exec(z0: u64) -> (r: u64)
    ensures
        r == mix(z0),
{
    let z1: u64 = (z0 ^ (z0 >> 30)).wrapping_mul(0xBF58476D1CE4E5B9u64);
    let z2: u64 = (z1 ^ (z1 >> 27)).wrapping_mul(0x94D049BB133111EBu64);
    z2 ^ (z2 >> 31)
}

impl Rng {
    /// A generator starting from the given state.
    pub fn new(seed: u64) -> (r: Rng)
        ensures
            r.state == seed,
    {
        Rng { state: seed }
    }

    /// A generator for one image row, seeded from the master seed and the row index.
    pub fn for_row(master: u64, row: u64) -> (r: Rng)
        ensures
            r.state == row_seed_of(master, row),
    {
        let inner: u64 = mix_exec(row);
        Rng { state: mix_exec(master.wrapping_add(inner)) }
    }

    /// Draw one word and advance the state.
    pub fn next_u64(&mut self) -> (r: u64)
        ensures
            final(self).state == step_state(old(self).state),
            r == next_of(old(self).state),
    {
        let s: u64 = self.state.wrapping_add(0x9E3779B97F4A7C15u64);
        self.state = s;
        mix_exec(s)
    }

    /// Draw a fixed-point sample in `[0, SCALE)`.
    pub fn next_unit(&mut self) -> (r: i64)
        ensures
            final(self).state == step_state(old(self).state),
            r as int == unit_of(old(self).state),
            0 <= r < SCALE,
    {
        let w: u64 = self.next_u64();
        proof {
            assert((w >> 48) < 65536) by (bit_vector);
        }
        (w >> 48) as i64
    }

    /// Draw a fixed-point sample in `[-SCALE, SCALE)`.
    pub fn next_sym(&mut self) -> (r: i64)
        ensures
            final(self).state == step_state(old(self).state),
            r as int == sym_of(old(self).state),
            -SCALE <= r < SCALE,
    {
        let u: i64 = self.next_unit();
        2 * u - SCALE
    }
}

} // verus!

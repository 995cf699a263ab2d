//! A small deterministic pseudo-random stream.
//!
//! Every draw is specified exactly as a function of the current state, so a
//! run of the engine is a mathematical function of its seed: that is what the
//! determinism guarantees of the engine rest on. Streams for independent
//! entities are derived from a common seed and an index, which keeps the
//! parallel and the sequential update paths bit-identical.

use vstd::prelude::*;

verus! {

/// State increment of the stream (a 64-bit odd constant).
pub const RNG_GAMMA: u64 = 0x9E3779B97F4A7C15;

/// First multiplier of the output scrambler.
pub const RNG_MIX_A: u64 = 0xBF58476D1CE4E5B9;

/// Second multiplier of the output scrambler.
pub const RNG_MIX_B: u64 = 0x94D049BB133111EB;

/// Scrambles a state word into an output word.
#[verifier::opaque]
pub open spec fn spec_mix(s: u64) -> u64 {
    let a = (s ^ (s >> 30)).wrapping_mul(RNG_MIX_A);
    let b = (a ^ (a >> 27)).wrapping_mul(RNG_MIX_B);
    b ^ (b >> 31)
}

/// The state after one draw.
pub open spec fn spec_next_state(s: u64) -> u64 {
    s.wrapping_add(RNG_GAMMA)
}

/// The state after `n` draws.
pub open spec fn spec_state_n(s: u64, n: nat) -> u64
    decreases n,
{
    if n == 0 {
        s
    } else {
        spec_next_state(spec_state_n(s, (n - 1) as nat))
    }
}

/// The word produced by the next draw.
pub open spec fn spec_next_value(s: u64) -> u64 {
    spec_mix(spec_next_state(s))
}

/// The value of the next draw reduced below `n`.
pub open spec fn spec_below(s: u64, n: u64) -> u64 {
    spec_next_value(s) % n
}

/// The value of the next draw mapped into `[lo, hi]`.
pub open spec fn spec_range(s: u64, lo: i64, hi: i64) -> i64 {
    (lo + (spec_next_value(s) % ((hi - lo + 1) as u64)) as i64) as i64
}

/// The stream state derived for entity `i` from a per-tick seed.
pub open spec fn spec_derive(seed: u64, i: u64) -> u64 {
    spec_mix(seed.wrapping_add(i.wrapping_mul(RNG_GAMMA)))
}

/// A deterministic pseudo-random stream.
pub struct SimRng {
    pub state: u64,
}

impl SimRng {
    /// Opens the stream at a seed.
    pub fn new(seed: u64) -> (r: SimRng)
        ensures
            r.state == seed,
    {
        SimRng { state: seed }
    }

    /// Opens the stream of entity `i` under a common seed.
    pub fn derived(seed: u64, i: u64) -> (r: SimRng)
        ensures
            r.state == spec_derive(seed, i),
    {
        SimRng { state: mix(seed.wrapping_add(i.wrapping_mul(RNG_GAMMA))) }
    }

    /// Draws the next 64-bit word.
    pub fn next_u64(&mut self) -> (r: u64)
        ensures
            final(self).state == spec_next_state(old(self).state),
            r == spec_next_value(old(self).state),
    {
        self.state = self.state.wrapping_add(RNG_GAMMA);
        mix(self.state)
    }

    /// Draws a value below `n`.
    pub fn next_below(&mut self, n: u64) -> (r: u64)
        requires
            n >= 1,
        ensures
            final(self).state == spec_next_state(old(self).state),
            r == spec_below(old(self).state, n),
            r < n,
    {
        let v = self.next_u64();
        v % n
    }

    /// Draws a value in the closed interval `[lo, hi]`.
    pub fn next_range(&mut self, lo: i64, hi: i64) -> (r: i64)
        requires
            lo <= hi,
            hi - lo < 0x4000_0000_0000_0000,
        ensures
            final(self).state == spec_next_state(old(self).state),
            r == spec_range(old(self).state, lo, hi),
            lo <= r <= hi,
    {
        let span: u64 = ((hi - lo) as u64) + 1;
        let v = self.next_u64();
        let off = v % span;
        lo + (off as i64)
    }

    /// Draws a success with probability `p_milli` thousandths.
    pub fn chance(&mut self, p_milli: u64) -> (r: bool)
        ensures
            final(self).state == spec_next_state(old(self).state),
            r == (spec_below(old(self).state, 1000) < p_milli),
    {
        let v = self.next_below(1000);
        v < p_milli
    }
}

/// Scrambles a state word into an output word.
fn mix(s: u64) -> (r: u64)
    ensures
        r == spec_mix(s),
{
    proof {
        reveal(spec_mix);
    }
    let a = (s ^ (s >> 30)).wrapping_mul(RNG_MIX_A);
    let b = (a ^ (a >> 27)).wrapping_mul(RNG_MIX_B);
    b ^ (b >> 31)
}

} // verus!

//! A stationary, regenerating energy source.
//!
//! A resource fades in after spawning, grows smoothly toward a target energy
//! and then toward its maximum, and fades out once fully consumed. It is
//! available for feeding only while its energy exceeds a minimum, it is not
//! mid-depletion, and its spawn fade has passed the visibility threshold.

use vstd::prelude::*;

use crate::num::{isqrt, spec_isqrt, spec_tdiv, tdiv};
use crate::rng::{spec_next_state, spec_range, SimRng};

verus! {

/// Positions never leave `[0, POS_MAX]` thousandths of a pixel.
pub const POS_MAX: i64 = 2000000;

/// Upper bound on any resource energy, in thousandths.
pub const RES_ENERGY_CAP: i64 = 160000;

pub const RES_TARGET_MIN: i64 = 20000;

pub const RES_TARGET_MAX: i64 = 80000;

pub const RES_MAX_ENERGY_MIN: i64 = 50000;

pub const RES_MAX_ENERGY_MAX: i64 = 150000;

pub const RES_GROWTH_MIN: i64 = 500;

pub const RES_GROWTH_MAX: i64 = 2000;

pub const RES_REGEN_MIN: i64 = 100;

pub const RES_REGEN_MAX: i64 = 500;

/// Upper bound on the visual size, in thousandths.
pub const RES_SIZE_CAP: i64 = 20000;

/// Initial visual size, in thousandths.
pub const RES_INITIAL_SIZE: i64 = 3000;

/// A resource is available only above this energy, in thousandths.
pub const RES_AVAILABLE_MIN: i64 = 5000;

/// A resource is visible once its spawn fade passes this, in thousandths.
pub const RES_VISIBLE_FADE: i64 = 500;

/// The slow regeneration trickle applies below this energy, in thousandths.
pub const RES_REGEN_THRESHOLD: i64 = 10000;

/// Upper bound on ages, in milliseconds.
pub const AGE_CAP: i64 = 0x4000000000000;

/// A stationary, regenerating energy source. All quantities in thousandths;
/// ages and fades in milliseconds and thousandths respectively.
#[derive(Clone, Copy, Debug, PartialEq, Eq, Structural)]
pub struct Resource {
    pub x: i64,
    pub y: i64,
    pub energy: i64,
    pub max_energy: i64,
    pub size: i64,
    pub growth_rate: i64,
    pub regeneration_rate: i64,
    pub age: i64,
    pub target_energy: i64,
    pub is_spawning: bool,
    pub spawn_fade: i64,
    pub is_depleting: bool,
    pub deplete_fade: i64,
}

impl Resource {
    /// The internal invariant: every quantity stays in its documented range.
    pub open spec fn wf(self) -> bool {
        &&& 0 <= self.x <= POS_MAX
        &&& 0 <= self.y <= POS_MAX
        &&& 0 <= self.energy <= RES_ENERGY_CAP
        &&& RES_MAX_ENERGY_MIN <= self.max_energy <= RES_MAX_ENERGY_MAX
        &&& 0 <= self.size <= RES_SIZE_CAP
        &&& RES_GROWTH_MIN <= self.growth_rate <= RES_GROWTH_MAX
        &&& RES_REGEN_MIN <= self.regeneration_rate <= RES_REGEN_MAX
        &&& 0 <= self.age <= AGE_CAP
        &&& RES_TARGET_MIN <= self.target_energy <= RES_TARGET_MAX
        &&& 0 <= self.spawn_fade <= 1000
        &&& 0 <= self.deplete_fade <= 1000
    }

    /// A fresh resource at `(x, y)` drawn at state `s0`: zero energy, a random
    /// target and maximum, and the spawn fade just started.
    pub open spec fn spec_new(s0: u64, x: i64, y: i64) -> (Resource, u64) {
        let target_energy = spec_range(s0, RES_TARGET_MIN, RES_TARGET_MAX);
        let s1 = spec_next_state(s0);
        let max_energy = spec_range(s1, RES_MAX_ENERGY_MIN, RES_MAX_ENERGY_MAX);
        let s2 = spec_next_state(s1);
        let growth_rate = spec_range(s2, RES_GROWTH_MIN, RES_GROWTH_MAX);
        let s3 = spec_next_state(s2);
        let regeneration_rate = spec_range(s3, RES_REGEN_MIN, RES_REGEN_MAX);
        let s4 = spec_next_state(s3);
        (
            Resource {
                x,
                y,
                energy: 0,
                max_energy,
                size: RES_INITIAL_SIZE,
                growth_rate,
                regeneration_rate,
                age: 0,
                target_energy,
                is_spawning: true,
                spawn_fade: 0,
                is_depleting: false,
                deplete_fade: 0,
            },
            s4,
        )
    }

    /// Spawns a fresh resource at `(x, y)`, drawing its energy parameters
    /// from the stream.
    pub fn new(x: i64, y: i64, rng: &mut SimRng) -> (r: Resource)
        requires
            0 <= x <= POS_MAX,
            0 <= y <= POS_MAX,
        ensures
            r == Self::spec_new(old(rng).state, x, y).0,
            final(rng).state == Self::spec_new(old(rng).state, x, y).1,
            r.wf(),
    {
        let target_energy = rng.next_range(RES_TARGET_MIN, RES_TARGET_MAX);
        let max_energy = rng.next_range(RES_MAX_ENERGY_MIN, RES_MAX_ENERGY_MAX);
        let growth_rate = rng.next_range(RES_GROWTH_MIN, RES_GROWTH_MAX);
        let regeneration_rate = rng.next_range(RES_REGEN_MIN, RES_REGEN_MAX);
        Resource {
            x,
            y,
            energy: 0,
            max_energy,
            size: RES_INITIAL_SIZE,
            growth_rate,
            regeneration_rate,
            age: 0,
            target_energy,
            is_spawning: true,
            spawn_fade: 0,
            is_depleting: false,
            deplete_fade: 0,
        }
    }

    /// One tick of the resource lifecycle: advance the fades, grow the energy
    /// smoothly toward the target and then toward the maximum, follow with
    /// the visual size, and trickle-regenerate once nearly empty.
    pub open spec fn spec_step(self, dt: i64) -> Resource {
        let age: int = if self.age + dt > AGE_CAP {
            AGE_CAP as int
        } else {
            self.age + dt
        };
        let sf0: int = if self.is_spawning {
            self.spawn_fade + 2 * dt
        } else {
            self.spawn_fade as int
        };
        let spawn_fade: int = if self.is_spawning && sf0 >= 1000 {
            1000
        } else {
            sf0
        };
        let is_spawning = if self.is_spawning && sf0 >= 1000 {
            false
        } else {
            self.is_spawning
        };
        let df0: int = if self.is_depleting {
            self.deplete_fade + 3 * dt
        } else {
            self.deplete_fade as int
        };
        let deplete_fade: int = if self.is_depleting && df0 >= 1000 {
            1000
        } else {
            df0
        };
        let active = !is_spawning && !self.is_depleting;
        let diff = self.target_energy - self.energy;
        let adiff: int = if diff >= 0 {
            diff
        } else {
            -diff
        };
        let step = spec_tdiv(self.growth_rate * dt, 1000);
        let e1: int = if active && adiff > 100 {
            if adiff < step {
                self.target_energy as int
            } else if diff > 0 {
                self.energy + step
            } else {
                self.energy - step
            }
        } else {
            self.energy as int
        };
        let e2: int = if active && e1 < self.max_energy {
            let grown = e1 + spec_tdiv(self.growth_rate * dt, 2000);
            if grown > self.max_energy {
                self.max_energy as int
            } else {
                grown
            }
        } else {
            e1
        };
        let tsize = 3000 + spec_tdiv(e2 * 5000, self.max_energy as int);
        let sdiff = tsize - self.size;
        let asdiff: int = if sdiff >= 0 {
            sdiff
        } else {
            -sdiff
        };
        let size: int = if asdiff > 100 {
            self.size + spec_tdiv(sdiff * dt * 2, 1000)
        } else {
            self.size as int
        };
        let e3: int = if e2 < RES_REGEN_THRESHOLD && !self.is_depleting {
            e2 + spec_tdiv(self.regeneration_rate * dt, 1000)
        } else {
            e2
        };
        Resource {
            x: self.x,
            y: self.y,
            energy: e3 as i64,
            max_energy: self.max_energy,
            size: size as i64,
            growth_rate: self.growth_rate,
            regeneration_rate: self.regeneration_rate,
            age: age as i64,
            target_energy: self.target_energy,
            is_spawning,
            spawn_fade: spawn_fade as i64,
            is_depleting: self.is_depleting,
            deplete_fade: deplete_fade as i64,
        }
    }

    /// Advances the resource by one tick of `dt` milliseconds.
    pub fn update(&mut self, dt: i64)
        requires
            old(self).wf(),
            1 <= dt <= 100,
        ensures
            *final(self) == old(self).spec_step(dt),
            final(self).wf(),
    {
        self.age = if self.age + dt > AGE_CAP {
            AGE_CAP
        } else {
            self.age + dt
        };
        if self.is_spawning {
            self.spawn_fade = self.spawn_fade + 2 * dt;
            if self.spawn_fade >= 1000 {
                self.spawn_fade = 1000;
                self.is_spawning = false;
            }
        }
        if self.is_depleting {
            self.deplete_fade = self.deplete_fade + 3 * dt;
            if self.deplete_fade >= 1000 {
                self.deplete_fade = 1000;
            }
        }
        let active = !self.is_spawning && !self.is_depleting;
        proof {
            assert(0 <= self.growth_rate * dt <= 200000) by (nonlinear_arith)
                requires
                    500 <= self.growth_rate <= 2000,
                    1 <= dt <= 100,
            ;
            assert(0 <= self.regeneration_rate * dt <= 50000) by (nonlinear_arith)
                requires
                    100 <= self.regeneration_rate <= 500,
                    1 <= dt <= 100,
            ;
        }
        if active {
            let diff = self.target_energy - self.energy;
            let adiff = if diff >= 0 {
                diff
            } else {
                -diff
            };
            let step = tdiv(self.growth_rate * dt, 1000);
            if adiff > 100 {
                if adiff < step {
                    self.energy = self.target_energy;
                } else if diff > 0 {
                    self.energy = self.energy + step;
                } else {
                    self.energy = self.energy - step;
                }
            }
            if self.energy < self.max_energy {
                let grown = self.energy + tdiv(self.growth_rate * dt, 2000);
                self.energy = if grown > self.max_energy {
                    self.max_energy
                } else {
                    grown
                };
            }
        }
        proof {
            assert(0 <= self.energy * 5000 <= 160000 * 5000) by (nonlinear_arith)
                requires
                    0 <= self.energy <= 160000,
            ;
        }
        let tsize = 3000 + tdiv(self.energy * 5000, self.max_energy);
        proof {
            vstd::arithmetic::div_mod::lemma_div_is_ordered_by_denominator(
                self.energy * 5000int,
                50000,
                self.max_energy as int,
            );
            vstd::arithmetic::div_mod::lemma_div_pos_is_pos(
                self.energy * 5000int,
                self.max_energy as int,
            );
            vstd::arithmetic::div_mod::lemma_div_is_ordered(
                self.energy * 5000int,
                800000000int,
                50000,
            );
            assert(self.energy * 5000int / 50000int <= 16000);
        }
        let sdiff = tsize - self.size;
        let asdiff = if sdiff >= 0 {
            sdiff
        } else {
            -sdiff
        };
        if asdiff > 100 {
            proof {
                lemma_step_within(sdiff as int, dt as int);
            }
            self.size = self.size + tdiv(sdiff * dt * 2, 1000);
        }
        if self.energy < RES_REGEN_THRESHOLD && !self.is_depleting {
            self.energy = self.energy + tdiv(self.regeneration_rate * dt, 1000);
        }
    }

    /// Takes up to `amount` of energy out of the resource. Never returns more
    /// than the resource holds; energy never goes negative; full consumption
    /// starts the depletion fade.
    pub fn consume(&mut self, amount: i64) -> (consumed: i64)
        requires
            old(self).wf(),
            amount >= 0,
        ensures
            consumed == if amount <= old(self).energy {
                amount as int
            } else {
                old(self).energy as int
            },
            consumed <= old(self).energy,
            0 <= consumed <= amount,
            final(self).energy == old(self).energy - consumed,
            final(self).energy >= 0,
            final(self).energy == 0 ==> final(self).is_depleting && final(self).deplete_fade == 0,
            final(self).energy > 0 ==> final(self).is_depleting == old(self).is_depleting
                && final(self).deplete_fade == old(self).deplete_fade,
            final(self).x == old(self).x && final(self).y == old(self).y,
            final(self).max_energy == old(self).max_energy,
            final(self).wf(),
    {
        let consumed = if amount <= self.energy {
            amount
        } else {
            self.energy
        };
        self.energy = self.energy - consumed;
        if self.energy <= 0 {
            self.is_depleting = true;
            self.deplete_fade = 0;
            self.energy = 0;
        }
        consumed
    }

    /// Whether the resource can be fed on: enough energy, not depleting, and
    /// visibly spawned in.
    pub open spec fn spec_is_available(self) -> bool {
        self.energy > RES_AVAILABLE_MIN && !self.is_depleting && self.spawn_fade > RES_VISIBLE_FADE
    }

    /// Whether the resource can be fed on.
    pub fn is_available(&self) -> (r: bool)
        ensures
            r == self.spec_is_available(),
    {
        self.energy > RES_AVAILABLE_MIN && !self.is_depleting && self.spawn_fade > RES_VISIBLE_FADE
    }

    /// The squared distance from this resource to `(x, y)`.
    pub open spec fn spec_dist_sq(self, x: i64, y: i64) -> int {
        (self.x - x) * (self.x - x) + (self.y - y) * (self.y - y)
    }

    /// The distance (rounded down) from this resource to `(x, y)`.
    pub fn distance_to(&self, x: i64, y: i64) -> (r: i64)
        requires
            self.wf(),
            0 <= x <= POS_MAX,
            0 <= y <= POS_MAX,
        ensures
            r == spec_isqrt(self.spec_dist_sq(x, y) as nat),
            0 <= r <= 3000000,
    {
        dist_milli(self.x, self.y, x, y)
    }
}

/// The squared distance between two points.
pub open spec fn spec_dist_sq(ax: i64, ay: i64, bx: i64, by: i64) -> int {
    (ax - bx) * (ax - bx) + (ay - by) * (ay - by)
}

/// The Euclidean distance between two points, rounded down.
pub fn dist_milli(ax: i64, ay: i64, bx: i64, by: i64) -> (r: i64)
    requires
        0 <= ax <= POS_MAX,
        0 <= ay <= POS_MAX,
        0 <= bx <= POS_MAX,
        0 <= by <= POS_MAX,
    ensures
        r == spec_isqrt(spec_dist_sq(ax, ay, bx, by) as nat),
        r * r <= spec_dist_sq(ax, ay, bx, by) < (r + 1) * (r + 1),
        0 <= r <= 3000000,
{
    let dx = ax - bx;
    let dy = ay - by;
    proof {
        assert(0 <= dx * dx <= 2000000 * 2000000int) by (nonlinear_arith)
            requires
                -2000000 <= dx <= 2000000,
        ;
        assert(0 <= dy * dy <= 2000000 * 2000000int) by (nonlinear_arith)
            requires
                -2000000 <= dy <= 2000000,
        ;
    }
    let dsq: u64 = ((dx * dx) as u64) + ((dy * dy) as u64);
    let r = isqrt(dsq);
    proof {
        assert(r * r <= 8000000000000int < (3000000int * 3000000int)) by (nonlinear_arith)
            requires
                r * r <= 8000000000000int,
        ;
        assert(r < 3000000) by (nonlinear_arith)
            requires
                r * r < 3000000int * 3000000int,
        ;
    }
    r as i64
}

/// The size-follow step never overshoots the target size: the step is no
/// larger in magnitude than the gap, and points the same way.
proof fn lemma_step_within(sdiff: int, dt: int)
    requires
        1 <= dt <= 100,
        -100000 <= sdiff <= 100000,
    ensures
        sdiff >= 0 ==> 0 <= spec_tdiv(sdiff * dt * 2, 1000) <= sdiff,
        sdiff < 0 ==> sdiff <= spec_tdiv(sdiff * dt * 2, 1000) <= 0,
{
    if sdiff >= 0 {
        assert(0 <= sdiff * dt * 2 <= 200 * sdiff) by (nonlinear_arith)
            requires
                1 <= dt <= 100,
                sdiff >= 0,
        ;
        assert(200 * sdiff <= 1000 * sdiff) by (nonlinear_arith)
            requires
                sdiff >= 0,
        ;
        vstd::arithmetic::div_mod::lemma_div_is_ordered(sdiff * dt * 2, 1000 * sdiff, 1000);
        vstd::arithmetic::div_mod::lemma_div_multiples_vanish(sdiff, 1000);
        vstd::arithmetic::div_mod::lemma_div_pos_is_pos(sdiff * dt * 2, 1000);
        assert(spec_tdiv(sdiff * dt * 2, 1000) == sdiff * dt * 2 / 1000);
    } else {
        assert(0 <= -(sdiff * dt * 2) <= 1000 * (-sdiff)) by (nonlinear_arith)
            requires
                1 <= dt <= 100,
                sdiff < 0,
        ;
        vstd::arithmetic::div_mod::lemma_div_is_ordered(-(sdiff * dt * 2), 1000 * (-sdiff), 1000);
        vstd::arithmetic::div_mod::lemma_div_multiples_vanish(-sdiff, 1000);
        vstd::arithmetic::div_mod::lemma_div_pos_is_pos(-(sdiff * dt * 2), 1000);
        assert(spec_tdiv(sdiff * dt * 2, 1000) == -((-(sdiff * dt * 2)) / 1000));
    }
}

} // verus!

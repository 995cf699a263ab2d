//! A mobile, genome-carrying creature and its behaviour state machine.
//!
//! Each tick an agent ages, pays a metabolic energy cost, decides on a
//! behaviour from what it senses, acts on its current state, and moves with
//! toroidal wraparound. Death is an orthogonal condition — energy exhausted or
//! age over the ceiling — checked every tick regardless of state.

use vstd::prelude::*;

use crate::genes::{Genes, PREDATOR_THRESHOLD};
use crate::num::{
    clamp_i64, lemma_component_le_isqrt, lemma_scaled_div_bound, spec_clamp, spec_isqrt, spec_tdiv,
    tdiv,
};
use crate::resource::{dist_milli, spec_dist_sq, Resource, AGE_CAP, POS_MAX};
use crate::rng::{spec_below, spec_next_state, spec_range, SimRng};

verus! {

/// Energy a fresh agent starts with, in thousandths.
pub const AGENT_START_ENERGY: i64 = 80000;

/// Energy ceiling of a fresh agent, in thousandths.
pub const AGENT_MAX_ENERGY: i64 = 100000;

/// Upper bound on any agent's energy ceiling, in thousandths.
pub const AGENT_ENERGY_BOUND: i64 = 200000;

/// Age ceiling: an agent older than this dies of old age, in milliseconds.
pub const AGE_LIMIT: i64 = 200000;

/// Largest magnitude a movement target coordinate can take (flee points may
/// lie outside the world), in thousandths.
pub const TARGET_BOUND: i64 = 10000000;

/// Velocities between ticks stay within this magnitude, in thousandths.
pub const VEL_BOUND: i64 = 3000;

/// Interaction radius for feeding and fighting, in thousandths.
pub const INTERACT_RADIUS: i64 = 5000;

/// Energy gained from one feeding event before efficiency scaling, in
/// thousandths.
pub const FEED_ENERGY: i64 = 50000;

/// The behaviour states of the agent state machine.
#[derive(Clone, Copy, Debug, PartialEq, Eq, Structural)]
pub enum AgentState {
    Seeking,
    Hunting,
    Feeding,
    Reproducing,
    Fighting,
    Fleeing,
}

/// Why an agent died; reported for diagnostics and rendering.
#[derive(Clone, Copy, Debug, PartialEq, Eq, Structural)]
pub enum DeathReason {
    Starvation,
    OldAge,
    KilledByPredator,
    Combat,
    NaturalCauses,
}

/// A mobile, genome-carrying creature. Quantities in thousandths; times in
/// milliseconds.
#[derive(Clone, Copy, Debug, PartialEq, Eq, Structural)]
pub struct Agent {
    pub id: u64,
    pub x: i64,
    pub y: i64,
    pub dx: i64,
    pub dy: i64,
    pub energy: i64,
    pub max_energy: i64,
    pub age: i64,
    pub genes: Genes,
    pub target_x: Option<i64>,
    pub target_y: Option<i64>,
    pub state: AgentState,
    pub last_reproduction: i64,
    pub kills: u32,
    pub generation: u32,
    pub death_fade: i64,
    pub death_reason: Option<DeathReason>,
    pub is_dying: bool,
    pub spawn_fade: i64,
}

/// A random unit-heading scaled to `speed`: two components drawn in
/// `[-1000, 1000]` and renormalised; a zero draw falls back to a heading
/// along the first axis.
pub open spec fn spec_heading(s: u64, speed: i64) -> (i64, i64, u64) {
    let vx = spec_range(s, -1000i64, 1000);
    let s1 = spec_next_state(s);
    let vy = spec_range(s1, -1000i64, 1000);
    let s2 = spec_next_state(s1);
    let dsq = vx * vx + vy * vy;
    let len = spec_isqrt(dsq as nat);
    if len == 0 {
        (speed, 0, s2)
    } else {
        (
            spec_tdiv(vx * speed, len as int) as i64,
            spec_tdiv(vy * speed, len as int) as i64,
            s2,
        )
    }
}

/// Draws a random heading of magnitude at most `speed` (componentwise).
pub fn random_heading(speed: i64, rng: &mut SimRng) -> (r: (i64, i64))
    requires
        0 <= speed <= 30000,
    ensures
        r.0 == spec_heading(old(rng).state, speed).0,
        r.1 == spec_heading(old(rng).state, speed).1,
        final(rng).state == spec_heading(old(rng).state, speed).2,
        -speed <= r.0 <= speed,
        -speed <= r.1 <= speed,
{
    let vx = rng.next_range(-1000, 1000);
    let vy = rng.next_range(-1000, 1000);
    proof {
        assert(0 <= vx * vx <= 1000000 && 0 <= vy * vy <= 1000000) by (nonlinear_arith)
            requires
                -1000 <= vx <= 1000,
                -1000 <= vy <= 1000,
        ;
    }
    let dsq: u64 = ((vx * vx) as u64) + ((vy * vy) as u64);
    let len = crate::num::isqrt(dsq);
    if len == 0 {
        (speed, 0)
    } else {
        proof {
            lemma_component_le_isqrt(vx as int, dsq as nat);
            lemma_component_le_isqrt(vy as int, dsq as nat);
            lemma_scaled_div_bound(vx as int, len as int, speed as int);
            lemma_scaled_div_bound(vy as int, len as int, speed as int);
            assert(len <= 1500) by (nonlinear_arith)
                requires
                    len * len <= 2000000,
            ;
            assert(-30000000 <= vx * speed <= 30000000) by (nonlinear_arith)
                requires
                    -1000 <= vx <= 1000,
                    0 <= speed <= 30000,
            ;
            assert(-30000000 <= vy * speed <= 30000000) by (nonlinear_arith)
                requires
                    -1000 <= vy <= 1000,
                    0 <= speed <= 30000,
            ;
        }
        let hx = tdiv(vx * speed, len as i64);
        let hy = tdiv(vy * speed, len as i64);
        (hx, hy)
    }
}

impl Agent {
    /// The invariant on everything but the velocity: every quantity stays in
    /// its documented range, and energy never leaves `[0, max_energy]`.
    pub open spec fn wf_core(self) -> bool {
        &&& 0 <= self.x <= POS_MAX
        &&& 0 <= self.y <= POS_MAX
        &&& 0 <= self.energy <= self.max_energy
        &&& 0 < self.max_energy <= AGENT_ENERGY_BOUND
        &&& 0 <= self.age <= AGE_CAP
        &&& 0 <= self.last_reproduction <= AGE_CAP
        &&& self.genes.wf()
        &&& 0 <= self.death_fade <= 2000
        &&& 0 <= self.spawn_fade <= 1000
        &&& (self.target_x matches Some(tx) ==> -TARGET_BOUND <= tx <= TARGET_BOUND)
        &&& (self.target_y matches Some(ty) ==> -TARGET_BOUND <= ty <= TARGET_BOUND)
    }

    /// The internal invariant between ticks: the core invariant, with the
    /// velocity renormalised to the resting bound.
    pub open spec fn wf(self) -> bool {
        &&& self.wf_core()
        &&& -VEL_BOUND <= self.dx <= VEL_BOUND
        &&& -VEL_BOUND <= self.dy <= VEL_BOUND
    }

    /// The invariant mid-tick, between the state action and the movement
    /// phase: a steering action may set a velocity up to the hunting burst.
    pub open spec fn wf_moving(self) -> bool {
        &&& self.wf_core()
        &&& -20000 <= self.dx <= 20000
        &&& -20000 <= self.dy <= 20000
    }

    /// A fresh agent at `(x, y)`: starting energy, a random heading scaled to
    /// its speed trait, seeking, and fading in.
    pub open spec fn spec_new(s: u64, id: u64, x: i64, y: i64, genes: Genes, generation: u32) -> (
        Agent,
        u64,
    ) {
        let h = spec_heading(s, genes.speed);
        (
            Agent {
                id,
                x,
                y,
                dx: h.0,
                dy: h.1,
                energy: AGENT_START_ENERGY,
                max_energy: AGENT_MAX_ENERGY,
                age: 0,
                genes,
                target_x: None,
                target_y: None,
                state: AgentState::Seeking,
                last_reproduction: 0,
                kills: 0,
                generation,
                death_fade: 0,
                death_reason: None,
                is_dying: false,
                spawn_fade: 0,
            },
            h.2,
        )
    }

    /// Spawns a fresh agent at `(x, y)` with the given genome.
    pub fn new(id: u64, x: i64, y: i64, genes: Genes, generation: u32, rng: &mut SimRng) -> (r:
        Agent)
        requires
            0 <= x <= POS_MAX,
            0 <= y <= POS_MAX,
            genes.wf(),
        ensures
            r == Self::spec_new(old(rng).state, id, x, y, genes, generation).0,
            final(rng).state == Self::spec_new(old(rng).state, id, x, y, genes, generation).1,
            r.wf(),
    {
        let h = random_heading(genes.speed, rng);
        Agent {
            id,
            x,
            y,
            dx: h.0,
            dy: h.1,
            energy: AGENT_START_ENERGY,
            max_energy: AGENT_MAX_ENERGY,
            age: 0,
            genes,
            target_x: None,
            target_y: None,
            state: AgentState::Seeking,
            last_reproduction: 0,
            kills: 0,
            generation,
            death_fade: 0,
            death_reason: None,
            is_dying: false,
            spawn_fade: 0,
        }
    }

    /// The unique identity of the agent.
    pub fn id(&self) -> (r: u64)
        ensures
            r == self.id,
    {
        self.id
    }

    /// Alive means: some energy left and under the age ceiling.
    pub open spec fn spec_is_alive(self) -> bool {
        self.energy > 0 && self.age < AGE_LIMIT
    }

    /// Whether the agent is alive.
    pub fn is_alive(&self) -> (r: bool)
        ensures
            r == self.spec_is_alive(),
    {
        self.energy > 0 && self.age < AGE_LIMIT
    }

    /// Predator classification: the predator trait exceeds the threshold.
    pub open spec fn spec_is_predator(self) -> bool {
        self.genes.is_predator > PREDATOR_THRESHOLD
    }

    /// Whether the agent behaves as a predator.
    pub fn is_predator(&self) -> (r: bool)
        ensures
            r == self.spec_is_predator(),
    {
        self.genes.is_predator > PREDATOR_THRESHOLD
    }

    /// Whether the agent behaves as prey (not a predator).
    pub fn is_prey(&self) -> (r: bool)
        ensures
            r == !self.spec_is_predator(),
    {
        !(self.genes.is_predator > PREDATOR_THRESHOLD)
    }

    /// Reproduction eligibility: energy above a floor, age above a floor, and
    /// the cooldown since the last reproduction elapsed.
    pub open spec fn spec_can_reproduce(self) -> bool {
        self.energy > 10000 && self.age > 2000 && self.age - self.last_reproduction > 1000
    }

    /// Whether the agent may reproduce this tick.
    pub fn can_reproduce(&self) -> (r: bool)
        requires
            self.wf(),
        ensures
            r == self.spec_can_reproduce(),
    {
        self.energy > 10000 && self.age > 2000 && self.age - self.last_reproduction > 1000
    }

    /// The squared distance from this agent to `(x, y)`.
    pub open spec fn spec_dist_sq_to(self, x: i64, y: i64) -> int {
        spec_dist_sq(self.x, self.y, x, y)
    }

    /// The distance (rounded down) from this agent to `(x, y)`.
    pub fn distance_to(&self, x: i64, y: i64) -> (r: i64)
        requires
            self.wf(),
            0 <= x <= POS_MAX,
            0 <= y <= POS_MAX,
        ensures
            r == spec_isqrt(self.spec_dist_sq_to(x, y) as nat),
            0 <= r <= 3000000,
    {
        dist_milli(self.x, self.y, x, y)
    }

    /// The metabolic cost of one tick: body size and speed set the base rate,
    /// scaled by metabolism, a mild positional bias, and the inverse of the
    /// energy efficiency.
    pub open spec fn spec_metabolic_cost(self, dt: i64, w: i64, h: i64) -> int {
        let env = 1000 + spec_tdiv(
            spec_tdiv(self.x * 1000, w as int) + spec_tdiv(self.y * 1000, h as int),
            1000,
        );
        let n1 = self.genes.size * 50 + self.genes.speed * 20;
        let n2 = n1 * dt;
        let n3 = n2 * self.genes.metabolism;
        let n4 = n3 * env;
        spec_tdiv(n4, 1000000000 * self.genes.energy_efficiency)
    }

    /// Computes the metabolic cost of one tick, in thousandths of energy.
    pub fn metabolic_cost(&self, dt: i64, w: i64, h: i64) -> (r: i64)
        requires
            self.wf(),
            1 <= dt <= 100,
            1000 <= w <= POS_MAX,
            1000 <= h <= POS_MAX,
            self.x <= w,
            self.y <= h,
        ensures
            r == self.spec_metabolic_cost(dt, w, h),
            0 <= r <= 600,
    {
        proof {
            lemma_env_bias_bounds(self.x as int, self.y as int, w as int, h as int);
        }
        let env = 1000 + tdiv(tdiv(self.x * 1000, w) + tdiv(self.y * 1000, h), 1000);
        let n1 = self.genes.size * 50 + self.genes.speed * 20;
        proof {
            assert(0 <= n1 * dt <= 18500000) by (nonlinear_arith)
                requires
                    0 <= n1 <= 185000,
                    1 <= dt <= 100,
            ;
        }
        let n2 = n1 * dt;
        proof {
            assert(0 <= n2 * self.genes.metabolism <= 55500000000int) by (nonlinear_arith)
                requires
                    0 <= n2 <= 18500000,
                    100 <= self.genes.metabolism <= 3000,
            ;
        }
        let n3 = n2 * self.genes.metabolism;
        proof {
            assert(0 <= n3 * env <= 55611000000000int) by (nonlinear_arith)
                requires
                    0 <= n3 <= 55500000000int,
                    1000 <= env <= 1002,
            ;
        }
        let n4 = n3 * env;
        let cost = tdiv(n4, 1000000000 * self.genes.energy_efficiency);
        proof {
            vstd::arithmetic::div_mod::lemma_div_pos_is_pos(
                n4 as int,
                1000000000 * self.genes.energy_efficiency as int,
            );
            vstd::arithmetic::div_mod::lemma_div_is_ordered_by_denominator(
                n4 as int,
                100000000000int,
                1000000000 * self.genes.energy_efficiency as int,
            );
            vstd::arithmetic::div_mod::lemma_div_is_ordered(
                n4 as int,
                55611000000000int,
                100000000000int,
            );
        }
        cost
    }
}

/// A best-so-far movement target with its score; candidates replace it only
/// with a strictly better score, so ties break by encounter order.
#[derive(Clone, Copy, Debug, PartialEq, Eq, Structural)]
pub struct TargetChoice {
    pub has: bool,
    pub tx: i64,
    pub ty: i64,
    pub score: i64,
}

/// The empty choice every scan starts from.
pub open spec fn spec_no_target() -> TargetChoice {
    TargetChoice { has: false, tx: 0, ty: 0, score: i64::MIN }
}

/// Returns the empty choice.
pub fn no_target() -> (r: TargetChoice)
    ensures
        r == spec_no_target(),
{
    TargetChoice { has: false, tx: 0, ty: 0, score: i64::MIN }
}

/// What a predator's rival scan decides: flee a clearly stronger rival at
/// once, or keep the best target found so far.
#[derive(Clone, Copy, Debug, PartialEq, Eq, Structural)]
pub enum RivalOutcome {
    Flee { tx: i64, ty: i64 },
    Keep(TargetChoice),
}

impl Agent {
    /// The distance under which a predator considers prey: sense range scaled
    /// by its territory size.
    pub open spec fn spec_hunt_range(self) -> int {
        spec_tdiv(self.genes.sense_range * self.genes.territory_size, 100000)
    }

    /// A predator's score for a prey candidate: more energetic, closer (in
    /// units of the sense range), stealthier and more intelligent is better.
    pub open spec fn spec_prey_score(self, o: Agent) -> int {
        let d = spec_isqrt(self.spec_dist_sq_to(o.x, o.y) as nat);
        let t1 = spec_tdiv(o.energy as int, 100);
        let t2 = 1000 - spec_tdiv(d as int * 1000, self.genes.sense_range as int);
        let t3 = 1000 + self.genes.stealth;
        let t4 = 1000 + self.genes.intelligence;
        spec_tdiv(spec_tdiv(spec_tdiv(t1 * t2, 1000) * t3, 1000) * t4, 1000)
    }

    /// An agent's score for a resource: its energy discounted by distance.
    pub open spec fn spec_resource_score(self, r: Resource) -> int {
        let d = spec_isqrt(spec_dist_sq(self.x, self.y, r.x, r.y) as nat);
        spec_tdiv(r.energy * 1000, d as int + 1000)
    }

    /// A predator's score for a rival it can beat: the rival's energy
    /// discounted by distance, scaled by own aggression and attack advantage.
    pub open spec fn spec_rival_score(self, o: Agent) -> int {
        let d = spec_isqrt(self.spec_dist_sq_to(o.x, o.y) as nat);
        let base = spec_tdiv(o.energy * 1000, d as int + 1000);
        let ar = spec_tdiv(self.genes.attack_power * 1000, o.genes.attack_power as int);
        spec_tdiv(spec_tdiv(base * self.genes.aggression, 1000) * ar, 1000)
    }
}

/// Computes a predator's score for a prey candidate.
fn prey_score(a: &Agent, o: &Agent) -> (r: i64)
    requires
        a.wf(),
        o.wf(),
    ensures
        r == a.spec_prey_score(*o),
        -10000000 <= r <= 10000000,
{
    let d = dist_milli(a.x, a.y, o.x, o.y);
    proof {
        lemma_tdiv_range(o.energy as int, 100, 200000);
    }
    let t1 = tdiv(o.energy, 100);
    let t2 = 1000 - tdiv(d * 1000, a.genes.sense_range);
    let t3 = 1000 + a.genes.stealth;
    let t4 = 1000 + a.genes.intelligence;
    proof {
        vstd::arithmetic::div_mod::lemma_div_pos_is_pos(d * 1000, a.genes.sense_range as int);
        vstd::arithmetic::div_mod::lemma_div_is_ordered(d * 1000, 3000000000int, 5000);
        vstd::arithmetic::div_mod::lemma_div_is_ordered_by_denominator(
            d * 1000,
            5000,
            a.genes.sense_range as int,
        );
        assert(-600000 <= t2 <= 1000);
        assert(-1200000000 <= t1 * t2 <= 1200000000int) by (nonlinear_arith)
            requires
                0 <= t1 <= 2000,
                -600000 <= t2 <= 1000,
        ;
    }
    let u1 = tdiv(t1 * t2, 1000);
    proof {
        lemma_tdiv_range(t1 * t2, 1000, 1200000000);
        assert(-2400000000int <= u1 * t3 <= 2400000000int) by (nonlinear_arith)
            requires
                -1200000 <= u1 <= 1200000,
                1000 <= t3 <= 2000,
        ;
    }
    let u2 = tdiv(u1 * t3, 1000);
    proof {
        lemma_tdiv_range(u1 * t3, 1000, 2400000000);
        assert(-9600000000int <= u2 * t4 <= 9600000000int) by (nonlinear_arith)
            requires
                -2400000 <= u2 <= 2400000,
                1000 <= t4 <= 4000,
            ;
        lemma_tdiv_range(u2 * t4, 1000, 9600000000);
    }
    tdiv(u2 * t4, 1000)
}

/// Computes an agent's score for a resource.
fn resource_score(a: &Agent, r: &Resource) -> (sc: i64)
    requires
        a.wf(),
        r.wf(),
    ensures
        sc == a.spec_resource_score(*r),
        0 <= sc <= 200000,
{
    let d = dist_milli(a.x, a.y, r.x, r.y);
    proof {
        vstd::arithmetic::div_mod::lemma_div_pos_is_pos(r.energy * 1000, d + 1000);
        vstd::arithmetic::div_mod::lemma_div_is_ordered_by_denominator(
            r.energy * 1000,
            1000,
            d + 1000,
        );
        vstd::arithmetic::div_mod::lemma_div_is_ordered(r.energy * 1000, 200000000int, 1000);
    }
    tdiv(r.energy * 1000, d + 1000)
}

/// Computes a predator's score for a beatable rival.
fn rival_score(a: &Agent, o: &Agent) -> (sc: i64)
    requires
        a.wf(),
        o.wf(),
    ensures
        sc == a.spec_rival_score(*o),
        0 <= sc <= 6000000,
{
    let d = dist_milli(a.x, a.y, o.x, o.y);
    proof {
        vstd::arithmetic::div_mod::lemma_div_pos_is_pos(o.energy * 1000, d + 1000);
        vstd::arithmetic::div_mod::lemma_div_is_ordered_by_denominator(
            o.energy * 1000,
            1000,
            d + 1000,
        );
        vstd::arithmetic::div_mod::lemma_div_is_ordered(o.energy * 1000, 200000000int, 1000);
    }
    let base = tdiv(o.energy * 1000, d + 1000);
    proof {
        vstd::arithmetic::div_mod::lemma_div_pos_is_pos(
            a.genes.attack_power * 1000,
            o.genes.attack_power as int,
        );
        vstd::arithmetic::div_mod::lemma_div_is_ordered_by_denominator(
            a.genes.attack_power * 1000,
            100,
            o.genes.attack_power as int,
        );
        vstd::arithmetic::div_mod::lemma_div_is_ordered(a.genes.attack_power * 1000, 3000000, 100);
    }
    let ar = tdiv(a.genes.attack_power * 1000, o.genes.attack_power);
    proof {
        assert(0 <= base * a.genes.aggression <= 200000000int) by (nonlinear_arith)
            requires
                0 <= base <= 200000,
                0 <= a.genes.aggression <= 1000,
        ;
    }
    let u1 = tdiv(base * a.genes.aggression, 1000);
    proof {
        lemma_tdiv_range(base * a.genes.aggression, 1000, 200000000);
        assert(0 <= u1 * ar <= 6000000000int) by (nonlinear_arith)
            requires
                0 <= u1 <= 200000,
                0 <= ar <= 30000,
        ;
        lemma_tdiv_range(u1 * ar, 1000, 6000000000);
    }
    tdiv(u1 * ar, 1000)
}

/// Truncating division by a positive constant keeps a symmetric bound.
proof fn lemma_tdiv_range(a: int, b: int, bound: int)
    requires
        b > 0,
        0 <= bound,
        -bound <= a <= bound,
    ensures
        a >= 0 ==> 0 <= spec_tdiv(a, b) <= bound / b,
        a < 0 ==> -(bound / b) <= spec_tdiv(a, b) <= 0,
        -(bound / b) <= spec_tdiv(a, b) <= bound / b,
{
    if a >= 0 {
        vstd::arithmetic::div_mod::lemma_div_pos_is_pos(a, b);
        vstd::arithmetic::div_mod::lemma_div_is_ordered(a, bound, b);
        vstd::arithmetic::div_mod::lemma_div_pos_is_pos(bound, b);
    } else {
        vstd::arithmetic::div_mod::lemma_div_pos_is_pos(-a, b);
        vstd::arithmetic::div_mod::lemma_div_is_ordered(-a, bound, b);
        vstd::arithmetic::div_mod::lemma_div_pos_is_pos(bound, b);
        assert(spec_tdiv(a, b) == -((-a) / b));
    }
}

impl Agent {
    /// Whether `o` lies within this predator's hunting range.
    pub open spec fn spec_within_hunt_range(self, o: Agent) -> bool {
        spec_isqrt(self.spec_dist_sq_to(o.x, o.y) as nat) <= self.spec_hunt_range()
    }

    /// Whether `(x, y)` lies within this agent's sense range.
    pub open spec fn spec_within_sense(self, x: i64, y: i64) -> bool {
        spec_isqrt(self.spec_dist_sq_to(x, y) as nat) <= self.genes.sense_range
    }
}

/// Whether `o` lies within `a`'s hunting range.
fn within_hunt_range(a: &Agent, o: &Agent) -> (r: bool)
    requires
        a.wf(),
        o.wf(),
    ensures
        r == a.spec_within_hunt_range(*o),
{
    let d = dist_milli(a.x, a.y, o.x, o.y);
    proof {
        assert(0 <= a.genes.sense_range * a.genes.territory_size <= 45000000000int)
            by (nonlinear_arith)
            requires
                0 <= a.genes.sense_range <= 150000,
                0 <= a.genes.territory_size <= 300000,
        ;
    }
    let range = tdiv(a.genes.sense_range * a.genes.territory_size, 100000);
    d <= range
}

/// The best prey candidate from index `i` on, given a best-so-far.
pub open spec fn spec_prey_scan(
    a: Agent,
    agents: Seq<Agent>,
    cands: Seq<usize>,
    i: int,
    best: TargetChoice,
) -> TargetChoice
    decreases cands.len() - i,
{
    if i < 0 || i >= cands.len() {
        best
    } else {
        let j = cands[i] as int;
        let nb = if 0 <= j < agents.len() {
            let o = agents[j];
            if o.id != a.id && !o.spec_is_predator() && a.spec_within_hunt_range(o) {
                let sc = a.spec_prey_score(o);
                if sc > best.score {
                    TargetChoice { has: true, tx: o.x, ty: o.y, score: sc as i64 }
                } else {
                    best
                }
            } else {
                best
            }
        } else {
            best
        };
        spec_prey_scan(a, agents, cands, i + 1, nb)
    }
}

/// Scans the candidates for the best prey, starting from `best0`.
fn prey_scan(a: &Agent, agents: &Vec<Agent>, cands: &Vec<usize>, best0: TargetChoice) -> (r:
    TargetChoice)
    requires
        a.wf(),
        forall|k: int| 0 <= k < agents@.len() ==> (#[trigger] agents@[k]).wf(),
        forall|k: int| 0 <= k < cands@.len() ==> (#[trigger] cands@[k]) < agents@.len(),
        best0.has ==> 0 <= best0.tx <= POS_MAX && 0 <= best0.ty <= POS_MAX,
    ensures
        r == spec_prey_scan(*a, agents@, cands@, 0, best0),
        r.has ==> 0 <= r.tx <= POS_MAX && 0 <= r.ty <= POS_MAX,
{
    let mut best = best0;
    let mut i: usize = 0;
    while i < cands.len()
        invariant
            i <= cands@.len(),
            a.wf(),
            forall|k: int| 0 <= k < agents@.len() ==> (#[trigger] agents@[k]).wf(),
            forall|k: int| 0 <= k < cands@.len() ==> (#[trigger] cands@[k]) < agents@.len(),
            spec_prey_scan(*a, agents@, cands@, 0, best0) == spec_prey_scan(
                *a,
                agents@,
                cands@,
                i as int,
                best,
            ),
            best.has ==> 0 <= best.tx <= POS_MAX && 0 <= best.ty <= POS_MAX,
        decreases cands@.len() - i,
    {
        let j = cands[i];
        let o = agents[j];
        let nb = if o.id != a.id && !o.is_predator() && within_hunt_range(a, &o) {
            let sc = prey_score(a, &o);
            if sc > best.score {
                TargetChoice { has: true, tx: o.x, ty: o.y, score: sc }
            } else {
                best
            }
        } else {
            best
        };
        proof {
            assert(spec_prey_scan(*a, agents@, cands@, i as int, best) == spec_prey_scan(
                *a,
                agents@,
                cands@,
                i as int + 1,
                nb,
            ));
        }
        best = nb;
        i = i + 1;
    }
    best
}

/// The first predator within sense range from index `i` on, as a threat
/// position.
pub open spec fn spec_threat_scan(a: Agent, agents: Seq<Agent>, cands: Seq<usize>, i: int) -> Option<
    (i64, i64),
>
    decreases cands.len() - i,
{
    if i < 0 || i >= cands.len() {
        None
    } else {
        let j = cands[i] as int;
        if 0 <= j < agents.len() && agents[j].id != a.id && agents[j].spec_is_predator()
            && a.spec_within_sense(agents[j].x, agents[j].y) {
            Some((agents[j].x, agents[j].y))
        } else {
            spec_threat_scan(a, agents, cands, i + 1)
        }
    }
}

/// Scans the candidates for the first predator within sense range.
fn threat_scan(a: &Agent, agents: &Vec<Agent>, cands: &Vec<usize>) -> (r: Option<(i64, i64)>)
    requires
        a.wf(),
        forall|k: int| 0 <= k < agents@.len() ==> (#[trigger] agents@[k]).wf(),
        forall|k: int| 0 <= k < cands@.len() ==> (#[trigger] cands@[k]) < agents@.len(),
    ensures
        r == spec_threat_scan(*a, agents@, cands@, 0),
        r matches Some(p) ==> 0 <= p.0 <= POS_MAX && 0 <= p.1 <= POS_MAX,
{
    let mut i: usize = 0;
    while i < cands.len()
        invariant
            i <= cands@.len(),
            a.wf(),
            forall|k: int| 0 <= k < agents@.len() ==> (#[trigger] agents@[k]).wf(),
            forall|k: int| 0 <= k < cands@.len() ==> (#[trigger] cands@[k]) < agents@.len(),
            spec_threat_scan(*a, agents@, cands@, 0) == spec_threat_scan(
                *a,
                agents@,
                cands@,
                i as int,
            ),
        decreases cands@.len() - i,
    {
        let j = cands[i];
        let o = agents[j];
        if o.id != a.id && o.is_predator() {
            let d = dist_milli(a.x, a.y, o.x, o.y);
            if d <= a.genes.sense_range {
                return Some((o.x, o.y));
            }
        }
        i = i + 1;
    }
    None
}

/// The best available resource within sense range from index `i` on, given a
/// best-so-far.
pub open spec fn spec_resource_scan(
    a: Agent,
    resources: Seq<Resource>,
    i: int,
    best: TargetChoice,
) -> TargetChoice
    decreases resources.len() - i,
{
    if i < 0 || i >= resources.len() {
        best
    } else {
        let r = resources[i];
        let nb = if r.spec_is_available() && a.spec_within_sense(r.x, r.y) {
            let sc = a.spec_resource_score(r);
            if sc > best.score {
                TargetChoice { has: true, tx: r.x, ty: r.y, score: sc as i64 }
            } else {
                best
            }
        } else {
            best
        };
        spec_resource_scan(a, resources, i + 1, nb)
    }
}

/// Scans all resources for the best available one within sense range.
pub(crate) fn resource_scan(a: &Agent, resources: &Vec<Resource>, best0: TargetChoice) -> (r:
    TargetChoice)
    requires
        a.wf(),
        forall|k: int| 0 <= k < resources@.len() ==> (#[trigger] resources@[k]).wf(),
        best0.has ==> 0 <= best0.tx <= POS_MAX && 0 <= best0.ty <= POS_MAX,
    ensures
        r == spec_resource_scan(*a, resources@, 0, best0),
        r.has ==> 0 <= r.tx <= POS_MAX && 0 <= r.ty <= POS_MAX,
{
    let mut best = best0;
    let mut i: usize = 0;
    while i < resources.len()
        invariant
            i <= resources@.len(),
            a.wf(),
            forall|k: int| 0 <= k < resources@.len() ==> (#[trigger] resources@[k]).wf(),
            spec_resource_scan(*a, resources@, 0, best0) == spec_resource_scan(
                *a,
                resources@,
                i as int,
                best,
            ),
            best.has ==> 0 <= best.tx <= POS_MAX && 0 <= best.ty <= POS_MAX,
        decreases resources@.len() - i,
    {
        let r = resources[i];
        let nb = if r.is_available() && {
            let d = dist_milli(a.x, a.y, r.x, r.y);
            d <= a.genes.sense_range
        } {
            let sc = resource_score(a, &r);
            if sc > best.score {
                TargetChoice { has: true, tx: r.x, ty: r.y, score: sc }
            } else {
                best
            }
        } else {
            best
        };
        proof {
            assert(spec_resource_scan(*a, resources@, i as int, best) == spec_resource_scan(
                *a,
                resources@,
                i as int + 1,
                nb,
            ));
        }
        best = nb;
        i = i + 1;
    }
    best
}

/// Whether the rival `o` is one `a` should fight: a net size, energy and
/// attack advantage together with sufficient aggression.
pub open spec fn spec_fight_advantage(a: Agent, o: Agent) -> bool {
    o.genes.size * 10 < a.genes.size * 8 && o.energy * 10 > a.energy * 7 && a.genes.attack_power
        * 10 > o.genes.attack_power * 12 && a.genes.aggression > 600
}

/// Whether the rival `o` is clearly stronger, so `a` should flee it.
pub open spec fn spec_flee_rival(a: Agent, o: Agent) -> bool {
    o.genes.size * 10 > a.genes.size * 12 && a.genes.attack_power * 10 < o.genes.attack_power * 8
}

/// The outcome of a predator's rival scan from index `i` on: flee the first
/// clearly stronger rival, otherwise keep the best beatable one.
pub open spec fn spec_rival_scan(
    a: Agent,
    agents: Seq<Agent>,
    cands: Seq<usize>,
    i: int,
    best: TargetChoice,
) -> RivalOutcome
    decreases cands.len() - i,
{
    if i < 0 || i >= cands.len() {
        RivalOutcome::Keep(best)
    } else {
        let j = cands[i] as int;
        if 0 <= j < agents.len() {
            let o = agents[j];
            if o.id != a.id && o.spec_is_predator() && spec_isqrt(
                a.spec_dist_sq_to(o.x, o.y) as nat,
            ) <= spec_tdiv(a.genes.sense_range as int, 2) {
                if spec_fight_advantage(a, o) {
                    let sc = a.spec_rival_score(o);
                    let nb = if sc > best.score {
                        TargetChoice { has: true, tx: o.x, ty: o.y, score: sc as i64 }
                    } else {
                        best
                    };
                    spec_rival_scan(a, agents, cands, i + 1, nb)
                } else if spec_flee_rival(a, o) {
                    RivalOutcome::Flee {
                        tx: (a.x - spec_tdiv((o.x - a.x) * 3, 2)) as i64,
                        ty: (a.y - spec_tdiv((o.y - a.y) * 3, 2)) as i64,
                    }
                } else {
                    spec_rival_scan(a, agents, cands, i + 1, best)
                }
            } else {
                spec_rival_scan(a, agents, cands, i + 1, best)
            }
        } else {
            spec_rival_scan(a, agents, cands, i + 1, best)
        }
    }
}

/// Scans the candidates for rival predators: flees the first clearly stronger
/// one, otherwise keeps the best beatable one.
fn rival_scan(a: &Agent, agents: &Vec<Agent>, cands: &Vec<usize>, best0: TargetChoice) -> (r:
    RivalOutcome)
    requires
        a.wf(),
        forall|k: int| 0 <= k < agents@.len() ==> (#[trigger] agents@[k]).wf(),
        forall|k: int| 0 <= k < cands@.len() ==> (#[trigger] cands@[k]) < agents@.len(),
        best0.has ==> 0 <= best0.tx <= POS_MAX && 0 <= best0.ty <= POS_MAX,
    ensures
        r == spec_rival_scan(*a, agents@, cands@, 0, best0),
        r matches RivalOutcome::Keep(b) ==> (b.has ==> 0 <= b.tx <= POS_MAX && 0 <= b.ty
            <= POS_MAX),
        r matches RivalOutcome::Flee { tx, ty } ==> -TARGET_BOUND <= tx <= TARGET_BOUND
            && -TARGET_BOUND <= ty <= TARGET_BOUND,
{
    let mut best = best0;
    let mut i: usize = 0;
    while i < cands.len()
        invariant
            i <= cands@.len(),
            a.wf(),
            forall|k: int| 0 <= k < agents@.len() ==> (#[trigger] agents@[k]).wf(),
            forall|k: int| 0 <= k < cands@.len() ==> (#[trigger] cands@[k]) < agents@.len(),
            spec_rival_scan(*a, agents@, cands@, 0, best0) == spec_rival_scan(
                *a,
                agents@,
                cands@,
                i as int,
                best,
            ),
            best.has ==> 0 <= best.tx <= POS_MAX && 0 <= best.ty <= POS_MAX,
        decreases cands@.len() - i,
    {
        let j = cands[i];
        let o = agents[j];
        let half_sense = tdiv(a.genes.sense_range, 2);
        if o.id != a.id && o.is_predator() && dist_milli(a.x, a.y, o.x, o.y) <= half_sense {
            let fight = o.genes.size * 10 < a.genes.size * 8 && o.energy * 10 > a.energy * 7
                && a.genes.attack_power * 10 > o.genes.attack_power * 12 && a.genes.aggression
                > 600;
            if fight {
                let sc = rival_score(a, &o);
                let nb = if sc > best.score {
                    TargetChoice { has: true, tx: o.x, ty: o.y, score: sc }
                } else {
                    best
                };
                proof {
                    assert(spec_rival_scan(*a, agents@, cands@, i as int, best) == spec_rival_scan(
                        *a,
                        agents@,
                        cands@,
                        i as int + 1,
                        nb,
                    ));
                }
                best = nb;
            } else if o.genes.size * 10 > a.genes.size * 12 && a.genes.attack_power * 10
                < o.genes.attack_power * 8 {
                proof {
                    lemma_tdiv_range((o.x - a.x) * 3, 2, 6000000);
                    lemma_tdiv_range((o.y - a.y) * 3, 2, 6000000);
                }
                let tx = a.x - tdiv((o.x - a.x) * 3, 2);
                let ty = a.y - tdiv((o.y - a.y) * 3, 2);
                return RivalOutcome::Flee { tx, ty };
            } else {
                proof {
                    assert(spec_rival_scan(*a, agents@, cands@, i as int, best) == spec_rival_scan(
                        *a,
                        agents@,
                        cands@,
                        i as int + 1,
                        best,
                    ));
                }
            }
        } else {
            proof {
                assert(spec_rival_scan(*a, agents@, cands@, i as int, best) == spec_rival_scan(
                    *a,
                    agents@,
                    cands@,
                    i as int + 1,
                    best,
                ));
            }
        }
        i = i + 1;
    }
    RivalOutcome::Keep(best)
}

/// The Euclidean distance (rounded down) to a movement target, which may lie
/// outside the world.
fn dist_to_target(ax: i64, ay: i64, tx: i64, ty: i64) -> (r: i64)
    requires
        -16000000 <= ax <= 16000000,
        -16000000 <= ay <= 16000000,
        -16000000 <= tx <= 16000000,
        -16000000 <= ty <= 16000000,
    ensures
        r == spec_isqrt(spec_dist_sq(ax, ay, tx, ty) as nat),
        r * r <= spec_dist_sq(ax, ay, tx, ty) < (r + 1) * (r + 1),
        0 <= r <= 50000000,
{
    let dx = ax - tx;
    let dy = ay - ty;
    proof {
        assert(0 <= dx * dx <= 32000000int * 32000000int) by (nonlinear_arith)
            requires
                -32000000 <= dx <= 32000000,
        ;
        assert(0 <= dy * dy <= 32000000int * 32000000int) by (nonlinear_arith)
            requires
                -32000000 <= dy <= 32000000,
        ;
    }
    let dsq: u64 = ((dx * dx) as u64) + ((dy * dy) as u64);
    let r = crate::num::isqrt(dsq);
    proof {
        assert(r <= 50000000) by (nonlinear_arith)
            requires
                r * r <= 2048000000000000int,
        ;
    }
    r as i64
}

impl Agent {
    /// The seeking decision concluded: hunt the best-scoring target, or take
    /// a random heading when nothing viable was sensed.
    pub open spec fn spec_finish_seek(self, b: TargetChoice, s: u64) -> (Agent, u64) {
        if b.has {
            (
                Agent {
                    target_x: Some(b.tx),
                    target_y: Some(b.ty),
                    state: AgentState::Hunting,
                    ..self
                },
                s,
            )
        } else {
            let h = spec_heading(s, self.genes.speed);
            (Agent { dx: h.0, dy: h.1, ..self }, h.2)
        }
    }

    /// The seeking decision: prey flee the first predator in sense range;
    /// predators weigh prey, resources and beatable rivals, and flee a
    /// clearly stronger rival; everyone else chases the best resource.
    pub open spec fn spec_seek(
        self,
        agents: Seq<Agent>,
        cands: Seq<usize>,
        resources: Seq<Resource>,
        s: u64,
    ) -> (Agent, u64) {
        if !self.spec_is_predator() {
            match spec_threat_scan(self, agents, cands, 0) {
                Some(p) => (
                    Agent {
                        state: AgentState::Fleeing,
                        target_x: Some((self.x - (p.0 - self.x) * 2) as i64),
                        target_y: Some((self.y - (p.1 - self.y) * 2) as i64),
                        ..self
                    },
                    s,
                ),
                None => {
                    let b = spec_resource_scan(self, resources, 0, spec_no_target());
                    self.spec_finish_seek(b, s)
                },
            }
        } else {
            let b1 = spec_prey_scan(self, agents, cands, 0, spec_no_target());
            let b2 = spec_resource_scan(self, resources, 0, b1);
            match spec_rival_scan(self, agents, cands, 0, b2) {
                RivalOutcome::Flee { tx, ty } => (
                    Agent {
                        state: AgentState::Fleeing,
                        target_x: Some(tx),
                        target_y: Some(ty),
                        ..self
                    },
                    s,
                ),
                RivalOutcome::Keep(b3) => self.spec_finish_seek(b3, s),
            }
        }
    }

    /// Steering toward the current target: switch to feeding within the
    /// interaction radius, move at a hunting speed otherwise, fall back to
    /// seeking when the target is lost.
    pub open spec fn spec_hunt(self) -> Agent {
        match (self.target_x, self.target_y) {
            (Some(tx), Some(ty)) => {
                let d = spec_isqrt(spec_dist_sq(self.x, self.y, tx, ty) as nat);
                if d < INTERACT_RADIUS {
                    Agent { state: AgentState::Feeding, ..self }
                } else {
                    let hs = if self.spec_is_predator() {
                        spec_tdiv(self.genes.speed * self.genes.hunting_speed, 1000) * 2
                    } else {
                        (self.genes.speed * 2) as int
                    };
                    Agent {
                        dx: spec_tdiv((tx - self.x) * hs, d as int) as i64,
                        dy: spec_tdiv((ty - self.y) * hs, d as int) as i64,
                        ..self
                    }
                }
            },
            _ => Agent { state: AgentState::Seeking, ..self },
        }
    }

    /// The first resource within the interaction radius, by index.
    pub open spec fn spec_feed_scan(self, resources: Seq<Resource>, i: int) -> Option<usize>
        decreases resources.len() - i,
    {
        if i < 0 || i >= resources.len() {
            None
        } else if spec_isqrt(
            spec_dist_sq(self.x, self.y, resources[i].x, resources[i].y) as nat,
        ) < INTERACT_RADIUS {
            Some(i as usize)
        } else {
            self.spec_feed_scan(resources, i + 1)
        }
    }

    /// Feeding: consume the first in-range resource, convert its energy
    /// (scaled by efficiency) into own energy capped at the maximum, and
    /// opportunistically switch to reproducing; fall back to seeking when no
    /// resource is in range.
    pub open spec fn spec_feed(self, resources: Seq<Resource>) -> (Agent, Option<usize>) {
        match (self.target_x, self.target_y) {
            (Some(tx), Some(ty)) => {
                match self.spec_feed_scan(resources, 0) {
                    Some(i) => {
                        let gained = spec_tdiv(FEED_ENERGY * self.genes.energy_efficiency, 1000);
                        let e0 = self.energy + gained;
                        let e = if e0 > self.max_energy {
                            self.max_energy as int
                        } else {
                            e0
                        };
                        let st = if e > 15000 && self.age > 2000 {
                            AgentState::Reproducing
                        } else {
                            AgentState::Seeking
                        };
                        (
                            Agent {
                                energy: e as i64,
                                state: st,
                                target_x: None,
                                target_y: None,
                                ..self
                            },
                            Some(i),
                        )
                    },
                    None => (
                        Agent { state: AgentState::Seeking, target_x: None, target_y: None, ..self },
                        None,
                    ),
                }
            },
            _ => (
                Agent { state: AgentState::Seeking, target_x: None, target_y: None, ..self },
                None,
            ),
        }
    }

    /// The first other agent within the interaction radius.
    pub open spec fn spec_fight_scan(self, agents: Seq<Agent>, i: int) -> Option<Agent>
        decreases agents.len() - i,
    {
        if i < 0 || i >= agents.len() {
            None
        } else if agents[i].id != self.id && spec_isqrt(
            self.spec_dist_sq_to(agents[i].x, agents[i].y) as nat,
        ) < INTERACT_RADIUS {
            Some(agents[i])
        } else {
            self.spec_fight_scan(agents, i + 1)
        }
    }

    /// One combatant's effective combat power against the other's defense.
    pub open spec fn spec_combat_power(self, other: Agent) -> int {
        let ap_sz = spec_tdiv(self.genes.attack_power * self.genes.size, 1000);
        let atk = spec_tdiv(spec_tdiv(ap_sz * self.energy, 1000), 100);
        let their_def = spec_tdiv(other.genes.defense * other.genes.size, 1000);
        let eff = spec_tdiv(atk * 1000, their_def + 1000);
        let bonus = 1000 + spec_tdiv(self.genes.intelligence * 500, 1000) + spec_tdiv(
            self.genes.stamina * 300,
            1000,
        );
        spec_tdiv(eff * bonus, 1000)
    }

    /// Combat resolved deterministically from both combatants' stats: the
    /// winner absorbs a fraction of the loser's energy (more for a predator
    /// taking prey), capped at its maximum, and counts a kill; the loser
    /// takes proportional damage and flees, or dies of it.
    pub open spec fn spec_fight_resolve(self, o: Agent) -> Agent {
        let my_total = self.spec_combat_power(o);
        let their_total = o.spec_combat_power(self);
        if my_total > their_total {
            let gain = if self.spec_is_predator() && !o.spec_is_predator() {
                spec_tdiv(o.energy * 1200, 1000)
            } else {
                spec_tdiv(o.energy * 600, 1000)
            };
            let bonus = if self.spec_is_predator() {
                spec_tdiv(self.genes.attack_power * 20000, 1000)
            } else {
                0
            };
            let e0 = self.energy + gain + bonus;
            let e = if e0 > self.max_energy {
                self.max_energy as int
            } else {
                e0
            };
            let k = if self.kills == u32::MAX {
                self.kills
            } else {
                (self.kills + 1) as u32
            };
            Agent {
                energy: e as i64,
                kills: k,
                state: AgentState::Seeking,
                target_x: None,
                target_y: None,
                ..self
            }
        } else {
            let dmg = spec_tdiv(their_total * 100, 1000);
            let e0 = self.energy - dmg;
            if e0 <= 0 {
                Agent {
                    energy: 0,
                    is_dying: true,
                    death_reason: Some(DeathReason::Combat),
                    death_fade: 0,
                    state: AgentState::Fleeing,
                    target_x: None,
                    target_y: None,
                    ..self
                }
            } else {
                Agent {
                    energy: e0 as i64,
                    state: AgentState::Fleeing,
                    target_x: None,
                    target_y: None,
                    ..self
                }
            }
        }
    }

    /// Fighting: resolve combat against the first other agent in range, or
    /// fall back to seeking.
    pub open spec fn spec_fight(self, agents: Seq<Agent>) -> Agent {
        match (self.target_x, self.target_y) {
            (Some(tx), Some(ty)) => {
                match self.spec_fight_scan(agents, 0) {
                    Some(o) => self.spec_fight_resolve(o),
                    None => Agent {
                        state: AgentState::Seeking,
                        target_x: None,
                        target_y: None,
                        ..self
                    },
                }
            },
            _ => Agent { state: AgentState::Seeking, target_x: None, target_y: None, ..self },
        }
    }

    /// Fleeing: keep moving toward the flee point until outside sense range
    /// of it, then revert to seeking; a lost flee point also reverts to
    /// seeking, so no agent can stay trapped in flight.
    pub open spec fn spec_flee(self) -> Agent {
        match (self.target_x, self.target_y) {
            (Some(tx), Some(ty)) => {
                let d = spec_isqrt(spec_dist_sq(self.x, self.y, tx, ty) as nat);
                if d > self.genes.sense_range {
                    Agent { state: AgentState::Seeking, target_x: None, target_y: None, ..self }
                } else if d == 0 {
                    self
                } else {
                    let sp = (self.genes.speed * 3) as int;
                    Agent {
                        dx: spec_tdiv((tx - self.x) * sp, d as int) as i64,
                        dy: spec_tdiv((ty - self.y) * sp, d as int) as i64,
                        ..self
                    }
                }
            },
            _ => Agent { state: AgentState::Seeking, ..self },
        }
    }

    /// Reproducing: pay the fixed energy fraction as the cost of the act,
    /// reset the cooldown, and go back to seeking.
    pub open spec fn spec_reproduce_act(self) -> Agent {
        Agent {
            energy: spec_tdiv(self.energy * 700, 1000) as i64,
            last_reproduction: self.age,
            state: AgentState::Seeking,
            ..self
        }
    }

    /// Movement concluded from position `(x2, y2)` and velocity
    /// `(ndx, ndy)`: renormalise the velocity to the base speed trait.
    pub open spec fn spec_move_finish(self, x2: i64, y2: i64, ndx: i64, ndy: i64, s: u64) -> (
        Agent,
        u64,
    ) {
        let dsq = ndx * ndx + ndy * ndy;
        let len = spec_isqrt(dsq as nat);
        if len > 0 {
            (
                Agent {
                    x: x2,
                    y: y2,
                    dx: spec_tdiv(ndx * self.genes.speed, len as int) as i64,
                    dy: spec_tdiv(ndy * self.genes.speed, len as int) as i64,
                    ..self
                },
                s,
            )
        } else {
            (Agent { x: x2, y: y2, dx: ndx, dy: ndy, ..self }, s)
        }
    }

    /// Movement: advance by the velocity with toroidal wraparound at the
    /// bounds, occasionally perturb the velocity a little, and renormalise it
    /// to the base speed trait.
    pub open spec fn spec_move(self, dt: i64, w: i64, h: i64, s: u64) -> (Agent, u64) {
        let x1 = self.x + spec_tdiv(self.dx * dt, 1000);
        let x2: int = if x1 < 0 {
            w as int
        } else if x1 > w {
            0
        } else {
            x1
        };
        let y1 = self.y + spec_tdiv(self.dy * dt, 1000);
        let y2: int = if y1 < 0 {
            h as int
        } else if y1 > h {
            0
        } else {
            y1
        };
        let c = spec_below(s, 1000) < 10;
        let s1 = spec_next_state(s);
        if c {
            let vx = spec_range(s1, -100i64, 100);
            let s2 = spec_next_state(s1);
            let vy = spec_range(s2, -100i64, 100);
            let s3 = spec_next_state(s2);
            self.spec_move_finish(
                x2 as i64,
                y2 as i64,
                (self.dx + vx) as i64,
                (self.dy + vy) as i64,
                s3,
            )
        } else {
            self.spec_move_finish(x2 as i64, y2 as i64, self.dx, self.dy, s1)
        }
    }
}

impl Agent {
    /// Finds the first resource within the interaction radius.
    fn feed_scan(&self, resources: &Vec<Resource>) -> (r: Option<usize>)
        requires
            self.wf(),
            forall|k: int| 0 <= k < resources@.len() ==> (#[trigger] resources@[k]).wf(),
        ensures
            r == self.spec_feed_scan(resources@, 0),
            r matches Some(i) ==> i < resources@.len(),
    {
        let mut i: usize = 0;
        while i < resources.len()
            invariant
                i <= resources@.len(),
                self.wf(),
                forall|k: int| 0 <= k < resources@.len() ==> (#[trigger] resources@[k]).wf(),
                self.spec_feed_scan(resources@, 0) == self.spec_feed_scan(resources@, i as int),
            decreases resources@.len() - i,
        {
            let rr = resources[i];
            let d = dist_milli(self.x, self.y, rr.x, rr.y);
            if d < INTERACT_RADIUS {
                return Some(i);
            }
            i = i + 1;
        }
        None
    }

    /// Finds the first other agent within the interaction radius.
    fn fight_scan(&self, agents: &Vec<Agent>) -> (r: Option<usize>)
        requires
            self.wf(),
            forall|k: int| 0 <= k < agents@.len() ==> (#[trigger] agents@[k]).wf(),
        ensures
            match r {
                Some(i) => i < agents@.len() && self.spec_fight_scan(agents@, 0) == Some(
                    agents@[i as int],
                ),
                None => self.spec_fight_scan(agents@, 0).is_none(),
            },
    {
        let mut i: usize = 0;
        while i < agents.len()
            invariant
                i <= agents@.len(),
                self.wf(),
                forall|k: int| 0 <= k < agents@.len() ==> (#[trigger] agents@[k]).wf(),
                self.spec_fight_scan(agents@, 0) == self.spec_fight_scan(agents@, i as int),
            decreases agents@.len() - i,
        {
            let o = agents[i];
            if o.id != self.id {
                let d = dist_milli(self.x, self.y, o.x, o.y);
                if d < INTERACT_RADIUS {
                    return Some(i);
                }
            }
            i = i + 1;
        }
        None
    }

    /// Concludes the seeking decision from the best-scoring choice.
    fn finish_seek(&self, b: TargetChoice, rng: &mut SimRng) -> (r: Agent)
        requires
            self.wf(),
            b.has ==> 0 <= b.tx <= POS_MAX && 0 <= b.ty <= POS_MAX,
        ensures
            r == self.spec_finish_seek(b, old(rng).state).0,
            final(rng).state == self.spec_finish_seek(b, old(rng).state).1,
            r.wf(),
    {
        if b.has {
            Agent { target_x: Some(b.tx), target_y: Some(b.ty), state: AgentState::Hunting, ..*self
            }
        } else {
            let h = random_heading(self.genes.speed, rng);
            Agent { dx: h.0, dy: h.1, ..*self }
        }
    }

    /// The seeking decision: scan the sensed neighbourhood and the resources,
    /// pick the best target or flee the first serious threat.
    pub fn seek_targets(
        &self,
        agents: &Vec<Agent>,
        cands: &Vec<usize>,
        resources: &Vec<Resource>,
        rng: &mut SimRng,
    ) -> (r: Agent)
        requires
            self.wf(),
            forall|k: int| 0 <= k < agents@.len() ==> (#[trigger] agents@[k]).wf(),
            forall|k: int| 0 <= k < cands@.len() ==> (#[trigger] cands@[k]) < agents@.len(),
            forall|k: int| 0 <= k < resources@.len() ==> (#[trigger] resources@[k]).wf(),
        ensures
            r == self.spec_seek(agents@, cands@, resources@, old(rng).state).0,
            final(rng).state == self.spec_seek(agents@, cands@, resources@, old(rng).state).1,
            r.wf(),
    {
        if !self.is_predator() {
            match threat_scan(self, agents, cands) {
                Some((px, py)) => {
                    let tx = self.x - (px - self.x) * 2;
                    let ty = self.y - (py - self.y) * 2;
                    Agent {
                        state: AgentState::Fleeing,
                        target_x: Some(tx),
                        target_y: Some(ty),
                        ..*self
                    }
                },
                None => {
                    let b = resource_scan(self, resources, no_target());
                    self.finish_seek(b, rng)
                },
            }
        } else {
            let b1 = prey_scan(self, agents, cands, no_target());
            let b2 = resource_scan(self, resources, b1);
            match rival_scan(self, agents, cands, b2) {
                RivalOutcome::Flee { tx, ty } => Agent {
                    state: AgentState::Fleeing,
                    target_x: Some(tx),
                    target_y: Some(ty),
                    ..*self
                },
                RivalOutcome::Keep(b3) => self.finish_seek(b3, rng),
            }
        }
    }

    /// Steers toward the current target, or switches to feeding or back to
    /// seeking.
    pub fn hunt_target(&self) -> (r: Agent)
        requires
            self.wf(),
        ensures
            r == self.spec_hunt(),
            r.wf_moving(),
    {
        match (self.target_x, self.target_y) {
            (Some(tx), Some(ty)) => {
                let d = dist_to_target(self.x, self.y, tx, ty);
                if d < INTERACT_RADIUS {
                    Agent { state: AgentState::Feeding, ..*self }
                } else {
                    proof {
                        assert(0 <= self.genes.speed * self.genes.hunting_speed <= 9000000)
                            by (nonlinear_arith)
                            requires
                                0 <= self.genes.speed <= 3000,
                                0 <= self.genes.hunting_speed <= 3000,
                        ;
                        lemma_tdiv_range(self.genes.speed * self.genes.hunting_speed, 1000, 9000000);
                    }
                    let hs = if self.is_predator() {
                        tdiv(self.genes.speed * self.genes.hunting_speed, 1000) * 2
                    } else {
                        self.genes.speed * 2
                    };
                    proof {
                        assert(spec_dist_sq(self.x, self.y, tx, ty) == (self.x - tx) * (self.x - tx)
                            + (self.y - ty) * (self.y - ty));
                        assert((tx - self.x) * (tx - self.x) <= (self.x - tx) * (self.x - tx) + (
                        self.y - ty) * (self.y - ty)) by (nonlinear_arith);
                        assert((ty - self.y) * (ty - self.y) <= (self.x - tx) * (self.x - tx) + (
                        self.y - ty) * (self.y - ty)) by (nonlinear_arith);
                        lemma_component_le_isqrt(
                            tx - self.x,
                            spec_dist_sq(self.x, self.y, tx, ty) as nat,
                        );
                        lemma_component_le_isqrt(
                            ty - self.y,
                            spec_dist_sq(self.x, self.y, tx, ty) as nat,
                        );
                        lemma_scaled_div_bound(tx - self.x, d as int, hs as int);
                        lemma_scaled_div_bound(ty - self.y, d as int, hs as int);
                        assert(-240000000000int <= (tx - self.x) * hs <= 240000000000int)
                            by (nonlinear_arith)
                            requires
                                -12000000 <= tx - self.x <= 12000000,
                                0 <= hs <= 20000,
                        ;
                        assert(-240000000000int <= (ty - self.y) * hs <= 240000000000int)
                            by (nonlinear_arith)
                            requires
                                -12000000 <= ty - self.y <= 12000000,
                                0 <= hs <= 20000,
                        ;
                    }
                    let ndx = tdiv((tx - self.x) * hs, d);
                    let ndy = tdiv((ty - self.y) * hs, d);
                    Agent { dx: ndx, dy: ndy, ..*self }
                }
            },
            _ => Agent { state: AgentState::Seeking, ..*self },
        }
    }

    /// Feeds on the first resource within the interaction radius; the
    /// returned index is the resource consumed. The agent's energy never
    /// exceeds its maximum, whatever was consumed.
    pub fn feed_on_resource(&self, resources: &Vec<Resource>) -> (r: (Agent, Option<usize>))
        requires
            self.wf(),
            forall|k: int| 0 <= k < resources@.len() ==> (#[trigger] resources@[k]).wf(),
        ensures
            r.0 == self.spec_feed(resources@).0,
            r.1 == self.spec_feed(resources@).1,
            r.0.wf(),
            r.0.energy <= r.0.max_energy,
            r.1 matches Some(i) ==> i < resources@.len(),
    {
        let has_target = match (self.target_x, self.target_y) {
            (Some(_), Some(_)) => true,
            _ => false,
        };
        if has_target {
            let found = self.feed_scan(resources);
            match found {
                Some(i) => {
                    proof {
                        lemma_tdiv_range(
                            FEED_ENERGY * self.genes.energy_efficiency,
                            1000,
                            125000000,
                        );
                    }
                    let gained = tdiv(FEED_ENERGY * self.genes.energy_efficiency, 1000);
                    let e0 = self.energy + gained;
                    let e = if e0 > self.max_energy {
                        self.max_energy
                    } else {
                        e0
                    };
                    let st = if e > 15000 && self.age > 2000 {
                        AgentState::Reproducing
                    } else {
                        AgentState::Seeking
                    };
                    (
                        Agent { energy: e, state: st, target_x: None, target_y: None, ..*self },
                        Some(i),
                    )
                },
                None => (
                    Agent {
                        state: AgentState::Seeking,
                        target_x: None,
                        target_y: None,
                        ..*self
                    },
                    None,
                ),
            }
        } else {
            (
                Agent { state: AgentState::Seeking, target_x: None, target_y: None, ..*self },
                None,
            )
        }
    }

    /// Resolves a fight against the first other agent within the interaction
    /// radius.
    pub fn fight_agent(&self, agents: &Vec<Agent>) -> (r: Agent)
        requires
            self.wf(),
            forall|k: int| 0 <= k < agents@.len() ==> (#[trigger] agents@[k]).wf(),
        ensures
            r == self.spec_fight(agents@),
            r.wf(),
    {
        let has_target = match (self.target_x, self.target_y) {
            (Some(_), Some(_)) => true,
            _ => false,
        };
        if has_target {
            let found = self.fight_scan(agents);
            match found {
                Some(i) => {
                    let o = agents[i];
                    self.fight_resolve(&o)
                },
                None => Agent {
                    state: AgentState::Seeking,
                    target_x: None,
                    target_y: None,
                    ..*self
                },
            }
        } else {
            Agent { state: AgentState::Seeking, target_x: None, target_y: None, ..*self }
        }
    }

    /// Resolves combat against opponent `o`.
    fn fight_resolve(&self, o: &Agent) -> (r: Agent)
        requires
            self.wf(),
            o.wf(),
        ensures
            r == self.spec_fight_resolve(*o),
            r.wf(),
    {
        let my_total = combat_power(self, o);
        let their_total = combat_power(o, self);
        if my_total > their_total {
            let gain = if self.is_predator() && !o.is_predator() {
                tdiv(o.energy * 1200, 1000)
            } else {
                tdiv(o.energy * 600, 1000)
            };
            let bonus = if self.is_predator() {
                tdiv(self.genes.attack_power * 20000, 1000)
            } else {
                0
            };
            proof {
                lemma_tdiv_range(o.energy * 1200, 1000, 240000000);
                lemma_tdiv_range(o.energy * 600, 1000, 240000000);
                lemma_tdiv_range(self.genes.attack_power * 20000, 1000, 60000000);
            }
            let e0 = self.energy + gain + bonus;
            let e = if e0 > self.max_energy {
                self.max_energy
            } else {
                e0
            };
            let k = if self.kills == u32::MAX {
                self.kills
            } else {
                self.kills + 1
            };
            Agent {
                energy: e,
                kills: k,
                state: AgentState::Seeking,
                target_x: None,
                target_y: None,
                ..*self
            }
        } else {
            proof {
                lemma_tdiv_range(their_total * 100, 1000, 5100000);
            }
            let dmg = tdiv(their_total * 100, 1000);
            let e0 = self.energy - dmg;
            if e0 <= 0 {
                Agent {
                    energy: 0,
                    is_dying: true,
                    death_reason: Some(DeathReason::Combat),
                    death_fade: 0,
                    state: AgentState::Fleeing,
                    target_x: None,
                    target_y: None,
                    ..*self
                }
            } else {
                Agent {
                    energy: e0,
                    state: AgentState::Fleeing,
                    target_x: None,
                    target_y: None,
                    ..*self
                }
            }
        }
    }

    /// Keeps moving toward the flee point until outside sense range of it;
    /// reverts to seeking when the flee point is gone.
    pub fn flee_from_danger(&self) -> (r: Agent)
        requires
            self.wf(),
        ensures
            r == self.spec_flee(),
            r.wf_moving(),
    {
        match (self.target_x, self.target_y) {
            (Some(tx), Some(ty)) => {
                let d = dist_to_target(self.x, self.y, tx, ty);
                if d > self.genes.sense_range {
                    Agent { state: AgentState::Seeking, target_x: None, target_y: None, ..*self }
                } else if d == 0 {
                    *self
                } else {
                    let sp = self.genes.speed * 3;
                    proof {
                        assert(spec_dist_sq(self.x, self.y, tx, ty) == (self.x - tx) * (self.x - tx)
                            + (self.y - ty) * (self.y - ty));
                        assert((tx - self.x) * (tx - self.x) <= (self.x - tx) * (self.x - tx) + (
                        self.y - ty) * (self.y - ty)) by (nonlinear_arith);
                        assert((ty - self.y) * (ty - self.y) <= (self.x - tx) * (self.x - tx) + (
                        self.y - ty) * (self.y - ty)) by (nonlinear_arith);
                        lemma_component_le_isqrt(
                            tx - self.x,
                            spec_dist_sq(self.x, self.y, tx, ty) as nat,
                        );
                        lemma_component_le_isqrt(
                            ty - self.y,
                            spec_dist_sq(self.x, self.y, tx, ty) as nat,
                        );
                        lemma_scaled_div_bound(tx - self.x, d as int, sp as int);
                        lemma_scaled_div_bound(ty - self.y, d as int, sp as int);
                        assert(-108000000000int <= (tx - self.x) * sp <= 108000000000int)
                            by (nonlinear_arith)
                            requires
                                -12000000 <= tx - self.x <= 12000000,
                                0 <= sp <= 9000,
                        ;
                        assert(-108000000000int <= (ty - self.y) * sp <= 108000000000int)
                            by (nonlinear_arith)
                            requires
                                -12000000 <= ty - self.y <= 12000000,
                                0 <= sp <= 9000,
                        ;
                    }
                    let ndx = tdiv((tx - self.x) * sp, d);
                    let ndy = tdiv((ty - self.y) * sp, d);
                    Agent { dx: ndx, dy: ndy, ..*self }
                }
            },
            _ => Agent { state: AgentState::Seeking, ..*self },
        }
    }

    /// Pays the energy cost of the act of reproduction and resets the
    /// cooldown.
    pub fn reproduce(&self) -> (r: Agent)
        requires
            self.wf(),
        ensures
            r == self.spec_reproduce_act(),
            r.wf(),
    {
        proof {
            assert(0 <= self.energy * 700 <= self.energy * 1000) by (nonlinear_arith)
                requires
                    self.energy >= 0,
            ;
            vstd::arithmetic::div_mod::lemma_div_is_ordered(
                self.energy * 700,
                self.energy * 1000,
                1000,
            );
            vstd::arithmetic::div_mod::lemma_div_multiples_vanish(self.energy as int, 1000);
            vstd::arithmetic::div_mod::lemma_div_pos_is_pos(self.energy * 700, 1000);
            assert(self.energy * 1000 == 1000 * self.energy);
        }
        let e = tdiv(self.energy * 700, 1000);
        Agent {
            energy: e,
            last_reproduction: self.age,
            state: AgentState::Seeking,
            ..*self
        }
    }

    /// Moves by the velocity with toroidal wraparound, occasionally perturbs
    /// the velocity, and renormalises it to the base speed trait.
    pub fn move_agent(&self, dt: i64, w: i64, h: i64, rng: &mut SimRng) -> (r: Agent)
        requires
            self.wf_moving(),
            1 <= dt <= 100,
            1000 <= w <= POS_MAX,
            1000 <= h <= POS_MAX,
            self.x <= w,
            self.y <= h,
        ensures
            r == self.spec_move(dt, w, h, old(rng).state).0,
            final(rng).state == self.spec_move(dt, w, h, old(rng).state).1,
            r.wf(),
            r.x <= w,
            r.y <= h,
    {
        proof {
            assert(-2000000 <= self.dx * dt <= 2000000) by (nonlinear_arith)
                requires
                    -20000 <= self.dx <= 20000,
                    1 <= dt <= 100,
            ;
            assert(-2000000 <= self.dy * dt <= 2000000) by (nonlinear_arith)
                requires
                    -20000 <= self.dy <= 20000,
                    1 <= dt <= 100,
            ;
            lemma_tdiv_range(self.dx * dt, 1000, 2000000);
            lemma_tdiv_range(self.dy * dt, 1000, 2000000);
        }
        let x1 = self.x + tdiv(self.dx * dt, 1000);
        let x2 = if x1 < 0 {
            w
        } else if x1 > w {
            0
        } else {
            x1
        };
        let y1 = self.y + tdiv(self.dy * dt, 1000);
        let y2 = if y1 < 0 {
            h
        } else if y1 > h {
            0
        } else {
            y1
        };
        let perturb = rng.chance(10);
        let (ndx, ndy) = if perturb {
            let vx = rng.next_range(-100, 100);
            let vy = rng.next_range(-100, 100);
            (self.dx + vx, self.dy + vy)
        } else {
            (self.dx, self.dy)
        };
        self.move_finish(x2, y2, ndx, ndy)
    }

    /// Renormalises the velocity to the base speed trait and settles at the
    /// new position.
    fn move_finish(&self, x2: i64, y2: i64, ndx: i64, ndy: i64) -> (r: Agent)
        requires
            self.wf_core(),
            0 <= x2 <= POS_MAX,
            0 <= y2 <= POS_MAX,
            -20100 <= ndx <= 20100,
            -20100 <= ndy <= 20100,
        ensures
            ({
                let m = self.spec_move_finish(x2, y2, ndx, ndy, 0);
                r == m.0
            }),
            r.wf(),
            r.x == x2,
            r.y == y2,
    {
        proof {
            assert(0 <= ndx * ndx <= 20100 * 20100int && 0 <= ndy * ndy <= 20100 * 20100int)
                by (nonlinear_arith)
                requires
                    -20100 <= ndx <= 20100,
                    -20100 <= ndy <= 20100,
            ;
        }
        let dsq: u64 = ((ndx * ndx) as u64) + ((ndy * ndy) as u64);
        let len = crate::num::isqrt(dsq);
        if len > 0 {
            proof {
                lemma_component_le_isqrt(ndx as int, dsq as nat);
                lemma_component_le_isqrt(ndy as int, dsq as nat);
                lemma_scaled_div_bound(ndx as int, len as int, self.genes.speed as int);
                lemma_scaled_div_bound(ndy as int, len as int, self.genes.speed as int);
                assert(len <= 30000) by (nonlinear_arith)
                    requires
                        len * len <= 808020000,
                ;
                assert(-60300000 <= ndx * self.genes.speed <= 60300000) by (nonlinear_arith)
                    requires
                        -20100 <= ndx <= 20100,
                        0 <= self.genes.speed <= 3000,
                ;
                assert(-60300000 <= ndy * self.genes.speed <= 60300000) by (nonlinear_arith)
                    requires
                        -20100 <= ndy <= 20100,
                        0 <= self.genes.speed <= 3000,
                ;
            }
            let fdx = tdiv(ndx * self.genes.speed, len as i64);
            let fdy = tdiv(ndy * self.genes.speed, len as i64);
            Agent { x: x2, y: y2, dx: fdx, dy: fdy, ..*self }
        } else {
            proof {
                assert(dsq < 1) by (nonlinear_arith)
                    requires
                        len == 0,
                        dsq < (len + 1) * (len + 1),
                ;
                assert(ndx == 0 && ndy == 0) by (nonlinear_arith)
                    requires
                        ndx * ndx + ndy * ndy == 0,
                ;
            }
            Agent { x: x2, y: y2, dx: ndx, dy: ndy, ..*self }
        }
    }
}

impl Agent {
    /// The bookkeeping phase of a tick: age (saturating at the cap), advance
    /// the spawn and death fades, pay the metabolic cost, and check the death
    /// conditions. The flag says the tick ends here (the agent is dying).
    pub open spec fn spec_pre_step(self, dt: i64, w: i64, h: i64) -> (Agent, bool) {
        let na: int = if self.age + dt > AGE_CAP {
            AGE_CAP as int
        } else {
            self.age + dt
        };
        let aged = Agent { age: na as i64, ..self };
        let faded = if aged.spawn_fade < 1000 {
            let f = aged.spawn_fade + 3 * dt;
            Agent {
                spawn_fade: if f >= 1000 {
                    1000
                } else {
                    f as i64
                },
                ..aged
            }
        } else {
            aged
        };
        if faded.is_dying {
            let df = faded.death_fade + 2 * dt;
            (
                Agent {
                    death_fade: if df > 2000 {
                        2000
                    } else {
                        df as i64
                    },
                    ..faded
                },
                true,
            )
        } else {
            let cost = faded.spec_metabolic_cost(dt, w, h);
            let e = faded.energy - cost;
            if e <= 0 {
                (
                    Agent {
                        energy: 0,
                        is_dying: true,
                        death_reason: Some(DeathReason::Starvation),
                        death_fade: 0,
                        ..faded
                    },
                    true,
                )
            } else if faded.age > AGE_LIMIT {
                (
                    Agent {
                        energy: e as i64,
                        is_dying: true,
                        death_reason: Some(DeathReason::OldAge),
                        death_fade: 0,
                        ..faded
                    },
                    true,
                )
            } else {
                (Agent { energy: e as i64, ..faded }, false)
            }
        }
    }

    /// The behaviour phase of a tick: the action of the current state.
    pub open spec fn spec_act(
        self,
        resources: Seq<Resource>,
        agents: Seq<Agent>,
        cands: Seq<usize>,
        s: u64,
    ) -> (Agent, Option<usize>, u64) {
        match self.state {
            AgentState::Seeking => {
                let r = self.spec_seek(agents, cands, resources, s);
                (r.0, None, r.1)
            },
            AgentState::Hunting => (self.spec_hunt(), None, s),
            AgentState::Feeding => {
                let f = self.spec_feed(resources);
                (f.0, f.1, s)
            },
            AgentState::Reproducing => (self.spec_reproduce_act(), None, s),
            AgentState::Fighting => (self.spec_fight(agents), None, s),
            AgentState::Fleeing => (self.spec_flee(), None, s),
        }
    }

    /// One full tick of the agent: age, pay the metabolic cost, check death,
    /// decide and act on the behaviour state, move, and re-check reproduction
    /// eligibility. Returns the index of the consumed resource, if any, and
    /// the stream state after all draws.
    pub open spec fn spec_update(
        self,
        dt: i64,
        resources: Seq<Resource>,
        agents: Seq<Agent>,
        cands: Seq<usize>,
        w: i64,
        h: i64,
        s: u64,
    ) -> (Agent, Option<usize>, u64) {
        let p = self.spec_pre_step(dt, w, h);
        if p.1 {
            (p.0, None, s)
        } else {
            let acted = p.0.spec_act(resources, agents, cands, s);
            let m = acted.0.spec_move(dt, w, h, acted.2);
            let a6 = if m.0.spec_can_reproduce() {
                Agent { state: AgentState::Reproducing, ..m.0 }
            } else {
                m.0
            };
            (a6, acted.1, m.1)
        }
    }

    /// Runs the bookkeeping phase of a tick in place; returns whether the
    /// tick ends here.
    pub(crate) fn pre_step(&mut self, dt: i64, w: i64, h: i64) -> (early: bool)
        requires
            old(self).wf(),
            old(self).x <= w,
            old(self).y <= h,
            1 <= dt <= 100,
            1000 <= w <= POS_MAX,
            1000 <= h <= POS_MAX,
        ensures
            *final(self) == old(self).spec_pre_step(dt, w, h).0,
            early == old(self).spec_pre_step(dt, w, h).1,
            final(self).wf(),
            final(self).x == old(self).x,
            final(self).y == old(self).y,
            final(self).state == old(self).state,
            !early ==> !final(self).is_dying,
    {
        if self.age + dt > AGE_CAP {
            self.age = AGE_CAP;
        } else {
            self.age = self.age + dt;
        }
        if self.spawn_fade < 1000 {
            let f = self.spawn_fade + 3 * dt;
            self.spawn_fade = if f >= 1000 {
                1000
            } else {
                f
            };
        }
        if self.is_dying {
            let df = self.death_fade + 2 * dt;
            self.death_fade = if df > 2000 {
                2000
            } else {
                df
            };
            return true;
        }
        let cost = self.metabolic_cost(dt, w, h);
        let e = self.energy - cost;
        if e <= 0 {
            self.energy = 0;
            self.is_dying = true;
            self.death_reason = Some(DeathReason::Starvation);
            self.death_fade = 0;
            return true;
        }
        if self.age > AGE_LIMIT {
            self.energy = e;
            self.is_dying = true;
            self.death_reason = Some(DeathReason::OldAge);
            self.death_fade = 0;
            return true;
        }
        self.energy = e;
        false
    }

    /// Runs the behaviour phase of a tick; returns the successor agent and
    /// the consumed resource index, if any.
    fn act(
        &self,
        resources: &Vec<Resource>,
        agents: &Vec<Agent>,
        cands: &Vec<usize>,
        rng: &mut SimRng,
    ) -> (r: (Agent, Option<usize>))
        requires
            self.wf(),
            forall|k: int| 0 <= k < agents@.len() ==> (#[trigger] agents@[k]).wf(),
            forall|k: int| 0 <= k < cands@.len() ==> (#[trigger] cands@[k]) < agents@.len(),
            forall|k: int| 0 <= k < resources@.len() ==> (#[trigger] resources@[k]).wf(),
        ensures
            ({
                let a = self.spec_act(resources@, agents@, cands@, old(rng).state);
                r.0 == a.0 && r.1 == a.1 && final(rng).state == a.2
            }),
            r.0.wf_moving(),
            r.0.x == self.x,
            r.0.y == self.y,
            r.1 matches Some(i) ==> i < resources@.len(),
    {
        let mut consumed: Option<usize> = None;
        let acted = match self.state {
            AgentState::Seeking => self.seek_targets(agents, cands, resources, rng),
            AgentState::Hunting => self.hunt_target(),
            AgentState::Feeding => {
                let f = self.feed_on_resource(resources);
                consumed = f.1;
                f.0
            },
            AgentState::Reproducing => self.reproduce(),
            AgentState::Fighting => self.fight_agent(agents),
            AgentState::Fleeing => self.flee_from_danger(),
        };
        (acted, consumed)
    }

    /// Advances the agent by one tick of `dt` milliseconds, reading the
    /// start-of-tick snapshots of the resources and the agents, with `cands`
    /// the neighbour candidates from the spatial index. The result names the
    /// resource consumed this tick, if any; live agents never leave the world
    /// bounds and keep their invariant.
    #[verifier::rlimit(100)]
    pub fn update(
        &mut self,
        dt: i64,
        resources: &Vec<Resource>,
        agents: &Vec<Agent>,
        cands: &Vec<usize>,
        w: i64,
        h: i64,
        rng: &mut SimRng,
    ) -> (consumed: Option<usize>)
        requires
            old(self).wf(),
            old(self).x <= w,
            old(self).y <= h,
            1 <= dt <= 100,
            1000 <= w <= POS_MAX,
            1000 <= h <= POS_MAX,
            forall|k: int| 0 <= k < agents@.len() ==> (#[trigger] agents@[k]).wf(),
            forall|k: int| 0 <= k < cands@.len() ==> (#[trigger] cands@[k]) < agents@.len(),
            forall|k: int| 0 <= k < resources@.len() ==> (#[trigger] resources@[k]).wf(),
        ensures
            ({
                let u = old(self).spec_update(dt, resources@, agents@, cands@, w, h, old(rng).state);
                *final(self) == u.0 && consumed == u.1 && final(rng).state == u.2
            }),
            final(self).wf(),
            final(self).x <= w,
            final(self).y <= h,
            consumed matches Some(i) ==> i < resources@.len(),
    {
        if self.pre_step(dt, w, h) {
            return None;
        }
        let r = self.act(resources, agents, cands, rng);
        let moved = r.0.move_agent(dt, w, h, rng);
        if moved.can_reproduce() {
            *self = Agent { state: AgentState::Reproducing, ..moved };
        } else {
            *self = moved;
        }
        r.1
    }
}

impl Agent {
    /// The offspring of two parents: genes blended and mutated at the first
    /// parent's mutation rate, spawned next to the first parent (clamped into
    /// the world), one generation past the older lineage.
    pub open spec fn spec_offspring(s: u64, id: u64, a: Agent, b: Agent, w: i64, h: i64) -> (
        Agent,
        u64,
    ) {
        let gr = Genes::spec_inherit(s, a.genes, b.genes, a.genes.mutation_rate);
        let ox = spec_range(gr.1, -10000i64, 10000);
        let s2 = spec_next_state(gr.1);
        let oy = spec_range(s2, -10000i64, 10000);
        let s3 = spec_next_state(s2);
        let px = spec_clamp(a.x + ox, 0, w as int);
        let py = spec_clamp(a.y + oy, 0, h as int);
        let gen = if a.generation >= b.generation {
            a.generation
        } else {
            b.generation
        };
        let gen1: u32 = if gen == u32::MAX {
            gen
        } else {
            (gen + 1) as u32
        };
        Self::spec_new(s3, id, px as i64, py as i64, gr.0, gen1)
    }

    /// Creates an offspring of this agent and `other` under the fresh
    /// identity `id`, next to this agent.
    pub fn create_offspring(&self, other: &Agent, id: u64, w: i64, h: i64, rng: &mut SimRng) -> (r:
        Agent)
        requires
            self.wf(),
            other.wf(),
            1000 <= w <= POS_MAX,
            1000 <= h <= POS_MAX,
        ensures
            r == Self::spec_offspring(old(rng).state, id, *self, *other, w, h).0,
            final(rng).state == Self::spec_offspring(old(rng).state, id, *self, *other, w, h).1,
            r.wf(),
            r.x <= w,
            r.y <= h,
            r.spec_is_alive(),
    {
        let genes = self.genes.inherit_from(&other.genes, self.genes.mutation_rate, rng);
        let ox = rng.next_range(-10000, 10000);
        let oy = rng.next_range(-10000, 10000);
        let px = clamp_i64(self.x + ox, 0, w);
        let py = clamp_i64(self.y + oy, 0, h);
        let gen = if self.generation >= other.generation {
            self.generation
        } else {
            other.generation
        };
        let gen1 = if gen == u32::MAX {
            gen
        } else {
            gen + 1
        };
        Agent::new(id, px, py, genes, gen1, rng)
    }
}

/// A feeding event never leaves the agent's energy above its maximum,
/// whatever amount was consumed and whatever energy it held before.
pub proof fn lemma_feeding_caps_energy(a: Agent, resources: Seq<Resource>)
    requires
        a.wf(),
    ensures
        a.spec_feed(resources).1 is Some ==> a.spec_feed(resources).0.energy <= a.spec_feed(
            resources,
        ).0.max_energy,
{
}

/// One combatant's effective combat power against the other's defense.
fn combat_power(a: &Agent, o: &Agent) -> (r: i64)
    requires
        a.wf(),
        o.wf(),
    ensures
        r == a.spec_combat_power(*o),
        0 <= r <= 51000,
{
    proof {
        assert(0 <= a.genes.attack_power * a.genes.size <= 7500000) by (nonlinear_arith)
            requires
                0 <= a.genes.attack_power <= 3000,
                0 <= a.genes.size <= 2500,
        ;
        assert(0 <= o.genes.defense * o.genes.size <= 7500000) by (nonlinear_arith)
            requires
                0 <= o.genes.defense <= 3000,
                0 <= o.genes.size <= 2500,
        ;
    }
    let ap_sz = tdiv(a.genes.attack_power * a.genes.size, 1000);
    proof {
        lemma_tdiv_range(a.genes.attack_power * a.genes.size, 1000, 7500000);
        assert(0 <= ap_sz * a.energy <= 1500000000int) by (nonlinear_arith)
            requires
                0 <= ap_sz <= 7500,
                0 <= a.energy <= 200000,
        ;
    }
    let atk = tdiv(tdiv(ap_sz * a.energy, 1000), 100);
    let their_def = tdiv(o.genes.defense * o.genes.size, 1000);
    proof {
        lemma_tdiv_range(ap_sz * a.energy, 1000, 1500000000);
        lemma_tdiv_range(spec_tdiv(ap_sz * a.energy, 1000), 100, 1500000);
        lemma_tdiv_range(o.genes.defense * o.genes.size, 1000, 7500000);
    }
    let eff = tdiv(atk * 1000, their_def + 1000);
    proof {
        lemma_tdiv_range(atk * 1000, their_def as int + 1000, 15000000);
        vstd::arithmetic::div_mod::lemma_div_pos_is_pos(atk * 1000, their_def as int + 1000);
        vstd::arithmetic::div_mod::lemma_div_is_ordered_by_denominator(
            atk * 1000,
            1000,
            their_def as int + 1000,
        );
        vstd::arithmetic::div_mod::lemma_div_is_ordered(atk * 1000, 15000000, 1000);
    }
    let bonus = 1000 + tdiv(a.genes.intelligence * 500, 1000) + tdiv(a.genes.stamina * 300, 1000);
    proof {
        lemma_tdiv_range(a.genes.intelligence * 500, 1000, 1500000);
        lemma_tdiv_range(a.genes.stamina * 300, 1000, 900000);
        assert(0 <= eff * bonus <= 51000000int) by (nonlinear_arith)
            requires
                0 <= eff <= 15000,
                0 <= bonus <= 3400,
        ;
        lemma_tdiv_range(eff * bonus, 1000, 51000000);
    }
    tdiv(eff * bonus, 1000)
}

/// The positional bias term of the metabolic cost stays within two
/// thousandths.
proof fn lemma_env_bias_bounds(x: int, y: int, w: int, h: int)
    requires
        0 <= x <= w,
        0 <= y <= h,
        1000 <= w,
        1000 <= h,
    ensures
        0 <= spec_tdiv(x * 1000, w) <= 1000,
        0 <= spec_tdiv(y * 1000, h) <= 1000,
        0 <= spec_tdiv(spec_tdiv(x * 1000, w) + spec_tdiv(y * 1000, h), 1000) <= 2,
{
    assert(0 <= x * 1000 <= w * 1000) by (nonlinear_arith)
        requires
            0 <= x <= w,
    ;
    assert(0 <= y * 1000 <= h * 1000) by (nonlinear_arith)
        requires
            0 <= y <= h,
    ;
    vstd::arithmetic::div_mod::lemma_div_pos_is_pos(x * 1000, w);
    vstd::arithmetic::div_mod::lemma_div_is_ordered(x * 1000, w * 1000, w);
    vstd::arithmetic::div_mod::lemma_div_multiples_vanish(1000, w);
    vstd::arithmetic::div_mod::lemma_div_pos_is_pos(y * 1000, h);
    vstd::arithmetic::div_mod::lemma_div_is_ordered(y * 1000, h * 1000, h);
    vstd::arithmetic::div_mod::lemma_div_multiples_vanish(1000, h);
    vstd::arithmetic::div_mod::lemma_div_pos_is_pos(
        spec_tdiv(x * 1000, w) + spec_tdiv(y * 1000, h),
        1000,
    );
    vstd::arithmetic::div_mod::lemma_div_is_ordered(
        spec_tdiv(x * 1000, w) + spec_tdiv(y * 1000, h),
        2000,
        1000,
    );
}

} // verus!

//! The simulation engine: the per-tick update pipeline over flat ordered
//! collections of agents and resources.
//!
//! Each tick: rebuild the spatial index, update all resources, spawn a
//! resource when the timer allows, update all agents against the start-of-tick
//! snapshot (in parallel when a worker pool is available, with identical
//! results), apply the collected consumption effects, run the
//! population-controlled reproduction pass, and remove dead agents and
//! fully-depleted resources. Every phase is an exact function of the previous
//! state and the seed, so runs are reproducible.

use vstd::prelude::*;

use crate::agent::Agent;
use crate::genes::Genes;
use crate::grid::{
    grid_view, lemma_query_bounded, spec_built, spec_query, SpatialGrid, GRID_CELL_SIZE,
};
use crate::num::{spec_tdiv, tdiv};
use crate::resource::{spec_dist_sq, Resource, AGE_CAP, POS_MAX};
use crate::rng::{spec_below, spec_derive, spec_next_state, spec_next_value, spec_range, SimRng};

use rayon::iter::{IndexedParallelIterator, IntoParallelRefIterator, ParallelIterator};

verus! {

/// Upper bound on the configured population caps.
pub const MAX_POPULATION_BOUND: usize = 100000;

/// Distance under which two agents can mate, in thousandths.
pub const MATE_RADIUS: i64 = 20000;

/// Energy a mate must hold to be chosen, in thousandths.
pub const MATE_ENERGY_MIN: i64 = 50000;

/// Probability of an offspring per found mate, in thousandths.
pub const REPRODUCTION_CHANCE: u64 = 500;

/// Static configuration of a simulation run, read once at construction.
#[derive(Clone, Copy, Debug, PartialEq, Eq, Structural)]
pub struct SimulationConfig {
    pub width: i64,
    pub height: i64,
    pub max_agents: usize,
    pub max_resources: usize,
    pub initial_agents: usize,
    pub initial_resources: usize,
    pub resource_spawn_interval: i64,
    pub tick_ms: i64,
    pub min_agent_count: usize,
    pub max_agent_count: usize,
    pub use_ecs: bool,
}

impl SimulationConfig {
    /// Valid world bounds and caps.
    pub open spec fn wf(self) -> bool {
        &&& 1000 <= self.width <= POS_MAX
        &&& 1000 <= self.height <= POS_MAX
        &&& 1 <= self.max_agents <= MAX_POPULATION_BOUND
        &&& 1 <= self.max_resources <= MAX_POPULATION_BOUND
        &&& self.initial_agents <= self.max_agents
        &&& self.initial_resources <= self.max_resources
        &&& 1 <= self.resource_spawn_interval <= 86400000
        &&& 1 <= self.tick_ms <= 100
    }
}

impl Default for SimulationConfig {
    /// A 1000 by 800 world at sixty ticks a second, with the stock caps.
    fn default() -> (r: SimulationConfig)
        ensures
            r == (SimulationConfig {
                width: 1000000,
                height: 800000,
                max_agents: 5000,
                max_resources: 2000,
                initial_agents: 500,
                initial_resources: 500,
                resource_spawn_interval: 500,
                tick_ms: 16,
                min_agent_count: 10,
                max_agent_count: 3000,
                use_ecs: true,
            }),
            r.wf(),
    {
        SimulationConfig {
            width: 1000000,
            height: 800000,
            max_agents: 5000,
            max_resources: 2000,
            initial_agents: 500,
            initial_resources: 500,
            resource_spawn_interval: 500,
            tick_ms: 16,
            min_agent_count: 10,
            max_agent_count: 3000,
            use_ecs: true,
        }
    }
}

/// An immutable snapshot of aggregate statistics, all averages in
/// thousandths.
#[derive(Clone, Copy, Debug, PartialEq, Eq, Structural)]
pub struct SimulationStats {
    pub agent_count: usize,
    pub resource_count: usize,
    pub total_energy: i64,
    pub average_age: i64,
    pub average_speed: i64,
    pub average_size: i64,
    pub average_aggression: i64,
    pub average_sense_range: i64,
    pub average_energy_efficiency: i64,
    pub max_generation: u32,
    pub total_kills: u64,
    pub average_fitness: i64,
}

/// The running sums behind the aggregate statistics.
#[derive(Clone, Copy, Debug, PartialEq, Eq, Structural)]
pub struct StatsAccum {
    pub energy: i64,
    pub age: i64,
    pub speed: i64,
    pub size: i64,
    pub aggression: i64,
    pub sense_range: i64,
    pub efficiency: i64,
    pub kills: u64,
    pub max_generation: u32,
    pub fitness: i64,
}

/// Addition saturating at the top of the signed range, so statistics folds
/// cannot overflow whatever the population holds.
pub open spec fn spec_sat_add(a: int, b: int) -> i64 {
    if a + b > i64::MAX {
        i64::MAX
    } else {
        (a + b) as i64
    }
}

/// Adds with saturation at the top of the signed range.
pub fn sat_add(a: i64, b: i64) -> (r: i64)
    requires
        a >= 0,
        b >= 0,
    ensures
        r == spec_sat_add(a as int, b as int),
{
    if a > i64::MAX - b {
        i64::MAX
    } else {
        a + b
    }
}

/// The all-zero accumulator.
pub open spec fn spec_zero_accum() -> StatsAccum {
    StatsAccum {
        energy: 0,
        age: 0,
        speed: 0,
        size: 0,
        aggression: 0,
        sense_range: 0,
        efficiency: 0,
        kills: 0,
        max_generation: 0,
        fitness: 0,
    }
}

/// One agent folded into the accumulator.
pub open spec fn spec_accum_one(acc: StatsAccum, a: Agent) -> StatsAccum {
    StatsAccum {
        energy: spec_sat_add(acc.energy as int, a.energy as int),
        age: spec_sat_add(acc.age as int, a.age as int),
        speed: spec_sat_add(acc.speed as int, a.genes.speed as int),
        size: spec_sat_add(acc.size as int, a.genes.size as int),
        aggression: spec_sat_add(acc.aggression as int, a.genes.aggression as int),
        sense_range: spec_sat_add(acc.sense_range as int, a.genes.sense_range as int),
        efficiency: spec_sat_add(acc.efficiency as int, a.genes.energy_efficiency as int),
        kills: if acc.kills + a.kills > u64::MAX {
            u64::MAX
        } else {
            (acc.kills + a.kills) as u64
        },
        max_generation: if a.generation > acc.max_generation {
            a.generation
        } else {
            acc.max_generation
        },
        fitness: spec_sat_add(acc.fitness as int, a.genes.spec_fitness()),
    }
}

/// The statistics fold over the agents from index `i` on.
pub open spec fn spec_stats_fold(agents: Seq<Agent>, i: int, acc: StatsAccum) -> StatsAccum
    decreases agents.len() - i,
{
    if i < 0 || i >= agents.len() {
        acc
    } else {
        spec_stats_fold(agents, i + 1, spec_accum_one(acc, agents[i]))
    }
}

/// The neighbour-query radius of an agent: its sense range, widened for a
/// predator to its hunting range.
pub open spec fn spec_cand_radius(a: Agent) -> i64 {
    if a.spec_is_predator() && a.spec_hunt_range() > a.genes.sense_range {
        a.spec_hunt_range() as i64
    } else {
        a.genes.sense_range
    }
}

/// Grid columns covering a world `w` wide.
pub open spec fn spec_grid_cols(w: i64) -> int {
    (w + GRID_CELL_SIZE - 1) / (GRID_CELL_SIZE as int)
}

/// The neighbour candidates of agent `i`: the spatial-index query around its
/// position at its query radius, over the grid built for the start-of-tick
/// snapshot.
pub open spec fn spec_cands(agents: Seq<Agent>, w: i64, h: i64, i: int) -> Seq<usize> {
    spec_query(
        spec_built(agents, GRID_CELL_SIZE, spec_grid_cols(w), spec_grid_cols(h)),
        GRID_CELL_SIZE,
        spec_grid_cols(w),
        spec_grid_cols(h),
        agents[i].x,
        agents[i].y,
        spec_cand_radius(agents[i]),
    )
}

/// The stepped agent and its consumption effect for index `i`.
pub open spec fn spec_stepped_pair(
    agents: Seq<Agent>,
    resources: Seq<Resource>,
    w: i64,
    h: i64,
    dt: i64,
    seed: u64,
    i: int,
) -> (Agent, Option<usize>) {
    let u = agents[i].spec_update(
        dt,
        resources,
        agents,
        spec_cands(agents, w, h, i),
        w,
        h,
        spec_derive(seed, i as u64),
    );
    (u.0, u.1)
}

/// The whole agent pass: every agent stepped independently against the
/// start-of-tick snapshot, each on its own stream derived from the tick seed
/// and its index — the parallel and the sequential path compute the same
/// sequence.
pub open spec fn spec_agent_pass(
    agents: Seq<Agent>,
    resources: Seq<Resource>,
    w: i64,
    h: i64,
    dt: i64,
    seed: u64,
) -> Seq<(Agent, Option<usize>)> {
    Seq::new(agents.len(), |i: int| spec_stepped_pair(agents, resources, w, h, dt, seed, i))
}

/// A resource marked as being consumed: the depletion fade starts.
pub open spec fn spec_marked(r: Resource) -> Resource {
    Resource { is_depleting: true, deplete_fade: 0, ..r }
}

/// The resources after applying the consumption effects from step `j` on.
pub open spec fn spec_mark_consumed(
    resources: Seq<Resource>,
    steps: Seq<(Agent, Option<usize>)>,
    j: int,
) -> Seq<Resource>
    decreases steps.len() - j,
{
    if j < 0 || j >= steps.len() {
        resources
    } else {
        let r1 = match steps[j].1 {
            Some(idx) => if 0 <= idx < resources.len() {
                resources.update(idx as int, spec_marked(resources[idx as int]))
            } else {
                resources
            },
            None => resources,
        };
        spec_mark_consumed(r1, steps, j + 1)
    }
}

/// The mate candidates of agent `i` from index `j` on: nearby, energetic
/// enough, and themselves eligible.
pub open spec fn spec_mates(agents: Seq<Agent>, i: int, j: int, acc: Seq<usize>) -> Seq<usize>
    decreases agents.len() - j,
{
    if j < 0 || j >= agents.len() {
        acc
    } else {
        let ok = agents[j].id != agents[i].id && crate::num::spec_isqrt(
            spec_dist_sq(agents[i].x, agents[i].y, agents[j].x, agents[j].y) as nat,
        ) < MATE_RADIUS && agents[j].energy > MATE_ENERGY_MIN && agents[j].spec_can_reproduce();
        spec_mates(agents, i, j + 1, if ok {
            acc.push(j as usize)
        } else {
            acc
        })
    }
}

/// The reproduction pass from agent `i` on: each eligible agent finds a mate
/// drawn at random from the candidates, a coin decides the offspring, and an
/// offspring is created only while the running population (start-of-tick
/// count plus the newborns so far) stays below the cap.
pub open spec fn spec_repro(
    agents: Seq<Agent>,
    i: int,
    max_agents: int,
    w: i64,
    h: i64,
    s: u64,
    next_id: u64,
    born: Seq<Agent>,
) -> (Seq<Agent>, u64, u64)
    decreases agents.len() - i,
{
    if i < 0 || i >= agents.len() {
        (born, s, next_id)
    } else {
        let a = agents[i];
        if a.spec_can_reproduce() {
            let mates = spec_mates(agents, i, 0, Seq::empty());
            if mates.len() > 0 {
                let k = spec_below(s, mates.len() as u64);
                let s1 = spec_next_state(s);
                if agents.len() + born.len() < max_agents {
                    let coin = spec_below(s1, 1000) < REPRODUCTION_CHANCE;
                    let s2 = spec_next_state(s1);
                    if coin {
                        let mate = agents[mates[k as int] as int];
                        let off = Agent::spec_offspring(s2, next_id, a, mate, w, h);
                        spec_repro(
                            agents,
                            i + 1,
                            max_agents,
                            w,
                            h,
                            off.1,
                            next_id.wrapping_add(1),
                            born.push(off.0),
                        )
                    } else {
                        spec_repro(agents, i + 1, max_agents, w, h, s2, next_id, born)
                    }
                } else {
                    spec_repro(agents, i + 1, max_agents, w, h, s1, next_id, born)
                }
            } else {
                spec_repro(agents, i + 1, max_agents, w, h, s, next_id, born)
            }
        } else {
            spec_repro(agents, i + 1, max_agents, w, h, s, next_id, born)
        }
    }
}

/// Whether the reproduction pass runs at all this tick: the population must
/// be under the high-water fraction of the cap and under the growth ceiling.
pub open spec fn spec_repro_allowed(count: int, max_agents: int) -> bool {
    count < max_agents * 8 / 10 && count * 5 <= max_agents * 3
}

/// The live agents among those from index `i` on.
pub open spec fn spec_live(agents: Seq<Agent>, i: int) -> Seq<Agent>
    decreases agents.len() - i,
{
    if i < 0 || i >= agents.len() {
        Seq::empty()
    } else if agents[i].spec_is_alive() {
        seq![agents[i]] + spec_live(agents, i + 1)
    } else {
        spec_live(agents, i + 1)
    }
}

/// Whether a resource stays in the world: not yet fully faded out.
pub open spec fn spec_res_keep(r: Resource) -> bool {
    !(r.is_depleting && r.deplete_fade >= 1000)
}

/// The surviving resources among those from index `i` on.
pub open spec fn spec_keep_resources(resources: Seq<Resource>, i: int) -> Seq<Resource>
    decreases resources.len() - i,
{
    if i < 0 || i >= resources.len() {
        Seq::empty()
    } else if spec_res_keep(resources[i]) {
        seq![resources[i]] + spec_keep_resources(resources, i + 1)
    } else {
        spec_keep_resources(resources, i + 1)
    }
}

/// The freshly seeded agents: `n` more drawn at random positions with random
/// genomes, appended to `born`.
pub open spec fn spec_seed_agents(
    n: int,
    w: i64,
    h: i64,
    s: u64,
    next_id: u64,
    born: Seq<Agent>,
) -> (Seq<Agent>, u64, u64)
    decreases n,
{
    if n <= 0 {
        (born, s, next_id)
    } else {
        let x = spec_range(s, 0, w);
        let s1 = spec_next_state(s);
        let y = spec_range(s1, 0, h);
        let s2 = spec_next_state(s1);
        let g = Genes::spec_random(s2);
        let a = Agent::spec_new(g.1, next_id, x, y, g.0, 0);
        spec_seed_agents(n - 1, w, h, a.1, next_id.wrapping_add(1), born.push(a.0))
    }
}

/// The freshly seeded resources: `n` more at random positions.
pub open spec fn spec_seed_resources(n: int, w: i64, h: i64, s: u64, born: Seq<Resource>) -> (
    Seq<Resource>,
    u64,
)
    decreases n,
{
    if n <= 0 {
        (born, s)
    } else {
        let x = spec_range(s, 0, w);
        let s1 = spec_next_state(s);
        let y = spec_range(s1, 0, h);
        let s2 = spec_next_state(s1);
        let r = Resource::spec_new(s2, x, y);
        spec_seed_resources(n - 1, w, h, r.1, born.push(r.0))
    }
}

/// A whole tick as a mathematical function of the state: the new agents,
/// resources, time, spawn timer, stream state and identity counter.
pub open spec fn spec_tick(
    agents: Seq<Agent>,
    resources: Seq<Resource>,
    w: i64,
    h: i64,
    max_agents: usize,
    max_resources: usize,
    spawn_interval: i64,
    dt: i64,
    time: i64,
    timer: i64,
    s: u64,
    next_id: u64,
) -> (Seq<Agent>, Seq<Resource>, int, int, u64, u64) {
    let time1: int = if time + dt > AGE_CAP {
        AGE_CAP as int
    } else {
        time + dt
    };
    let res1 = resources.map_values(|r: Resource| r.spec_step(dt));
    let t0: int = if timer + dt > AGE_CAP {
        AGE_CAP as int
    } else {
        timer + dt
    };
    let spawn = t0 > spawn_interval && res1.len() < max_resources;
    let x = spec_range(s, 0, w);
    let sa = spec_next_state(s);
    let y = spec_range(sa, 0, h);
    let sb = spec_next_state(sa);
    let nr = Resource::spec_new(sb, x, y);
    let res2 = if spawn {
        res1.push(nr.0)
    } else {
        res1
    };
    let timer2: int = if spawn {
        0
    } else {
        t0
    };
    let s1 = if spawn {
        nr.1
    } else {
        s
    };
    let seed = spec_next_value(s1);
    let s2 = spec_next_state(s1);
    let steps = spec_agent_pass(agents, res2, w, h, dt, seed);
    let res3 = spec_mark_consumed(res2, steps, 0);
    let stepped = Seq::new(agents.len(), |i: int| steps[i].0);
    let repro = if spec_repro_allowed(stepped.len() as int, max_agents as int) {
        spec_repro(stepped, 0, max_agents as int, w, h, s2, next_id, Seq::empty())
    } else {
        (Seq::<Agent>::empty(), s2, next_id)
    };
    let agents2 = spec_live(stepped + repro.0, 0);
    let res4 = spec_keep_resources(res3, 0);
    (agents2, res4, time1, timer2, repro.1, repro.2)
}

/// A fresh 64-bit seed for an unseeded simulation.
///
/// Relies on `rand::random`: a value from the thread-local generator; nothing
/// is promised of it.
#[verifier::external_body]
pub(crate) fn entropy_seed() -> u64 {
    rand::random::<u64>()
}

/// One resource advanced by a tick, as a pure function.
fn resource_stepped(r: &Resource, dt: i64) -> (out: Resource)
    requires
        r.wf(),
        1 <= dt <= 100,
    ensures
        out == r.spec_step(dt),
        out.wf(),
        out.x == r.x,
        out.y == r.y,
{
    let mut c = *r;
    c.update(dt);
    c
}

/// All resources advanced by a tick, sequentially.
pub(crate) fn step_resources_seq(rs: &Vec<Resource>, dt: i64) -> (out: Vec<Resource>)
    requires
        forall|k: int| 0 <= k < rs@.len() ==> (#[trigger] rs@[k]).wf(),
        1 <= dt <= 100,
    ensures
        out@ == rs@.map_values(|r: Resource| r.spec_step(dt)),
        out@.len() == rs@.len(),
        forall|k: int|
            0 <= k < out@.len() ==> (#[trigger] out@[k]).wf() && out@[k].x == rs@[k].x
                && out@[k].y == rs@[k].y,
{
    let mut out: Vec<Resource> = Vec::new();
    let mut i: usize = 0;
    while i < rs.len()
        invariant
            i <= rs@.len(),
            out@.len() == i,
            forall|k: int| 0 <= k < rs@.len() ==> (#[trigger] rs@[k]).wf(),
            1 <= dt <= 100,
            forall|k: int| 0 <= k < i ==> (#[trigger] out@[k]) == rs@[k].spec_step(dt),
            forall|k: int|
                0 <= k < i ==> (#[trigger] out@[k]).wf() && out@[k].x == rs@[k].x && out@[k].y
                    == rs@[k].y,
        decreases rs@.len() - i,
    {
        let c = resource_stepped(&rs[i], dt);
        out.push(c);
        i = i + 1;
    }
    proof {
        assert(out@ =~= rs@.map_values(|r: Resource| r.spec_step(dt)));
    }
    out
}

/// All resources advanced by a tick, on the worker pool. The result is the
/// same sequence the sequential pass computes.
///
/// Relies on rayon's `par_iter().map(..).collect()`: the closure (which only
/// calls the verified per-resource step) is applied to every element and the
/// results are collected in input order.
#[verifier::external_body]
fn par_step_resources(rs: &Vec<Resource>, dt: i64) -> (out: Vec<Resource>)
    requires
        forall|k: int| 0 <= k < rs@.len() ==> (#[trigger] rs@[k]).wf(),
        1 <= dt <= 100,
    ensures
        out@ == rs@.map_values(|r: Resource| r.spec_step(dt)),
        out@.len() == rs@.len(),
        forall|k: int|
            0 <= k < out@.len() ==> (#[trigger] out@[k]).wf() && out@[k].x == rs@[k].x
                && out@[k].y == rs@[k].y,
{
    rs.par_iter().map(|r| resource_stepped(r, dt)).collect()
}

/// One agent stepped against the start-of-tick snapshot, on the stream
/// derived from the tick seed and its index.
fn agent_stepped(
    agents: &Vec<Agent>,
    resources: &Vec<Resource>,
    cands: &Vec<usize>,
    i: usize,
    seed: u64,
    dt: i64,
    w: i64,
    h: i64,
) -> (r: (Agent, Option<usize>))
    requires
        i < agents@.len(),
        1 <= dt <= 100,
        1000 <= w <= POS_MAX,
        1000 <= h <= POS_MAX,
        forall|k: int|
            0 <= k < agents@.len() ==> (#[trigger] agents@[k]).wf() && agents@[k].x <= w
                && agents@[k].y <= h,
        forall|k: int| 0 <= k < resources@.len() ==> (#[trigger] resources@[k]).wf(),
        forall|k: int| 0 <= k < cands@.len() ==> (#[trigger] cands@[k]) < agents@.len(),
    ensures
        ({
            let u = agents@[i as int].spec_update(
                dt,
                resources@,
                agents@,
                cands@,
                w,
                h,
                spec_derive(seed, i as u64),
            );
            r.0 == u.0 && r.1 == u.1
        }),
        r.0.wf(),
        r.0.x <= w,
        r.0.y <= h,
        r.1 matches Some(idx) ==> idx < resources@.len(),
{
    let mut a = agents[i];
    let mut rng = SimRng::derived(seed, i as u64);
    let consumed = a.update(dt, resources, agents, cands, w, h, &mut rng);
    (a, consumed)
}

/// The whole agent pass on the worker pool: every agent stepped on its own
/// derived stream. The result is the same sequence the sequential pass
/// computes.
///
/// Relies on rayon's `par_iter().enumerate().map(..).collect()`: the closure
/// (which only calls the verified per-agent step with that agent's candidate
/// list) is applied to every index and the results are collected in index
/// order.
#[verifier::external_body]
fn par_agent_pass(
    agents: &Vec<Agent>,
    resources: &Vec<Resource>,
    cands: &Vec<Vec<usize>>,
    seed: u64,
    dt: i64,
    w: i64,
    h: i64,
) -> (out: Vec<(Agent, Option<usize>)>)
    requires
        cands@.len() == agents@.len(),
        1 <= dt <= 100,
        1000 <= w <= POS_MAX,
        1000 <= h <= POS_MAX,
        forall|k: int|
            0 <= k < agents@.len() ==> (#[trigger] agents@[k]).wf() && agents@[k].x <= w
                && agents@[k].y <= h,
        forall|k: int| 0 <= k < resources@.len() ==> (#[trigger] resources@[k]).wf(),
        forall|k: int, j: int|
            0 <= k < cands@.len() && 0 <= j < cands@[k]@.len() ==> (#[trigger] cands@[k]@[j])
                < agents@.len(),
    ensures
        out@.len() == agents@.len(),
        forall|i: int|
            0 <= i < out@.len() ==> {
                let u = agents@[i].spec_update(
                    dt,
                    resources@,
                    agents@,
                    cands@[i]@,
                    w,
                    h,
                    spec_derive(seed, i as u64),
                );
                (#[trigger] out@[i]).0 == u.0 && out@[i].1 == u.1 && out@[i].0.wf() && out@[i].0.x
                    <= w && out@[i].0.y <= h && (out@[i].1 matches Some(idx) ==> idx
                    < resources@.len())
            },
{
    agents.par_iter().enumerate().map(
        |p: (usize, &Agent)| agent_stepped(agents, resources, &cands[p.0], p.0, seed, dt, w, h),
    ).collect()
}

/// The candidate list of agent `i` from the freshly rebuilt spatial index.
fn cand_list(grid: &SpatialGrid, agents: &Vec<Agent>, i: usize, w: i64, h: i64) -> (q: Vec<usize>)
    requires
        grid.wf(),
        grid.built_for(agents@),
        grid.bounded(agents@.len() as int),
        grid.cell_size == GRID_CELL_SIZE,
        grid.cols as int == spec_grid_cols(w),
        grid.rows as int == spec_grid_cols(h),
        i < agents@.len(),
        1000 <= w <= POS_MAX,
        1000 <= h <= POS_MAX,
        forall|k: int| 0 <= k < agents@.len() ==> (#[trigger] agents@[k]).wf(),
    ensures
        q@ == spec_cands(agents@, w, h, i as int),
        forall|k: int| 0 <= k < q@.len() ==> (#[trigger] q@[k]) < agents@.len(),
{
    let a = &agents[i];
    proof {
        assert(0 <= a.genes.sense_range * a.genes.territory_size <= 45000000000int)
            by (nonlinear_arith)
            requires
                0 <= a.genes.sense_range <= 150000,
                0 <= a.genes.territory_size <= 300000,
        ;
        vstd::arithmetic::div_mod::lemma_div_pos_is_pos(
            a.genes.sense_range * a.genes.territory_size,
            100000,
        );
        vstd::arithmetic::div_mod::lemma_div_is_ordered(
            a.genes.sense_range * a.genes.territory_size,
            45000000000int,
            100000,
        );
    }
    let hr = tdiv(a.genes.sense_range * a.genes.territory_size, 100000);
    let radius = if a.is_predator() && hr > a.genes.sense_range {
        hr
    } else {
        a.genes.sense_range
    };
    let q = grid.query(a.x, a.y, radius);
    proof {
        assert(forall|c: int, k: int|
            0 <= c < grid_view(grid.cells@).len() && 0 <= k < grid_view(grid.cells@)[c].len()
                ==> (#[trigger] grid_view(grid.cells@)[c][k]) < agents@.len());
        lemma_query_bounded(
            grid_view(grid.cells@),
            grid.cell_size,
            grid.cols as int,
            grid.rows as int,
            a.x,
            a.y,
            radius,
            agents@.len() as int,
        );
    }
    q
}

/// Applies the consumption effects collected in the agent pass: each consumed
/// resource starts its depletion fade.
fn mark_consumed(resources: &mut Vec<Resource>, steps: &Vec<(Agent, Option<usize>)>)
    requires
        forall|k: int| 0 <= k < old(resources)@.len() ==> (#[trigger] old(resources)@[k]).wf(),
        forall|k: int|
            0 <= k < old(resources)@.len() ==> (#[trigger] old(resources)@[k]).x <= POS_MAX
                && old(resources)@[k].y <= POS_MAX,
    ensures
        final(resources)@ == spec_mark_consumed(old(resources)@, steps@, 0),
        final(resources)@.len() == old(resources)@.len(),
        forall|k: int|
            0 <= k < final(resources)@.len() ==> (#[trigger] final(resources)@[k]).wf()
                && final(resources)@[k].x == old(resources)@[k].x && final(resources)@[k].y == old(
                resources,
            )@[k].y,
{
    let ghost orig = resources@;
    let mut j: usize = 0;
    while j < steps.len()
        invariant
            j <= steps@.len(),
            resources@.len() == orig.len(),
            spec_mark_consumed(orig, steps@, 0) == spec_mark_consumed(resources@, steps@, j as int),
            forall|k: int|
                0 <= k < resources@.len() ==> (#[trigger] resources@[k]).wf() && resources@[k].x
                    == orig[k].x && resources@[k].y == orig[k].y,
        decreases steps@.len() - j,
    {
        let ghost before = resources@;
        match steps[j].1 {
            Some(idx) => {
                if idx < resources.len() {
                    resources[idx].is_depleting = true;
                    resources[idx].deplete_fade = 0;
                    proof {
                        assert(resources@ =~= before.update(
                            idx as int,
                            spec_marked(before[idx as int]),
                        ));
                    }
                }
            },
            None => {},
        }
        proof {
            assert(spec_mark_consumed(before, steps@, j as int) == spec_mark_consumed(
                resources@,
                steps@,
                j as int + 1,
            ));
        }
        j = j + 1;
    }
}

/// The mate candidates of agent `i`: nearby, energetic enough, eligible.
fn mate_scan(agents: &Vec<Agent>, i: usize) -> (mates: Vec<usize>)
    requires
        i < agents@.len(),
        forall|k: int| 0 <= k < agents@.len() ==> (#[trigger] agents@[k]).wf(),
    ensures
        mates@ == spec_mates(agents@, i as int, 0, Seq::empty()),
        forall|k: int| 0 <= k < mates@.len() ==> (#[trigger] mates@[k]) < agents@.len(),
{
    let a = agents[i];
    let mut mates: Vec<usize> = Vec::new();
    let mut j: usize = 0;
    while j < agents.len()
        invariant
            j <= agents@.len(),
            i < agents@.len(),
            a == agents@[i as int],
            forall|k: int| 0 <= k < agents@.len() ==> (#[trigger] agents@[k]).wf(),
            spec_mates(agents@, i as int, 0, Seq::empty()) == spec_mates(
                agents@,
                i as int,
                j as int,
                mates@,
            ),
            forall|k: int| 0 <= k < mates@.len() ==> (#[trigger] mates@[k]) < agents@.len(),
        decreases agents@.len() - j,
    {
        let ghost before = mates@;
        let o = agents[j];
        let ok = o.id != a.id && crate::resource::dist_milli(a.x, a.y, o.x, o.y) < MATE_RADIUS
            && o.energy > MATE_ENERGY_MIN && o.can_reproduce();
        if ok {
            mates.push(j);
        }
        proof {
            assert(spec_mates(agents@, i as int, j as int, before) == spec_mates(
                agents@,
                i as int,
                j as int + 1,
                mates@,
            ));
        }
        j = j + 1;
    }
    mates
}

/// The reproduction pass: every eligible agent looks for a nearby eligible,
/// sufficiently energetic mate; a coin decides the offspring; and the running
/// population count caps the newborns so the configured maximum is never
/// exceeded.
fn reproduction_pass(
    agents: &Vec<Agent>,
    max_agents: usize,
    w: i64,
    h: i64,
    rng: &mut SimRng,
    next_id: &mut u64,
) -> (born: Vec<Agent>)
    requires
        1000 <= w <= POS_MAX,
        1000 <= h <= POS_MAX,
        forall|k: int| 0 <= k < agents@.len() ==> (#[trigger] agents@[k]).wf(),
    ensures
        ({
            let r = spec_repro(
                agents@,
                0,
                max_agents as int,
                w,
                h,
                old(rng).state,
                *old(next_id),
                Seq::empty(),
            );
            born@ == r.0 && final(rng).state == r.1 && *final(next_id) == r.2
        }),
        forall|k: int|
            0 <= k < born@.len() ==> (#[trigger] born@[k]).wf() && born@[k].x <= w && born@[k].y
                <= h && born@[k].spec_is_alive(),
        born@.len() == 0 || agents@.len() + born@.len() <= max_agents,
{
    let ghost s0 = rng.state;
    let ghost nid0 = *next_id;
    let mut born: Vec<Agent> = Vec::new();
    let mut i: usize = 0;
    while i < agents.len()
        invariant
            i <= agents@.len(),
            1000 <= w <= POS_MAX,
            1000 <= h <= POS_MAX,
            forall|k: int| 0 <= k < agents@.len() ==> (#[trigger] agents@[k]).wf(),
            spec_repro(agents@, 0, max_agents as int, w, h, s0, nid0, Seq::empty()) == spec_repro(
                agents@,
                i as int,
                max_agents as int,
                w,
                h,
                rng.state,
                *next_id,
                born@,
            ),
            forall|k: int|
                0 <= k < born@.len() ==> (#[trigger] born@[k]).wf() && born@[k].x <= w && born@[k].y
                    <= h && born@[k].spec_is_alive(),
            born@.len() == 0 || agents@.len() + born@.len() <= max_agents,
        decreases agents@.len() - i,
    {
        let ghost state_before = rng.state;
        let ghost nid_before = *next_id;
        let ghost born_before = born@;
        let a = agents[i];
        if a.can_reproduce() {
            let mates = mate_scan(agents, i);
            if mates.len() > 0 {
                let k = rng.next_below(mates.len() as u64);
                if agents.len() + born.len() < max_agents {
                    let coin = rng.chance(REPRODUCTION_CHANCE);
                    if coin {
                        let mate = agents[mates[k as usize]];
                        let off = a.create_offspring(&mate, *next_id, w, h, rng);
                        *next_id = next_id.wrapping_add(1);
                        born.push(off);
                    }
                }
            }
        }
        proof {
            assert(spec_repro(
                agents@,
                i as int,
                max_agents as int,
                w,
                h,
                state_before,
                nid_before,
                born_before,
            ) == spec_repro(
                agents@,
                i as int + 1,
                max_agents as int,
                w,
                h,
                rng.state,
                *next_id,
                born@,
            ));
        }
        i = i + 1;
    }
    born
}

/// Keeps exactly the live agents, in order.
pub(crate) fn filter_live(agents: &Vec<Agent>, w: i64, h: i64) -> (out: Vec<Agent>)
    requires
        forall|k: int|
            0 <= k < agents@.len() ==> (#[trigger] agents@[k]).wf() && agents@[k].x <= w
                && agents@[k].y <= h,
    ensures
        out@ == spec_live(agents@, 0),
        out@.len() <= agents@.len(),
        forall|k: int|
            0 <= k < out@.len() ==> (#[trigger] out@[k]).wf() && out@[k].x <= w && out@[k].y <= h
                && out@[k].spec_is_alive(),
{
    let mut out: Vec<Agent> = Vec::new();
    let mut i: usize = 0;
    while i < agents.len()
        invariant
            i <= agents@.len(),
            out@.len() <= i,
            forall|k: int|
                0 <= k < agents@.len() ==> (#[trigger] agents@[k]).wf() && agents@[k].x <= w
                    && agents@[k].y <= h,
            out@ + spec_live(agents@, i as int) == spec_live(agents@, 0),
            forall|k: int|
                0 <= k < out@.len() ==> (#[trigger] out@[k]).wf() && out@[k].x <= w && out@[k].y
                    <= h && out@[k].spec_is_alive(),
        decreases agents@.len() - i,
    {
        let ghost before = out@;
        let a = agents[i];
        if a.is_alive() {
            out.push(a);
            proof {
                assert(before + (seq![agents@[i as int]] + spec_live(agents@, i as int + 1)) =~= out@
                    + spec_live(agents@, i as int + 1));
            }
        }
        i = i + 1;
    }
    proof {
        assert(out@ + spec_live(agents@, agents@.len() as int) =~= out@);
    }
    out
}

/// Keeps exactly the resources that have not fully faded out, in order.
pub(crate) fn filter_resources(resources: &Vec<Resource>, w: i64, h: i64) -> (out: Vec<Resource>)
    requires
        forall|k: int|
            0 <= k < resources@.len() ==> (#[trigger] resources@[k]).wf() && resources@[k].x <= w
                && resources@[k].y <= h,
    ensures
        out@ == spec_keep_resources(resources@, 0),
        out@.len() <= resources@.len(),
        forall|k: int|
            0 <= k < out@.len() ==> (#[trigger] out@[k]).wf() && out@[k].x <= w && out@[k].y <= h,
{
    let mut out: Vec<Resource> = Vec::new();
    let mut i: usize = 0;
    while i < resources.len()
        invariant
            i <= resources@.len(),
            out@.len() <= i,
            forall|k: int|
                0 <= k < resources@.len() ==> (#[trigger] resources@[k]).wf() && resources@[k].x
                    <= w && resources@[k].y <= h,
            out@ + spec_keep_resources(resources@, i as int) == spec_keep_resources(resources@, 0),
            forall|k: int|
                0 <= k < out@.len() ==> (#[trigger] out@[k]).wf() && out@[k].x <= w && out@[k].y
                    <= h,
        decreases resources@.len() - i,
    {
        let ghost before = out@;
        let r = resources[i];
        if !(r.is_depleting && r.deplete_fade >= 1000) {
            out.push(r);
            proof {
                assert(before + (seq![resources@[i as int]] + spec_keep_resources(
                    resources@,
                    i as int + 1,
                )) =~= out@ + spec_keep_resources(resources@, i as int + 1));
            }
        }
        i = i + 1;
    }
    proof {
        assert(out@ + spec_keep_resources(resources@, resources@.len() as int) =~= out@);
    }
    out
}

/// The simulation world: flat ordered collections of agents and resources, a
/// spatial index rebuilt every tick, and the deterministic stream state.
pub struct Simulation {
    pub agents: Vec<Agent>,
    pub resources: Vec<Resource>,
    pub width: i64,
    pub height: i64,
    pub time: i64,
    pub resource_spawn_timer: i64,
    pub max_agents: usize,
    pub max_resources: usize,
    pub initial_agents: usize,
    pub initial_resources: usize,
    pub resource_spawn_interval: i64,
    pub tick_ms: i64,
    pub grid: SpatialGrid,
    pub rng: SimRng,
    pub next_id: u64,
    pub parallel_enabled: bool,
}

impl Simulation {
    /// The world invariant: valid bounds and caps, every entity within the
    /// world and well-formed, populations under their caps, and a grid shaped
    /// for the world.
    pub open spec fn wf(self) -> bool {
        &&& 1000 <= self.width <= POS_MAX
        &&& 1000 <= self.height <= POS_MAX
        &&& 1 <= self.max_agents <= MAX_POPULATION_BOUND
        &&& 1 <= self.max_resources <= MAX_POPULATION_BOUND
        &&& self.initial_agents <= self.max_agents
        &&& self.initial_resources <= self.max_resources
        &&& 1 <= self.tick_ms <= 100
        &&& 1 <= self.resource_spawn_interval <= 86400000
        &&& 0 <= self.time <= AGE_CAP
        &&& 0 <= self.resource_spawn_timer <= AGE_CAP
        &&& self.agents@.len() <= self.max_agents
        &&& self.resources@.len() <= self.max_resources
        &&& (forall|k: int|
            0 <= k < self.agents@.len() ==> (#[trigger] self.agents@[k]).wf()
                && self.agents@[k].x <= self.width && self.agents@[k].y <= self.height)
        &&& (forall|k: int|
            0 <= k < self.resources@.len() ==> (#[trigger] self.resources@[k]).wf()
                && self.resources@[k].x <= self.width && self.resources@[k].y <= self.height)
        &&& self.grid.wf()
        &&& self.grid.cell_size == GRID_CELL_SIZE
        &&& self.grid.cols as int == spec_grid_cols(self.width)
        &&& self.grid.rows as int == spec_grid_cols(self.height)
    }

    /// A fresh world seeded from system entropy, with the stock caps, and the
    /// initial population spawned.
    pub fn new(width: i64, height: i64) -> (r: Simulation)
        requires
            1000 <= width <= POS_MAX,
            1000 <= height <= POS_MAX,
        ensures
            r.wf(),
            r.width == width,
            r.height == height,
            r.time == 0,
            r.resource_spawn_timer == 0,
            r.max_agents == 10000,
            r.max_resources == 1500,
            r.initial_agents == 1000,
            r.initial_resources == 150,
            r.agents@.len() == r.initial_agents,
            r.resources@.len() == r.initial_resources,
    {
        Self::with_seed(width, height, entropy_seed())
    }

    /// A fresh world on a fixed seed: every run from the same seed passes
    /// through identical states.
    pub fn with_seed(width: i64, height: i64, seed: u64) -> (r: Simulation)
        requires
            1000 <= width <= POS_MAX,
            1000 <= height <= POS_MAX,
        ensures
            r.wf(),
            r.width == width,
            r.height == height,
            r.time == 0,
            r.resource_spawn_timer == 0,
            r.max_agents == 10000,
            r.max_resources == 1500,
            r.initial_agents == 1000,
            r.initial_resources == 150,
            r.agents@.len() == r.initial_agents,
            r.resources@.len() == r.initial_resources,
            ({
                let sa = spec_seed_agents(1000, width, height, seed, 0, Seq::empty());
                let sr = spec_seed_resources(150, width, height, sa.1, Seq::empty());
                r.agents@ == sa.0 && r.resources@ == sr.0 && r.rng.state == sr.1 && r.next_id
                    == sa.2
            }),
    {
        let mut sim = Simulation {
            agents: Vec::new(),
            resources: Vec::new(),
            width,
            height,
            time: 0,
            resource_spawn_timer: 0,
            max_agents: 10000,
            max_resources: 1500,
            initial_agents: 1000,
            initial_resources: 150,
            resource_spawn_interval: 500,
            tick_ms: 16,
            grid: SpatialGrid::new(width, height),
            rng: SimRng::new(seed),
            next_id: 0,
            parallel_enabled: false,
        };
        sim.spawn_initial_population();
        sim
    }

    /// A fresh world built from a configuration, on a fixed seed.
    pub fn from_config(cfg: &SimulationConfig, seed: u64) -> (r: Simulation)
        requires
            cfg.wf(),
        ensures
            r.wf(),
            r.width == cfg.width,
            r.height == cfg.height,
            r.max_agents == cfg.max_agents,
            r.max_resources == cfg.max_resources,
            r.initial_agents == cfg.initial_agents,
            r.initial_resources == cfg.initial_resources,
            r.resource_spawn_interval == cfg.resource_spawn_interval,
            r.tick_ms == cfg.tick_ms,
            r.agents@.len() == cfg.initial_agents,
            r.resources@.len() == cfg.initial_resources,
            r.time == 0,
            r.resource_spawn_timer == 0,
    {
        let mut sim = Simulation {
            agents: Vec::new(),
            resources: Vec::new(),
            width: cfg.width,
            height: cfg.height,
            time: 0,
            resource_spawn_timer: 0,
            max_agents: cfg.max_agents,
            max_resources: cfg.max_resources,
            initial_agents: cfg.initial_agents,
            initial_resources: cfg.initial_resources,
            resource_spawn_interval: cfg.resource_spawn_interval,
            tick_ms: cfg.tick_ms,
            grid: SpatialGrid::new(cfg.width, cfg.height),
            rng: SimRng::new(seed),
            next_id: 0,
            parallel_enabled: false,
        };
        sim.spawn_initial_population();
        sim
    }

    /// Spawns the configured initial population into an empty world.
    pub fn spawn_initial_population(&mut self)
        requires
            old(self).wf(),
            old(self).agents@.len() == 0,
            old(self).resources@.len() == 0,
        ensures
            final(self).wf(),
            ({
                let sa = spec_seed_agents(
                    old(self).initial_agents as int,
                    old(self).width,
                    old(self).height,
                    old(self).rng.state,
                    old(self).next_id,
                    Seq::empty(),
                );
                let sr = spec_seed_resources(
                    old(self).initial_resources as int,
                    old(self).width,
                    old(self).height,
                    sa.1,
                    Seq::empty(),
                );
                &&& final(self).agents@ == sa.0
                &&& final(self).resources@ == sr.0
                &&& final(self).rng.state == sr.1
                &&& final(self).next_id == sa.2
            }),
            final(self).agents@.len() == old(self).initial_agents,
            final(self).resources@.len() == old(self).initial_resources,
            *final(self) == (Simulation {
                agents: final(self).agents,
                resources: final(self).resources,
                rng: final(self).rng,
                next_id: final(self).next_id,
                ..*old(self)
            }),
    {
        let n = self.initial_agents;
        let m = self.initial_resources;
        let mut agents: Vec<Agent> = Vec::new();
        let mut resources: Vec<Resource> = Vec::new();
        seed_agents(n, self.width, self.height, &mut self.rng, &mut self.next_id, &mut agents);
        seed_resources(m, self.width, self.height, &mut self.rng, &mut resources);
        self.agents = agents;
        self.resources = resources;
    }

    /// Clears all entities and re-seeds the initial population from the
    /// configuration; the initial counts depend on the configuration alone,
    /// never on prior simulation state.
    pub fn reset(&mut self)
        requires
            old(self).wf(),
        ensures
            final(self).wf(),
            final(self).agents@.len() == old(self).initial_agents,
            final(self).resources@.len() == old(self).initial_resources,
            final(self).time == 0,
            final(self).resource_spawn_timer == 0,
            ({
                let sa = spec_seed_agents(
                    old(self).initial_agents as int,
                    old(self).width,
                    old(self).height,
                    old(self).rng.state,
                    old(self).next_id,
                    Seq::empty(),
                );
                let sr = spec_seed_resources(
                    old(self).initial_resources as int,
                    old(self).width,
                    old(self).height,
                    sa.1,
                    Seq::empty(),
                );
                &&& final(self).agents@ == sa.0
                &&& final(self).resources@ == sr.0
                &&& final(self).rng.state == sr.1
                &&& final(self).next_id == sa.2
            }),
            *final(self) == (Simulation {
                agents: final(self).agents,
                resources: final(self).resources,
                rng: final(self).rng,
                next_id: final(self).next_id,
                time: 0,
                resource_spawn_timer: 0,
                ..*old(self)
            }),
    {
        self.agents = Vec::new();
        self.resources = Vec::new();
        self.time = 0;
        self.resource_spawn_timer = 0;
        self.spawn_initial_population();
    }

    /// Injects a new agent at `(x, y)` with a fresh random genome, if under
    /// the population cap; silently does nothing otherwise.
    pub fn add_agent(&mut self, x: i64, y: i64)
        requires
            old(self).wf(),
            0 <= x <= old(self).width,
            0 <= y <= old(self).height,
        ensures
            final(self).wf(),
            old(self).agents@.len() < old(self).max_agents ==> ({
                let g = Genes::spec_random(old(self).rng.state);
                let a = Agent::spec_new(g.1, old(self).next_id, x, y, g.0, 0);
                &&& final(self).agents@ == old(self).agents@.push(a.0)
                &&& final(self).rng.state == a.1
                &&& final(self).next_id == old(self).next_id.wrapping_add(1)
            }),
            old(self).agents@.len() >= old(self).max_agents ==> *final(self) == *old(self),
            final(self).resources@ == old(self).resources@,
            final(self).agents@.len() <= old(self).max_agents,
            *final(self) == (Simulation {
                agents: final(self).agents,
                rng: final(self).rng,
                next_id: final(self).next_id,
                ..*old(self)
            }),
    {
        if self.agents.len() < self.max_agents {
            let genes = Genes::new(&mut self.rng);
            let a = Agent::new(self.next_id, x, y, genes, 0, &mut self.rng);
            self.next_id = self.next_id.wrapping_add(1);
            self.agents.push(a);
        }
    }

    /// Injects a new resource at `(x, y)`, if under the population cap;
    /// silently does nothing otherwise.
    pub fn add_resource(&mut self, x: i64, y: i64)
        requires
            old(self).wf(),
            0 <= x <= old(self).width,
            0 <= y <= old(self).height,
        ensures
            final(self).wf(),
            old(self).resources@.len() < old(self).max_resources ==> ({
                let r = Resource::spec_new(old(self).rng.state, x, y);
                final(self).resources@ == old(self).resources@.push(r.0) && final(self).rng.state
                    == r.1
            }),
            old(self).resources@.len() >= old(self).max_resources ==> *final(self) == *old(self),
            final(self).agents@ == old(self).agents@,
            final(self).resources@.len() <= old(self).max_resources,
            *final(self) == (Simulation { resources: final(self).resources, rng: final(self).rng, ..*old(self) }),
    {
        if self.resources.len() < self.max_resources {
            let r = Resource::new(x, y, &mut self.rng);
            self.resources.push(r);
        }
    }

    /// Whether the engine will dispatch this tick's per-entity work to the
    /// worker pool. The results are the same either way.
    pub fn is_rayon_available(&self) -> (r: bool)
        ensures
            r == self.parallel_enabled,
    {
        self.parallel_enabled
    }

    /// Hands the engine the worker-pool capability (or takes it away).
    pub fn set_rayon_initialized(&mut self, initialized: bool)
        ensures
            *final(self) == (Simulation { parallel_enabled: initialized, ..*old(self) }),
    {
        self.parallel_enabled = initialized;
    }

    /// Runs the per-agent phase of a tick: every agent stepped against the
    /// start-of-tick snapshot with the candidates its spatial-index query
    /// returns, on the worker pool when available — with identical results.
    fn agent_pass(&self, seed: u64, dt: i64, w: i64, h: i64) -> (steps: Vec<
        (Agent, Option<usize>),
    >)
        requires
            self.wf(),
            self.grid.built_for(self.agents@),
            self.grid.bounded(self.agents@.len() as int),
            w == self.width,
            h == self.height,
            dt == self.tick_ms,
        ensures
            steps@.len() == self.agents@.len(),
            forall|i: int|
                0 <= i < steps@.len() ==> (#[trigger] steps@[i]) == spec_stepped_pair(
                    self.agents@,
                    self.resources@,
                    w,
                    h,
                    dt,
                    seed,
                    i,
                ),
            forall|i: int|
                0 <= i < steps@.len() ==> (#[trigger] steps@[i]).0.wf() && steps@[i].0.x <= w
                    && steps@[i].0.y <= h && (steps@[i].1 matches Some(idx) ==> idx
                    < self.resources@.len()),
    {
        if self.parallel_enabled {
            let mut cands: Vec<Vec<usize>> = Vec::new();
            let mut i: usize = 0;
            while i < self.agents.len()
                invariant
                    i <= self.agents@.len(),
                    cands@.len() == i,
                    self.wf(),
                    self.grid.built_for(self.agents@),
                    self.grid.bounded(self.agents@.len() as int),
                    w == self.width,
                    h == self.height,
                    forall|k: int|
                        0 <= k < i ==> (#[trigger] cands@[k])@ == spec_cands(self.agents@, w, h, k),
                    forall|k: int, j: int|
                        0 <= k < i && 0 <= j < cands@[k]@.len() ==> (#[trigger] cands@[k]@[j])
                            < self.agents@.len(),
                decreases self.agents@.len() - i,
            {
                let q = cand_list(&self.grid, &self.agents, i, w, h);
                cands.push(q);
                i = i + 1;
            }
            let out = par_agent_pass(&self.agents, &self.resources, &cands, seed, dt, w, h);
            proof {
                assert(forall|i: int|
                    0 <= i < out@.len() ==> (#[trigger] out@[i]) == spec_stepped_pair(
                        self.agents@,
                        self.resources@,
                        w,
                        h,
                        dt,
                        seed,
                        i,
                    ));
            }
            out
        } else {
            let mut out: Vec<(Agent, Option<usize>)> = Vec::new();
            let mut i: usize = 0;
            while i < self.agents.len()
                invariant
                    i <= self.agents@.len(),
                    out@.len() == i,
                    self.wf(),
                    self.grid.built_for(self.agents@),
                    self.grid.bounded(self.agents@.len() as int),
                    w == self.width,
                    h == self.height,
                    1 <= dt <= 100,
                    forall|k: int|
                        0 <= k < i ==> (#[trigger] out@[k]) == spec_stepped_pair(
                            self.agents@,
                            self.resources@,
                            w,
                            h,
                            dt,
                            seed,
                            k,
                        ),
                    forall|k: int|
                        0 <= k < i ==> (#[trigger] out@[k]).0.wf() && out@[k].0.x <= w && out@[k].0.y
                            <= h && (out@[k].1 matches Some(idx) ==> idx < self.resources@.len()),
                decreases self.agents@.len() - i,
            {
                let q = cand_list(&self.grid, &self.agents, i, w, h);
                let pr = agent_stepped(&self.agents, &self.resources, &q, i, seed, dt, w, h);
                out.push(pr);
                i = i + 1;
            }
            out
        }
    }

    /// Advances the simulation by one tick. The whole step is an exact
    /// function of the prior state, so equal states (same seed, same history)
    /// step to equal states; the population never exceeds its cap; and every
    /// surviving agent is alive.
    #[verifier::rlimit(100)]
    pub fn update(&mut self)
        requires
            old(self).wf(),
        ensures
            final(self).wf(),
            ({
                let t = spec_tick(
                    old(self).agents@,
                    old(self).resources@,
                    old(self).width,
                    old(self).height,
                    old(self).max_agents,
                    old(self).max_resources,
                    old(self).resource_spawn_interval,
                    old(self).tick_ms,
                    old(self).time,
                    old(self).resource_spawn_timer,
                    old(self).rng.state,
                    old(self).next_id,
                );
                &&& final(self).agents@ == t.0
                &&& final(self).resources@ == t.1
                &&& final(self).time == t.2
                &&& final(self).resource_spawn_timer == t.3
                &&& final(self).rng.state == t.4
                &&& final(self).next_id == t.5
            }),
            final(self).agents@.len() <= old(self).max_agents,
            forall|k: int|
                0 <= k < final(self).agents@.len() ==> (#[trigger] final(self).agents@[k]).spec_is_alive(),
            *final(self) == (Simulation {
                agents: final(self).agents,
                resources: final(self).resources,
                time: final(self).time,
                resource_spawn_timer: final(self).resource_spawn_timer,
                rng: final(self).rng,
                next_id: final(self).next_id,
                grid: final(self).grid,
                ..*old(self)
            }),
    {
        let dt = self.tick_ms;
        let w = self.width;
        let h = self.height;
        self.time = if self.time + dt > AGE_CAP {
            AGE_CAP
        } else {
            self.time + dt
        };
        self.grid.rebuild(&self.agents);
        let stepped_res = if self.parallel_enabled {
            par_step_resources(&self.resources, dt)
        } else {
            step_resources_seq(&self.resources, dt)
        };
        self.resources = stepped_res;
        let t0 = if self.resource_spawn_timer + dt > AGE_CAP {
            AGE_CAP
        } else {
            self.resource_spawn_timer + dt
        };
        if t0 > self.resource_spawn_interval && self.resources.len() < self.max_resources {
            let x = self.rng.next_range(0, w);
            let y = self.rng.next_range(0, h);
            let nr = Resource::new(x, y, &mut self.rng);
            self.resources.push(nr);
            self.resource_spawn_timer = 0;
        } else {
            self.resource_spawn_timer = t0;
        }
        let ghost res2v = self.resources@;
        let seed = self.rng.next_u64();
        let steps = self.agent_pass(seed, dt, w, h);
        proof {
            assert(steps@ =~= spec_agent_pass(old(self).agents@, res2v, w, h, dt, seed));
        }
        mark_consumed(&mut self.resources, &steps);
        let mut stepped: Vec<Agent> = Vec::new();
        let mut i: usize = 0;
        while i < steps.len()
            invariant
                i <= steps@.len(),
                stepped@.len() == i,
                w == old(self).width,
                h == old(self).height,
                forall|k: int| 0 <= k < i ==> (#[trigger] stepped@[k]) == steps@[k].0,
                forall|k: int|
                    0 <= k < steps@.len() ==> (#[trigger] steps@[k]).0.wf() && steps@[k].0.x <= w
                        && steps@[k].0.y <= h,
                forall|k: int|
                    0 <= k < i ==> (#[trigger] stepped@[k]).wf() && stepped@[k].x <= w
                        && stepped@[k].y <= h,
            decreases steps@.len() - i,
        {
            let p = steps[i];
            stepped.push(p.0);
            i = i + 1;
        }
        proof {
            assert(stepped@ =~= Seq::new(
                old(self).agents@.len(),
                |k: int| spec_agent_pass(old(self).agents@, res2v, w, h, dt, seed)[k].0,
            ));
        }
        let allowed = stepped.len() < (self.max_agents * 8) / 10 && stepped.len() * 5
            <= self.max_agents * 3;
        let born = if allowed {
            reproduction_pass(&stepped, self.max_agents, w, h, &mut self.rng, &mut self.next_id)
        } else {
            Vec::new()
        };
        proof {
            if !allowed {
                assert(born@ =~= Seq::<Agent>::empty());
            }
        }
        let ghost stepped_v = stepped@;
        let mut all = stepped;
        let mut j: usize = 0;
        while j < born.len()
            invariant
                j <= born@.len(),
                all@ == stepped_v + born@.take(j as int),
                w == old(self).width,
                h == old(self).height,
                forall|k: int|
                    0 <= k < all@.len() ==> (#[trigger] all@[k]).wf() && all@[k].x <= w && all@[k].y
                        <= h,
                forall|k: int|
                    0 <= k < born@.len() ==> (#[trigger] born@[k]).wf() && born@[k].x <= w
                        && born@[k].y <= h,
            decreases born@.len() - j,
        {
            all.push(born[j]);
            proof {
                assert(all@ =~= stepped_v + born@.take(j as int + 1));
            }
            j = j + 1;
        }
        proof {
            assert(born@.take(born@.len() as int) =~= born@);
            assert(all@ == stepped_v + born@);
        }
        self.agents = filter_live(&all, w, h);
        let kept = filter_resources(&self.resources, w, h);
        self.resources = kept;
        proof {
            assert(stepped_v + born@ =~= all@);
        }
    }
}

impl Simulation {
    /// Publishes the aggregate statistics: counts, total and average energy,
    /// average trait values, the highest generation, cumulative kills, and
    /// the average fitness — an empty population reports all zeroes.
    pub fn get_stats(&self) -> (r: SimulationStats)
        requires
            self.wf(),
        ensures
            r == spec_stats(self.agents@, self.resources@.len() as int),
            r.agent_count == self.agents@.len(),
            r.resource_count == self.resources@.len(),
    {
        compute_stats(&self.agents, self.resources.len())
    }
}

/// The published statistics of a population, as a mathematical function.
pub open spec fn spec_stats(agents: Seq<Agent>, resource_count: int) -> SimulationStats {
    if agents.len() == 0 {
        SimulationStats {
            agent_count: 0,
            resource_count: resource_count as usize,
            total_energy: 0,
            average_age: 0,
            average_speed: 0,
            average_size: 0,
            average_aggression: 0,
            average_sense_range: 0,
            average_energy_efficiency: 0,
            max_generation: 0,
            total_kills: 0,
            average_fitness: 0,
        }
    } else {
        let acc = spec_stats_fold(agents, 0, spec_zero_accum());
        let n = agents.len() as int;
        SimulationStats {
            agent_count: agents.len() as usize,
            resource_count: resource_count as usize,
            total_energy: acc.energy,
            average_age: spec_tdiv(acc.age as int, n) as i64,
            average_speed: spec_tdiv(acc.speed as int, n) as i64,
            average_size: spec_tdiv(acc.size as int, n) as i64,
            average_aggression: spec_tdiv(acc.aggression as int, n) as i64,
            average_sense_range: spec_tdiv(acc.sense_range as int, n) as i64,
            average_energy_efficiency: spec_tdiv(acc.efficiency as int, n) as i64,
            max_generation: acc.max_generation,
            total_kills: acc.kills,
            average_fitness: spec_tdiv(acc.fitness as int, n) as i64,
        }
    }
}

/// Computes the aggregate statistics of a population: counts, total and
/// average energy, average trait values, the highest generation, cumulative
/// kills, and the average fitness — an empty population reports all zeroes.
pub fn compute_stats(agents: &Vec<Agent>, resource_count: usize) -> (r: SimulationStats)
    requires
        agents@.len() <= MAX_POPULATION_BOUND,
        forall|k: int| 0 <= k < agents@.len() ==> (#[trigger] agents@[k]).wf(),
    ensures
        r == spec_stats(agents@, resource_count as int),
        r.agent_count == agents@.len(),
        r.resource_count == resource_count,
{
    let n = agents.len();
    if n == 0 {
        return SimulationStats {
            agent_count: 0,
            resource_count,
            total_energy: 0,
            average_age: 0,
            average_speed: 0,
            average_size: 0,
            average_aggression: 0,
            average_sense_range: 0,
            average_energy_efficiency: 0,
            max_generation: 0,
            total_kills: 0,
            average_fitness: 0,
        };
    }
    let mut acc = StatsAccum {
        energy: 0,
        age: 0,
        speed: 0,
        size: 0,
        aggression: 0,
        sense_range: 0,
        efficiency: 0,
        kills: 0,
        max_generation: 0,
        fitness: 0,
    };
    let mut i: usize = 0;
    while i < n
        invariant
            i <= n,
            n == agents@.len(),
            forall|k: int| 0 <= k < agents@.len() ==> (#[trigger] agents@[k]).wf(),
            spec_stats_fold(agents@, 0, spec_zero_accum()) == spec_stats_fold(
                agents@,
                i as int,
                acc,
            ),
            accum_nonneg(acc),
        decreases n - i,
    {
        let a = agents[i];
        acc = accum_one(acc, &a);
        i = i + 1;
    }
    let nn = n as i64;
    SimulationStats {
        agent_count: n,
        resource_count,
        total_energy: acc.energy,
        average_age: tdiv(acc.age, nn),
        average_speed: tdiv(acc.speed, nn),
        average_size: tdiv(acc.size, nn),
        average_aggression: tdiv(acc.aggression, nn),
        average_sense_range: tdiv(acc.sense_range, nn),
        average_energy_efficiency: tdiv(acc.efficiency, nn),
        max_generation: acc.max_generation,
        total_kills: acc.kills,
        average_fitness: tdiv(acc.fitness, nn),
    }
}

/// The observable state after `n` ticks, by iterating the tick function.
pub open spec fn spec_run(
    agents: Seq<Agent>,
    resources: Seq<Resource>,
    w: i64,
    h: i64,
    max_agents: usize,
    max_resources: usize,
    spawn_interval: i64,
    dt: i64,
    time: i64,
    timer: i64,
    s: u64,
    next_id: u64,
    n: nat,
) -> (Seq<Agent>, Seq<Resource>, int, int, u64, u64)
    decreases n,
{
    if n == 0 {
        (agents, resources, time as int, timer as int, s, next_id)
    } else {
        let t = spec_tick(
            agents,
            resources,
            w,
            h,
            max_agents,
            max_resources,
            spawn_interval,
            dt,
            time,
            timer,
            s,
            next_id,
        );
        spec_run(
            t.0,
            t.1,
            w,
            h,
            max_agents,
            max_resources,
            spawn_interval,
            dt,
            t.2 as i64,
            t.3 as i64,
            t.4,
            t.5,
            (n - 1) as nat,
        )
    }
}

impl Simulation {
    /// Advances the simulation by `n` ticks. The whole run is the `n`-fold
    /// iteration of the tick function on the starting state: the same seed
    /// and history pass through identical states at every tick, whatever the
    /// dispatch mode.
    pub fn run_ticks(&mut self, n: usize)
        requires
            old(self).wf(),
        ensures
            final(self).wf(),
            ({
                let t = spec_run(
                    old(self).agents@,
                    old(self).resources@,
                    old(self).width,
                    old(self).height,
                    old(self).max_agents,
                    old(self).max_resources,
                    old(self).resource_spawn_interval,
                    old(self).tick_ms,
                    old(self).time,
                    old(self).resource_spawn_timer,
                    old(self).rng.state,
                    old(self).next_id,
                    n as nat,
                );
                &&& final(self).agents@ == t.0
                &&& final(self).resources@ == t.1
                &&& final(self).time == t.2
                &&& final(self).resource_spawn_timer == t.3
                &&& final(self).rng.state == t.4
                &&& final(self).next_id == t.5
            }),
    {
        let ghost w0 = *old(self);
        let mut i: usize = 0;
        while i < n
            invariant
                i <= n,
                self.wf(),
                ({
                    let t = spec_run(
                        w0.agents@,
                        w0.resources@,
                        w0.width,
                        w0.height,
                        w0.max_agents,
                        w0.max_resources,
                        w0.resource_spawn_interval,
                        w0.tick_ms,
                        w0.time,
                        w0.resource_spawn_timer,
                        w0.rng.state,
                        w0.next_id,
                        i as nat,
                    );
                    &&& self.agents@ == t.0
                    &&& self.resources@ == t.1
                    &&& self.time == t.2
                    &&& self.resource_spawn_timer == t.3
                    &&& self.rng.state == t.4
                    &&& self.next_id == t.5
                }),
                self.width == w0.width,
                self.height == w0.height,
                self.max_agents == w0.max_agents,
                self.max_resources == w0.max_resources,
                self.resource_spawn_interval == w0.resource_spawn_interval,
                self.tick_ms == w0.tick_ms,
            decreases n - i,
        {
            proof {
                lemma_run_unfold(
                    w0.agents@,
                    w0.resources@,
                    w0.width,
                    w0.height,
                    w0.max_agents,
                    w0.max_resources,
                    w0.resource_spawn_interval,
                    w0.tick_ms,
                    w0.time,
                    w0.resource_spawn_timer,
                    w0.rng.state,
                    w0.next_id,
                    i as nat,
                );
            }
            self.update();
            i = i + 1;
        }
    }
}

/// Unfolds one more tick at the end of a run: `n + 1` ticks are `n` ticks
/// followed by one tick of the reached state.
proof fn lemma_run_unfold(
    agents: Seq<Agent>,
    resources: Seq<Resource>,
    w: i64,
    h: i64,
    max_agents: usize,
    max_resources: usize,
    spawn_interval: i64,
    dt: i64,
    time: i64,
    timer: i64,
    s: u64,
    next_id: u64,
    n: nat,
)
    requires
        1 <= dt <= 100,
    ensures
        ({
            let r = spec_run(
                agents,
                resources,
                w,
                h,
                max_agents,
                max_resources,
                spawn_interval,
                dt,
                time,
                timer,
                s,
                next_id,
                n,
            );
            let t = spec_tick(
                r.0,
                r.1,
                w,
                h,
                max_agents,
                max_resources,
                spawn_interval,
                dt,
                r.2 as i64,
                r.3 as i64,
                r.4,
                r.5,
            );
            spec_run(
                agents,
                resources,
                w,
                h,
                max_agents,
                max_resources,
                spawn_interval,
                dt,
                time,
                timer,
                s,
                next_id,
                n + 1,
            ) == (t.0, t.1, t.2, t.3, t.4, t.5)
        }),
    decreases n,
{
    let t0 = spec_tick(
        agents,
        resources,
        w,
        h,
        max_agents,
        max_resources,
        spawn_interval,
        dt,
        time,
        timer,
        s,
        next_id,
    );
    assert(i64::MIN <= t0.2 <= AGE_CAP);
    assert(i64::MIN <= t0.3 <= AGE_CAP);
    assert(spec_run(
        agents,
        resources,
        w,
        h,
        max_agents,
        max_resources,
        spawn_interval,
        dt,
        time,
        timer,
        s,
        next_id,
        n + 1,
    ) == spec_run(
        t0.0,
        t0.1,
        w,
        h,
        max_agents,
        max_resources,
        spawn_interval,
        dt,
        t0.2 as i64,
        t0.3 as i64,
        t0.4,
        t0.5,
        n,
    ));
    if n == 0 {
        assert(spec_run(
            t0.0,
            t0.1,
            w,
            h,
            max_agents,
            max_resources,
            spawn_interval,
            dt,
            t0.2 as i64,
            t0.3 as i64,
            t0.4,
            t0.5,
            0,
        ) == (t0.0, t0.1, (t0.2 as i64) as int, (t0.3 as i64) as int, t0.4, t0.5));
    } else {
        lemma_run_unfold(
            t0.0,
            t0.1,
            w,
            h,
            max_agents,
            max_resources,
            spawn_interval,
            dt,
            t0.2 as i64,
            t0.3 as i64,
            t0.4,
            t0.5,
            (n - 1) as nat,
        );
    }
}

/// All running sums are nonnegative.
pub open spec fn accum_nonneg(acc: StatsAccum) -> bool {
    acc.energy >= 0 && acc.age >= 0 && acc.speed >= 0 && acc.size >= 0 && acc.aggression >= 0
        && acc.sense_range >= 0 && acc.efficiency >= 0 && acc.fitness >= 0
}

/// Folds one agent into the statistics accumulator.
fn accum_one(acc: StatsAccum, a: &Agent) -> (r: StatsAccum)
    requires
        a.wf(),
        accum_nonneg(acc),
    ensures
        r == spec_accum_one(acc, *a),
        accum_nonneg(r),
{
    let fitness = a.genes.get_fitness_score();
    StatsAccum {
        energy: sat_add(acc.energy, a.energy),
        age: sat_add(acc.age, a.age),
        speed: sat_add(acc.speed, a.genes.speed),
        size: sat_add(acc.size, a.genes.size),
        aggression: sat_add(acc.aggression, a.genes.aggression),
        sense_range: sat_add(acc.sense_range, a.genes.sense_range),
        efficiency: sat_add(acc.efficiency, a.genes.energy_efficiency),
        kills: if acc.kills > u64::MAX - (a.kills as u64) {
            u64::MAX
        } else {
            acc.kills + (a.kills as u64)
        },
        max_generation: if a.generation > acc.max_generation {
            a.generation
        } else {
            acc.max_generation
        },
        fitness: sat_add(acc.fitness, fitness),
    }
}

/// The population after a reproduction pass never exceeds the configured
/// maximum: an offspring is appended only while the running count — the
/// start-of-tick population plus the newborns so far — stays below the cap,
/// so even evaluating every parent cannot overshoot it.
pub proof fn lemma_reproduction_respects_cap(
    agents: Seq<Agent>,
    i: int,
    max_agents: int,
    w: i64,
    h: i64,
    s: u64,
    next_id: u64,
    born: Seq<Agent>,
)
    requires
        agents.len() <= max_agents,
        born.len() == 0 || agents.len() + born.len() <= max_agents,
    ensures
        agents.len() + spec_repro(agents, i, max_agents, w, h, s, next_id, born).0.len()
            <= max_agents || spec_repro(agents, i, max_agents, w, h, s, next_id, born).0 == born,
    decreases agents.len() - i,
{
    if 0 <= i < agents.len() {
        let a = agents[i];
        if a.spec_can_reproduce() {
            let mates = spec_mates(agents, i, 0, Seq::empty());
            if mates.len() > 0 {
                let k = spec_below(s, mates.len() as u64);
                let s1 = spec_next_state(s);
                if agents.len() + born.len() < max_agents {
                    let coin = spec_below(s1, 1000) < REPRODUCTION_CHANCE;
                    let s2 = spec_next_state(s1);
                    if coin {
                        let mate = agents[mates[k as int] as int];
                        let off = Agent::spec_offspring(s2, next_id, a, mate, w, h);
                        lemma_reproduction_respects_cap(
                            agents,
                            i + 1,
                            max_agents,
                            w,
                            h,
                            off.1,
                            next_id.wrapping_add(1),
                            born.push(off.0),
                        );
                    } else {
                        lemma_reproduction_respects_cap(
                            agents,
                            i + 1,
                            max_agents,
                            w,
                            h,
                            s2,
                            next_id,
                            born,
                        );
                    }
                } else {
                    lemma_reproduction_respects_cap(
                        agents,
                        i + 1,
                        max_agents,
                        w,
                        h,
                        s1,
                        next_id,
                        born,
                    );
                }
            } else {
                lemma_reproduction_respects_cap(agents, i + 1, max_agents, w, h, s, next_id, born);
            }
        } else {
            lemma_reproduction_respects_cap(agents, i + 1, max_agents, w, h, s, next_id, born);
        }
    }
}

/// Seeding always creates exactly the asked-for number of agents, whatever
/// the seed or the identity counter.
pub proof fn lemma_seed_agents_len(n: int, w: i64, h: i64, s: u64, next_id: u64, born: Seq<Agent>)
    requires
        n >= 0,
    ensures
        spec_seed_agents(n, w, h, s, next_id, born).0.len() == born.len() + n,
    decreases n,
{
    if n > 0 {
        let x = spec_range(s, 0, w);
        let s1 = spec_next_state(s);
        let y = spec_range(s1, 0, h);
        let s2 = spec_next_state(s1);
        let g = Genes::spec_random(s2);
        let a = Agent::spec_new(g.1, next_id, x, y, g.0, 0);
        lemma_seed_agents_len(n - 1, w, h, a.1, next_id.wrapping_add(1), born.push(a.0));
    }
}

/// Seeding always creates exactly the asked-for number of resources.
pub proof fn lemma_seed_resources_len(n: int, w: i64, h: i64, s: u64, born: Seq<Resource>)
    requires
        n >= 0,
    ensures
        spec_seed_resources(n, w, h, s, born).0.len() == born.len() + n,
    decreases n,
{
    if n > 0 {
        let x = spec_range(s, 0, w);
        let s1 = spec_next_state(s);
        let y = spec_range(s1, 0, h);
        let s2 = spec_next_state(s1);
        let r = Resource::spec_new(s2, x, y);
        lemma_seed_resources_len(n - 1, w, h, r.1, born.push(r.0));
    }
}

/// Re-seeding reproduces the configured initial counts whatever the prior
/// state: the counts depend on the configuration alone, never on the seed,
/// the identity counter, or anything left over from the previous run.
pub proof fn lemma_reset_counts_from_config_alone(
    n: int,
    m: int,
    w1: i64,
    h1: i64,
    s1: u64,
    id1: u64,
    w2: i64,
    h2: i64,
    s2: u64,
    id2: u64,
)
    requires
        n >= 0,
        m >= 0,
    ensures
        spec_seed_agents(n, w1, h1, s1, id1, Seq::empty()).0.len() == spec_seed_agents(
            n,
            w2,
            h2,
            s2,
            id2,
            Seq::empty(),
        ).0.len(),
        ({
            let a1 = spec_seed_agents(n, w1, h1, s1, id1, Seq::empty());
            let a2 = spec_seed_agents(n, w2, h2, s2, id2, Seq::empty());
            spec_seed_resources(m, w1, h1, a1.1, Seq::empty()).0.len() == spec_seed_resources(
                m,
                w2,
                h2,
                a2.1,
                Seq::empty(),
            ).0.len()
        }),
{
    lemma_seed_agents_len(n, w1, h1, s1, id1, Seq::empty());
    lemma_seed_agents_len(n, w2, h2, s2, id2, Seq::empty());
    let a1 = spec_seed_agents(n, w1, h1, s1, id1, Seq::empty());
    let a2 = spec_seed_agents(n, w2, h2, s2, id2, Seq::empty());
    lemma_seed_resources_len(m, w1, h1, a1.1, Seq::empty());
    lemma_seed_resources_len(m, w2, h2, a2.1, Seq::empty());
}

/// Determinism of the tick: the next state is a function of the agents,
/// resources, bounds, caps, timers and stream state alone. Neither the
/// dispatch mode (worker pool or sequential) nor the spatial-index scratch
/// state appears among these inputs, so neither influences the outcome: two
/// simulations in equal states under the same seed pass through identical
/// states at every tick.
pub proof fn lemma_tick_deterministic(a: Simulation, b: Simulation)
    requires
        a.agents@ == b.agents@,
        a.resources@ == b.resources@,
        a.width == b.width,
        a.height == b.height,
        a.max_agents == b.max_agents,
        a.max_resources == b.max_resources,
        a.resource_spawn_interval == b.resource_spawn_interval,
        a.tick_ms == b.tick_ms,
        a.time == b.time,
        a.resource_spawn_timer == b.resource_spawn_timer,
        a.rng.state == b.rng.state,
        a.next_id == b.next_id,
    ensures
        spec_tick(
            a.agents@,
            a.resources@,
            a.width,
            a.height,
            a.max_agents,
            a.max_resources,
            a.resource_spawn_interval,
            a.tick_ms,
            a.time,
            a.resource_spawn_timer,
            a.rng.state,
            a.next_id,
        ) == spec_tick(
            b.agents@,
            b.resources@,
            b.width,
            b.height,
            b.max_agents,
            b.max_resources,
            b.resource_spawn_interval,
            b.tick_ms,
            b.time,
            b.resource_spawn_timer,
            b.rng.state,
            b.next_id,
        ),
{
}

/// Appends `n` freshly drawn agents at random positions.
pub(crate) fn seed_agents(
    n: usize,
    w: i64,
    h: i64,
    rng: &mut SimRng,
    next_id: &mut u64,
    out: &mut Vec<Agent>,
)
    requires
        1000 <= w <= POS_MAX,
        1000 <= h <= POS_MAX,
        n <= MAX_POPULATION_BOUND,
        old(out)@.len() == 0,
    ensures
        ({
            let sa = spec_seed_agents(n as int, w, h, old(rng).state, *old(next_id), old(out)@);
            &&& final(out)@ == sa.0
            &&& final(rng).state == sa.1
            &&& *final(next_id) == sa.2
        }),
        final(out)@.len() == n,
        forall|k: int|
            0 <= k < final(out)@.len() ==> (#[trigger] final(out)@[k]).wf() && final(out)@[k].x
                <= w && final(out)@[k].y <= h,
{
    let ghost s0 = rng.state;
    let ghost nid0 = *next_id;
    proof {
        assert(out@ =~= Seq::<Agent>::empty());
    }
    let mut i: usize = 0;
    while i < n
        invariant
            i <= n,
            1000 <= w <= POS_MAX,
            1000 <= h <= POS_MAX,
            out@.len() == i,
            spec_seed_agents(n as int, w, h, s0, nid0, Seq::empty()) == spec_seed_agents(
                n - i,
                w,
                h,
                rng.state,
                *next_id,
                out@,
            ),
            forall|k: int|
                0 <= k < out@.len() ==> (#[trigger] out@[k]).wf() && out@[k].x <= w && out@[k].y
                    <= h,
        decreases n - i,
    {
        let ghost sb = rng.state;
        let ghost nb = *next_id;
        let ghost ob = out@;
        let x = rng.next_range(0, w);
        let y = rng.next_range(0, h);
        let genes = Genes::new(rng);
        let a = Agent::new(*next_id, x, y, genes, 0, rng);
        *next_id = next_id.wrapping_add(1);
        out.push(a);
        proof {
            assert(spec_seed_agents((n - i) as int, w, h, sb, nb, ob) == spec_seed_agents(
                n - (i + 1),
                w,
                h,
                rng.state,
                *next_id,
                out@,
            ));
        }
        i = i + 1;
    }
}

/// Appends `n` freshly drawn resources at random positions.
pub(crate) fn seed_resources(n: usize, w: i64, h: i64, rng: &mut SimRng, out: &mut Vec<Resource>)
    requires
        1000 <= w <= POS_MAX,
        1000 <= h <= POS_MAX,
        n <= MAX_POPULATION_BOUND,
        old(out)@.len() == 0,
    ensures
        ({
            let sr = spec_seed_resources(n as int, w, h, old(rng).state, old(out)@);
            &&& final(out)@ == sr.0
            &&& final(rng).state == sr.1
        }),
        final(out)@.len() == n,
        forall|k: int|
            0 <= k < final(out)@.len() ==> (#[trigger] final(out)@[k]).wf() && final(out)@[k].x
                <= w && final(out)@[k].y <= h,
{
    let ghost s0 = rng.state;
    proof {
        assert(out@ =~= Seq::<Resource>::empty());
    }
    let mut i: usize = 0;
    while i < n
        invariant
            i <= n,
            1000 <= w <= POS_MAX,
            1000 <= h <= POS_MAX,
            out@.len() == i,
            spec_seed_resources(n as int, w, h, s0, Seq::empty()) == spec_seed_resources(
                n - i,
                w,
                h,
                rng.state,
                out@,
            ),
            forall|k: int|
                0 <= k < out@.len() ==> (#[trigger] out@[k]).wf() && out@[k].x <= w && out@[k].y
                    <= h,
        decreases n - i,
    {
        let ghost sb = rng.state;
        let ghost ob = out@;
        let x = rng.next_range(0, w);
        let y = rng.next_range(0, h);
        let r = Resource::new(x, y, rng);
        out.push(r);
        proof {
            assert(spec_seed_resources((n - i) as int, w, h, sb, ob) == spec_seed_resources(
                n - (i + 1),
                w,
                h,
                rng.state,
                out@,
            ));
        }
        i = i + 1;
    }
}

} // verus!
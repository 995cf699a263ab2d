//! The columnar (table-style) simulation engine.
//!
//! Agent state is stored component-wise — positions, velocities, energies,
//! ages, genomes and behaviour records each in their own column, kept in
//! lockstep — rather than as an array of structs. Each tick assembles a row
//! view per agent, runs a leaner behaviour (resource seeking and movement
//! only), removes the dead, occasionally drops in a fresh agent, and spawns
//! resources on the same timer as the flat engine. Every phase is an exact
//! function of the state and the seed.

use vstd::prelude::*;

use crate::agent::{no_target, random_heading, resource_scan, spec_no_target, Agent};
pub use crate::genes::Genes;
use crate::resource::{Resource, AGE_CAP, POS_MAX};
use crate::rng::{spec_below, spec_derive, spec_next_state, spec_next_value, spec_range, SimRng};
use crate::simulation::{
    filter_live, seed_agents, seed_resources, spec_live, spec_seed_agents, spec_seed_resources,
    step_resources_seq, MAX_POPULATION_BOUND,
};

verus! {

/// Probability (thousandths) of a spontaneous newcomer each tick.
pub const ECS_SPAWN_CHANCE: u64 = 100;

/// A position component, in thousandths.
#[derive(Clone, Copy, Debug, PartialEq, Eq, Structural)]
pub struct Position {
    pub x: i64,
    pub y: i64,
}

/// A velocity component, in thousandths.
#[derive(Clone, Copy, Debug, PartialEq, Eq, Structural)]
pub struct Velocity {
    pub dx: i64,
    pub dy: i64,
}

/// An energy component: current level and ceiling, in thousandths.
#[derive(Clone, Copy, Debug, PartialEq, Eq, Structural)]
pub struct Energy {
    pub current: i64,
    pub max: i64,
}

/// An age component, in milliseconds.
#[derive(Clone, Copy, Debug, PartialEq, Eq, Structural)]
pub struct Age {
    pub value: i64,
}

/// The behaviour states, as stored in the behaviour column.
#[derive(Clone, Copy, Debug, PartialEq, Eq, Structural)]
pub enum AgentStateEnum {
    Seeking,
    Hunting,
    Feeding,
    Reproducing,
    Fighting,
    Fleeing,
}

/// The behaviour record component.
#[derive(Clone, Copy, Debug, PartialEq, Eq, Structural)]
pub struct AgentState {
    pub state: AgentStateEnum,
    pub target_x: Option<i64>,
    pub target_y: Option<i64>,
    pub last_reproduction: i64,
    pub kills: u32,
    pub generation: u32,
}

/// The column state mapped onto the row state machine.
pub open spec fn spec_state_core(e: AgentStateEnum) -> crate::agent::AgentState {
    match e {
        AgentStateEnum::Seeking => crate::agent::AgentState::Seeking,
        AgentStateEnum::Hunting => crate::agent::AgentState::Hunting,
        AgentStateEnum::Feeding => crate::agent::AgentState::Feeding,
        AgentStateEnum::Reproducing => crate::agent::AgentState::Reproducing,
        AgentStateEnum::Fighting => crate::agent::AgentState::Fighting,
        AgentStateEnum::Fleeing => crate::agent::AgentState::Fleeing,
    }
}

/// The row state machine mapped back onto the column state.
pub open spec fn spec_state_col(e: crate::agent::AgentState) -> AgentStateEnum {
    match e {
        crate::agent::AgentState::Seeking => AgentStateEnum::Seeking,
        crate::agent::AgentState::Hunting => AgentStateEnum::Hunting,
        crate::agent::AgentState::Feeding => AgentStateEnum::Feeding,
        crate::agent::AgentState::Reproducing => AgentStateEnum::Reproducing,
        crate::agent::AgentState::Fighting => AgentStateEnum::Fighting,
        crate::agent::AgentState::Fleeing => AgentStateEnum::Fleeing,
    }
}

/// Maps a column state onto the row state machine.
fn state_core(e: AgentStateEnum) -> (r: crate::agent::AgentState)
    ensures
        r == spec_state_core(e),
{
    match e {
        AgentStateEnum::Seeking => crate::agent::AgentState::Seeking,
        AgentStateEnum::Hunting => crate::agent::AgentState::Hunting,
        AgentStateEnum::Feeding => crate::agent::AgentState::Feeding,
        AgentStateEnum::Reproducing => crate::agent::AgentState::Reproducing,
        AgentStateEnum::Fighting => crate::agent::AgentState::Fighting,
        AgentStateEnum::Fleeing => crate::agent::AgentState::Fleeing,
    }
}

/// Maps a row state back onto the column state.
fn state_col(e: crate::agent::AgentState) -> (r: AgentStateEnum)
    ensures
        r == spec_state_col(e),
{
    match e {
        crate::agent::AgentState::Seeking => AgentStateEnum::Seeking,
        crate::agent::AgentState::Hunting => AgentStateEnum::Hunting,
        crate::agent::AgentState::Feeding => AgentStateEnum::Feeding,
        crate::agent::AgentState::Reproducing => AgentStateEnum::Reproducing,
        crate::agent::AgentState::Fighting => AgentStateEnum::Fighting,
        crate::agent::AgentState::Fleeing => AgentStateEnum::Fleeing,
    }
}

/// The row view of entity `i`, assembled from the columns.
pub open spec fn spec_row(
    positions: Seq<Position>,
    velocities: Seq<Velocity>,
    energies: Seq<Energy>,
    ages: Seq<Age>,
    genomes: Seq<Genes>,
    states: Seq<AgentState>,
    i: int,
) -> Agent {
    Agent {
        id: i as u64,
        x: positions[i].x,
        y: positions[i].y,
        dx: velocities[i].dx,
        dy: velocities[i].dy,
        energy: energies[i].current,
        max_energy: energies[i].max,
        age: ages[i].value,
        genes: genomes[i],
        target_x: states[i].target_x,
        target_y: states[i].target_y,
        state: spec_state_core(states[i].state),
        last_reproduction: states[i].last_reproduction,
        kills: states[i].kills,
        generation: states[i].generation,
        death_fade: 0,
        death_reason: None,
        is_dying: false,
        spawn_fade: 1000,
    }
}

/// All row views.
pub open spec fn spec_rows(
    positions: Seq<Position>,
    velocities: Seq<Velocity>,
    energies: Seq<Energy>,
    ages: Seq<Age>,
    genomes: Seq<Genes>,
    states: Seq<AgentState>,
) -> Seq<Agent> {
    Seq::new(
        positions.len(),
        |i: int| spec_row(positions, velocities, energies, ages, genomes, states, i),
    )
}

/// One row stepped by a tick: bookkeeping and death checks as in the flat
/// engine, then the leaner columnar behaviour — chase the best available
/// resource in sense range or wander — and the common movement phase.
pub open spec fn spec_ecs_row_step(
    a: Agent,
    resources: Seq<Resource>,
    dt: i64,
    w: i64,
    h: i64,
    s: u64,
) -> (Agent, u64) {
    let p = a.spec_pre_step(dt, w, h);
    if p.1 {
        (p.0, s)
    } else {
        let b = crate::agent::spec_resource_scan(p.0, resources, 0, spec_no_target());
        if b.has {
            let m = Agent {
                target_x: Some(b.tx),
                target_y: Some(b.ty),
                state: crate::agent::AgentState::Hunting,
                ..p.0
            }.spec_move(dt, w, h, s);
            (m.0, m.1)
        } else {
            let hd = crate::agent::spec_heading(s, p.0.genes.speed);
            let m = Agent { dx: hd.0, dy: hd.1, ..p.0 }.spec_move(dt, w, h, hd.2);
            (m.0, m.1)
        }
    }
}

/// The whole columnar agent pass, each row on its own derived stream.
pub open spec fn spec_ecs_pass(
    rows: Seq<Agent>,
    resources: Seq<Resource>,
    dt: i64,
    w: i64,
    h: i64,
    seed: u64,
) -> Seq<Agent> {
    Seq::new(
        rows.len(),
        |i: int| spec_ecs_row_step(rows[i], resources, dt, w, h, spec_derive(seed, i as u64)).0,
    )
}

/// Steps one row.
fn ecs_row_step(a: &Agent, resources: &Vec<Resource>, dt: i64, w: i64, h: i64, rng: &mut SimRng) -> (r: Agent)
    requires
        a.wf(),
        a.x <= w,
        a.y <= h,
        1 <= dt <= 100,
        1000 <= w <= POS_MAX,
        1000 <= h <= POS_MAX,
        forall|k: int| 0 <= k < resources@.len() ==> (#[trigger] resources@[k]).wf(),
    ensures
        r == spec_ecs_row_step(*a, resources@, dt, w, h, old(rng).state).0,
        final(rng).state == spec_ecs_row_step(*a, resources@, dt, w, h, old(rng).state).1,
        r.wf(),
        r.x <= w,
        r.y <= h,
{
    let mut c = *a;
    if c.pre_step(dt, w, h) {
        return c;
    }
    let b = resource_scan(&c, resources, no_target());
    let acted = if b.has {
        Agent {
            target_x: Some(b.tx),
            target_y: Some(b.ty),
            state: crate::agent::AgentState::Hunting,
            ..c
        }
    } else {
        let hd = random_heading(c.genes.speed, rng);
        Agent { dx: hd.0, dy: hd.1, ..c }
    };
    acted.move_agent(dt, w, h, rng)
}

/// The position column of a sequence of rows.
pub open spec fn spec_positions_of(rows: Seq<Agent>) -> Seq<Position> {
    Seq::new(rows.len(), |i: int| Position { x: rows[i].x, y: rows[i].y })
}

/// The velocity column of a sequence of rows.
pub open spec fn spec_velocities_of(rows: Seq<Agent>) -> Seq<Velocity> {
    Seq::new(rows.len(), |i: int| Velocity { dx: rows[i].dx, dy: rows[i].dy })
}

/// The energy column of a sequence of rows.
pub open spec fn spec_energies_of(rows: Seq<Agent>) -> Seq<Energy> {
    Seq::new(rows.len(), |i: int| Energy { current: rows[i].energy, max: rows[i].max_energy })
}

/// The age column of a sequence of rows.
pub open spec fn spec_ages_of(rows: Seq<Agent>) -> Seq<Age> {
    Seq::new(rows.len(), |i: int| Age { value: rows[i].age })
}

/// The genome column of a sequence of rows.
pub open spec fn spec_genomes_of(rows: Seq<Agent>) -> Seq<Genes> {
    Seq::new(rows.len(), |i: int| rows[i].genes)
}

/// The behaviour column of a sequence of rows.
pub open spec fn spec_states_of(rows: Seq<Agent>) -> Seq<AgentState> {
    Seq::new(
        rows.len(),
        |i: int|
            AgentState {
                state: spec_state_col(rows[i].state),
                target_x: rows[i].target_x,
                target_y: rows[i].target_y,
                last_reproduction: rows[i].last_reproduction,
                kills: rows[i].kills,
                generation: rows[i].generation,
            },
    )
}

/// Rows as the columns re-present them: identities renumbered by storage
/// order and the cosmetic fade fields at their stored constants. Scattering
/// rows into the columns and assembling them again yields exactly this.
pub open spec fn spec_normalized_rows(rows: Seq<Agent>) -> Seq<Agent> {
    spec_rows(
        spec_positions_of(rows),
        spec_velocities_of(rows),
        spec_energies_of(rows),
        spec_ages_of(rows),
        spec_genomes_of(rows),
        spec_states_of(rows),
    )
}

/// One whole columnar tick as a function of the rows, the resources, the
/// timers and the stream state: resources step, agents step against the
/// updated resources, the dead leave, a newcomer may drop in under the cap,
/// and the resource spawn timer runs.
pub open spec fn spec_ecs_tick(
    rows: Seq<Agent>,
    resources: Seq<Resource>,
    w: i64,
    h: i64,
    max_agents: usize,
    max_resources: usize,
    spawn_interval: i64,
    dt: i64,
    timer: i64,
    s: u64,
) -> (Seq<Agent>, Seq<Resource>, int, u64) {
    let res1 = resources.map_values(|r: Resource| r.spec_step(dt));
    let seed = spec_next_value(s);
    let s1 = spec_next_state(s);
    let stepped = spec_ecs_pass(rows, res1, dt, w, h, seed);
    let live = spec_live(stepped, 0);
    let newcomer = live.len() < max_agents;
    let coin = spec_below(s1, 1000) < ECS_SPAWN_CHANCE;
    let sa = spec_next_state(s1);
    let x = spec_range(sa, 0, w);
    let sb = spec_next_state(sa);
    let y = spec_range(sb, 0, h);
    let sc = spec_next_state(sb);
    let g = Genes::spec_random(sc);
    let a = Agent::spec_new(g.1, live.len() as u64, x, y, g.0, 0);
    let rows2 = if newcomer && coin {
        live.push(a.0)
    } else {
        live
    };
    let s2 = if newcomer && coin {
        a.1
    } else if newcomer {
        sa
    } else {
        s1
    };
    let t0: int = if timer + dt > AGE_CAP {
        AGE_CAP as int
    } else {
        timer + dt
    };
    let spawnr = t0 > spawn_interval && res1.len() < max_resources;
    let x2 = spec_range(s2, 0, w);
    let sd = spec_next_state(s2);
    let y2 = spec_range(sd, 0, h);
    let se = spec_next_state(sd);
    let nr = Resource::spec_new(se, x2, y2);
    let res2 = if spawnr {
        res1.push(nr.0)
    } else {
        res1
    };
    let timer2: int = if spawnr {
        0
    } else {
        t0
    };
    let s3 = if spawnr {
        nr.1
    } else {
        s2
    };
    (rows2, res2, timer2, s3)
}

/// The columnar world: one column per component, kept in lockstep, plus the
/// resources and the stream state.
pub struct EcsWorld {
    pub positions: Vec<Position>,
    pub velocities: Vec<Velocity>,
    pub energies: Vec<Energy>,
    pub ages: Vec<Age>,
    pub genomes: Vec<Genes>,
    pub states: Vec<AgentState>,
    pub resources: Vec<Resource>,
    pub canvas_width: i64,
    pub canvas_height: i64,
    pub max_agents: usize,
    pub max_resources: usize,
    pub initial_agents: usize,
    pub initial_resources: usize,
    pub resource_spawn_timer: i64,
    pub resource_spawn_interval: i64,
    pub tick_ms: i64,
    pub rng: SimRng,
}

impl EcsWorld {
    /// The number of live entities.
    pub open spec fn n(self) -> int {
        self.positions@.len() as int
    }

    /// The row views of all entities.
    pub open spec fn rows(self) -> Seq<Agent> {
        spec_rows(
            self.positions@,
            self.velocities@,
            self.energies@,
            self.ages@,
            self.genomes@,
            self.states@,
        )
    }

    /// The world invariant: the columns run in lockstep, every row view and
    /// resource is well-formed and inside the world, and the populations stay
    /// under their caps.
    pub open spec fn wf(self) -> bool {
        &&& self.velocities@.len() == self.n()
        &&& self.energies@.len() == self.n()
        &&& self.ages@.len() == self.n()
        &&& self.genomes@.len() == self.n()
        &&& self.states@.len() == self.n()
        &&& self.n() <= self.max_agents
        &&& self.resources@.len() <= self.max_resources
        &&& 1000 <= self.canvas_width <= POS_MAX
        &&& 1000 <= self.canvas_height <= POS_MAX
        &&& 1 <= self.max_agents <= MAX_POPULATION_BOUND
        &&& 1 <= self.max_resources <= MAX_POPULATION_BOUND
        &&& self.initial_agents <= self.max_agents
        &&& self.initial_resources <= self.max_resources
        &&& 1 <= self.tick_ms <= 100
        &&& 1 <= self.resource_spawn_interval <= 86400000
        &&& 0 <= self.resource_spawn_timer <= AGE_CAP
        &&& (forall|i: int|
            0 <= i < self.n() ==> (#[trigger] self.rows()[i]).wf() && self.rows()[i].x
                <= self.canvas_width && self.rows()[i].y <= self.canvas_height)
        &&& (forall|k: int|
            0 <= k < self.resources@.len() ==> (#[trigger] self.resources@[k]).wf()
                && self.resources@[k].x <= self.canvas_width && self.resources@[k].y
                <= self.canvas_height)
    }

    /// Assembles the row views.
    fn assemble_rows(&self) -> (out: Vec<Agent>)
        requires
            self.wf(),
        ensures
            out@ == self.rows(),
            out@.len() == self.n(),
    {
        let n = self.positions.len();
        let mut out: Vec<Agent> = Vec::new();
        let mut i: usize = 0;
        while i < n
            invariant
                i <= n,
                n == self.n(),
                self.wf(),
                out@.len() == i,
                forall|k: int| 0 <= k < i ==> (#[trigger] out@[k]) == self.rows()[k],
            decreases n - i,
        {
            let st = self.states[i];
            let a = Agent {
                id: i as u64,
                x: self.positions[i].x,
                y: self.positions[i].y,
                dx: self.velocities[i].dx,
                dy: self.velocities[i].dy,
                energy: self.energies[i].current,
                max_energy: self.energies[i].max,
                age: self.ages[i].value,
                genes: self.genomes[i],
                target_x: st.target_x,
                target_y: st.target_y,
                state: state_core(st.state),
                last_reproduction: st.last_reproduction,
                kills: st.kills,
                generation: st.generation,
                death_fade: 0,
                death_reason: None,
                is_dying: false,
                spawn_fade: 1000,
            };
            out.push(a);
            i = i + 1;
        }
        proof {
            assert(out@ =~= self.rows());
        }
        out
    }

    /// Stores the rows back into the columns; nothing else changes.
    fn scatter_rows(&mut self, rows: &Vec<Agent>)
        ensures
            final(self).positions@ == spec_positions_of(rows@),
            final(self).velocities@ == spec_velocities_of(rows@),
            final(self).energies@ == spec_energies_of(rows@),
            final(self).ages@ == spec_ages_of(rows@),
            final(self).genomes@ == spec_genomes_of(rows@),
            final(self).states@ == spec_states_of(rows@),
            *final(self) == (EcsWorld {
                positions: final(self).positions,
                velocities: final(self).velocities,
                energies: final(self).energies,
                ages: final(self).ages,
                genomes: final(self).genomes,
                states: final(self).states,
                ..*old(self)
            }),
    {
        let n = rows.len();
        let mut positions: Vec<Position> = Vec::new();
        let mut velocities: Vec<Velocity> = Vec::new();
        let mut energies: Vec<Energy> = Vec::new();
        let mut ages: Vec<Age> = Vec::new();
        let mut genomes: Vec<Genes> = Vec::new();
        let mut states: Vec<AgentState> = Vec::new();
        let mut i: usize = 0;
        while i < n
            invariant
                i <= n,
                n == rows@.len(),
                positions@.len() == i,
                velocities@.len() == i,
                energies@.len() == i,
                ages@.len() == i,
                genomes@.len() == i,
                states@.len() == i,
                forall|k: int|
                    0 <= k < i ==> (#[trigger] positions@[k]) == (Position {
                        x: rows@[k].x,
                        y: rows@[k].y,
                    }),
                forall|k: int|
                    0 <= k < i ==> (#[trigger] velocities@[k]) == (Velocity {
                        dx: rows@[k].dx,
                        dy: rows@[k].dy,
                    }),
                forall|k: int|
                    0 <= k < i ==> (#[trigger] energies@[k]) == (Energy {
                        current: rows@[k].energy,
                        max: rows@[k].max_energy,
                    }),
                forall|k: int| 0 <= k < i ==> (#[trigger] ages@[k]) == (Age { value: rows@[k].age }),
                forall|k: int| 0 <= k < i ==> (#[trigger] genomes@[k]) == rows@[k].genes,
                forall|k: int|
                    0 <= k < i ==> (#[trigger] states@[k]) == (AgentState {
                        state: spec_state_col(rows@[k].state),
                        target_x: rows@[k].target_x,
                        target_y: rows@[k].target_y,
                        last_reproduction: rows@[k].last_reproduction,
                        kills: rows@[k].kills,
                        generation: rows@[k].generation,
                    }),
            decreases n - i,
        {
            let a = rows[i];
            positions.push(Position { x: a.x, y: a.y });
            velocities.push(Velocity { dx: a.dx, dy: a.dy });
            energies.push(Energy { current: a.energy, max: a.max_energy });
            ages.push(Age { value: a.age });
            genomes.push(a.genes);
            states.push(
                AgentState {
                    state: state_col(a.state),
                    target_x: a.target_x,
                    target_y: a.target_y,
                    last_reproduction: a.last_reproduction,
                    kills: a.kills,
                    generation: a.generation,
                },
            );
            i = i + 1;
        }
        proof {
            assert(positions@ =~= spec_positions_of(rows@));
            assert(velocities@ =~= spec_velocities_of(rows@));
            assert(energies@ =~= spec_energies_of(rows@));
            assert(ages@ =~= spec_ages_of(rows@));
            assert(genomes@ =~= spec_genomes_of(rows@));
            assert(states@ =~= spec_states_of(rows@));
        }
        self.positions = positions;
        self.velocities = velocities;
        self.energies = energies;
        self.ages = ages;
        self.genomes = genomes;
        self.states = states;
    }
}

impl EcsWorld {
    /// A fresh columnar world on a fixed seed.
    pub fn with_seed(canvas_width: i64, canvas_height: i64, seed: u64) -> (r: EcsWorld)
        requires
            1000 <= canvas_width <= POS_MAX,
            1000 <= canvas_height <= POS_MAX,
        ensures
            r.wf(),
            r.canvas_width == canvas_width,
            r.canvas_height == canvas_height,
            r.n() == r.initial_agents,
            r.resources@.len() == r.initial_resources,
            r.initial_agents == 100,
            r.initial_resources == 150,
            ({
                let sa = spec_seed_agents(100, canvas_width, canvas_height, seed, 0, Seq::empty());
                let sr = spec_seed_resources(150, canvas_width, canvas_height, sa.1, Seq::empty());
                r.positions@ == spec_positions_of(sa.0) && r.resources@ == sr.0 && r.rng.state
                    == sr.1
            }),
    {
        let mut w = EcsWorld {
            positions: Vec::new(),
            velocities: Vec::new(),
            energies: Vec::new(),
            ages: Vec::new(),
            genomes: Vec::new(),
            states: Vec::new(),
            resources: Vec::new(),
            canvas_width,
            canvas_height,
            max_agents: 10000,
            max_resources: 1500,
            initial_agents: 100,
            initial_resources: 150,
            resource_spawn_timer: 0,
            resource_spawn_interval: 500,
            tick_ms: 16,
            rng: SimRng::new(seed),
        };
        w.spawn_initial_population();
        w
    }

    /// A fresh columnar world seeded from system entropy.
    pub fn new(canvas_width: i64, canvas_height: i64) -> (r: EcsWorld)
        requires
            1000 <= canvas_width <= POS_MAX,
            1000 <= canvas_height <= POS_MAX,
        ensures
            r.wf(),
            r.canvas_width == canvas_width,
            r.canvas_height == canvas_height,
            r.n() == r.initial_agents,
            r.resources@.len() == r.initial_resources,
    {
        Self::with_seed(canvas_width, canvas_height, crate::simulation::entropy_seed())
    }

    /// A fresh columnar world built from a configuration, on a fixed seed.
    pub fn from_config(cfg: &crate::simulation::SimulationConfig, seed: u64) -> (r: EcsWorld)
        requires
            cfg.wf(),
        ensures
            r.wf(),
            r.canvas_width == cfg.width,
            r.canvas_height == cfg.height,
            r.max_agents == cfg.max_agents,
            r.max_resources == cfg.max_resources,
            r.initial_agents == cfg.initial_agents,
            r.initial_resources == cfg.initial_resources,
            r.n() == cfg.initial_agents,
            r.resources@.len() == cfg.initial_resources,
    {
        let mut w = EcsWorld {
            positions: Vec::new(),
            velocities: Vec::new(),
            energies: Vec::new(),
            ages: Vec::new(),
            genomes: Vec::new(),
            states: Vec::new(),
            resources: Vec::new(),
            canvas_width: cfg.width,
            canvas_height: cfg.height,
            max_agents: cfg.max_agents,
            max_resources: cfg.max_resources,
            initial_agents: cfg.initial_agents,
            initial_resources: cfg.initial_resources,
            resource_spawn_timer: 0,
            resource_spawn_interval: cfg.resource_spawn_interval,
            tick_ms: cfg.tick_ms,
            rng: SimRng::new(seed),
        };
        w.spawn_initial_population();
        w
    }

    /// Spawns the configured initial population into an empty world.
    pub fn spawn_initial_population(&mut self)
        requires
            old(self).wf(),
            old(self).n() == 0,
            old(self).resources@.len() == 0,
        ensures
            final(self).wf(),
            final(self).n() == old(self).initial_agents,
            final(self).resources@.len() == old(self).initial_resources,
            ({
                let sa = spec_seed_agents(
                    old(self).initial_agents as int,
                    old(self).canvas_width,
                    old(self).canvas_height,
                    old(self).rng.state,
                    0,
                    Seq::empty(),
                );
                let sr = spec_seed_resources(
                    old(self).initial_resources as int,
                    old(self).canvas_width,
                    old(self).canvas_height,
                    sa.1,
                    Seq::empty(),
                );
                &&& final(self).positions@ == spec_positions_of(sa.0)
                &&& final(self).velocities@ == spec_velocities_of(sa.0)
                &&& final(self).energies@ == spec_energies_of(sa.0)
                &&& final(self).ages@ == spec_ages_of(sa.0)
                &&& final(self).genomes@ == spec_genomes_of(sa.0)
                &&& final(self).states@ == spec_states_of(sa.0)
                &&& final(self).resources@ == sr.0
                &&& final(self).rng.state == sr.1
            }),
            *final(self) == (EcsWorld {
                positions: final(self).positions,
                velocities: final(self).velocities,
                energies: final(self).energies,
                ages: final(self).ages,
                genomes: final(self).genomes,
                states: final(self).states,
                resources: final(self).resources,
                rng: final(self).rng,
                ..*old(self)
            }),
    {
        let mut rows: Vec<Agent> = Vec::new();
        let mut nid: u64 = 0;
        seed_agents(
            self.initial_agents,
            self.canvas_width,
            self.canvas_height,
            &mut self.rng,
            &mut nid,
            &mut rows,
        );
        let mut res: Vec<Resource> = Vec::new();
        seed_resources(
            self.initial_resources,
            self.canvas_width,
            self.canvas_height,
            &mut self.rng,
            &mut res,
        );
        self.resources = res;
        self.scatter_rows(&rows);
    }

    /// The number of live agents.
    pub fn get_agent_count(&self) -> (r: usize)
        ensures
            r == self.n(),
    {
        self.positions.len()
    }

    /// The number of resources.
    pub fn get_resource_count(&self) -> (r: usize)
        ensures
            r == self.resources@.len(),
    {
        self.resources.len()
    }

    /// Row snapshots of all live agents, for rendering and diagnostics.
    pub fn get_agents(&self) -> (out: Vec<Agent>)
        requires
            self.wf(),
        ensures
            out@ == self.rows(),
    {
        self.assemble_rows()
    }

    /// Snapshots of all resources.
    pub fn get_resources(&self) -> (out: Vec<Resource>)
        ensures
            out@ == self.resources@,
    {
        let mut out: Vec<Resource> = Vec::new();
        let mut i: usize = 0;
        while i < self.resources.len()
            invariant
                i <= self.resources@.len(),
                out@.len() == i,
                forall|k: int| 0 <= k < i ==> (#[trigger] out@[k]) == self.resources@[k],
            decreases self.resources@.len() - i,
        {
            out.push(self.resources[i]);
            i = i + 1;
        }
        proof {
            assert(out@ =~= self.resources@);
        }
        out
    }

    /// Injects a new agent at `(x, y)` with a fresh random genome, if under
    /// the population cap; silently does nothing otherwise.
    pub fn add_agent(&mut self, x: i64, y: i64)
        requires
            old(self).wf(),
            0 <= x <= old(self).canvas_width,
            0 <= y <= old(self).canvas_height,
        ensures
            final(self).wf(),
            final(self).n() <= old(self).max_agents,
            old(self).n() < old(self).max_agents ==> ({
                let g = Genes::spec_random(old(self).rng.state);
                let a = Agent::spec_new(g.1, old(self).n() as u64, x, y, g.0, 0);
                &&& final(self).positions@ == old(self).positions@.push(Position { x, y })
                &&& final(self).velocities@ == old(self).velocities@.push(
                    Velocity { dx: a.0.dx, dy: a.0.dy },
                )
                &&& final(self).energies@ == old(self).energies@.push(
                    Energy { current: crate::agent::AGENT_START_ENERGY, max: crate::agent::AGENT_MAX_ENERGY },
                )
                &&& final(self).ages@ == old(self).ages@.push(Age { value: 0 })
                &&& final(self).genomes@ == old(self).genomes@.push(g.0)
                &&& final(self).states@ == old(self).states@.push(
                    AgentState {
                        state: AgentStateEnum::Seeking,
                        target_x: None,
                        target_y: None,
                        last_reproduction: 0,
                        kills: 0,
                        generation: 0,
                    },
                )
                &&& final(self).rng.state == a.1
            }),
            old(self).n() >= old(self).max_agents ==> *final(self) == *old(self),
            *final(self) == (EcsWorld {
                positions: final(self).positions,
                velocities: final(self).velocities,
                energies: final(self).energies,
                ages: final(self).ages,
                genomes: final(self).genomes,
                states: final(self).states,
                rng: final(self).rng,
                ..*old(self)
            }),
    {
        if self.positions.len() < self.max_agents {
            let g = Genes::new(&mut self.rng);
            let a = Agent::new(
                self.positions.len() as u64,
                x,
                y,
                g,
                0,
                &mut self.rng,
            );
            let ghost pre = *self;
            self.positions.push(Position { x: a.x, y: a.y });
            self.velocities.push(Velocity { dx: a.dx, dy: a.dy });
            self.energies.push(Energy { current: a.energy, max: a.max_energy });
            self.ages.push(Age { value: a.age });
            self.genomes.push(a.genes);
            let st = state_col(a.state);
            self.states.push(
                AgentState {
                    state: st,
                    target_x: a.target_x,
                    target_y: a.target_y,
                    last_reproduction: a.last_reproduction,
                    kills: a.kills,
                    generation: a.generation,
                },
            );
            proof {
                assert forall|i: int|
                    0 <= i < self.n() implies (#[trigger] self.rows()[i]).wf() && self.rows()[i].x
                    <= self.canvas_width && self.rows()[i].y <= self.canvas_height by {
                    if i < pre.n() {
                        assert(self.rows()[i] == pre.rows()[i]);
                    } else {
                        assert(self.rows()[i].x == a.x && self.rows()[i].y == a.y);
                        assert(self.rows()[i].genes == a.genes);
                        assert(self.rows()[i].energy == a.energy && self.rows()[i].max_energy
                            == a.max_energy);
                        assert(self.rows()[i].wf());
                    }
                }
            }
        }
    }

    /// Injects a new resource at `(x, y)`, if under the population cap;
    /// silently does nothing otherwise.
    pub fn add_resource(&mut self, x: i64, y: i64)
        requires
            old(self).wf(),
            0 <= x <= old(self).canvas_width,
            0 <= y <= old(self).canvas_height,
        ensures
            final(self).wf(),
            final(self).resources@.len() <= old(self).max_resources,
            old(self).resources@.len() < old(self).max_resources ==> final(self).resources@
                == old(self).resources@.push(
                Resource::spec_new(old(self).rng.state, x, y).0,
            ),
            old(self).resources@.len() >= old(self).max_resources ==> *final(self) == *old(self),
            *final(self) == (EcsWorld {
                resources: final(self).resources,
                rng: final(self).rng,
                ..*old(self)
            }),
    {
        if self.resources.len() < self.max_resources {
            let r = Resource::new(x, y, &mut self.rng);
            self.resources.push(r);
        }
    }

    /// Clears all entities and re-seeds the initial population; the initial
    /// counts depend on the configuration alone.
    pub fn reset(&mut self)
        requires
            old(self).wf(),
        ensures
            final(self).wf(),
            final(self).n() == old(self).initial_agents,
            final(self).resources@.len() == old(self).initial_resources,
            final(self).resource_spawn_timer == 0,
            *final(self) == (EcsWorld {
                positions: final(self).positions,
                velocities: final(self).velocities,
                energies: final(self).energies,
                ages: final(self).ages,
                genomes: final(self).genomes,
                states: final(self).states,
                resources: final(self).resources,
                rng: final(self).rng,
                resource_spawn_timer: 0,
                ..*old(self)
            }),
    {
        self.positions = Vec::new();
        self.velocities = Vec::new();
        self.energies = Vec::new();
        self.ages = Vec::new();
        self.genomes = Vec::new();
        self.states = Vec::new();
        self.resources = Vec::new();
        self.resource_spawn_timer = 0;
        self.spawn_initial_population();
    }

    /// Advances the columnar world by one tick: an exact function of the
    /// columns, the resources, the timer and the stream state. The
    /// population never exceeds its cap and every surviving agent is alive.
    #[verifier::rlimit(100)]
    pub fn update(&mut self)
        requires
            old(self).wf(),
        ensures
            final(self).wf(),
            ({
                let t = spec_ecs_tick(
                    old(self).rows(),
                    old(self).resources@,
                    old(self).canvas_width,
                    old(self).canvas_height,
                    old(self).max_agents,
                    old(self).max_resources,
                    old(self).resource_spawn_interval,
                    old(self).tick_ms,
                    old(self).resource_spawn_timer,
                    old(self).rng.state,
                );
                &&& final(self).positions@ == spec_positions_of(t.0)
                &&& final(self).velocities@ == spec_velocities_of(t.0)
                &&& final(self).energies@ == spec_energies_of(t.0)
                &&& final(self).ages@ == spec_ages_of(t.0)
                &&& final(self).genomes@ == spec_genomes_of(t.0)
                &&& final(self).states@ == spec_states_of(t.0)
                &&& final(self).resources@ == t.1
                &&& final(self).resource_spawn_timer == t.2
                &&& final(self).rng.state == t.3
            }),
            final(self).n() <= old(self).max_agents,
            *final(self) == (EcsWorld {
                positions: final(self).positions,
                velocities: final(self).velocities,
                energies: final(self).energies,
                ages: final(self).ages,
                genomes: final(self).genomes,
                states: final(self).states,
                resources: final(self).resources,
                rng: final(self).rng,
                resource_spawn_timer: final(self).resource_spawn_timer,
                ..*old(self)
            }),
    {
        let dt = self.tick_ms;
        let w = self.canvas_width;
        let h = self.canvas_height;
        let rows = self.assemble_rows();
        let res1 = step_resources_seq(&self.resources, dt);
        self.resources = res1;
        let seed = self.rng.next_u64();
        let mut stepped: Vec<Agent> = Vec::new();
        let mut i: usize = 0;
        while i < rows.len()
            invariant
                i <= rows@.len(),
                stepped@.len() == i,
                1 <= dt <= 100,
                1000 <= w <= POS_MAX,
                1000 <= h <= POS_MAX,
                forall|k: int|
                    0 <= k < rows@.len() ==> (#[trigger] rows@[k]).wf() && rows@[k].x <= w
                        && rows@[k].y <= h,
                forall|k: int|
                    0 <= k < self.resources@.len() ==> (#[trigger] self.resources@[k]).wf(),
                forall|k: int|
                    0 <= k < i ==> (#[trigger] stepped@[k]) == spec_ecs_row_step(
                        rows@[k],
                        self.resources@,
                        dt,
                        w,
                        h,
                        spec_derive(seed, k as u64),
                    ).0,
                forall|k: int|
                    0 <= k < i ==> (#[trigger] stepped@[k]).wf() && stepped@[k].x <= w
                        && stepped@[k].y <= h,
            decreases rows@.len() - i,
        {
            let mut prng = SimRng::derived(seed, i as u64);
            let nr = ecs_row_step(&rows[i], &self.resources, dt, w, h, &mut prng);
            stepped.push(nr);
            i = i + 1;
        }
        proof {
            assert(stepped@ =~= spec_ecs_pass(rows@, self.resources@, dt, w, h, seed));
        }
        let live = filter_live(&stepped, w, h);
        let mut final_rows = live;
        if final_rows.len() < self.max_agents {
            let coin = self.rng.chance(ECS_SPAWN_CHANCE);
            if coin {
                let x = self.rng.next_range(0, w);
                let y = self.rng.next_range(0, h);
                let g = Genes::new(&mut self.rng);
                let a = Agent::new(final_rows.len() as u64, x, y, g, 0, &mut self.rng);
                final_rows.push(a);
            }
        }
        let t0 = if self.resource_spawn_timer + dt > AGE_CAP {
            AGE_CAP
        } else {
            self.resource_spawn_timer + dt
        };
        if t0 > self.resource_spawn_interval && self.resources.len() < self.max_resources {
            let x2 = self.rng.next_range(0, w);
            let y2 = self.rng.next_range(0, h);
            let nr = Resource::new(x2, y2, &mut self.rng);
            self.resources.push(nr);
            self.resource_spawn_timer = 0;
        } else {
            self.resource_spawn_timer = t0;
        }
        self.scatter_rows(&final_rows);
    }
}

} // verus!

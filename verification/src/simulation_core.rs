//! One interface over the two simulation engines.
//!
//! The flat (array-of-structs) engine and the columnar (table-style) engine
//! are both valid implementations of the same contract: ticks preserve the
//! engine invariant, populations never exceed the configured caps, resets
//! re-seed exactly the configured initial counts, and published statistics
//! report the live population. A configuration flag selects the engine at
//! construction; callers depend only on the interface.

use vstd::prelude::*;

use crate::agent::{Agent, AGENT_MAX_ENERGY, AGENT_START_ENERGY};
use crate::ecs::{spec_ecs_tick, spec_normalized_rows, EcsWorld};
use crate::genes::Genes;
use crate::resource::Resource;
use crate::simulation::{
    compute_stats, spec_stats, spec_tick, Simulation, SimulationConfig, SimulationStats,
};

verus! {

/// The contract every simulation engine satisfies.
pub trait SimulationEngine: Sized {
    /// The engine's internal invariant.
    spec fn inv(&self) -> bool;

    /// The number of live agents.
    spec fn spec_agent_count(&self) -> int;

    /// The number of resources.
    spec fn spec_resource_count(&self) -> int;

    /// The configuration the engine was built from.
    spec fn spec_config(&self) -> SimulationConfig;

    /// The live agents, as rows, in storage order.
    spec fn spec_agents(&self) -> Seq<Agent>;

    /// The resources, in storage order.
    spec fn spec_resources(&self) -> Seq<Resource>;

    /// The stream state the engine's next draw will use.
    spec fn spec_rng_state(&self) -> u64;

    /// The agents and resources one tick of this engine's pipeline produces
    /// from the current state.
    spec fn spec_tick_result(&self) -> (Seq<Agent>, Seq<Resource>);

    /// Advances the simulation one tick: the new agents and resources are
    /// exactly what the engine's tick function produces from the old state,
    /// the invariant is preserved, the population never exceeds the
    /// configured cap, and the configuration is unchanged.
    fn update(&mut self)
        requires
            old(self).inv(),
        ensures
            final(self).inv(),
            final(self).spec_agents() == old(self).spec_tick_result().0,
            final(self).spec_resources() == old(self).spec_tick_result().1,
            final(self).spec_agent_count() <= old(self).spec_config().max_agents,
            final(self).spec_config() == old(self).spec_config(),
    ;

    /// Injects an agent at `(x, y)` if under the cap: the agent list grows by
    /// one fresh, seeking, generation-zero agent there, with the starting
    /// energy and a genome drawn from the stream; at the cap nothing changes.
    fn add_agent(&mut self, x: i64, y: i64)
        requires
            old(self).inv(),
            0 <= x <= old(self).spec_config().width,
            0 <= y <= old(self).spec_config().height,
        ensures
            final(self).inv(),
            old(self).spec_agent_count() < old(self).spec_config().max_agents ==> ({
                let g = Genes::spec_random(old(self).spec_rng_state());
                let added = final(self).spec_agents().last();
                &&& final(self).spec_agents().len() == old(self).spec_agents().len() + 1
                &&& (forall|k: int|
                    0 <= k < old(self).spec_agents().len()
                        ==> #[trigger] final(self).spec_agents()[k] == old(self).spec_agents()[k])
                &&& added.x == x
                &&& added.y == y
                &&& added.genes == g.0
                &&& added.energy == AGENT_START_ENERGY
                &&& added.max_energy == AGENT_MAX_ENERGY
                &&& added.age == 0
                &&& added.generation == 0
                &&& added.state == crate::agent::AgentState::Seeking
                &&& final(self).spec_resources() == old(self).spec_resources()
            }),
            old(self).spec_agent_count() >= old(self).spec_config().max_agents
                ==> final(self).spec_agents() == old(self).spec_agents() && final(
                self).spec_resources() == old(self).spec_resources(),
            final(self).spec_agent_count() <= old(self).spec_config().max_agents,
            final(self).spec_config() == old(self).spec_config(),
    ;

    /// Injects a resource at `(x, y)` if under the cap: the resource list is
    /// the old list plus one fresh resource drawn there from the stream; at
    /// the cap nothing changes.
    fn add_resource(&mut self, x: i64, y: i64)
        requires
            old(self).inv(),
            0 <= x <= old(self).spec_config().width,
            0 <= y <= old(self).spec_config().height,
        ensures
            final(self).inv(),
            old(self).spec_resource_count() < old(self).spec_config().max_resources
                ==> final(self).spec_resources() == old(self).spec_resources().push(
                Resource::spec_new(old(self).spec_rng_state(), x, y).0,
            ) && final(self).spec_agents() == old(self).spec_agents(),
            old(self).spec_resource_count() >= old(self).spec_config().max_resources
                ==> final(self).spec_resources() == old(self).spec_resources() && final(
                self).spec_agents() == old(self).spec_agents(),
            final(self).spec_resource_count() <= old(self).spec_config().max_resources,
            final(self).spec_config() == old(self).spec_config(),
    ;

    /// Clears all entities and re-seeds exactly the configured initial
    /// counts, whatever state the engine was in.
    fn reset(&mut self)
        requires
            old(self).inv(),
        ensures
            final(self).inv(),
            final(self).spec_agent_count() == old(self).spec_config().initial_agents,
            final(self).spec_resource_count() == old(self).spec_config().initial_resources,
            final(self).spec_config() == old(self).spec_config(),
    ;

    /// Publishes the aggregate statistics of the live population: counts,
    /// total and average energy, average trait values, highest generation,
    /// cumulative kills and average fitness, exactly as the statistics
    /// function of the live agents.
    fn get_stats(&self) -> (r: SimulationStats)
        requires
            self.inv(),
        ensures
            r == spec_stats(self.spec_agents(), self.spec_resource_count()),
            r.agent_count == self.spec_agent_count(),
            r.resource_count == self.spec_resource_count(),
    ;

    /// An immutable snapshot of every live agent, in storage order.
    fn get_agents(&self) -> (r: Vec<Agent>)
        requires
            self.inv(),
        ensures
            r@ == self.spec_agents(),
            r@.len() == self.spec_agent_count(),
    ;

    /// An immutable snapshot of every resource, in storage order.
    fn get_resources(&self) -> (r: Vec<Resource>)
        requires
            self.inv(),
        ensures
            r@ == self.spec_resources(),
            r@.len() == self.spec_resource_count(),
    ;

    /// The configuration the engine was built from.
    fn get_config(&self) -> (r: &SimulationConfig)
        requires
            self.inv(),
        ensures
            *r == self.spec_config(),
    ;
}

/// The flat engine: agents and resources in flat ordered collections, with a
/// runtime parallel-or-sequential dispatch flag.
pub struct LegacySimulationEngine {
    pub sim: Simulation,
    pub config: SimulationConfig,
}

impl LegacySimulationEngine {
    /// Builds the flat engine from a configuration, seeded from system
    /// entropy.
    pub fn new(config: SimulationConfig) -> (r: LegacySimulationEngine)
        requires
            config.wf(),
        ensures
            r.inv(),
            r.spec_config() == config,
            r.spec_agent_count() == config.initial_agents,
            r.spec_resource_count() == config.initial_resources,
    {
        let sim = Simulation::from_config(&config, crate::simulation::entropy_seed());
        LegacySimulationEngine { sim, config }
    }

    /// Builds the flat engine from a configuration on a fixed seed.
    pub fn with_seed(config: SimulationConfig, seed: u64) -> (r: LegacySimulationEngine)
        requires
            config.wf(),
        ensures
            r.inv(),
            r.spec_config() == config,
            r.spec_agent_count() == config.initial_agents,
            r.spec_resource_count() == config.initial_resources,
    {
        let sim = Simulation::from_config(&config, seed);
        LegacySimulationEngine { sim, config }
    }

    /// Whether per-entity work is dispatched to the worker pool.
    pub fn is_rayon_available(&self) -> (r: bool)
        ensures
            r == self.sim.parallel_enabled,
    {
        self.sim.is_rayon_available()
    }

    /// Hands the engine the worker-pool capability: only the dispatch flag
    /// changes.
    pub fn set_rayon_initialized(&mut self, initialized: bool)
        requires
            old(self).inv(),
        ensures
            final(self).inv(),
            final(self).sim == (Simulation { parallel_enabled: initialized, ..old(self).sim }),
            final(self).config == old(self).config,
            final(self).spec_config() == old(self).spec_config(),
            final(self).sim.parallel_enabled == initialized,
    {
        self.sim.set_rayon_initialized(initialized);
    }
}

impl SimulationEngine for LegacySimulationEngine {
    open spec fn inv(&self) -> bool {
        &&& self.sim.wf()
        &&& self.config.wf()
        &&& self.sim.width == self.config.width
        &&& self.sim.height == self.config.height
        &&& self.sim.max_agents == self.config.max_agents
        &&& self.sim.max_resources == self.config.max_resources
        &&& self.sim.initial_agents == self.config.initial_agents
        &&& self.sim.initial_resources == self.config.initial_resources
    }

    open spec fn spec_agent_count(&self) -> int {
        self.sim.agents@.len() as int
    }

    open spec fn spec_resource_count(&self) -> int {
        self.sim.resources@.len() as int
    }

    open spec fn spec_config(&self) -> SimulationConfig {
        self.config
    }

    open spec fn spec_agents(&self) -> Seq<Agent> {
        self.sim.agents@
    }

    open spec fn spec_resources(&self) -> Seq<Resource> {
        self.sim.resources@
    }

    open spec fn spec_rng_state(&self) -> u64 {
        self.sim.rng.state
    }

    open spec fn spec_tick_result(&self) -> (Seq<Agent>, Seq<Resource>) {
        let t = spec_tick(
            self.sim.agents@,
            self.sim.resources@,
            self.sim.width,
            self.sim.height,
            self.sim.max_agents,
            self.sim.max_resources,
            self.sim.resource_spawn_interval,
            self.sim.tick_ms,
            self.sim.time,
            self.sim.resource_spawn_timer,
            self.sim.rng.state,
            self.sim.next_id,
        );
        (t.0, t.1)
    }

    fn update(&mut self) {
        self.sim.update();
    }

    fn add_agent(&mut self, x: i64, y: i64) {
        self.sim.add_agent(x, y);
    }

    fn add_resource(&mut self, x: i64, y: i64) {
        self.sim.add_resource(x, y);
    }

    fn reset(&mut self) {
        self.sim.reset();
    }

    fn get_stats(&self) -> (r: SimulationStats) {
        self.sim.get_stats()
    }

    fn get_agents(&self) -> (r: Vec<Agent>) {
        let mut out: Vec<Agent> = Vec::new();
        let mut i: usize = 0;
        while i < self.sim.agents.len()
            invariant
                i <= self.sim.agents@.len(),
                out@.len() == i,
                forall|k: int| 0 <= k < i ==> (#[trigger] out@[k]) == self.sim.agents@[k],
            decreases self.sim.agents@.len() - i,
        {
            out.push(self.sim.agents[i]);
            i = i + 1;
        }
        proof {
            assert(out@ =~= self.sim.agents@);
        }
        out
    }

    fn get_resources(&self) -> (r: Vec<Resource>) {
        let mut out: Vec<Resource> = Vec::new();
        let mut i: usize = 0;
        while i < self.sim.resources.len()
            invariant
                i <= self.sim.resources@.len(),
                out@.len() == i,
                forall|k: int| 0 <= k < i ==> (#[trigger] out@[k]) == self.sim.resources@[k],
            decreases self.sim.resources@.len() - i,
        {
            out.push(self.sim.resources[i]);
            i = i + 1;
        }
        proof {
            assert(out@ =~= self.sim.resources@);
        }
        out
    }

    fn get_config(&self) -> (r: &SimulationConfig) {
        &self.config
    }
}

/// The columnar engine: component columns behind the same interface.
pub struct EcsSimulationEngine {
    pub world: EcsWorld,
    pub config: SimulationConfig,
}

impl EcsSimulationEngine {
    /// Builds the columnar engine from a configuration, seeded from system
    /// entropy.
    pub fn new(config: SimulationConfig) -> (r: EcsSimulationEngine)
        requires
            config.wf(),
        ensures
            r.inv(),
            r.spec_config() == config,
            r.spec_agent_count() == config.initial_agents,
            r.spec_resource_count() == config.initial_resources,
    {
        let world = EcsWorld::from_config(&config, crate::simulation::entropy_seed());
        EcsSimulationEngine { world, config }
    }

    /// Builds the columnar engine from a configuration on a fixed seed.
    pub fn with_seed(config: SimulationConfig, seed: u64) -> (r: EcsSimulationEngine)
        requires
            config.wf(),
        ensures
            r.inv(),
            r.spec_config() == config,
            r.spec_agent_count() == config.initial_agents,
            r.spec_resource_count() == config.initial_resources,
    {
        let world = EcsWorld::from_config(&config, seed);
        EcsSimulationEngine { world, config }
    }
}

impl SimulationEngine for EcsSimulationEngine {
    open spec fn inv(&self) -> bool {
        &&& self.world.wf()
        &&& self.config.wf()
        &&& self.world.canvas_width == self.config.width
        &&& self.world.canvas_height == self.config.height
        &&& self.world.max_agents == self.config.max_agents
        &&& self.world.max_resources == self.config.max_resources
        &&& self.world.initial_agents == self.config.initial_agents
        &&& self.world.initial_resources == self.config.initial_resources
    }

    open spec fn spec_agent_count(&self) -> int {
        self.world.n()
    }

    open spec fn spec_resource_count(&self) -> int {
        self.world.resources@.len() as int
    }

    open spec fn spec_config(&self) -> SimulationConfig {
        self.config
    }

    open spec fn spec_agents(&self) -> Seq<Agent> {
        self.world.rows()
    }

    open spec fn spec_resources(&self) -> Seq<Resource> {
        self.world.resources@
    }

    open spec fn spec_rng_state(&self) -> u64 {
        self.world.rng.state
    }

    open spec fn spec_tick_result(&self) -> (Seq<Agent>, Seq<Resource>) {
        let t = spec_ecs_tick(
            self.world.rows(),
            self.world.resources@,
            self.world.canvas_width,
            self.world.canvas_height,
            self.world.max_agents,
            self.world.max_resources,
            self.world.resource_spawn_interval,
            self.world.tick_ms,
            self.world.resource_spawn_timer,
            self.world.rng.state,
        );
        (spec_normalized_rows(t.0), t.1)
    }

    fn update(&mut self) {
        self.world.update();
    }

    fn add_agent(&mut self, x: i64, y: i64) {
        let ghost before = self.world.rows();
        let ghost n0 = self.world.n();
        self.world.add_agent(x, y);
        proof {
            if n0 < self.world.max_agents {
                assert forall|k: int| 0 <= k < n0 implies #[trigger] self.world.rows()[k]
                    == before[k] by {
                    assert(self.world.rows()[k] == before[k]);
                }
                assert(self.world.rows().last().x == x);
            }
        }
    }

    fn add_resource(&mut self, x: i64, y: i64) {
        self.world.add_resource(x, y);
    }

    fn reset(&mut self) {
        self.world.reset();
    }

    fn get_stats(&self) -> (r: SimulationStats) {
        let rows = self.world.get_agents();
        compute_stats(&rows, self.world.get_resource_count())
    }

    fn get_agents(&self) -> (r: Vec<Agent>) {
        self.world.get_agents()
    }

    fn get_resources(&self) -> (r: Vec<Resource>) {
        self.world.get_resources()
    }

    fn get_config(&self) -> (r: &SimulationConfig) {
        &self.config
    }
}

/// Which engine a unified simulation runs on.
pub enum UnifiedEngine {
    Columnar(EcsSimulationEngine),
    Flat(LegacySimulationEngine),
}

/// One simulation behind one interface: the engine is chosen once, at
/// construction, by the configuration.
pub struct UnifiedSimulation {
    pub engine: UnifiedEngine,
}

impl UnifiedSimulation {
    /// The invariant of whichever engine runs.
    pub open spec fn inv(&self) -> bool {
        match self.engine {
            UnifiedEngine::Columnar(ref e) => e.inv(),
            UnifiedEngine::Flat(ref e) => e.inv(),
        }
    }

    /// The configuration of whichever engine runs.
    pub open spec fn spec_config(&self) -> SimulationConfig {
        match self.engine {
            UnifiedEngine::Columnar(ref e) => e.spec_config(),
            UnifiedEngine::Flat(ref e) => e.spec_config(),
        }
    }

    /// The number of live agents.
    pub open spec fn spec_agent_count(&self) -> int {
        match self.engine {
            UnifiedEngine::Columnar(ref e) => e.spec_agent_count(),
            UnifiedEngine::Flat(ref e) => e.spec_agent_count(),
        }
    }

    /// The number of resources.
    pub open spec fn spec_resource_count(&self) -> int {
        match self.engine {
            UnifiedEngine::Columnar(ref e) => e.spec_resource_count(),
            UnifiedEngine::Flat(ref e) => e.spec_resource_count(),
        }
    }

    /// The live agents, as rows, in storage order.
    pub open spec fn spec_agents(&self) -> Seq<Agent> {
        match self.engine {
            UnifiedEngine::Columnar(ref e) => e.spec_agents(),
            UnifiedEngine::Flat(ref e) => e.spec_agents(),
        }
    }

    /// The resources, in storage order.
    pub open spec fn spec_resources(&self) -> Seq<Resource> {
        match self.engine {
            UnifiedEngine::Columnar(ref e) => e.spec_resources(),
            UnifiedEngine::Flat(ref e) => e.spec_resources(),
        }
    }

    /// The stream state the next draw will use.
    pub open spec fn spec_rng_state(&self) -> u64 {
        match self.engine {
            UnifiedEngine::Columnar(ref e) => e.spec_rng_state(),
            UnifiedEngine::Flat(ref e) => e.spec_rng_state(),
        }
    }

    /// The agents and resources one tick of the selected engine's pipeline
    /// produces from the current state.
    pub open spec fn spec_tick_result(&self) -> (Seq<Agent>, Seq<Resource>) {
        match self.engine {
            UnifiedEngine::Columnar(ref e) => e.spec_tick_result(),
            UnifiedEngine::Flat(ref e) => e.spec_tick_result(),
        }
    }

    /// Whether the columnar engine was selected.
    pub open spec fn spec_is_columnar(&self) -> bool {
        self.engine is Columnar
    }

    /// Builds the engine the configuration selects, seeded from system
    /// entropy.
    pub fn new(config: SimulationConfig) -> (r: UnifiedSimulation)
        requires
            config.wf(),
        ensures
            r.inv(),
            r.spec_config() == config,
            r.spec_agent_count() == config.initial_agents,
            r.spec_resource_count() == config.initial_resources,
            r.spec_is_columnar() == config.use_ecs,
    {
        if config.use_ecs {
            UnifiedSimulation { engine: UnifiedEngine::Columnar(EcsSimulationEngine::new(config)) }
        } else {
            UnifiedSimulation { engine: UnifiedEngine::Flat(LegacySimulationEngine::new(config)) }
        }
    }

    /// Builds the engine the configuration selects, on a fixed seed.
    pub fn with_seed(config: SimulationConfig, seed: u64) -> (r: UnifiedSimulation)
        requires
            config.wf(),
        ensures
            r.inv(),
            r.spec_config() == config,
            r.spec_agent_count() == config.initial_agents,
            r.spec_resource_count() == config.initial_resources,
            r.spec_is_columnar() == config.use_ecs,
    {
        if config.use_ecs {
            UnifiedSimulation {
                engine: UnifiedEngine::Columnar(EcsSimulationEngine::with_seed(config, seed)),
            }
        } else {
            UnifiedSimulation {
                engine: UnifiedEngine::Flat(LegacySimulationEngine::with_seed(config, seed)),
            }
        }
    }

    /// Advances the simulation one tick: the new agents and resources are
    /// exactly what the selected engine's tick function produces from the old
    /// state, and the selection never changes.
    pub fn update(&mut self)
        requires
            old(self).inv(),
        ensures
            final(self).inv(),
            final(self).spec_agents() == old(self).spec_tick_result().0,
            final(self).spec_resources() == old(self).spec_tick_result().1,
            final(self).spec_is_columnar() == old(self).spec_is_columnar(),
            final(self).spec_agent_count() <= old(self).spec_config().max_agents,
            final(self).spec_config() == old(self).spec_config(),
    {
        match &mut self.engine {
            UnifiedEngine::Columnar(e) => e.update(),
            UnifiedEngine::Flat(e) => e.update(),
        }
    }

    /// Injects an agent at `(x, y)` if under the cap: the agent list grows by
    /// one fresh, seeking, generation-zero agent there, with the starting
    /// energy and a genome drawn from the stream; at the cap nothing changes.
    pub fn add_agent(&mut self, x: i64, y: i64)
        requires
            old(self).inv(),
            0 <= x <= old(self).spec_config().width,
            0 <= y <= old(self).spec_config().height,
        ensures
            final(self).inv(),
            old(self).spec_agent_count() < old(self).spec_config().max_agents ==> ({
                let g = Genes::spec_random(old(self).spec_rng_state());
                let added = final(self).spec_agents().last();
                &&& final(self).spec_agents().len() == old(self).spec_agents().len() + 1
                &&& (forall|k: int|
                    0 <= k < old(self).spec_agents().len()
                        ==> #[trigger] final(self).spec_agents()[k] == old(self).spec_agents()[k])
                &&& added.x == x
                &&& added.y == y
                &&& added.genes == g.0
                &&& added.energy == AGENT_START_ENERGY
                &&& added.max_energy == AGENT_MAX_ENERGY
                &&& added.age == 0
                &&& added.generation == 0
                &&& added.state == crate::agent::AgentState::Seeking
                &&& final(self).spec_resources() == old(self).spec_resources()
            }),
            old(self).spec_agent_count() >= old(self).spec_config().max_agents
                ==> final(self).spec_agents() == old(self).spec_agents() && final(
                self).spec_resources() == old(self).spec_resources(),
            final(self).spec_agent_count() <= old(self).spec_config().max_agents,
            final(self).spec_is_columnar() == old(self).spec_is_columnar(),
            final(self).spec_config() == old(self).spec_config(),
    {
        match &mut self.engine {
            UnifiedEngine::Columnar(e) => e.add_agent(x, y),
            UnifiedEngine::Flat(e) => e.add_agent(x, y),
        }
    }

    /// Injects a resource at `(x, y)` if under the cap: the resource list is
    /// the old list plus one fresh resource drawn there from the stream; at
    /// the cap nothing changes.
    pub fn add_resource(&mut self, x: i64, y: i64)
        requires
            old(self).inv(),
            0 <= x <= old(self).spec_config().width,
            0 <= y <= old(self).spec_config().height,
        ensures
            final(self).inv(),
            old(self).spec_resource_count() < old(self).spec_config().max_resources
                ==> final(self).spec_resources() == old(self).spec_resources().push(
                Resource::spec_new(old(self).spec_rng_state(), x, y).0,
            ) && final(self).spec_agents() == old(self).spec_agents(),
            old(self).spec_resource_count() >= old(self).spec_config().max_resources
                ==> final(self).spec_resources() == old(self).spec_resources() && final(
                self).spec_agents() == old(self).spec_agents(),
            final(self).spec_resource_count() <= old(self).spec_config().max_resources,
            final(self).spec_is_columnar() == old(self).spec_is_columnar(),
            final(self).spec_config() == old(self).spec_config(),
    {
        match &mut self.engine {
            UnifiedEngine::Columnar(e) => e.add_resource(x, y),
            UnifiedEngine::Flat(e) => e.add_resource(x, y),
        }
    }

    /// Clears all entities and re-seeds exactly the configured initial
    /// counts.
    pub fn reset(&mut self)
        requires
            old(self).inv(),
        ensures
            final(self).inv(),
            final(self).spec_agent_count() == old(self).spec_config().initial_agents,
            final(self).spec_resource_count() == old(self).spec_config().initial_resources,
            final(self).spec_is_columnar() == old(self).spec_is_columnar(),
            final(self).spec_config() == old(self).spec_config(),
    {
        match &mut self.engine {
            UnifiedEngine::Columnar(e) => e.reset(),
            UnifiedEngine::Flat(e) => e.reset(),
        }
    }

    /// Publishes the aggregate statistics of the live population, exactly as
    /// the statistics function of the live agents.
    pub fn get_stats(&self) -> (r: SimulationStats)
        requires
            self.inv(),
        ensures
            r == spec_stats(self.spec_agents(), self.spec_resource_count()),
            r.agent_count == self.spec_agent_count(),
            r.resource_count == self.spec_resource_count(),
    {
        match &self.engine {
            UnifiedEngine::Columnar(e) => e.get_stats(),
            UnifiedEngine::Flat(e) => e.get_stats(),
        }
    }

    /// An immutable snapshot of every live agent, in storage order.
    pub fn get_agents(&self) -> (r: Vec<Agent>)
        requires
            self.inv(),
        ensures
            r@ == self.spec_agents(),
            r@.len() == self.spec_agent_count(),
    {
        match &self.engine {
            UnifiedEngine::Columnar(e) => e.get_agents(),
            UnifiedEngine::Flat(e) => e.get_agents(),
        }
    }

    /// An immutable snapshot of every resource, in storage order.
    pub fn get_resources(&self) -> (r: Vec<Resource>)
        requires
            self.inv(),
        ensures
            r@ == self.spec_resources(),
            r@.len() == self.spec_resource_count(),
    {
        match &self.engine {
            UnifiedEngine::Columnar(e) => e.get_resources(),
            UnifiedEngine::Flat(e) => e.get_resources(),
        }
    }

    /// The configuration the simulation was built from.
    pub fn get_config(&self) -> (r: &SimulationConfig)
        requires
            self.inv(),
        ensures
            *r == self.spec_config(),
    {
        match &self.engine {
            UnifiedEngine::Columnar(e) => e.get_config(),
            UnifiedEngine::Flat(e) => e.get_config(),
        }
    }

    /// Whether per-entity work is dispatched to the worker pool; the columnar
    /// engine always runs sequentially.
    pub fn is_rayon_available(&self) -> (r: bool)
    {
        match &self.engine {
            UnifiedEngine::Columnar(_) => false,
            UnifiedEngine::Flat(e) => e.is_rayon_available(),
        }
    }

    /// Hands the flat engine the worker-pool capability; the columnar engine
    /// (sequential by design) ignores it. The observable simulation state
    /// never changes, only the dispatch flag.
    pub fn set_rayon_initialized(&mut self, initialized: bool)
        requires
            old(self).inv(),
        ensures
            final(self).inv(),
            old(self).engine matches UnifiedEngine::Flat(e) ==> (final(self).engine matches
                UnifiedEngine::Flat(f) && f.sim == (Simulation {
                parallel_enabled: initialized,
                ..e.sim
            }) && f.config == e.config),
            old(self).engine matches UnifiedEngine::Columnar(e) ==> *final(self) == *old(self),
            final(self).spec_agents() == old(self).spec_agents(),
            final(self).spec_resources() == old(self).spec_resources(),
            final(self).spec_is_columnar() == old(self).spec_is_columnar(),
            final(self).spec_config() == old(self).spec_config(),
    {
        match &mut self.engine {
            UnifiedEngine::Columnar(_) => {},
            UnifiedEngine::Flat(e) => e.set_rayon_initialized(initialized),
        }
    }
}

} // verus!

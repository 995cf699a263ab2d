//! End-to-end tests of the simulation engines.

use evosim::ecs::EcsWorld;
use evosim::simulation::{Simulation, SimulationConfig};
use evosim::simulation_core::{SimulationEngine, UnifiedSimulation};

fn small_config(use_ecs: bool) -> SimulationConfig {
    SimulationConfig {
        width: 1000000,
        height: 800000,
        max_agents: 1000,
        max_resources: 500,
        initial_agents: 100,
        initial_resources: 150,
        resource_spawn_interval: 500,
        tick_ms: 16,
        min_agent_count: 10,
        max_agent_count: 800,
        use_ecs,
    }
}

#[test]
fn six_hundred_ticks_run_to_completion() {
    // Seeding 100 agents and 150 resources in a 1000 by 800 world and running
    // 600 ticks, with no injected agents, completes with sane counts.
    let mut sim = Simulation::from_config(&small_config(false), 42);
    assert_eq!(sim.agents.len(), 100);
    assert_eq!(sim.resources.len(), 150);
    for _ in 0..600 {
        sim.update();
    }
    let stats = sim.get_stats();
    assert!(stats.agent_count + stats.resource_count < usize::MAX);
    assert!(stats.max_generation < u32::MAX);
    assert!(stats.agent_count <= 1000);
    assert!(stats.resource_count <= 500);
}

#[test]
fn drained_agent_is_gone_after_one_cleanup_pass() {
    let mut sim = Simulation::from_config(&small_config(false), 7);
    let marked = sim.agents[0].id;
    sim.agents[0].energy = 0;
    sim.update();
    for a in sim.agents.iter() {
        assert_ne!(a.id, marked);
        assert!(a.energy > 0 && a.age < 200000);
    }
}

#[test]
fn reset_reproduces_initial_counts() {
    let mut sim = Simulation::from_config(&small_config(false), 21);
    for _ in 0..120 {
        sim.update();
    }
    sim.reset();
    let first = (sim.agents.len(), sim.resources.len());
    for _ in 0..120 {
        sim.update();
    }
    sim.reset();
    let second = (sim.agents.len(), sim.resources.len());
    assert_eq!(first, (100, 150));
    assert_eq!(second, (100, 150));
}

#[test]
fn same_seed_same_run() {
    // The same fixed seed through the sequential path twice yields identical
    // counts and states at every tick.
    let mut a = Simulation::from_config(&small_config(false), 1234);
    let mut b = Simulation::from_config(&small_config(false), 1234);
    for _ in 0..60 {
        a.update();
        b.update();
        assert_eq!(a.agents, b.agents);
        assert_eq!(b.resources, a.resources);
        assert_eq!(a.get_stats(), b.get_stats());
    }
}

#[test]
fn parallel_path_matches_sequential_path() {
    let mut seq = Simulation::from_config(&small_config(false), 5150);
    let mut par = Simulation::from_config(&small_config(false), 5150);
    assert!(!par.is_rayon_available());
    par.set_rayon_initialized(true);
    assert!(par.is_rayon_available());
    for _ in 0..40 {
        seq.update();
        par.update();
        assert_eq!(seq.agents, par.agents);
        assert_eq!(seq.resources, par.resources);
    }
}

#[test]
fn population_never_exceeds_cap() {
    let mut cfg = small_config(false);
    cfg.max_agents = 120;
    cfg.initial_agents = 110;
    let mut sim = Simulation::from_config(&cfg, 9);
    for _ in 0..200 {
        sim.update();
        assert!(sim.agents.len() <= 120);
    }
}

#[test]
fn injection_beyond_cap_is_a_silent_no_op() {
    let mut cfg = small_config(false);
    cfg.max_agents = 101;
    cfg.max_resources = 151;
    let mut sim = Simulation::from_config(&cfg, 31);
    sim.add_agent(5000, 5000);
    assert_eq!(sim.agents.len(), 101);
    sim.add_agent(5000, 5000);
    assert_eq!(sim.agents.len(), 101);
    sim.add_resource(5000, 5000);
    assert_eq!(sim.resources.len(), 151);
    sim.add_resource(5000, 5000);
    assert_eq!(sim.resources.len(), 151);
}

#[test]
fn columnar_world_runs_and_respects_caps() {
    let mut world = EcsWorld::with_seed(1000000, 800000, 77);
    assert_eq!(world.get_agent_count(), 100);
    assert_eq!(world.get_resource_count(), 150);
    for _ in 0..300 {
        world.update();
        assert!(world.get_agent_count() <= 10000);
        assert!(world.get_resource_count() <= 1500);
    }
    let rows = world.get_agents();
    assert_eq!(rows.len(), world.get_agent_count());
}

#[test]
fn columnar_world_is_deterministic_too() {
    let mut a = EcsWorld::with_seed(1000000, 800000, 404);
    let mut b = EcsWorld::with_seed(1000000, 800000, 404);
    for _ in 0..60 {
        a.update();
        b.update();
        assert_eq!(a.get_agents(), b.get_agents());
        assert_eq!(a.get_resources(), b.get_resources());
    }
}

#[test]
fn unified_simulation_selects_either_engine() {
    let mut flat = UnifiedSimulation::with_seed(small_config(false), 8);
    let mut table = UnifiedSimulation::with_seed(small_config(true), 8);
    for _ in 0..50 {
        flat.update();
        table.update();
    }
    let fs = flat.get_stats();
    let ts = table.get_stats();
    assert!(fs.agent_count <= 1000 && ts.agent_count <= 1000);
    assert_eq!(flat.get_config().max_agents, 1000);
    assert_eq!(table.get_config().use_ecs, true);
    flat.reset();
    table.reset();
    assert_eq!(flat.get_stats().agent_count, 100);
    assert_eq!(table.get_stats().agent_count, 100);
    assert_eq!(flat.get_stats().resource_count, 150);
    assert_eq!(table.get_stats().resource_count, 150);
    assert_eq!(flat.get_agents().len(), 100);
    assert_eq!(table.get_resources().len(), 150);
}

#[test]
fn stats_report_the_live_population() {
    let mut sim = Simulation::from_config(&small_config(false), 3);
    let stats = sim.get_stats();
    assert_eq!(stats.agent_count, 100);
    assert_eq!(stats.resource_count, 150);
    assert!(stats.total_energy > 0);
    assert!(stats.average_speed >= 800 && stats.average_speed <= 1500);
    assert!(stats.average_energy_efficiency >= 800 && stats.average_energy_efficiency <= 1200);
    assert_eq!(stats.max_generation, 0);
    assert_eq!(stats.total_kills, 0);
    sim.agents.clear();
    let empty = sim.get_stats();
    assert_eq!(empty.agent_count, 0);
    assert_eq!(empty.total_energy, 0);
    assert_eq!(empty.average_fitness, 0);
}

#[test]
fn seeded_worlds_start_with_starting_energy() {
    let sim = Simulation::from_config(&small_config(false), 63);
    for a in sim.agents.iter() {
        assert_eq!(a.energy, 80000);
        assert_eq!(a.max_energy, 100000);
        assert_eq!(a.age, 0);
        assert_eq!(a.generation, 0);
        assert!(a.x >= 0 && a.x <= 1000000);
        assert!(a.y >= 0 && a.y <= 800000);
    }
}

#[test]
fn run_ticks_equals_ticking_by_hand() {
    let mut a = Simulation::from_config(&small_config(false), 99);
    let mut b = Simulation::from_config(&small_config(false), 99);
    a.run_ticks(80);
    for _ in 0..80 {
        b.update();
    }
    assert_eq!(a.agents, b.agents);
    assert_eq!(a.resources, b.resources);
    assert_eq!(a.get_stats(), b.get_stats());
}

//! Tests of the genome, resource, agent and spatial-index components.

use evosim::agent::{Agent, AgentState, INTERACT_RADIUS};
use evosim::genes::{
    mutate_gene, Genes, AGGRESSION_MAX, AGGRESSION_MIN, SENSE_RANGE_MAX, SENSE_RANGE_MIN,
    SPEED_MAX, SPEED_MIN,
};
use evosim::grid::SpatialGrid;
use evosim::pool::ParallelProcessor;
use evosim::resource::Resource;
use evosim::rng::SimRng;

fn genes_in_documented_ranges(g: &Genes) -> bool {
    SPEED_MIN <= g.speed
        && g.speed <= SPEED_MAX
        && SENSE_RANGE_MIN <= g.sense_range
        && g.sense_range <= SENSE_RANGE_MAX
        && 300 <= g.size
        && g.size <= 2500
        && 100 <= g.energy_efficiency
        && g.energy_efficiency <= 2500
        && 10000 <= g.reproduction_threshold
        && g.reproduction_threshold <= 200000
        && 1 <= g.mutation_rate
        && g.mutation_rate <= 300
        && AGGRESSION_MIN <= g.aggression
        && g.aggression <= AGGRESSION_MAX
        && 0 <= g.color_hue
        && g.color_hue <= 360000
        && 0 <= g.is_predator
        && g.is_predator <= 1000
        && 500 <= g.hunting_speed
        && g.hunting_speed <= 3000
        && 100 <= g.attack_power
        && g.attack_power <= 3000
        && 100 <= g.defense
        && g.defense <= 3000
        && 0 <= g.stealth
        && g.stealth <= 1000
        && 0 <= g.pack_mentality
        && g.pack_mentality <= 1000
        && 10000 <= g.territory_size
        && g.territory_size <= 300000
        && 100 <= g.metabolism
        && g.metabolism <= 3000
        && 100 <= g.intelligence
        && g.intelligence <= 3000
        && 100 <= g.stamina
        && g.stamina <= 3000
}

#[test]
fn random_genes_stay_in_ranges() {
    for seed in 0..50u64 {
        let mut rng = SimRng::new(seed);
        let g = Genes::new(&mut rng);
        assert!(genes_in_documented_ranges(&g));
    }
}

#[test]
fn mutated_traits_stay_in_ranges() {
    // Extreme parents and a certain mutation still land inside the trait's
    // documented range.
    for seed in 0..200u64 {
        let mut rng = SimRng::new(seed);
        let r = mutate_gene(0, 360000, 1000, SPEED_MIN, SPEED_MAX, &mut rng);
        assert!(SPEED_MIN <= r && r <= SPEED_MAX);
        let r2 = mutate_gene(360000, 0, 1000, AGGRESSION_MIN, AGGRESSION_MAX, &mut rng);
        assert!(AGGRESSION_MIN <= r2 && r2 <= AGGRESSION_MAX);
    }
}

#[test]
fn zero_rate_blend_lies_strictly_between_parents() {
    // With mutation rate zero the inherited trait is a pure blend: strictly
    // between distinct parents, equal for equal parents.
    for seed in 0..200u64 {
        let mut rng = SimRng::new(seed);
        let r = mutate_gene(1000, 2000, 0, SPEED_MIN, SPEED_MAX, &mut rng);
        assert!(1000 < r && r < 2000);
        let e = mutate_gene(1500, 1500, 0, SPEED_MIN, SPEED_MAX, &mut rng);
        assert_eq!(e, 1500);
    }
}

#[test]
fn inherited_genes_stay_in_ranges() {
    let mut rng = SimRng::new(11);
    let a = Genes::new(&mut rng);
    let b = Genes::new(&mut rng);
    for _ in 0..50 {
        let c = a.inherit_from(&b, a.mutation_rate, &mut rng);
        assert!(genes_in_documented_ranges(&c));
    }
}

#[test]
fn fitness_score_exact_value() {
    let g = Genes {
        speed: 1000,
        sense_range: 50000,
        size: 1000,
        energy_efficiency: 1000,
        reproduction_threshold: 100000,
        mutation_rate: 50,
        aggression: 500,
        color_hue: 0,
        is_predator: 600,
        hunting_speed: 1000,
        attack_power: 1000,
        defense: 1000,
        stealth: 0,
        pack_mentality: 0,
        territory_size: 50000,
        metabolism: 1000,
        intelligence: 1000,
        stamina: 1000,
    };
    // 200 + 75 + 200 + 100 + 50 + 500 (predator bonus) + 5 * 100 = 1625
    assert_eq!(g.get_fitness_score(), 1625);
    let prey = Genes { is_predator: 400, ..g };
    assert_eq!(prey.get_fitness_score(), 1125);
}

fn test_resource(energy: i64) -> Resource {
    Resource {
        x: 100000,
        y: 100000,
        energy,
        max_energy: 100000,
        size: 5000,
        growth_rate: 1000,
        regeneration_rate: 300,
        age: 0,
        target_energy: 50000,
        is_spawning: false,
        spawn_fade: 1000,
        is_depleting: false,
        deplete_fade: 0,
    }
}

#[test]
fn consume_never_returns_more_than_held() {
    let mut r = test_resource(10000);
    let got = r.consume(4000);
    assert_eq!(got, 4000);
    assert_eq!(r.energy, 6000);
    assert!(!r.is_depleting);
    let rest = r.consume(999999);
    assert_eq!(rest, 6000);
    assert_eq!(r.energy, 0);
    assert!(r.is_depleting);
    assert_eq!(r.deplete_fade, 0);
    let nothing = r.consume(1);
    assert_eq!(nothing, 0);
    assert_eq!(r.energy, 0);
}

#[test]
fn resource_availability_thresholds() {
    let r = test_resource(5000);
    assert!(!r.is_available());
    let r2 = test_resource(5001);
    assert!(r2.is_available());
    let mut r3 = test_resource(80000);
    r3.is_depleting = true;
    assert!(!r3.is_available());
    let mut r4 = test_resource(80000);
    r4.spawn_fade = 400;
    assert!(!r4.is_available());
}

#[test]
fn resource_grows_toward_target_and_fades_in() {
    let mut rng = SimRng::new(3);
    let mut r = Resource::new(500000, 400000, &mut rng);
    assert_eq!(r.energy, 0);
    assert!(r.is_spawning);
    for _ in 0..600 {
        r.update(16);
    }
    assert!(!r.is_spawning);
    assert_eq!(r.spawn_fade, 1000);
    assert!(r.energy > 0);
    assert!(r.energy <= 160000);
}

fn test_agent(x: i64, y: i64, energy: i64) -> Agent {
    let mut rng = SimRng::new(99);
    let genes = Genes::new(&mut rng);
    let mut a = Agent::new(7, x, y, genes, 0, &mut rng);
    a.energy = energy;
    a
}

#[test]
fn feeding_caps_energy_at_maximum() {
    let mut a = test_agent(100000, 100000, 99000);
    a.age = 10000;
    a.state = AgentState::Feeding;
    a.target_x = Some(100000);
    a.target_y = Some(100000);
    let resources = vec![test_resource(90000)];
    let (fed, consumed) = a.feed_on_resource(&resources);
    assert_eq!(consumed, Some(0));
    assert_eq!(fed.energy, fed.max_energy);
    assert_eq!(fed.target_x, None);
}

#[test]
fn feeding_without_in_range_resource_reverts_to_seeking() {
    let mut a = test_agent(100000, 100000, 50000);
    a.state = AgentState::Feeding;
    a.target_x = Some(900000);
    a.target_y = Some(900000);
    let far = Resource { x: 900000, y: 900000, ..test_resource(90000) };
    let (fed, consumed) = a.feed_on_resource(&vec![far]);
    assert_eq!(consumed, None);
    assert_eq!(fed.state, AgentState::Seeking);
}

#[test]
fn aliveness_and_reproduction_eligibility() {
    let mut a = test_agent(1000, 1000, 0);
    assert!(!a.is_alive());
    a.energy = 1;
    assert!(a.is_alive());
    a.age = 200001;
    assert!(!a.is_alive());
    a.age = 5000;
    a.energy = 10001;
    a.last_reproduction = 0;
    assert!(a.can_reproduce());
    a.last_reproduction = 4500;
    assert!(!a.can_reproduce());
}

#[test]
fn query_has_no_false_negatives_on_random_placements() {
    let w: i64 = 1000000;
    let h: i64 = 800000;
    let mut rng = SimRng::new(123);
    let mut agents: Vec<Agent> = Vec::new();
    for i in 0..200u64 {
        let x = rng.next_range(0, w);
        let y = rng.next_range(0, h);
        let genes = Genes::new(&mut rng);
        agents.push(Agent::new(i, x, y, genes, 0, &mut rng));
    }
    let mut grid = SpatialGrid::new(w, h);
    grid.rebuild(&agents);
    let radius: i64 = 120000;
    for a in agents.iter() {
        let found = grid.query(a.x, a.y, radius);
        for (j, o) in agents.iter().enumerate() {
            let dx = (a.x - o.x) as i128;
            let dy = (a.y - o.y) as i128;
            if dx * dx + dy * dy <= (radius as i128) * (radius as i128) {
                assert!(found.contains(&j), "agent within radius missing from query");
            }
        }
    }
}

#[test]
fn interaction_radius_is_five_units() {
    assert_eq!(INTERACT_RADIUS, 5000);
}

#[test]
fn pool_operations_match_in_both_modes() {
    let data: Vec<i64> = vec![3, -4, 10, 0, 25, -7];
    let seq = ParallelProcessor::new(1);
    let mut par = ParallelProcessor::new(8);
    par.initialize();
    assert!(par.is_initialized());
    assert_eq!(par.get_worker_count(), 8);
    assert_eq!(seq.parallel_sum(&data), 27);
    assert_eq!(par.parallel_sum(&data), 27);
    assert_eq!(seq.parallel_map(&data), vec![6, -8, 20, 0, 50, -14]);
    assert_eq!(par.parallel_map(&data), vec![6, -8, 20, 0, 50, -14]);
    let sides: Vec<i64> = vec![3, 4];
    assert_eq!(seq.complex_parallel_operation(&sides), 5);
    assert_eq!(par.complex_parallel_operation(&sides), 5);
    let mut fallback = ParallelProcessor::new(8);
    fallback.initialize_fallback();
    assert_eq!(fallback.get_worker_count(), 1);
    assert_eq!(fallback.parallel_sum(&data), 27);
}

#[test]
fn metabolic_cost_matches_scaled_formula() {
    // A unit genome: every factor of the cost formula is exactly one.
    let unit = Genes {
        speed: 1000,
        sense_range: 50000,
        size: 1000,
        energy_efficiency: 1000,
        reproduction_threshold: 100000,
        mutation_rate: 50,
        aggression: 500,
        color_hue: 0,
        is_predator: 0,
        hunting_speed: 1000,
        attack_power: 1000,
        defense: 1000,
        stealth: 0,
        pack_mentality: 0,
        territory_size: 50000,
        metabolism: 1000,
        intelligence: 1000,
        stamina: 1000,
    };
    let mut rng = SimRng::new(1);
    let a = Agent::new(0, 0, 0, unit, 0, &mut rng);
    // (size*0.05 + speed*0.02) * dt * metabolism * env / efficiency
    // = 0.07 energy per second; 16 ms ticks drain about 1.1 thousandths.
    assert_eq!(a.metabolic_cost(16, 1000000, 800000), 1);
    // Over a full tenth of a second: 0.07 * 0.1 = 0.007 energy = 7 thousandths.
    assert_eq!(a.metabolic_cost(100, 1000000, 800000), 7);
    // Halving the efficiency doubles the drain.
    let wasteful = Genes { energy_efficiency: 500, ..unit };
    let b = Agent::new(1, 0, 0, wasteful, 0, &mut rng);
    assert_eq!(b.metabolic_cost(100, 1000000, 800000), 14);
    // An agent starting at 80 energy survives on the order of minutes
    // without food, not seconds.
    assert!(80000 / a.metabolic_cost(16, 1000000, 800000) > 10000);
}

//! The heritable trait vector of an agent.
//!
//! Every trait is a fixed-point value in thousandths and is clamped to a
//! trait-specific range after any mutation; a value is never read outside its
//! range. Inheritance blends the two parents' traits with a random factor in
//! `[0.3, 0.7]`, then adds, with the given mutation probability, a small
//! centred noise term, and clamps.

use vstd::prelude::*;

use crate::num::{clamp_i64, spec_clamp, spec_tdiv, tdiv};
use crate::rng::{spec_below, spec_next_state, spec_range, spec_state_n, SimRng};

verus! {

pub const SPEED_MIN: i64 = 100;

pub const SPEED_MAX: i64 = 3000;

pub const SENSE_RANGE_MIN: i64 = 5000;

pub const SENSE_RANGE_MAX: i64 = 150000;

pub const SIZE_MIN: i64 = 300;

pub const SIZE_MAX: i64 = 2500;

pub const ENERGY_EFFICIENCY_MIN: i64 = 100;

pub const ENERGY_EFFICIENCY_MAX: i64 = 2500;

pub const REPRODUCTION_THRESHOLD_MIN: i64 = 10000;

pub const REPRODUCTION_THRESHOLD_MAX: i64 = 200000;

pub const MUTATION_RATE_MIN: i64 = 1;

pub const MUTATION_RATE_MAX: i64 = 300;

pub const AGGRESSION_MIN: i64 = 0;

pub const AGGRESSION_MAX: i64 = 1000;

pub const COLOR_HUE_MIN: i64 = 0;

pub const COLOR_HUE_MAX: i64 = 360000;

pub const IS_PREDATOR_MIN: i64 = 0;

pub const IS_PREDATOR_MAX: i64 = 1000;

pub const HUNTING_SPEED_MIN: i64 = 500;

pub const HUNTING_SPEED_MAX: i64 = 3000;

pub const ATTACK_POWER_MIN: i64 = 100;

pub const ATTACK_POWER_MAX: i64 = 3000;

pub const DEFENSE_MIN: i64 = 100;

pub const DEFENSE_MAX: i64 = 3000;

pub const STEALTH_MIN: i64 = 0;

pub const STEALTH_MAX: i64 = 1000;

pub const PACK_MENTALITY_MIN: i64 = 0;

pub const PACK_MENTALITY_MAX: i64 = 1000;

pub const TERRITORY_SIZE_MIN: i64 = 10000;

pub const TERRITORY_SIZE_MAX: i64 = 300000;

pub const METABOLISM_MIN: i64 = 100;

pub const METABOLISM_MAX: i64 = 3000;

pub const INTELLIGENCE_MIN: i64 = 100;

pub const INTELLIGENCE_MAX: i64 = 3000;

pub const STAMINA_MIN: i64 = 100;

pub const STAMINA_MAX: i64 = 3000;

/// The largest value any trait can take, in thousandths.
pub const GENE_MAX_MILLI: i64 = 360000;

/// An agent being more predator than this threshold behaves as a predator.
pub const PREDATOR_THRESHOLD: i64 = 500;

/// The heritable trait vector, all values in thousandths.
#[derive(Clone, Copy, Debug, PartialEq, Eq, Structural)]
pub struct Genes {
    pub speed: i64,
    pub sense_range: i64,
    pub size: i64,
    pub energy_efficiency: i64,
    pub reproduction_threshold: i64,
    pub mutation_rate: i64,
    pub aggression: i64,
    pub color_hue: i64,
    pub is_predator: i64,
    pub hunting_speed: i64,
    pub attack_power: i64,
    pub defense: i64,
    pub stealth: i64,
    pub pack_mentality: i64,
    pub territory_size: i64,
    pub metabolism: i64,
    pub intelligence: i64,
    pub stamina: i64,
}

/// The centred noise term added on a mutation: the sum of twelve draws below
/// one thousand. Subtracting the mean and scaling gives a bell-shaped,
/// zero-centred integer noise.
pub open spec fn spec_noise_sum(s: u64, n: nat) -> int
    decreases n,
{
    if n == 0 {
        0
    } else {
        spec_noise_sum(s, (n - 1) as nat) + spec_below(spec_state_n(s, (n - 1) as nat), 1000)
    }
}

/// The mutation noise drawn at state `s`: bell-shaped, centred on zero, and
/// bounded by six times the base deviation of fifty thousandths.
pub open spec fn spec_noise(s: u64) -> int {
    spec_tdiv((spec_noise_sum(s, 12) - 5994) * 50, 1000)
}

/// The blended (pre-clamp, pre-mutation) trait value drawn at state `s` from
/// parent traits `a` and `b`: the blend factor lies in `[300, 700]`
/// thousandths.
pub open spec fn spec_blend_value(s: u64, a: i64, b: i64) -> int {
    let blend = spec_range(s, 300, 700);
    spec_tdiv(a * blend + b * (1000 - blend), 1000)
}

/// One inherited trait: the blended value, mutated with probability
/// `rate` thousandths, clamped into `[lo, hi]`; and the stream state after
/// the draws.
pub open spec fn spec_mutate_gene(s: u64, a: i64, b: i64, rate: i64, lo: i64, hi: i64) -> (
    int,
    u64,
) {
    let base = spec_blend_value(s, a, b);
    let s1 = spec_next_state(s);
    let hit = spec_below(s1, 1000) < rate;
    let s2 = spec_next_state(s1);
    if hit {
        (spec_clamp(base + spec_noise(s2), lo as int, hi as int), spec_state_n(s2, 12))
    } else {
        (spec_clamp(base, lo as int, hi as int), s2)
    }
}

impl Genes {
    /// Every trait lies inside its documented range.
    pub open spec fn wf(self) -> bool {
        &&& SPEED_MIN <= self.speed <= SPEED_MAX
        &&& SENSE_RANGE_MIN <= self.sense_range <= SENSE_RANGE_MAX
        &&& SIZE_MIN <= self.size <= SIZE_MAX
        &&& ENERGY_EFFICIENCY_MIN <= self.energy_efficiency <= ENERGY_EFFICIENCY_MAX
        &&& REPRODUCTION_THRESHOLD_MIN <= self.reproduction_threshold
            <= REPRODUCTION_THRESHOLD_MAX
        &&& MUTATION_RATE_MIN <= self.mutation_rate <= MUTATION_RATE_MAX
        &&& AGGRESSION_MIN <= self.aggression <= AGGRESSION_MAX
        &&& COLOR_HUE_MIN <= self.color_hue <= COLOR_HUE_MAX
        &&& IS_PREDATOR_MIN <= self.is_predator <= IS_PREDATOR_MAX
        &&& HUNTING_SPEED_MIN <= self.hunting_speed <= HUNTING_SPEED_MAX
        &&& ATTACK_POWER_MIN <= self.attack_power <= ATTACK_POWER_MAX
        &&& DEFENSE_MIN <= self.defense <= DEFENSE_MAX
        &&& STEALTH_MIN <= self.stealth <= STEALTH_MAX
        &&& PACK_MENTALITY_MIN <= self.pack_mentality <= PACK_MENTALITY_MAX
        &&& TERRITORY_SIZE_MIN <= self.territory_size <= TERRITORY_SIZE_MAX
        &&& METABOLISM_MIN <= self.metabolism <= METABOLISM_MAX
        &&& INTELLIGENCE_MIN <= self.intelligence <= INTELLIGENCE_MAX
        &&& STAMINA_MIN <= self.stamina <= STAMINA_MAX
    }

    /// A fresh trait vector drawn at state `s0`: each trait is sampled
    /// independently from its initial range (predator probability from a low
    /// range, so predators are a minority).
    pub open spec fn spec_random(s0: u64) -> (Genes, u64) {
        let v1 = spec_range(s0, 800, 1500);
        let s1 = spec_next_state(s0);
        let v2 = spec_range(s1, 30000, 80000);
        let s2 = spec_next_state(s1);
        let v3 = spec_range(s2, 900, 1300);
        let s3 = spec_next_state(s2);
        let v4 = spec_range(s3, 800, 1200);
        let s4 = spec_next_state(s3);
        let v5 = spec_range(s4, 60000, 120000);
        let s5 = spec_next_state(s4);
        let v6 = spec_range(s5, 20, 80);
        let s6 = spec_next_state(s5);
        let v7 = spec_range(s6, 200, 800);
        let s7 = spec_next_state(s6);
        let v8 = spec_range(s7, 0, 360000);
        let s8 = spec_next_state(s7);
        let v9 = spec_range(s8, 0, 300);
        let s9 = spec_next_state(s8);
        let v10 = spec_range(s9, 1000, 2000);
        let s10 = spec_next_state(s9);
        let v11 = spec_range(s10, 500, 1500);
        let s11 = spec_next_state(s10);
        let v12 = spec_range(s11, 500, 1500);
        let s12 = spec_next_state(s11);
        let v13 = spec_range(s12, 0, 1000);
        let s13 = spec_next_state(s12);
        let v14 = spec_range(s13, 0, 1000);
        let s14 = spec_next_state(s13);
        let v15 = spec_range(s14, 50000, 150000);
        let s15 = spec_next_state(s14);
        let v16 = spec_range(s15, 800, 1400);
        let s16 = spec_next_state(s15);
        let v17 = spec_range(s16, 500, 1500);
        let s17 = spec_next_state(s16);
        let v18 = spec_range(s17, 500, 1500);
        let s18 = spec_next_state(s17);
        (
            Genes {
                speed: v1,
                sense_range: v2,
                size: v3,
                energy_efficiency: v4,
                reproduction_threshold: v5,
                mutation_rate: v6,
                aggression: v7,
                color_hue: v8,
                is_predator: v9,
                hunting_speed: v10,
                attack_power: v11,
                defense: v12,
                stealth: v13,
                pack_mentality: v14,
                territory_size: v15,
                metabolism: v16,
                intelligence: v17,
                stamina: v18,
            },
            s18,
        )
    }

    /// Samples a fresh trait vector from the stream.
    pub fn new(rng: &mut SimRng) -> (r: Genes)
        ensures
            r == Self::spec_random(old(rng).state).0,
            final(rng).state == Self::spec_random(old(rng).state).1,
            r.wf(),
    {
        let speed = rng.next_range(800, 1500);
        let sense_range = rng.next_range(30000, 80000);
        let size = rng.next_range(900, 1300);
        let energy_efficiency = rng.next_range(800, 1200);
        let reproduction_threshold = rng.next_range(60000, 120000);
        let mutation_rate = rng.next_range(20, 80);
        let aggression = rng.next_range(200, 800);
        let color_hue = rng.next_range(0, 360000);
        let is_predator = rng.next_range(0, 300);
        let hunting_speed = rng.next_range(1000, 2000);
        let attack_power = rng.next_range(500, 1500);
        let defense = rng.next_range(500, 1500);
        let stealth = rng.next_range(0, 1000);
        let pack_mentality = rng.next_range(0, 1000);
        let territory_size = rng.next_range(50000, 150000);
        let metabolism = rng.next_range(800, 1400);
        let intelligence = rng.next_range(500, 1500);
        let stamina = rng.next_range(500, 1500);
        Genes {
            speed,
            sense_range,
            size,
            energy_efficiency,
            reproduction_threshold,
            mutation_rate,
            aggression,
            color_hue,
            is_predator,
            hunting_speed,
            attack_power,
            defense,
            stealth,
            pack_mentality,
            territory_size,
            metabolism,
            intelligence,
            stamina,
        }
    }

    /// The inherited trait vector: every trait blended from the two parents
    /// and mutated with probability `rate`, together with the stream state
    /// after all draws.
    pub open spec fn spec_inherit(s0: u64, a: Genes, b: Genes, rate: i64) -> (Genes, u64) {
        let r1 = spec_mutate_gene(s0, a.speed, b.speed, rate, SPEED_MIN, SPEED_MAX);
        let r2 = spec_mutate_gene(
            r1.1,
            a.sense_range,
            b.sense_range,
            rate,
            SENSE_RANGE_MIN,
            SENSE_RANGE_MAX,
        );
        let r3 = spec_mutate_gene(r2.1, a.size, b.size, rate, SIZE_MIN, SIZE_MAX);
        let r4 = spec_mutate_gene(
            r3.1,
            a.energy_efficiency,
            b.energy_efficiency,
            rate,
            ENERGY_EFFICIENCY_MIN,
            ENERGY_EFFICIENCY_MAX,
        );
        let r5 = spec_mutate_gene(
            r4.1,
            a.reproduction_threshold,
            b.reproduction_threshold,
            rate,
            REPRODUCTION_THRESHOLD_MIN,
            REPRODUCTION_THRESHOLD_MAX,
        );
        let r6 = spec_mutate_gene(
            r5.1,
            a.mutation_rate,
            b.mutation_rate,
            rate,
            MUTATION_RATE_MIN,
            MUTATION_RATE_MAX,
        );
        let r7 = spec_mutate_gene(
            r6.1,
            a.aggression,
            b.aggression,
            rate,
            AGGRESSION_MIN,
            AGGRESSION_MAX,
        );
        let r8 = spec_mutate_gene(r7.1, a.color_hue, b.color_hue, rate, COLOR_HUE_MIN, COLOR_HUE_MAX);
        let r9 = spec_mutate_gene(
            r8.1,
            a.is_predator,
            b.is_predator,
            rate,
            IS_PREDATOR_MIN,
            IS_PREDATOR_MAX,
        );
        let r10 = spec_mutate_gene(
            r9.1,
            a.hunting_speed,
            b.hunting_speed,
            rate,
            HUNTING_SPEED_MIN,
            HUNTING_SPEED_MAX,
        );
        let r11 = spec_mutate_gene(
            r10.1,
            a.attack_power,
            b.attack_power,
            rate,
            ATTACK_POWER_MIN,
            ATTACK_POWER_MAX,
        );
        let r12 = spec_mutate_gene(r11.1, a.defense, b.defense, rate, DEFENSE_MIN, DEFENSE_MAX);
        let r13 = spec_mutate_gene(r12.1, a.stealth, b.stealth, rate, STEALTH_MIN, STEALTH_MAX);
        let r14 = spec_mutate_gene(
            r13.1,
            a.pack_mentality,
            b.pack_mentality,
            rate,
            PACK_MENTALITY_MIN,
            PACK_MENTALITY_MAX,
        );
        let r15 = spec_mutate_gene(
            r14.1,
            a.territory_size,
            b.territory_size,
            rate,
            TERRITORY_SIZE_MIN,
            TERRITORY_SIZE_MAX,
        );
        let r16 = spec_mutate_gene(
            r15.1,
            a.metabolism,
            b.metabolism,
            rate,
            METABOLISM_MIN,
            METABOLISM_MAX,
        );
        let r17 = spec_mutate_gene(
            r16.1,
            a.intelligence,
            b.intelligence,
            rate,
            INTELLIGENCE_MIN,
            INTELLIGENCE_MAX,
        );
        let r18 = spec_mutate_gene(r17.1, a.stamina, b.stamina, rate, STAMINA_MIN, STAMINA_MAX);
        (
            Genes {
                speed: r1.0 as i64,
                sense_range: r2.0 as i64,
                size: r3.0 as i64,
                energy_efficiency: r4.0 as i64,
                reproduction_threshold: r5.0 as i64,
                mutation_rate: r6.0 as i64,
                aggression: r7.0 as i64,
                color_hue: r8.0 as i64,
                is_predator: r9.0 as i64,
                hunting_speed: r10.0 as i64,
                attack_power: r11.0 as i64,
                defense: r12.0 as i64,
                stealth: r13.0 as i64,
                pack_mentality: r14.0 as i64,
                territory_size: r15.0 as i64,
                metabolism: r16.0 as i64,
                intelligence: r17.0 as i64,
                stamina: r18.0 as i64,
            },
            r18.1,
        )
    }

    /// Blends this trait vector with `other`, mutating each trait with
    /// probability `mutation_rate` thousandths, and clamps every trait to its
    /// documented range.
    pub fn inherit_from(&self, other: &Genes, mutation_rate: i64, rng: &mut SimRng) -> (r: Genes)
        requires
            0 <= mutation_rate <= 1000,
            self.wf(),
            other.wf(),
        ensures
            r == Self::spec_inherit(old(rng).state, *self, *other, mutation_rate).0,
            final(rng).state == Self::spec_inherit(old(rng).state, *self, *other, mutation_rate).1,
            r.wf(),
    {
        let speed = mutate_gene(self.speed, other.speed, mutation_rate, SPEED_MIN, SPEED_MAX, rng);
        let sense_range = mutate_gene(
            self.sense_range,
            other.sense_range,
            mutation_rate,
            SENSE_RANGE_MIN,
            SENSE_RANGE_MAX,
            rng,
        );
        let size = mutate_gene(self.size, other.size, mutation_rate, SIZE_MIN, SIZE_MAX, rng);
        let energy_efficiency = mutate_gene(
            self.energy_efficiency,
            other.energy_efficiency,
            mutation_rate,
            ENERGY_EFFICIENCY_MIN,
            ENERGY_EFFICIENCY_MAX,
            rng,
        );
        let reproduction_threshold = mutate_gene(
            self.reproduction_threshold,
            other.reproduction_threshold,
            mutation_rate,
            REPRODUCTION_THRESHOLD_MIN,
            REPRODUCTION_THRESHOLD_MAX,
            rng,
        );
        let mutation_rate_gene = mutate_gene(
            self.mutation_rate,
            other.mutation_rate,
            mutation_rate,
            MUTATION_RATE_MIN,
            MUTATION_RATE_MAX,
            rng,
        );
        let aggression = mutate_gene(
            self.aggression,
            other.aggression,
            mutation_rate,
            AGGRESSION_MIN,
            AGGRESSION_MAX,
            rng,
        );
        let color_hue = mutate_gene(
            self.color_hue,
            other.color_hue,
            mutation_rate,
            COLOR_HUE_MIN,
            COLOR_HUE_MAX,
            rng,
        );
        let is_predator = mutate_gene(
            self.is_predator,
            other.is_predator,
            mutation_rate,
            IS_PREDATOR_MIN,
            IS_PREDATOR_MAX,
            rng,
        );
        let hunting_speed = mutate_gene(
            self.hunting_speed,
            other.hunting_speed,
            mutation_rate,
            HUNTING_SPEED_MIN,
            HUNTING_SPEED_MAX,
            rng,
        );
        let attack_power = mutate_gene(
            self.attack_power,
            other.attack_power,
            mutation_rate,
            ATTACK_POWER_MIN,
            ATTACK_POWER_MAX,
            rng,
        );
        let defense = mutate_gene(
            self.defense,
            other.defense,
            mutation_rate,
            DEFENSE_MIN,
            DEFENSE_MAX,
            rng,
        );
        let stealth = mutate_gene(
            self.stealth,
            other.stealth,
            mutation_rate,
            STEALTH_MIN,
            STEALTH_MAX,
            rng,
        );
        let pack_mentality = mutate_gene(
            self.pack_mentality,
            other.pack_mentality,
            mutation_rate,
            PACK_MENTALITY_MIN,
            PACK_MENTALITY_MAX,
            rng,
        );
        let territory_size = mutate_gene(
            self.territory_size,
            other.territory_size,
            mutation_rate,
            TERRITORY_SIZE_MIN,
            TERRITORY_SIZE_MAX,
            rng,
        );
        let metabolism = mutate_gene(
            self.metabolism,
            other.metabolism,
            mutation_rate,
            METABOLISM_MIN,
            METABOLISM_MAX,
            rng,
        );
        let intelligence = mutate_gene(
            self.intelligence,
            other.intelligence,
            mutation_rate,
            INTELLIGENCE_MIN,
            INTELLIGENCE_MAX,
            rng,
        );
        let stamina = mutate_gene(
            self.stamina,
            other.stamina,
            mutation_rate,
            STAMINA_MIN,
            STAMINA_MAX,
            rng,
        );
        Genes {
            speed,
            sense_range,
            size,
            energy_efficiency,
            reproduction_threshold,
            mutation_rate: mutation_rate_gene,
            aggression,
            color_hue,
            is_predator,
            hunting_speed,
            attack_power,
            defense,
            stealth,
            pack_mentality,
            territory_size,
            metabolism,
            intelligence,
            stamina,
        }
    }

    /// The fitness score (thousandths) as a fixed linear combination of the
    /// traits, used for reporting only; it feeds no selection pressure.
    pub open spec fn spec_fitness(self) -> int {
        let speed_score = self.speed / 5;
        let sense_score = self.sense_range * 15 / 10000;
        let efficiency_score = self.energy_efficiency / 5;
        let size_score = 100000int / (self.size as int);
        let reproduction_score = 5000000int / (self.reproduction_threshold as int);
        let predator_bonus: int = if self.is_predator > PREDATOR_THRESHOLD {
            500
        } else {
            0
        };
        let hunting_score = self.hunting_speed / 10;
        let attack_score = self.attack_power / 10;
        let defense_score = self.defense / 10;
        let intelligence_score = self.intelligence / 10;
        let stamina_score = self.stamina / 10;
        speed_score + sense_score + efficiency_score + size_score + reproduction_score
            + predator_bonus + hunting_score + attack_score + defense_score + intelligence_score
            + stamina_score
    }

    /// Computes the reported fitness score, in thousandths.
    pub fn get_fitness_score(&self) -> (r: i64)
        requires
            self.wf(),
        ensures
            r == self.spec_fitness(),
            0 <= r <= 10000,
    {
        let speed_score = tdiv(self.speed, 5);
        let sense_score = tdiv(self.sense_range * 15, 10000);
        let efficiency_score = tdiv(self.energy_efficiency, 5);
        let size_score = tdiv(100000, self.size);
        let reproduction_score = tdiv(5000000, self.reproduction_threshold);
        let predator_bonus: i64 = if self.is_predator > PREDATOR_THRESHOLD {
            500
        } else {
            0
        };
        let hunting_score = tdiv(self.hunting_speed, 10);
        let attack_score = tdiv(self.attack_power, 10);
        let defense_score = tdiv(self.defense, 10);
        let intelligence_score = tdiv(self.intelligence, 10);
        let stamina_score = tdiv(self.stamina, 10);
        proof {
            vstd::arithmetic::div_mod::lemma_div_is_ordered_by_denominator(
                100000,
                300,
                self.size as int,
            );
            vstd::arithmetic::div_mod::lemma_div_pos_is_pos(100000, self.size as int);
            vstd::arithmetic::div_mod::lemma_div_is_ordered_by_denominator(
                5000000,
                10000,
                self.reproduction_threshold as int,
            );
            vstd::arithmetic::div_mod::lemma_div_pos_is_pos(
                5000000,
                self.reproduction_threshold as int,
            );
        }
        speed_score + sense_score + efficiency_score + size_score + reproduction_score
            + predator_bonus + hunting_score + attack_score + defense_score + intelligence_score
            + stamina_score
    }
}

/// Draws the centred mutation noise: twelve draws below one thousand, summed,
/// centred on zero and scaled down to a deviation of fifty thousandths.
pub fn noise_milli(rng: &mut SimRng) -> (r: i64)
    ensures
        r == spec_noise(old(rng).state),
        final(rng).state == spec_state_n(old(rng).state, 12),
        -300 <= r <= 300,
{
    let ghost s0 = rng.state;
    let mut sum: i64 = 0;
    let mut k: usize = 0;
    while k < 12
        invariant
            k <= 12,
            rng.state == spec_state_n(s0, k as nat),
            sum == spec_noise_sum(s0, k as nat),
            0 <= sum <= 999 * k,
        decreases 12 - k,
    {
        let v = rng.next_below(1000);
        proof {
            assert(spec_state_n(s0, (k + 1) as nat) == spec_next_state(spec_state_n(s0, k as nat)));
            assert(spec_noise_sum(s0, (k + 1) as nat) == spec_noise_sum(s0, k as nat) + spec_below(
                spec_state_n(s0, k as nat),
                1000,
            ));
        }
        sum = sum + (v as i64);
        k = k + 1;
    }
    tdiv((sum - 5994) * 50, 1000)
}

/// One inherited trait: blends `a` and `b`, mutates with probability `rate`
/// thousandths, and clamps into `[lo, hi]`.
pub fn mutate_gene(a: i64, b: i64, rate: i64, lo: i64, hi: i64, rng: &mut SimRng) -> (r: i64)
    requires
        lo <= hi,
        -1000000 <= lo,
        hi <= 1000000,
        0 <= a <= GENE_MAX_MILLI,
        0 <= b <= GENE_MAX_MILLI,
        0 <= rate <= 1000,
    ensures
        r == spec_mutate_gene(old(rng).state, a, b, rate, lo, hi).0,
        final(rng).state == spec_mutate_gene(old(rng).state, a, b, rate, lo, hi).1,
        lo <= r <= hi,
{
    let blend = rng.next_range(300, 700);
    proof {
        assert(0 <= a * blend <= 360000 * 700) by (nonlinear_arith)
            requires
                0 <= a <= 360000,
                300 <= blend <= 700,
        ;
        assert(0 <= b * (1000 - blend) <= 360000 * 700) by (nonlinear_arith)
            requires
                0 <= b <= 360000,
                300 <= blend <= 700,
        ;
    }
    let base = tdiv(a * blend + b * (1000 - blend), 1000);
    let draw = rng.next_below(1000);
    if draw < (rate as u64) {
        let noise = noise_milli(rng);
        clamp_i64(base + noise, lo, hi)
    } else {
        clamp_i64(base, lo, hi)
    }
}

/// Every mutated trait lies within its documented range, for any parent
/// values and any draw of the stream.
pub proof fn lemma_mutated_trait_in_range(s: u64, a: i64, b: i64, rate: i64, lo: i64, hi: i64)
    requires
        lo <= hi,
    ensures
        lo <= spec_mutate_gene(s, a, b, rate, lo, hi).0 <= hi,
{
}

/// With mutation rate zero, an inherited trait is the pure blend of the
/// parents' values, clamped; no noise is drawn.
pub proof fn lemma_zero_rate_is_blend(s: u64, a: i64, b: i64, lo: i64, hi: i64)
    ensures
        spec_mutate_gene(s, a, b, 0, lo, hi).0 == spec_clamp(
            spec_blend_value(s, a, b),
            lo as int,
            hi as int,
        ),
{
}

/// Before clamping, a blend of two distinct parent traits lies strictly
/// between them, for every draw of the blend factor; equal parents blend to
/// the same value. (Traits four thousandths or closer can collapse onto a
/// parent by fixed-point rounding, so those are left out.)
pub proof fn lemma_blend_strictly_between(s: u64, a: i64, b: i64)
    requires
        0 <= a <= GENE_MAX_MILLI,
        0 <= b <= GENE_MAX_MILLI,
        a == b || a + 4 <= b || b + 4 <= a,
    ensures
        a == b ==> spec_blend_value(s, a, b) == a,
        a < b ==> a < spec_blend_value(s, a, b) < b,
        b < a ==> b < spec_blend_value(s, a, b) < a,
{
    let blend = spec_range(s, 300, 700);
    assert(300 <= blend <= 700);
    lemma_blend_core(a as int, b as int, blend as int);
    assert(spec_blend_value(s, a, b) == spec_tdiv(
        (a as int) * (blend as int) + (b as int) * (1000 - blend as int),
        1000,
    ));
}

/// The arithmetic core of the blend law, over unbounded integers.
proof fn lemma_blend_core(a: int, b: int, blend: int)
    requires
        0 <= a <= 360000,
        0 <= b <= 360000,
        300 <= blend <= 700,
        a == b || a + 4 <= b || b + 4 <= a,
    ensures
        a == b ==> spec_tdiv(a * blend + b * (1000 - blend), 1000) == a,
        a < b ==> a < spec_tdiv(a * blend + b * (1000 - blend), 1000) < b,
        b < a ==> b < spec_tdiv(a * blend + b * (1000 - blend), 1000) < a,
{
    let n = a * blend + b * (1000 - blend);
    assert(a * blend + b * (1000 - blend) >= 0) by (nonlinear_arith)
        requires
            0 <= a,
            0 <= b,
            300 <= blend <= 700,
    ;
    assert(spec_tdiv(n, 1000) == n / 1000);
    lemma_blend_bounds(a, b, blend);
    if a == b {
        assert(a * blend + b * (1000 - blend) == 1000 * a) by (nonlinear_arith)
            requires
                a == b,
                300 <= blend <= 700,
        ;
        assert(n / 1000 == a) by {
            vstd::arithmetic::div_mod::lemma_div_multiples_vanish(a, 1000);
        }
    } else if a < b {
        lemma_div_strict_between(a, b, n);
    } else {
        lemma_div_strict_between(b, a, n);
    }
}

/// Bounds on the blend numerator: with a gap of at least four thousandths the
/// numerator clears both parents by a full division step.
proof fn lemma_blend_bounds(a: int, b: int, blend: int)
    requires
        0 <= a,
        0 <= b,
        300 <= blend <= 700,
    ensures
        a + 4 <= b ==> 1000 * a + 1000 <= a * blend + b * (1000 - blend) < 1000 * b,
        b + 4 <= a ==> 1000 * b + 1000 <= a * blend + b * (1000 - blend) < 1000 * a,
{
    assert(a + 4 <= b ==> 1000 * a + 1000 <= a * blend + b * (1000 - blend) < 1000 * b)
        by (nonlinear_arith)
        requires
            0 <= a,
            0 <= b,
            300 <= blend <= 700,
    ;
    assert(b + 4 <= a ==> 1000 * b + 1000 <= a * blend + b * (1000 - blend) < 1000 * a)
        by (nonlinear_arith)
        requires
            0 <= a,
            0 <= b,
            300 <= blend <= 700,
    ;
}

/// A nonnegative numerator strictly between two multiples of a thousand
/// divides to a quotient strictly between the factors.
proof fn lemma_div_strict_between(x: int, y: int, n: int)
    requires
        0 <= x < y,
        1000 * x + 1000 <= n < 1000 * y,
    ensures
        x < spec_tdiv(n, 1000) < y,
{
    assert(spec_tdiv(n, 1000) == n / 1000);
    vstd::arithmetic::div_mod::lemma_div_is_ordered(1000 * (x + 1), n, 1000);
    assert((1000 * (x + 1)) / 1000 == x + 1) by {
        vstd::arithmetic::div_mod::lemma_div_multiples_vanish(x + 1, 1000);
    }
    assert(n / 1000 >= x + 1);
    assert(n / 1000 < y) by {
        vstd::arithmetic::div_mod::lemma_fundamental_div_mod(n, 1000);
        vstd::arithmetic::div_mod::lemma_mod_bound(n, 1000);
        assert(n == 1000 * (n / 1000) + n % 1000);
        assert(1000 * (n / 1000) <= n);
    }
}

} // verus!

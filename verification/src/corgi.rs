//! Organisms, and what is decided for each of them in turn: spawning keeps
//! the population from dying out, thinking takes an organism whose brain
//! fails off the count without touching the others, reproduction hands a
//! mutated copy of a genome on.

use crate::arith::{total1, total2, total3};
use crate::brain::{
    BodyPerception, Brain, BrainInput, BrainOutput, Decisions, EnvironmentPerception, Perception,
};
use crate::conversion::Vector2;
use crate::error::BrainError;
use crate::genes::{drawn_shape, shape_draws, Genome, CHANNEL_LIMIT, WEIGHT_VARIANCE_BITS};
use crate::scalar::{Scalar, NEG_ONE_BITS, ONE_BITS, ZERO_BITS};
use rand::rngs::ThreadRng;
use rand::Rng;
use vstd::prelude::*;

verus! {

/// Below this many organisms the spawner makes new ones.
pub const MIN_CORGI_COUNT: u32 = 10;

/// The age from which an organism can reproduce.
pub const MATURITY_AGE: u32 = 1_000;

/// The word of `200.0`: the energy of a spawned organism.
pub const INITIAL_ENERGY_BITS: u32 = 0x4348_0000;

/// The word of `50.0`: the energy of a newborn.
pub const BORN_ENERGY_BITS: u32 = 0x4248_0000;

/// The word of `300.0`: the energy that reproducing takes, and that an
/// organism must have to reproduce.
pub const REPRODUCTION_WORK_BITS: u32 = 0x4396_0000;

/// The word of `1.0`: the mass of every new organism.
pub const NEWBORN_MASS_BITS: u32 = ONE_BITS;

/// One organism.
#[derive(Debug)]
pub struct Corgi {
    pub uuid: u128,
    pub name: String,
    pub generation: u32,
    pub age: u32,
    pub energy: Scalar,
    pub genes: Genome,
}

/// The body of an organism as the movement sees it.
#[derive(Clone, Copy, Debug, PartialEq, Eq, Structural)]
pub struct Physique {
    pub mass: Scalar,
    pub velocity: Vector2,
    pub force: Vector2,
}

impl Physique {
    /// The body of a new organism: mass one, at rest, nothing pulling.
    pub fn newborn() -> (physique: Physique)
        ensures
            physique.mass.bits == NEWBORN_MASS_BITS,
            physique.velocity == (Vector2 { x: Scalar::zero(), y: Scalar::zero() }),
            physique.force == (Vector2 { x: Scalar::zero(), y: Scalar::zero() }),
    {
        let zero = Scalar::from_bits(ZERO_BITS);
        Physique {
            mass: Scalar::from_bits(NEWBORN_MASS_BITS),
            velocity: Vector2 { x: zero, y: zero },
            force: Vector2 { x: zero, y: zero },
        }
    }
}

/// `Rng::gen` for `u128`: some value, any.
#[verifier::external_body]
fn sample_uuid(rng: &mut ThreadRng) -> u128 {
    rng.gen()
}

/// A new organism and the brain that goes with it: nothing remembered, the
/// network that the genome holds.
pub open spec fn newly_made(corgi: Corgi, brain: Brain, generation: int, energy: u32) -> bool {
    &&& corgi.name@ == "SomeCorgi"@
    &&& corgi.generation == generation
    &&& corgi.age == 0
    &&& corgi.energy.bits == energy
    &&& corgi.genes.brain@.well_formed()
    &&& brain.network() == corgi.genes.brain@
    &&& brain.remembered() is None
}

/// Keeps the population from falling below [`MIN_CORGI_COUNT`].
#[derive(Clone, Copy, Debug, Default)]
pub struct SpawnerSystem;

impl SpawnerSystem {
    /// How many organisms are spawned in a run before which `alive` were
    /// counted and `starved` of them had starved.
    pub open spec fn births(alive: nat, starved: nat) -> nat {
        if alive - starved < MIN_CORGI_COUNT {
            (MIN_CORGI_COUNT - (alive - starved)) as nat
        } else {
            0
        }
    }

    /// An organism starves when its energy falls below zero.
    pub fn is_starved(corgi: &Corgi) -> (starved: bool)
        ensures
            starved == corgi.energy.below_zero(),
    {
        corgi.energy.is_below_zero()
    }

    /// One organism of generation zero, with a random genome that fits the
    /// layout of perceptions and decisions.
    fn spawn<N: Fn(Scalar, Scalar) -> Scalar>(rng: &mut ThreadRng, normal: &N) -> (made: Result<
        (Corgi, Brain),
        BrainError,
    >)
        requires
            total2(normal),
        ensures
            made matches Ok((corgi, brain)) && Self::spawned(corgi, brain, normal),
    {
        let config = Brain::gene_config();
        let uuid = sample_uuid(rng);
        match Genome::random(rng, &config, normal) {
            Ok(genes) => {
                let brain = Brain::new(genes.brain.clone());
                let corgi = Corgi {
                    uuid,
                    name: "SomeCorgi".to_owned(),
                    generation: 0,
                    age: 0,
                    energy: Scalar::from_bits(INITIAL_ENERGY_BITS),
                    genes,
                };
                Ok((corgi, brain))
            },
            Err(e) => Err(e),
        }
    }

    /// `corgi` and `brain` are what the spawner makes: an organism of
    /// generation zero with the initial energy, whose genome was drawn to fit
    /// the layout of perceptions and decisions.
    pub open spec fn spawned<N: Fn(Scalar, Scalar) -> Scalar>(corgi: Corgi, brain: Brain, normal: &N) -> bool {
        &&& newly_made(corgi, brain, 0, INITIAL_ENERGY_BITS)
        &&& corgi.genes.color.r < CHANNEL_LIMIT
        &&& corgi.genes.color.g < CHANNEL_LIMIT
        &&& corgi.genes.color.b < CHANNEL_LIMIT
        &&& corgi.genes.brain@.drawn_from(normal, Scalar::zero(), Scalar { bits: WEIGHT_VARIANCE_BITS })
        &&& exists|draws: Seq<Scalar>|
            #[trigger] shape_draws(normal, draws) && corgi.genes.brain@.shape == drawn_shape(
                <Perception as BrainInput>::width() as usize,
                <Decisions as BrainOutput>::width() as usize,
                draws,
            )
    }

    /// One run: takes the starved off the count and spawns what is missing
    /// up to [`MIN_CORGI_COUNT`].
    pub fn run<N: Fn(Scalar, Scalar) -> Scalar>(
        corgi_count: &mut u32,
        starved: u32,
        rng: &mut ThreadRng,
        normal: &N,
    ) -> (born: Vec<(Corgi, Brain)>)
        requires
            total2(normal),
            starved <= *old(corgi_count),
        ensures
            born.len() == Self::births(*old(corgi_count) as nat, starved as nat),
            *final(corgi_count) == *old(corgi_count) - starved + born.len(),
            forall|k: int| 0 <= k < born.len() ==> Self::spawned((#[trigger] born[k]).0, born[k].1, normal),
    {
        *corgi_count = *corgi_count - starved;
        let mut born: Vec<(Corgi, Brain)> = Vec::new();
        let mut n: u32 = *corgi_count;
        while n < MIN_CORGI_COUNT
            invariant
                total2(normal),
                *corgi_count == *old(corgi_count) - starved,
                *corgi_count <= n,
                n <= MIN_CORGI_COUNT || n == *corgi_count,
                born.len() == n - *corgi_count,
                forall|k: int| 0 <= k < born.len() ==> Self::spawned((#[trigger] born[k]).0, born[k].1, normal),
            decreases MIN_CORGI_COUNT - n,
        {
            if let Ok(made) = Self::spawn(rng, normal) {
                born.push(made);
            }
            n += 1;
        }
        if *corgi_count < MIN_CORGI_COUNT {
            *corgi_count = MIN_CORGI_COUNT;
        }
        born
    }
}

/// A count with one more in it. A count that has reached the largest number
/// the machine holds stays there.
pub open spec fn counted_up(count: u32) -> u32 {
    if count < u32::MAX {
        (count + 1) as u32
    } else {
        count
    }
}

/// A count with one less in it. An empty count stays empty.
pub open spec fn counted_down(count: u32) -> u32 {
    if count > 0 {
        (count - 1) as u32
    } else {
        count
    }
}

/// Lets organisms think. What goes wrong in one brain stays with that
/// organism.
#[derive(Clone, Copy, Debug, Default)]
pub struct BrainSystem;

impl BrainSystem {
    /// One run for one organism: its brain perceives, thinks and keeps the
    /// memory. Where the brain fails, the organism leaves the count, and
    /// nothing else changes: the caller removes it and goes on with the
    /// others.
    pub fn run<M: Fn(Scalar, Scalar, Scalar) -> Scalar, S: Fn(Scalar) -> Scalar>(
        brain: &mut Brain,
        body: BodyPerception,
        environment: EnvironmentPerception,
        corgi_count: &mut u32,
        mul_add: &M,
        sigmoid: &S,
    ) -> (result: Result<Decisions, BrainError>)
        requires
            total3(mul_add),
            total1(sigmoid),
        ensures
            final(brain).evaluated_from(old(brain), body, environment, mul_add, sigmoid, result),
            *final(corgi_count) == match result {
                Ok(_) => *old(corgi_count),
                Err(_) => counted_down(*old(corgi_count)),
            },
    {
        let result = brain.cycle(body, environment, mul_add, sigmoid);
        if result.is_err() {
            *corgi_count = corgi_count.saturating_sub(1);
        }
        result
    }
}

/// Lets organisms that are old enough, willing and rich enough have a child.
#[derive(Clone, Copy, Debug, Default)]
pub struct ReproduceSystem;

impl ReproduceSystem {
    /// An organism reproduces when it has reached [`MATURITY_AGE`], its brain
    /// wants to, and its energy is at least [`REPRODUCTION_WORK_BITS`].
    pub open spec fn reproduces(corgi: Corgi, reproduction_will: bool) -> bool {
        &&& corgi.age >= MATURITY_AGE
        &&& reproduction_will
        &&& corgi.energy.at_least(Scalar { bits: REPRODUCTION_WORK_BITS })
    }

    /// One run for one organism. Where it reproduces, it pays the work, the
    /// count goes up by one, and the child gets a mutated copy of its genome,
    /// a fresh brain made from that copy, the next generation's number and
    /// the energy of a newborn. The parent's genome is never touched.
    pub fn run<N: Fn(Scalar, Scalar) -> Scalar, M: Fn(Scalar, Scalar, Scalar) -> Scalar>(
        corgi: &mut Corgi,
        reproduction_will: bool,
        corgi_count: &mut u32,
        rng: &mut ThreadRng,
        normal: &N,
        mul_add: &M,
    ) -> (born: Option<(Corgi, Brain)>)
        requires
            total2(normal),
            total3(mul_add),
        ensures
            born is Some <==> Self::reproduces(*old(corgi), reproduction_will),
            final(corgi).genes.brain@ == old(corgi).genes.brain@,
            final(corgi).genes.color == old(corgi).genes.color,
            final(corgi).uuid == old(corgi).uuid,
            final(corgi).name == old(corgi).name,
            final(corgi).generation == old(corgi).generation,
            final(corgi).age == old(corgi).age,
            match born {
                Some((child, brain)) => {
                    &&& mul_add.ensures(
                        (Scalar { bits: REPRODUCTION_WORK_BITS }, Scalar { bits: NEG_ONE_BITS }, old(corgi).energy),
                        final(corgi).energy,
                    )
                    &&& *final(corgi_count) == counted_up(*old(corgi_count))
                    &&& newly_made(child, brain, counted_up(old(corgi).generation) as int, BORN_ENERGY_BITS)
                    &&& child.genes.descends_from(old(corgi).genes, normal, mul_add)
                },
                None => final(corgi).energy == old(corgi).energy && *final(corgi_count) == *old(corgi_count),
            },
    {
        if !(corgi.age >= MATURITY_AGE && reproduction_will && corgi.energy.is_at_least(
            Scalar::from_bits(REPRODUCTION_WORK_BITS),
        )) {
            return None;
        }
        corgi.energy = mul_add(
            Scalar::from_bits(REPRODUCTION_WORK_BITS),
            Scalar::from_bits(NEG_ONE_BITS),
            corgi.energy,
        );
        let genes = corgi.genes.offspring(normal, mul_add);
        let brain = Brain::new(genes.brain.clone());
        let child = Corgi {
            uuid: sample_uuid(rng),
            name: "SomeCorgi".to_owned(),
            generation: corgi.generation.saturating_add(1),
            age: 0,
            energy: Scalar::from_bits(BORN_ENERGY_BITS),
            genes,
        };
        *corgi_count = corgi_count.saturating_add(1);
        Some((child, brain))
    }
}

} // verus!

use corgi_brain::brain::{BodyPerception, Brain, EnvironmentPerception, Hsl};
use corgi_brain::conversion::Vector2;
use corgi_brain::corgi::{
    BrainSystem, Corgi, Physique, ReproduceSystem, SpawnerSystem, BORN_ENERGY_BITS,
    INITIAL_ENERGY_BITS, MATURITY_AGE, MIN_CORGI_COUNT, NEWBORN_MASS_BITS, REPRODUCTION_WORK_BITS,
};
use corgi_brain::error::BrainError;
use corgi_brain::genes::{BrainGene, ColorGene, Genome};
use corgi_brain::neural_network::NeuralNetwork;
use corgi_brain::scalar::Scalar;
use corgi_brain::systems::{
    CogiBrainSystem, CogiSpawnSystem, COGI_INPUT_WIDTH, COGI_OUTPUT_WIDTH, COGI_SHAPE, POPULATION,
};
use rand::Rng;
use rand_distr::Normal;

fn yw(x: f32) -> Scalar {
    Scalar::from_bits(x.to_bits())
}

fn yf(s: Scalar) -> f32 {
    f32::from_bits(s.to_bits())
}

fn y_mul_add(a: Scalar, b: Scalar, c: Scalar) -> Scalar {
    yw(yf(a) * yf(b) + yf(c))
}

fn y_sigmoid(x: Scalar) -> Scalar {
    yw(1.0 / (1.0 + (-yf(x)).exp()))
}

fn y_normal(mean: Scalar, variance: Scalar) -> Scalar {
    yw(rand::thread_rng().sample(Normal::new(yf(mean), yf(variance).sqrt()).unwrap()))
}

fn y_entries(gene: &BrainGene) -> Vec<f32> {
    let mut all: Vec<f32> = gene.weights().iter().flatten().flatten().map(|x| yf(*x)).collect();
    all.extend(gene.biases().iter().flatten().map(|x| yf(*x)));
    all
}

fn y_corgi(age: u32, energy: f32) -> Corgi {
    let brain = BrainGene::with_shape(vec![10, 3, 9], yw(0.0), yw(5.0), &y_normal).unwrap();
    Corgi {
        uuid: 7,
        name: String::from("Parent"),
        generation: 4,
        age,
        energy: yw(energy),
        genes: Genome { brain, color: ColorGene { r: 1, g: 2, b: 3 } },
    }
}

#[test]
fn organism_constants_are_the_words_of_their_numbers() {
    assert_eq!(INITIAL_ENERGY_BITS, 200.0f32.to_bits());
    assert_eq!(BORN_ENERGY_BITS, 50.0f32.to_bits());
    assert_eq!(REPRODUCTION_WORK_BITS, 300.0f32.to_bits());
    assert_eq!(NEWBORN_MASS_BITS, 1.0f32.to_bits());
    assert_eq!((MIN_CORGI_COUNT, MATURITY_AGE, POPULATION), (10, 1000, 50));
    assert_eq!(COGI_SHAPE, [5, 5, 7, 5, 2]);
    assert_eq!((COGI_INPUT_WIDTH, COGI_OUTPUT_WIDTH), (5, 2));
}

#[test]
fn cogi_spawner_fills_the_population() {
    let mut system = CogiSpawnSystem::new();
    assert_eq!(system.counter(), 0);
    let born = system.run(0, &y_normal);
    assert_eq!(born.len(), 50);
    assert_eq!(system.counter(), 50);
    for network in &born {
        assert_eq!(network.genes().shape(), &vec![5, 5, 7, 5, 2]);
    }
    assert_eq!(system.run(0, &y_normal).len(), 0);
    assert_eq!(system.run(3, &y_normal).len(), 3);
    assert_eq!(system.run(50, &y_normal).len(), 50);
    assert_eq!(system.counter(), 50);
}

#[test]
fn starving_means_energy_below_zero() {
    assert!(CogiSpawnSystem::is_starved(yw(-0.001)));
    assert!(!CogiSpawnSystem::is_starved(yw(0.0)));
    assert!(!CogiSpawnSystem::is_starved(yw(-0.0)));
    assert!(!CogiSpawnSystem::is_starved(yw(200.0)));
    assert!(!CogiSpawnSystem::is_starved(yw(f32::NAN)));
    assert!(SpawnerSystem::is_starved(&y_corgi(0, -1.0)));
    assert!(!SpawnerSystem::is_starved(&y_corgi(0, 0.0)));
}

#[test]
fn cogi_brain_turns_state_into_force_and_mutates() {
    // the force is the sigmoid of position and of time
    let rows = vec![
        vec![yw(1.0), yw(0.0), yw(0.0), yw(0.0), yw(0.0)],
        vec![yw(0.0), yw(0.0), yw(0.0), yw(0.0), yw(1.0)],
    ];
    let gene = BrainGene::from_parts(vec![5, 2], vec![rows], vec![vec![yw(0.0); 2]]).unwrap();
    let mut network = NeuralNetwork::new(gene);
    let before = y_entries(network.genes());
    let force = CogiBrainSystem::run(
        &mut network,
        yw(2.0),
        [yw(0.5), yw(-0.5)],
        yw(3.0),
        &y_mul_add,
        &y_sigmoid,
        &|_, _| yw(0.25),
    )
    .unwrap();
    let s = |x: f32| 1.0 / (1.0 + (-x).exp());
    assert_eq!([yf(force[0]), yf(force[1])], [s(2.0), s(3.0)]);
    let after = y_entries(network.genes());
    assert!(after.iter().zip(&before).all(|(a, b)| *a == *b + 0.25));
}

#[test]
fn cogi_brain_reports_a_network_that_does_not_fit() {
    let mut narrow = NeuralNetwork::new_random(vec![4, 2], &y_normal).unwrap();
    let before = y_entries(narrow.genes());
    let run = |network: &mut NeuralNetwork| {
        CogiBrainSystem::run(
            network,
            yw(0.0),
            [yw(0.0), yw(0.0)],
            yw(0.0),
            &y_mul_add,
            &y_sigmoid,
            &y_normal,
        )
    };
    assert_eq!(run(&mut narrow), Err(BrainError::DimensionMismatch { expected: 4, actual: 5 }));
    assert_eq!(y_entries(narrow.genes()), before);
    let mut wide = NeuralNetwork::new_random(vec![5, 3], &y_normal).unwrap();
    let before = y_entries(wide.genes());
    assert_eq!(run(&mut wide), Err(BrainError::SchemaDesync { expected: 2, actual: 3 }));
    assert_eq!(y_entries(wide.genes()), before);
}

#[test]
fn spawner_makes_up_to_the_minimum() {
    let mut rng = rand::thread_rng();
    let mut count: u32 = 0;
    let born = SpawnerSystem::run(&mut count, 0, &mut rng, &y_normal);
    assert_eq!(born.len(), 10);
    assert_eq!(count, 10);
    for (corgi, brain) in &born {
        assert_eq!(corgi.name, "SomeCorgi");
        assert_eq!((corgi.generation, corgi.age), (0, 0));
        assert_eq!(yf(corgi.energy), 200.0);
        assert_eq!(brain.validate(), Ok(()));
        assert_eq!(brain.memory(), None);
        assert_eq!(corgi.genes.brain.shape()[0], 10);
        assert_eq!(*corgi.genes.brain.shape().last().unwrap(), 9);
        assert!(corgi.genes.color.r < 255 && corgi.genes.color.g < 255 && corgi.genes.color.b < 255);
    }
    let uuids: std::collections::HashSet<u128> = born.iter().map(|(c, _)| c.uuid).collect();
    assert_eq!(uuids.len(), 10);
    assert_eq!(SpawnerSystem::run(&mut count, 4, &mut rng, &y_normal).len(), 4);
    assert_eq!(count, 10);
    let mut count: u32 = 25;
    assert_eq!(SpawnerSystem::run(&mut count, 5, &mut rng, &y_normal).len(), 0);
    assert_eq!(count, 20);
    assert_eq!(SpawnerSystem::run(&mut count, 15, &mut rng, &y_normal).len(), 5);
    assert_eq!(count, 10);
}

#[test]
fn newborn_body_is_at_rest() {
    let zero = Vector2 { x: yw(0.0), y: yw(0.0) };
    assert_eq!(Physique::newborn(), Physique { mass: yw(1.0), velocity: zero, force: zero });
}

#[test]
fn reproduction_needs_age_will_and_energy() {
    let mut rng = rand::thread_rng();
    let cases = [
        (999, true, 1000.0),
        (1000, false, 1000.0),
        (1000, true, 299.99997),
        (1000, true, -300.0),
        (1000, true, f32::NAN),
        (0, false, 0.0),
    ];
    for (age, will, energy) in cases {
        let mut corgi = y_corgi(age, energy);
        let mut count: u32 = 12;
        let born = ReproduceSystem::run(&mut corgi, will, &mut count, &mut rng, &y_normal, &y_mul_add);
        assert!(born.is_none());
        assert_eq!(corgi.energy.bits, energy.to_bits());
        assert_eq!(count, 12);
    }
    for (age, energy) in [(1000, 300.0), (5000, 1.0e6), (1000, f32::INFINITY)] {
        let mut corgi = y_corgi(age, energy);
        let mut count: u32 = 12;
        let born = ReproduceSystem::run(&mut corgi, true, &mut count, &mut rng, &y_normal, &y_mul_add);
        assert!(born.is_some());
        assert_eq!(count, 13);
    }
}

#[test]
fn counters_stop_at_the_largest_number() {
    let mut rng = rand::thread_rng();
    let mut corgi = y_corgi(1000, 300.0);
    corgi.generation = u32::MAX;
    let before = y_entries(&corgi.genes.brain);
    let mut count: u32 = u32::MAX;
    let (child, _) =
        ReproduceSystem::run(&mut corgi, true, &mut count, &mut rng, &y_normal, &y_mul_add).unwrap();
    assert_eq!(child.generation, u32::MAX);
    assert_eq!(corgi.generation, u32::MAX);
    assert_eq!(count, u32::MAX);
    assert_eq!(y_entries(&corgi.genes.brain), before);
}

#[test]
fn a_brain_at_fault_takes_its_organism_off_the_count() {
    let body = BodyPerception { energy: yw(1.0), mass: yw(1.0) };
    let environment = EnvironmentPerception {
        velocity: Vector2 { x: yw(0.0), y: yw(0.0) },
        tile_color: Hsl { hue: yw(0.0), saturation: yw(1.0), lightness: yw(0.5) },
    };
    let fitting = BrainGene::with_shape(vec![10, 4, 9], yw(0.0), yw(5.0), &y_normal).unwrap();
    let narrow = BrainGene::with_shape(vec![8, 9], yw(0.0), yw(5.0), &y_normal).unwrap();
    let wide = BrainGene::with_shape(vec![10, 10], yw(0.0), yw(5.0), &y_normal).unwrap();
    let mut brains = vec![Brain::new(narrow), Brain::new(fitting), Brain::new(wide)];
    let mut count: u32 = 3;
    let outcomes: Vec<_> = brains
        .iter_mut()
        .map(|brain| BrainSystem::run(brain, body, environment, &mut count, &y_mul_add, &y_sigmoid))
        .collect();
    // the one in the middle is evaluated although its neighbours fail
    assert_eq!(outcomes[0], Err(BrainError::DimensionMismatch { expected: 8, actual: 10 }));
    assert_eq!(outcomes[2], Err(BrainError::SchemaDesync { expected: 9, actual: 10 }));
    let decided = outcomes[1].unwrap();
    assert_eq!(count, 1);
    assert_eq!(brains[0].memory(), None);
    assert_eq!(brains[1].memory(), Some(decided.memory));
    assert_eq!(brains[2].memory(), None);
    // a count that is empty stays empty
    let mut count: u32 = 0;
    assert!(BrainSystem::run(&mut brains[0], body, environment, &mut count, &y_mul_add, &y_sigmoid).is_err());
    assert_eq!(count, 0);
    // a run that succeeds is the brain's own cycle
    let mut same = Brain::new(BrainGene::with_shape(vec![10, 9], yw(0.0), yw(5.0), &|_, _| yw(0.25)).unwrap());
    let mut twin = Brain::new(BrainGene::with_shape(vec![10, 9], yw(0.0), yw(5.0), &|_, _| yw(0.25)).unwrap());
    let mut count: u32 = 5;
    assert_eq!(
        BrainSystem::run(&mut same, body, environment, &mut count, &y_mul_add, &y_sigmoid),
        twin.cycle(body, environment, &y_mul_add, &y_sigmoid)
    );
    assert_eq!(count, 5);
    assert_eq!(same.memory(), twin.memory());
}

#[test]
fn reproduction_pays_the_work_and_hands_a_mutated_copy_on() {
    let mut rng = rand::thread_rng();
    let mut parent = y_corgi(1500, 450.0);
    let before = y_entries(&parent.genes.brain);
    let shape = parent.genes.brain.shape().clone();
    let mut count: u32 = 40;
    let (child, brain) =
        ReproduceSystem::run(&mut parent, true, &mut count, &mut rng, &y_normal, &y_mul_add).unwrap();
    assert_eq!(count, 41);
    // the parent pays, and keeps everything else
    assert_eq!(yf(parent.energy), 150.0);
    assert_eq!((parent.uuid, parent.generation, parent.age), (7, 4, 1500));
    assert_eq!(parent.name, "Parent");
    assert_eq!(y_entries(&parent.genes.brain), before);
    assert_eq!(parent.genes.brain.shape(), &shape);
    assert_eq!(parent.genes.color, ColorGene { r: 1, g: 2, b: 3 });
    // the child starts over with what it inherited
    assert_eq!(child.name, "SomeCorgi");
    assert_eq!((child.generation, child.age), (5, 0));
    assert_eq!(yf(child.energy), 50.0);
    assert_eq!(child.genes.brain.shape(), &shape);
    assert_ne!(y_entries(&child.genes.brain), before);
    assert_eq!(brain.memory(), None);
    assert_eq!(brain.validate(), Ok(()));
    let same = Brain::new(child.genes.brain.clone());
    assert_eq!(same.validate(), Ok(()));
}

#[test]
fn reproduction_with_fixed_draws_is_exact() {
    let mut rng = rand::thread_rng();
    let mut parent = y_corgi(1000, 300.0);
    let before = y_entries(&parent.genes.brain);
    // every weight moves by one half, every colour channel steps by round(0.5) = 1
    let mut count: u32 = 1;
    let (child, _) =
        ReproduceSystem::run(&mut parent, true, &mut count, &mut rng, &|_, _| yw(0.5), &y_mul_add).unwrap();
    assert_eq!(yf(parent.energy), 0.0);
    let after = y_entries(&child.genes.brain);
    assert!(after.iter().zip(&before).all(|(c, p)| *c == *p + 0.5));
    assert_eq!(child.genes.color, ColorGene { r: 2, g: 3, b: 4 });
}

use corgi_brain::brain::{
    BodyPerception, BrainInput, BrainOutput, Decisions, EnvironmentPerception, Hsl, Memory,
    Perception, DECIDED_LIGHTNESS_BITS, DECIDED_SATURATION_BITS, MEMORY_SIZE,
};
use corgi_brain::conversion::{from_bool, from_vector, into_bool, into_vector, to_radians, Vector2};
use corgi_brain::error::BrainError;
use corgi_brain::scalar::Scalar;
use std::f32::consts::{PI, TAU};

fn cw(x: f32) -> Scalar {
    Scalar::from_bits(x.to_bits())
}

fn cf(s: Scalar) -> f32 {
    f32::from_bits(s.to_bits())
}

fn c_mul_add(a: Scalar, b: Scalar, c: Scalar) -> Scalar {
    cw(cf(a) * cf(b) + cf(c))
}

fn c_words(xs: &[f32]) -> Vec<Scalar> {
    xs.iter().map(|x| cw(*x)).collect()
}

fn c_numbers(xs: &[Scalar]) -> Vec<f32> {
    xs.iter().map(|x| cf(*x)).collect()
}

fn c_memory(xs: [f32; 5]) -> Memory {
    Memory([cw(xs[0]), cw(xs[1]), cw(xs[2]), cw(xs[3]), cw(xs[4])])
}

fn c_perception() -> Perception {
    Perception {
        body: BodyPerception { energy: cw(150.0), mass: cw(1.5) },
        environment: EnvironmentPerception {
            velocity: Vector2 { x: cw(-3.0), y: cw(4.0) },
            tile_color: Hsl { hue: cw(2.5), saturation: cw(0.7), lightness: cw(0.2) },
        },
        memory: c_memory([0.1, 0.2, 0.3, 0.4, 0.5]),
    }
}

#[test]
fn boolean_encodes_to_one_and_zero() {
    assert_eq!(cf(from_bool(true)), 1.0);
    assert_eq!(from_bool(false).bits, 0.0f32.to_bits());
    assert_eq!(c_numbers(&true.to_input()), vec![1.0]);
    assert_eq!(c_numbers(&false.to_input()), vec![0.0]);
}

#[test]
fn boolean_decodes_from_one_half_upwards() {
    assert!(into_bool(cw(0.5)));
    assert!(!into_bool(cw(0.499999)));
    assert!(into_bool(cw(1.0)));
    assert!(!into_bool(cw(0.0)));
    assert_eq!(<bool as BrainOutput>::from_output(&c_words(&[0.5]), &c_mul_add), Ok(true));
    assert_eq!(<bool as BrainOutput>::from_output(&c_words(&[0.499999]), &c_mul_add), Ok(false));
}

#[test]
fn boolean_round_trips() {
    for will in [true, false] {
        assert_eq!(into_bool(from_bool(will)), will);
        assert_eq!(<bool as BrainOutput>::from_output(&will.to_input(), &c_mul_add), Ok(will));
    }
}

#[test]
fn force_decodes_to_the_range_around_zero() {
    let force = <Vector2 as BrainOutput>::from_output(&c_words(&[0.0, 1.0]), &c_mul_add).unwrap();
    assert_eq!((cf(force.x), cf(force.y)), (-1.0, 1.0));
    let force = into_vector([cw(0.5), cw(0.75)], &c_mul_add);
    assert_eq!((cf(force.x), cf(force.y)), (0.0, 0.5));
}

#[test]
fn force_round_trips_through_the_unit_interval() {
    for target in [-1.0f32, -0.5, 0.0, 0.25, 1.0] {
        let raw = (target + 1.0) / 2.0;
        let force = <Vector2 as BrainOutput>::from_output(&c_words(&[raw, raw]), &c_mul_add).unwrap();
        assert!((cf(force.x) - target).abs() < 1e-6);
        assert!((cf(force.y) - target).abs() < 1e-6);
    }
}

#[test]
fn vector_encodes_its_components_as_they_are() {
    let v = Vector2 { x: cw(-30.5), y: cw(1.0e6) };
    assert_eq!(c_numbers(&from_vector(v)), vec![-30.5, 1.0e6]);
    assert_eq!(c_numbers(&v.to_input()), vec![-30.5, 1.0e6]);
}

#[test]
fn map_goes_from_low_to_high() {
    assert_eq!(cf(corgi_brain::conversion::map(cw(2.0), cw(6.0), cw(0.0), &c_mul_add)), 2.0);
    assert_eq!(cf(corgi_brain::conversion::map(cw(2.0), cw(6.0), cw(1.0), &c_mul_add)), 6.0);
    assert_eq!(cf(corgi_brain::conversion::map(cw(2.0), cw(6.0), cw(0.25), &c_mul_add)), 3.0);
    assert_eq!(cf(corgi_brain::conversion::map(cw(-1.0), cw(1.0), cw(0.5), &c_mul_add)), 0.0);
}

#[test]
fn hue_decodes_to_the_full_circle() {
    assert_eq!(cf(to_radians(cw(0.0), &c_mul_add)), -PI);
    assert_eq!(cf(to_radians(cw(1.0), &c_mul_add)), 1.0 * TAU - PI);
    assert_eq!(cf(to_radians(cw(0.5), &c_mul_add)), 0.5 * TAU - PI);
    let color = <Hsl as BrainOutput>::from_output(&c_words(&[0.75]), &c_mul_add).unwrap();
    assert_eq!(cf(color.hue), 0.75 * TAU - PI);
    assert_eq!(cf(color.saturation), 1.0);
    assert_eq!(cf(color.lightness), 0.5);
    assert_eq!(DECIDED_SATURATION_BITS, 1.0f32.to_bits());
    assert_eq!(DECIDED_LIGHTNESS_BITS, 0.5f32.to_bits());
}

#[test]
fn colour_encodes_its_hue_alone() {
    let color = Hsl { hue: cw(-2.0), saturation: cw(0.3), lightness: cw(0.9) };
    assert_eq!(c_numbers(&color.to_input()), vec![-2.0]);
}

#[test]
fn scalar_passes_through() {
    for x in [0.0f32, -7.25, 1.0e-30, f32::INFINITY] {
        assert_eq!(c_numbers(&cw(x).to_input()), vec![x]);
        assert_eq!(<Scalar as BrainOutput>::from_output(&c_words(&[x]), &c_mul_add), Ok(cw(x)));
    }
    assert_eq!(<Scalar as BrainOutput>::len(), 1);
    assert_eq!(
        <Scalar as BrainOutput>::from_output(&c_words(&[1.0, 2.0]), &c_mul_add),
        Err(BrainError::SchemaDesync { expected: 1, actual: 2 })
    );
}

#[test]
fn memory_passes_through() {
    let memory = c_memory([1.0, -2.0, 3.5, 0.0, 9.0]);
    assert_eq!(MEMORY_SIZE, 5);
    assert_eq!(c_numbers(&memory.to_input()), vec![1.0, -2.0, 3.5, 0.0, 9.0]);
    assert_eq!(<Memory as BrainOutput>::from_output(&memory.to_input(), &c_mul_add), Ok(memory));
    assert_eq!(c_numbers(&Memory::zeroed().to_input()), vec![0.0; 5]);
}

#[test]
fn perception_is_laid_out_in_the_fixed_order() {
    assert_eq!(
        c_numbers(&c_perception().to_input()),
        vec![150.0, 1.5, -3.0, 4.0, 2.5, 0.1, 0.2, 0.3, 0.4, 0.5]
    );
    assert_eq!(c_numbers(&c_perception().body.to_input()), vec![150.0, 1.5]);
    assert_eq!(c_numbers(&c_perception().environment.to_input()), vec![-3.0, 4.0, 2.5]);
}

#[test]
fn every_encoding_has_the_declared_width() {
    assert_eq!(<Scalar as BrainInput>::len(), 1);
    assert_eq!(<bool as BrainInput>::len(), 1);
    assert_eq!(<Vector2 as BrainInput>::len(), 2);
    assert_eq!(<Hsl as BrainInput>::len(), 1);
    assert_eq!(<Memory as BrainInput>::len(), 5);
    assert_eq!(<BodyPerception as BrainInput>::len(), 2);
    assert_eq!(<EnvironmentPerception as BrainInput>::len(), 3);
    assert_eq!(<Perception as BrainInput>::len(), 10);
    let p = c_perception();
    assert_eq!(cw(3.0).to_input().len(), <Scalar as BrainInput>::len());
    assert_eq!(true.to_input().len(), <bool as BrainInput>::len());
    assert_eq!(p.environment.velocity.to_input().len(), <Vector2 as BrainInput>::len());
    assert_eq!(p.environment.tile_color.to_input().len(), <Hsl as BrainInput>::len());
    assert_eq!(p.memory.to_input().len(), <Memory as BrainInput>::len());
    assert_eq!(p.body.to_input().len(), <BodyPerception as BrainInput>::len());
    assert_eq!(p.environment.to_input().len(), <EnvironmentPerception as BrainInput>::len());
    assert_eq!(p.to_input().len(), <Perception as BrainInput>::len());
}

#[test]
fn decision_widths_add_up() {
    assert_eq!(<Vector2 as BrainOutput>::len(), 2);
    assert_eq!(<bool as BrainOutput>::len(), 1);
    assert_eq!(<Hsl as BrainOutput>::len(), 1);
    assert_eq!(<Memory as BrainOutput>::len(), 5);
    assert_eq!(<Decisions as BrainOutput>::len(), 9);
}

#[test]
fn decisions_are_rebuilt_in_the_fixed_order() {
    let raw = c_words(&[0.0, 1.0, 0.5, 0.25, 0.9, 0.8, 0.7, 0.6, 0.55]);
    let decisions = <Decisions as BrainOutput>::from_output(&raw, &c_mul_add).unwrap();
    assert_eq!((cf(decisions.force.x), cf(decisions.force.y)), (-1.0, 1.0));
    assert!(decisions.reproduction_will);
    assert_eq!(cf(decisions.color.hue), 0.25 * TAU - PI);
    assert_eq!(decisions.memory, c_memory([0.9, 0.8, 0.7, 0.6, 0.55]));
    let raw = c_words(&[0.5, 0.5, 0.49, 0.5, 0.0, 0.0, 0.0, 0.0, 0.0]);
    let decisions = <Decisions as BrainOutput>::from_output(&raw, &c_mul_add).unwrap();
    assert!(!decisions.reproduction_will);
    assert_eq!((cf(decisions.force.x), cf(decisions.force.y)), (0.0, 0.0));
}

#[test]
fn decoding_must_consume_the_buffer_exactly() {
    let short = c_words(&[0.0; 8]);
    let long = c_words(&[0.0; 10]);
    assert_eq!(
        <Decisions as BrainOutput>::from_output(&short, &c_mul_add),
        Err(BrainError::SchemaDesync { expected: 9, actual: 8 })
    );
    assert_eq!(
        <Decisions as BrainOutput>::from_output(&long, &c_mul_add),
        Err(BrainError::SchemaDesync { expected: 9, actual: 10 })
    );
    assert_eq!(
        <Decisions as BrainOutput>::from_output(&Vec::new(), &c_mul_add),
        Err(BrainError::SchemaDesync { expected: 9, actual: 0 })
    );
    assert_eq!(
        <bool as BrainOutput>::from_output(&c_words(&[1.0, 1.0]), &c_mul_add),
        Err(BrainError::SchemaDesync { expected: 1, actual: 2 })
    );
    assert_eq!(
        <Vector2 as BrainOutput>::from_output(&c_words(&[1.0]), &c_mul_add),
        Err(BrainError::SchemaDesync { expected: 2, actual: 1 })
    );
    assert_eq!(
        <Hsl as BrainOutput>::from_output(&Vec::new(), &c_mul_add),
        Err(BrainError::SchemaDesync { expected: 1, actual: 0 })
    );
    assert_eq!(
        <Memory as BrainOutput>::from_output(&c_words(&[0.0; 4]), &c_mul_add),
        Err(BrainError::SchemaDesync { expected: 5, actual: 4 })
    );
}

#[test]
fn collect_fills_a_missing_memory_with_zeros() {
    let velocity = Vector2 { x: cw(1.0), y: cw(2.0) };
    let color = Hsl { hue: cw(0.5), saturation: cw(1.0), lightness: cw(0.5) };
    let fresh = Perception::collect(cw(200.0), cw(1.0), velocity, color, None);
    assert_eq!(
        c_numbers(&fresh.to_input()),
        vec![200.0, 1.0, 1.0, 2.0, 0.5, 0.0, 0.0, 0.0, 0.0, 0.0]
    );
    let memory = c_memory([5.0, 4.0, 3.0, 2.0, 1.0]);
    let later = Perception::collect(cw(200.0), cw(1.0), velocity, color, Some(memory));
    assert_eq!(later.memory, memory);
    assert_eq!(later.body, BodyPerception { energy: cw(200.0), mass: cw(1.0) });
    assert_eq!(later.environment, EnvironmentPerception { velocity, tile_color: color });
}

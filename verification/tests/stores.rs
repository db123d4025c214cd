use corgi_brain::error::BrainError;
use corgi_brain::genes::BrainGene;
use corgi_brain::intelligence::{
    decide_movement, decide_reproduction, perceive_body, perceive_vision, think, transition,
    BodyPerception, Decision, DecisionBundle, IntelligenceBundle, MovementDecision, Perception,
    PerceptionBundle, ReproductionDecision, Stage, ThoughtDryRun, VisionPerception, MOVEMENT_WIDTH,
    PROBE_BITS, REPRODUCTION_WIDTH,
};
use corgi_brain::neural_network::NeuralNetwork;
use corgi_brain::scalar::Scalar;

fn sw(x: f32) -> Scalar {
    Scalar::from_bits(x.to_bits())
}

fn sf(s: Scalar) -> f32 {
    f32::from_bits(s.to_bits())
}

fn s_mul_add(a: Scalar, b: Scalar, c: Scalar) -> Scalar {
    sw(sf(a) * sf(b) + sf(c))
}

fn s_sigmoid(x: Scalar) -> Scalar {
    sw(1.0 / (1.0 + (-sf(x)).exp()))
}

fn s_words(xs: &[f32]) -> Vec<Scalar> {
    xs.iter().map(|x| sw(*x)).collect()
}

fn s_numbers(xs: &[Scalar]) -> Vec<f32> {
    xs.iter().map(|x| sf(*x)).collect()
}

/// A network from `inputs` to 7 outputs whose output `k` is the sigmoid of `k + 1` times the first input.
fn s_network(inputs: usize, outputs: usize) -> NeuralNetwork {
    let rows = (0..outputs)
        .map(|r| (0..inputs).map(|c| sw(if c == 0 { (r + 1) as f32 } else { 0.0 })).collect())
        .collect();
    let gene =
        BrainGene::from_parts(vec![inputs, outputs], vec![rows], vec![vec![sw(0.0); outputs]]).unwrap();
    NeuralNetwork::new(gene)
}

fn s_expected_output(first_input: f32) -> Vec<f32> {
    (1..=7).map(|k| 1.0 / (1.0 + (-(k as f32) * first_input).exp())).collect()
}

#[test]
fn probe_is_zero_and_three_plain_numbers() {
    let probe: Vec<f32> = PROBE_BITS.iter().map(|b| f32::from_bits(*b)).collect();
    assert_eq!(probe, vec![0.0, 1.2, 5.0, -1.0]);
    assert_eq!((MOVEMENT_WIDTH, REPRODUCTION_WIDTH), (5, 2));
}

#[test]
fn perception_keeps_what_is_put_in_order() {
    let mut store = Perception::new();
    assert_eq!(store.len(), 0);
    store.put(sw(1.0));
    store.extend(&s_words(&[2.0, 3.0]));
    store.put(sw(4.0));
    store.extend(&Vec::new());
    assert_eq!(store.len(), 4);
    assert_eq!(s_numbers(store.values()), vec![1.0, 2.0, 3.0, 4.0]);
    store.clear();
    assert_eq!(store.len(), 0);
    assert_eq!(Perception::default().len(), 0);
}

#[test]
fn decision_hands_out_from_the_front() {
    let mut store = Decision::filled(s_words(&[1.0, 2.0, 3.0, 4.0, 5.0, 6.0]));
    assert_eq!(store.len(), 6);
    assert_eq!(sf(store.take()), 1.0);
    assert_eq!(s_numbers(&store.take_multiple(3)), vec![2.0, 3.0, 4.0]);
    assert_eq!(store.len(), 2);
    assert_eq!(s_numbers(&store.take_multiple(0)), Vec::<f32>::new());
    assert_eq!(sf(store.take()), 5.0);
    assert_eq!(sf(store.take()), 6.0);
    assert_eq!(store.len(), 0);
    assert_eq!(Decision::new().len(), 0);
    assert_eq!(Decision::default().len(), 0);
}

#[test]
fn dry_run_counts_what_is_put_and_taken() {
    let mut run = ThoughtDryRun::new();
    assert_eq!(run.len(), 0);
    run.put(sw(3.0));
    run.extend(&s_words(&[1.0, 2.0, 3.0]));
    assert_eq!(run.len(), 4);
    assert_eq!(sf(run.take()), 0.0);
    assert_eq!(run.take_multiple(5), Vec::new());
    assert_eq!(run.len(), 10);
    assert_eq!(run, ThoughtDryRun { count: 10 });
    assert_eq!(ThoughtDryRun::default(), ThoughtDryRun { count: 0 });
}

#[test]
fn probing_collaborators_report_the_probe() {
    let mut vision = VisionPerception(Perception::new());
    perceive_vision(&mut vision);
    assert_eq!(s_numbers(vision.0.values()), vec![0.0, 1.2, 5.0, -1.0]);
    perceive_vision(&mut vision);
    assert_eq!(s_numbers(vision.0.values()), vec![0.0, 1.2, 5.0, -1.0, 0.0, 1.2, 5.0, -1.0]);
    let mut body = BodyPerception(Perception::new());
    body.0.put(sw(9.0));
    perceive_body(&mut body);
    assert_eq!(s_numbers(body.0.values()), vec![9.0, 0.0, 1.2, 5.0, -1.0]);
}

#[test]
fn deciding_collaborators_take_their_widths() {
    let mut movement = MovementDecision(Decision::filled(s_words(&[1.0, 2.0, 3.0, 4.0, 5.0, 6.0])));
    decide_movement(&mut movement);
    assert_eq!(movement.0.len(), 1);
    assert_eq!(sf(movement.0.take()), 6.0);
    let mut reproduction = ReproductionDecision(Decision::filled(s_words(&[1.0, 2.0, 3.0])));
    decide_reproduction(&mut reproduction);
    assert_eq!(reproduction.0.len(), 1);
    assert_eq!(sf(reproduction.0.take()), 3.0);
}

#[test]
fn think_gathers_body_first_and_deals_movement_first() {
    let mut perception = PerceptionBundle::new();
    perception.vision.0.extend(&s_words(&[9.0, 9.0, 9.0, 9.0]));
    perception.body.0.extend(&s_words(&[0.5, 1.0, 1.0, 1.0]));
    let mut decision = DecisionBundle::new();
    let network = s_network(8, 7);
    assert_eq!(think(&network, &perception, &mut decision, &s_mul_add, &s_sigmoid), Ok(()));
    // the first input is the body's first number, not the vision's
    let expected = s_expected_output(0.5);
    assert_eq!(decision.movement.0.len(), 5);
    assert_eq!(decision.reproduction.0.len(), 2);
    assert_eq!(s_numbers(&decision.movement.0.take_multiple(5)), expected[..5].to_vec());
    assert_eq!(s_numbers(&decision.reproduction.0.take_multiple(2)), expected[5..].to_vec());
}

#[test]
fn think_reports_what_does_not_fit_and_leaves_the_decisions() {
    let mut perception = PerceptionBundle::new();
    perceive_body(&mut perception.body);
    let mut decision = DecisionBundle::new();
    decision.movement = MovementDecision(Decision::filled(s_words(&[7.0])));
    // eight inputs wanted, four perceived
    assert_eq!(
        think(&s_network(8, 7), &perception, &mut decision, &s_mul_add, &s_sigmoid),
        Err(BrainError::DimensionMismatch { expected: 8, actual: 4 })
    );
    // seven outputs wanted, six given
    assert_eq!(
        think(&s_network(4, 6), &perception, &mut decision, &s_mul_add, &s_sigmoid),
        Err(BrainError::SchemaDesync { expected: 7, actual: 6 })
    );
    assert_eq!(decision.movement.0.len(), 1);
    assert_eq!(sf(decision.movement.0.take()), 7.0);
    assert_eq!(decision.reproduction.0.len(), 0);
}

#[test]
fn transition_wants_every_number_taken() {
    let mut perception = PerceptionBundle::new();
    perceive_body(&mut perception.body);
    perceive_vision(&mut perception.vision);
    let mut decision = DecisionBundle::new();
    assert_eq!(think(&s_network(8, 7), &perception, &mut decision, &s_mul_add, &s_sigmoid), Ok(()));
    assert_eq!(
        transition(&mut perception, &decision),
        Err(BrainError::SchemaDesync { expected: 0, actual: 5 })
    );
    decide_movement(&mut decision.movement);
    assert_eq!(
        transition(&mut perception, &decision),
        Err(BrainError::SchemaDesync { expected: 0, actual: 2 })
    );
    assert_eq!(perception.body.0.len(), 4);
    decide_reproduction(&mut decision.reproduction);
    assert_eq!(transition(&mut perception, &decision), Ok(()));
    assert_eq!(perception.body.0.len(), 0);
    assert_eq!(perception.vision.0.len(), 0);
}

#[test]
fn stages_follow_in_one_round() {
    assert_eq!(Stage::Perceive.next(), Stage::Think);
    assert_eq!(Stage::Think.next(), Stage::Decide);
    assert_eq!(Stage::Decide.next(), Stage::Transition);
    assert_eq!(Stage::Transition.next(), Stage::Perceive);
    let names: Vec<&str> =
        [Stage::Perceive, Stage::Think, Stage::Decide, Stage::Transition].iter().map(|s| s.name()).collect();
    assert_eq!(names, vec!["perceive", "think", "decide", "transition"]);
}

#[test]
fn a_bundle_goes_through_the_stages_in_order() {
    let mut bundle = IntelligenceBundle::new(s_network(8, 7));
    assert_eq!(bundle.stage(), Stage::Perceive);
    // nothing to take while perceiving
    assert_eq!(bundle.take_movement(), None);
    assert!(bundle.put_body(&s_words(&[0.5, 0.0, 0.0, 0.0])));
    assert!(bundle.put_vision(&s_words(&[1.0, 2.0, 3.0, 4.0])));
    assert_eq!(bundle.advance(&s_mul_add, &s_sigmoid), Ok(Stage::Think));
    // too late to perceive, too early to take
    assert!(!bundle.put_body(&s_words(&[1.0])));
    assert!(!bundle.put_vision(&s_words(&[1.0])));
    assert_eq!(bundle.take_reproduction(), None);
    assert_eq!(bundle.advance(&s_mul_add, &s_sigmoid), Ok(Stage::Decide));
    let expected = s_expected_output(0.5);
    let movement = bundle.take_movement().unwrap();
    assert_eq!(s_numbers(&movement), expected[..5].to_vec());
    assert_eq!(bundle.take_movement(), None);
    assert_eq!(bundle.advance(&s_mul_add, &s_sigmoid), Ok(Stage::Transition));
    // the reproduction's numbers were left behind
    assert_eq!(bundle.take_reproduction(), None);
    assert_eq!(
        bundle.advance(&s_mul_add, &s_sigmoid),
        Err(BrainError::SchemaDesync { expected: 0, actual: 2 })
    );
    assert_eq!(bundle.stage(), Stage::Transition);
}

#[test]
fn a_bundle_comes_round_with_empty_stores() {
    let mut bundle = IntelligenceBundle::new(s_network(8, 7));
    for round in 0..3 {
        let first = round as f32;
        assert!(bundle.put_body(&s_words(&[first, 0.0, 0.0, 0.0])));
        assert!(bundle.put_vision(&s_words(&[0.0; 4])));
        assert_eq!(bundle.advance(&s_mul_add, &s_sigmoid), Ok(Stage::Think));
        assert_eq!(bundle.advance(&s_mul_add, &s_sigmoid), Ok(Stage::Decide));
        let expected = s_expected_output(first);
        assert_eq!(s_numbers(&bundle.take_reproduction().unwrap()), expected[5..].to_vec());
        assert_eq!(s_numbers(&bundle.take_movement().unwrap()), expected[..5].to_vec());
        assert_eq!(bundle.advance(&s_mul_add, &s_sigmoid), Ok(Stage::Transition));
        assert_eq!(bundle.advance(&s_mul_add, &s_sigmoid), Ok(Stage::Perceive));
    }
}

#[test]
fn a_bundle_stays_in_the_think_stage_when_thinking_fails() {
    let mut bundle = IntelligenceBundle::new(s_network(8, 7));
    assert!(bundle.put_body(&s_words(&[1.0])));
    assert_eq!(bundle.advance(&s_mul_add, &s_sigmoid), Ok(Stage::Think));
    assert_eq!(
        bundle.advance(&s_mul_add, &s_sigmoid),
        Err(BrainError::DimensionMismatch { expected: 8, actual: 1 })
    );
    assert_eq!(bundle.stage(), Stage::Think);
}

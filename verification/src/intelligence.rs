//! The stores through which perceiving and deciding collaborators talk to a
//! brain, and the stages of one evaluation over them.
//!
//! Collaborators that perceive put numbers into their own [`Perception`]; the
//! think stage gathers all of them in a fixed order, evaluates the network and
//! deals the output out to one [`Decision`] per deciding collaborator; those
//! take their numbers from the front; the transition stage checks that
//! nothing was left and clears the stores for the next evaluation.

use crate::arith::{total1, total3};
use crate::error::BrainError;
use crate::genes::GeneModel;
use crate::neural_network::{feeds, NeuralNetwork};
use crate::scalar::Scalar;
use vstd::prelude::*;

verus! {

/// How many numbers the movement collaborator takes in each evaluation.
pub const MOVEMENT_WIDTH: usize = 5;

/// How many numbers the reproduction collaborator takes in each evaluation.
pub const REPRODUCTION_WIDTH: usize = 2;

/// The words of `0.0`, `1.2`, `5.0` and `-1.0`: what the probing collaborators
/// report in place of real senses.
pub const PROBE_BITS: [u32; 4] = [0x0000_0000, 0x3F99_999A, 0x40A0_0000, 0xBF80_0000];

/// The probe as numbers.
pub open spec fn probe() -> Seq<Scalar> {
    Seq::new(4, |k: int| Scalar { bits: PROBE_BITS[k] })
}

/// The numbers that one collaborator has perceived, in the order put.
#[derive(Debug)]
pub struct Perception {
    vec: Vec<Scalar>,
}

impl View for Perception {
    type V = Seq<Scalar>;

    closed spec fn view(&self) -> Seq<Scalar> {
        self.vec@
    }
}

impl Perception {
    pub fn new() -> (store: Perception)
        ensures
            store@ == Seq::<Scalar>::empty(),
    {
        Perception { vec: Vec::new() }
    }

    /// How many numbers have been put.
    pub fn len(&self) -> (n: usize)
        ensures
            n == self@.len(),
    {
        self.vec.len()
    }

    /// Puts one number behind those already there.
    pub fn put(&mut self, value: Scalar)
        ensures
            final(self)@ == old(self)@.push(value),
    {
        self.vec.push(value);
    }

    /// Puts all of `values`, in their order, behind those already there.
    pub fn extend(&mut self, values: &Vec<Scalar>)
        ensures
            final(self)@ == old(self)@ + values@,
    {
        let mut k: usize = 0;
        while k < values.len()
            invariant
                k <= values.len(),
                self@ == old(self)@ + values@.take(k as int),
            decreases values.len() - k,
        {
            self.put(values[k]);
            k += 1;
        }
    }

    /// Forgets everything that was put.
    pub fn clear(&mut self)
        ensures
            final(self)@ == Seq::<Scalar>::empty(),
    {
        self.vec.clear();
    }

    /// The numbers put so far.
    pub fn values(&self) -> (values: &Vec<Scalar>)
        ensures
            values@ == self@,
    {
        &self.vec
    }
}

impl Default for Perception {
    fn default() -> (store: Perception)
        ensures
            store@ == Seq::<Scalar>::empty(),
    {
        Perception::new()
    }
}

/// The numbers that one collaborator is still to take, next first.
#[derive(Debug)]
pub struct Decision {
    vec: Vec<Scalar>,
    next: usize,
}

impl View for Decision {
    type V = Seq<Scalar>;

    closed spec fn view(&self) -> Seq<Scalar> {
        self.vec@.subrange(self.next as int, self.vec.len() as int)
    }
}

impl Decision {
    #[verifier::type_invariant]
    spec fn inv(&self) -> bool {
        self.next <= self.vec.len()
    }

    pub fn new() -> (store: Decision)
        ensures
            store@ == Seq::<Scalar>::empty(),
    {
        let store = Decision { vec: Vec::new(), next: 0 };
        store
    }

    /// A store from which exactly `values` can be taken, in their order.
    pub fn filled(values: Vec<Scalar>) -> (store: Decision)
        ensures
            store@ == values@,
    {
        let store = Decision { vec: values, next: 0 };
        store
    }

    /// How many numbers are still to be taken.
    pub fn len(&self) -> (n: usize)
        ensures
            n == self@.len(),
    {
        proof {
            use_type_invariant(self);
        }
        self.vec.len() - self.next
    }

    /// Takes the next number.
    pub fn take(&mut self) -> (value: Scalar)
        requires
            old(self)@.len() >= 1,
        ensures
            value == old(self)@[0],
            final(self)@ == old(self)@.drop_first(),
    {
        proof {
            use_type_invariant(&*self);
        }
        let value = self.vec[self.next];
        self.next = self.next + 1;
        value
    }

    /// Takes the next `n` numbers, in their order.
    pub fn take_multiple(&mut self, n: usize) -> (values: Vec<Scalar>)
        requires
            n <= old(self)@.len(),
        ensures
            values@ == old(self)@.take(n as int),
            final(self)@ == old(self)@.skip(n as int),
    {
        let mut values: Vec<Scalar> = Vec::new();
        let mut k: usize = 0;
        while k < n
            invariant
                k <= n <= old(self)@.len(),
                values@ == old(self)@.take(k as int),
                self@ == old(self)@.skip(k as int),
            decreases n - k,
        {
            let value = self.take();
            values.push(value);
            k += 1;
        }
        values
    }
}

impl Default for Decision {
    fn default() -> (store: Decision)
        ensures
            store@ == Seq::<Scalar>::empty(),
    {
        Decision::new()
    }
}

/// A store that only counts: put through the stages in place of the real
/// ones, it tells how many numbers a collaborator puts or takes.
#[derive(Clone, Copy, Debug, PartialEq, Eq, Structural)]
pub struct ThoughtDryRun {
    pub count: usize,
}

impl ThoughtDryRun {
    pub fn new() -> (run: ThoughtDryRun)
        ensures
            run.count == 0,
    {
        ThoughtDryRun { count: 0 }
    }

    /// How many numbers have been put or taken.
    pub fn len(&self) -> (n: usize)
        ensures
            n == self.count,
    {
        self.count
    }

    /// Counts one number put.
    pub fn put(&mut self, value: Scalar)
        requires
            old(self).count < usize::MAX,
        ensures
            final(self).count == old(self).count + 1,
    {
        self.count = self.count + 1;
    }

    /// Counts all of `values` as put.
    pub fn extend(&mut self, values: &Vec<Scalar>)
        requires
            old(self).count + values.len() <= usize::MAX,
        ensures
            final(self).count == old(self).count + values.len(),
    {
        self.count = self.count + values.len();
    }

    /// Counts one number taken, and hands out zero in its place.
    pub fn take(&mut self) -> (value: Scalar)
        requires
            old(self).count < usize::MAX,
        ensures
            final(self).count == old(self).count + 1,
            value == Scalar::zero(),
    {
        self.count = self.count + 1;
        Scalar::from_bits(crate::scalar::ZERO_BITS)
    }

    /// Counts `n` numbers taken, and hands out none.
    pub fn take_multiple(&mut self, n: usize) -> (values: Vec<Scalar>)
        requires
            old(self).count + n <= usize::MAX,
        ensures
            final(self).count == old(self).count + n,
            values@ == Seq::<Scalar>::empty(),
    {
        self.count = self.count + n;
        Vec::new()
    }
}

impl Default for ThoughtDryRun {
    fn default() -> (run: ThoughtDryRun)
        ensures
            run.count == 0,
    {
        ThoughtDryRun::new()
    }
}

/// What the body reports.
#[derive(Debug)]
pub struct BodyPerception(pub Perception);

/// What the eyes report.
#[derive(Debug)]
pub struct VisionPerception(pub Perception);

/// What the movement collaborator is to act on.
#[derive(Debug)]
pub struct MovementDecision(pub Decision);

/// What the reproduction collaborator is to act on.
#[derive(Debug)]
pub struct ReproductionDecision(pub Decision);

/// The perceptions of one organism. The network sees the body first, then the
/// vision.
#[derive(Debug)]
pub struct PerceptionBundle {
    pub body: BodyPerception,
    pub vision: VisionPerception,
}

impl PerceptionBundle {
    pub fn new() -> (bundle: PerceptionBundle)
        ensures
            bundle.gathered() == Seq::<Scalar>::empty(),
    {
        PerceptionBundle { body: BodyPerception(Perception::new()), vision: VisionPerception(Perception::new()) }
    }

    /// Both stores hold what those of `other` hold.
    pub open spec fn holds_what(&self, other: PerceptionBundle) -> bool {
        self.body.0@ == other.body.0@ && self.vision.0@ == other.vision.0@
    }

    /// Everything perceived, in the order in which the network sees it.
    pub open spec fn gathered(&self) -> Seq<Scalar> {
        self.body.0@ + self.vision.0@
    }
}

/// The decisions of one organism. Of the network's output the movement comes
/// first, then the reproduction.
#[derive(Debug)]
pub struct DecisionBundle {
    pub movement: MovementDecision,
    pub reproduction: ReproductionDecision,
}

impl DecisionBundle {
    pub fn new() -> (bundle: DecisionBundle)
        ensures
            bundle.movement.0@ == Seq::<Scalar>::empty(),
            bundle.reproduction.0@ == Seq::<Scalar>::empty(),
    {
        DecisionBundle {
            movement: MovementDecision(Decision::new()),
            reproduction: ReproductionDecision(Decision::new()),
        }
    }

    /// Both stores hold what those of `other` hold.
    pub open spec fn holds_what(&self, other: DecisionBundle) -> bool {
        self.movement.0@ == other.movement.0@ && self.reproduction.0@ == other.reproduction.0@
    }

    /// How many numbers the first store that is not empty still holds.
    pub open spec fn leftover(&self) -> nat {
        if self.movement.0@.len() > 0 {
            self.movement.0@.len()
        } else {
            self.reproduction.0@.len()
        }
    }
}

/// The probe as a list.
fn probe_values() -> (values: Vec<Scalar>)
    ensures
        values@ == probe(),
{
    let mut values: Vec<Scalar> = Vec::new();
    let mut k: usize = 0;
    while k < 4
        invariant
            k <= 4,
            values.len() == k,
            forall|j: int| 0 <= j < k ==> values@[j] == probe()[j],
        decreases 4 - k,
    {
        values.push(Scalar::from_bits(PROBE_BITS[k]));
        k += 1;
    }
    values
}

/// A stand-in for the eyes: reports the probe.
pub fn perceive_vision(vision: &mut VisionPerception)
    ensures
        final(vision).0@ == old(vision).0@ + probe(),
{
    let values = probe_values();
    vision.0.put(values[0]);
    let rest = vec![values[1], values[2], values[3]];
    vision.0.extend(&rest);
}

/// A stand-in for the body: reports the probe.
pub fn perceive_body(body: &mut BodyPerception)
    ensures
        final(body).0@ == old(body).0@ + probe(),
{
    let values = probe_values();
    body.0.put(values[0]);
    let rest = vec![values[1], values[2], values[3]];
    body.0.extend(&rest);
}

/// A stand-in for the movement collaborator: takes its numbers and drops
/// them.
pub fn decide_movement(movement: &mut MovementDecision)
    requires
        old(movement).0@.len() >= MOVEMENT_WIDTH,
    ensures
        final(movement).0@ == old(movement).0@.skip(MOVEMENT_WIDTH as int),
{
    let _ = movement.0.take_multiple(MOVEMENT_WIDTH);
}

/// A stand-in for the reproduction collaborator: takes its numbers and drops
/// them.
pub fn decide_reproduction(reproduction: &mut ReproductionDecision)
    requires
        old(reproduction).0@.len() >= REPRODUCTION_WIDTH,
    ensures
        final(reproduction).0@ == old(reproduction).0@.skip(REPRODUCTION_WIDTH as int),
{
    let _ = reproduction.0.take();
    let _ = reproduction.0.take();
}

/// What is wrong between a network of the given shape and stores that hold
/// `gathered` numbers, if anything: the width of the input first, then that
/// of the output.
pub open spec fn stage_fault(shape: Seq<usize>, gathered: nat) -> Option<BrainError> {
    if shape[0] != gathered {
        Some(BrainError::DimensionMismatch { expected: shape[0], actual: gathered as usize })
    } else if shape.last() != MOVEMENT_WIDTH + REPRODUCTION_WIDTH {
        Some(
            BrainError::SchemaDesync {
                expected: (MOVEMENT_WIDTH + REPRODUCTION_WIDTH) as usize,
                actual: shape.last(),
            },
        )
    } else {
        None
    }
}

/// The think stage for one organism: gathers the perceptions, body first,
/// evaluates the network on them and deals the output out, the movement's
/// numbers first.
///
/// Fails with `DimensionMismatch` exactly when the network's input is not as
/// wide as what was perceived; otherwise with `SchemaDesync` exactly when its
/// output is not as wide as what the collaborators take. The decisions are
/// then left as they were.
pub fn think<M: Fn(Scalar, Scalar, Scalar) -> Scalar, S: Fn(Scalar) -> Scalar>(
    brain: &NeuralNetwork,
    perception: &PerceptionBundle,
    decision: &mut DecisionBundle,
    mul_add: &M,
    sigmoid: &S,
) -> (result: Result<(), BrainError>)
    requires
        total3(mul_add),
        total1(sigmoid),
    ensures
        brain@.well_formed(),
        thinks(mul_add, sigmoid, brain@, perception.gathered(), *old(decision), *final(decision), result),
{
    let mut input: Vec<Scalar> = Vec::new();
    let body = perception.body.0.values();
    let vision = perception.vision.0.values();
    let mut k: usize = 0;
    while k < body.len()
        invariant
            k <= body.len(),
            input@ == body@.take(k as int),
        decreases body.len() - k,
    {
        input.push(body[k]);
        k += 1;
    }
    k = 0;
    while k < vision.len()
        invariant
            k <= vision.len(),
            input@ == body@ + vision@.take(k as int),
        decreases vision.len() - k,
    {
        input.push(vision[k]);
        k += 1;
    }
    assert(vision@.take(vision.len() as int) =~= vision@);
    match brain.feed(input, mul_add, sigmoid) {
        Err(e) => Err(e),
        Ok(output) => {
            if output.len() != MOVEMENT_WIDTH + REPRODUCTION_WIDTH {
                return Err(
                    BrainError::SchemaDesync {
                        expected: MOVEMENT_WIDTH + REPRODUCTION_WIDTH,
                        actual: output.len(),
                    },
                );
            }
            let mut all = Decision::filled(output);
            let movement = all.take_multiple(MOVEMENT_WIDTH);
            let reproduction = all.take_multiple(REPRODUCTION_WIDTH);
            assert(reproduction@ =~= output@.skip(MOVEMENT_WIDTH as int));
            decision.movement = MovementDecision(Decision::filled(movement));
            decision.reproduction = ReproductionDecision(Decision::filled(reproduction));
            Ok(())
        },
    }
}

/// The transition stage for one organism: checks that the collaborators took
/// every number, and clears the perceptions for the next evaluation.
///
/// Fails with `SchemaDesync` exactly when a number was left; the perceptions
/// then stay.
pub fn transition(perception: &mut PerceptionBundle, decision: &DecisionBundle) -> (result: Result<
    (),
    BrainError,
>)
    ensures
        transitions(*decision, *old(perception), *final(perception), result),
{
    let movement = decision.movement.0.len();
    let reproduction = decision.reproduction.0.len();
    if movement != 0 {
        return Err(BrainError::SchemaDesync { expected: 0, actual: movement });
    }
    if reproduction != 0 {
        return Err(BrainError::SchemaDesync { expected: 0, actual: reproduction });
    }
    perception.body.0.clear();
    perception.vision.0.clear();
    Ok(())
}

/// The stages of one evaluation, in their order.
#[derive(Clone, Copy, Debug, PartialEq, Eq, Structural)]
pub enum Stage {
    /// Collaborators put what they sense.
    Perceive,
    /// The network is evaluated.
    Think,
    /// Collaborators take what was decided.
    Decide,
    /// The stores are checked and cleared.
    Transition,
}

impl Stage {
    /// The stage that follows; after the last, the first again.
    pub open spec fn successor(self) -> Stage {
        match self {
            Stage::Perceive => Stage::Think,
            Stage::Think => Stage::Decide,
            Stage::Decide => Stage::Transition,
            Stage::Transition => Stage::Perceive,
        }
    }

    /// The stage that follows; after the last, the first again.
    pub fn next(self) -> (stage: Stage)
        ensures
            stage == self.successor(),
    {
        match self {
            Stage::Perceive => Stage::Think,
            Stage::Think => Stage::Decide,
            Stage::Decide => Stage::Transition,
            Stage::Transition => Stage::Perceive,
        }
    }

    /// The name under which a scheduler knows the stage.
    pub fn name(self) -> (name: &'static str)
        ensures
            name@ == match self {
                Stage::Perceive => "perceive"@,
                Stage::Think => "think"@,
                Stage::Decide => "decide"@,
                Stage::Transition => "transition"@,
            },
    {
        match self {
            Stage::Perceive => "perceive",
            Stage::Think => "think",
            Stage::Decide => "decide",
            Stage::Transition => "transition",
        }
    }
}

/// The stages form one round of four: no stage follows itself, none is
/// reached from two others, and the fourth step leads back.
pub proof fn lemma_stages_form_a_round(stage: Stage, other: Stage)
    ensures
        stage.successor() != stage,
        stage.successor().successor() != stage,
        stage.successor().successor().successor() != stage,
        stage.successor().successor().successor().successor() == stage,
        stage.successor() == other.successor() ==> stage == other,
{
}

/// Everything of one organism that takes part in an evaluation, and the stage
/// that the evaluation has reached. Collaborators reach the stores only
/// through the bundle, which lets them put while it perceives and take while
/// it decides.
#[derive(Debug)]
pub struct IntelligenceBundle {
    brain: NeuralNetwork,
    perception: PerceptionBundle,
    decision: DecisionBundle,
    stage: Stage,
}

impl IntelligenceBundle {
    /// The network's gene.
    pub closed spec fn network(&self) -> GeneModel {
        self.brain@
    }

    /// The stores of the perceiving collaborators.
    pub closed spec fn perception(&self) -> PerceptionBundle {
        self.perception
    }

    /// The stores of the deciding collaborators.
    pub closed spec fn decision(&self) -> DecisionBundle {
        self.decision
    }

    /// The stage that the evaluation has reached.
    pub closed spec fn reached(&self) -> Stage {
        self.stage
    }

    /// How many numbers the movement collaborator is still to take.
    pub open spec fn pending_movement(&self) -> nat {
        self.decision().movement.0@.len()
    }

    /// How many numbers the reproduction collaborator is still to take.
    pub open spec fn pending_reproduction(&self) -> nat {
        self.decision().reproduction.0@.len()
    }

    /// Nothing but the stores of the perceiving collaborators may differ
    /// between `self` and `other`.
    pub open spec fn differs_in_perception(&self, other: &IntelligenceBundle) -> bool {
        &&& self.network() == other.network()
        &&& self.reached() == other.reached()
        &&& self.decision().holds_what(other.decision())
    }

    /// Nothing but the stores of the deciding collaborators may differ
    /// between `self` and `other`.
    pub open spec fn differs_in_decision(&self, other: &IntelligenceBundle) -> bool {
        &&& self.network() == other.network()
        &&& self.reached() == other.reached()
        &&& self.perception().holds_what(other.perception())
    }

    /// The bundle of a new organism: empty stores, about to perceive.
    pub fn new(brain: NeuralNetwork) -> (bundle: IntelligenceBundle)
        ensures
            bundle.network() == brain@,
            bundle.reached() == Stage::Perceive,
            bundle.perception().gathered() == Seq::<Scalar>::empty(),
            bundle.decision().leftover() == 0,
    {
        IntelligenceBundle {
            brain,
            perception: PerceptionBundle::new(),
            decision: DecisionBundle::new(),
            stage: Stage::Perceive,
        }
    }

    /// The stage that the evaluation has reached.
    pub fn stage(&self) -> (stage: Stage)
        ensures
            stage == self.reached(),
    {
        self.stage
    }

    /// Puts what the body senses, if the bundle is perceiving; says whether it
    /// was.
    pub fn put_body(&mut self, values: &Vec<Scalar>) -> (accepted: bool)
        ensures
            accepted == (old(self).reached() == Stage::Perceive),
            final(self).differs_in_perception(old(self)),
            final(self).perception().vision.0@ == old(self).perception().vision.0@,
            final(self).perception().body.0@ == if accepted {
                old(self).perception().body.0@ + values@
            } else {
                old(self).perception().body.0@
            },
    {
        match self.stage {
            Stage::Perceive => {
                self.perception.body.0.extend(values);
                true
            },
            _ => false,
        }
    }

    /// Puts what the eyes sense, if the bundle is perceiving; says whether it
    /// was.
    pub fn put_vision(&mut self, values: &Vec<Scalar>) -> (accepted: bool)
        ensures
            accepted == (old(self).reached() == Stage::Perceive),
            final(self).differs_in_perception(old(self)),
            final(self).perception().body.0@ == old(self).perception().body.0@,
            final(self).perception().vision.0@ == if accepted {
                old(self).perception().vision.0@ + values@
            } else {
                old(self).perception().vision.0@
            },
    {
        match self.stage {
            Stage::Perceive => {
                self.perception.vision.0.extend(values);
                true
            },
            _ => false,
        }
    }

    /// Takes the movement's numbers, if the bundle is deciding and holds them
    /// all.
    pub fn take_movement(&mut self) -> (taken: Option<Vec<Scalar>>)
        ensures
            taken is Some <==> old(self).reached() == Stage::Decide && old(self).pending_movement()
                >= MOVEMENT_WIDTH,
            final(self).differs_in_decision(old(self)),
            final(self).decision().reproduction.0@ == old(self).decision().reproduction.0@,
            match taken {
                Some(values) => {
                    &&& values@ == old(self).decision().movement.0@.take(MOVEMENT_WIDTH as int)
                    &&& final(self).decision().movement.0@ == old(self).decision().movement.0@.skip(
                        MOVEMENT_WIDTH as int,
                    )
                },
                None => final(self).decision().movement.0@ == old(self).decision().movement.0@,
            },
    {
        match self.stage {
            Stage::Decide => {
                if self.decision.movement.0.len() >= MOVEMENT_WIDTH {
                    Some(self.decision.movement.0.take_multiple(MOVEMENT_WIDTH))
                } else {
                    None
                }
            },
            _ => None,
        }
    }

    /// Takes the reproduction's numbers, if the bundle is deciding and holds
    /// them all.
    pub fn take_reproduction(&mut self) -> (taken: Option<Vec<Scalar>>)
        ensures
            taken is Some <==> old(self).reached() == Stage::Decide && old(self).pending_reproduction()
                >= REPRODUCTION_WIDTH,
            final(self).differs_in_decision(old(self)),
            final(self).decision().movement.0@ == old(self).decision().movement.0@,
            match taken {
                Some(values) => {
                    &&& values@ == old(self).decision().reproduction.0@.take(REPRODUCTION_WIDTH as int)
                    &&& final(self).decision().reproduction.0@ == old(self).decision().reproduction.0@.skip(
                        REPRODUCTION_WIDTH as int,
                    )
                },
                None => final(self).decision().reproduction.0@ == old(self).decision().reproduction.0@,
            },
    {
        match self.stage {
            Stage::Decide => {
                if self.decision.reproduction.0.len() >= REPRODUCTION_WIDTH {
                    Some(self.decision.reproduction.0.take_multiple(REPRODUCTION_WIDTH))
                } else {
                    None
                }
            },
            _ => None,
        }
    }

    /// Ends the stage reached and enters the next. Ending the think stage
    /// evaluates the network; ending the transition stage checks and clears
    /// the stores; the other two end without work. Where the work fails, the
    /// stage stays.
    pub fn advance<M: Fn(Scalar, Scalar, Scalar) -> Scalar, S: Fn(Scalar) -> Scalar>(
        &mut self,
        mul_add: &M,
        sigmoid: &S,
    ) -> (result: Result<Stage, BrainError>)
        requires
            total3(mul_add),
            total1(sigmoid),
        ensures
            final(self).network() == old(self).network(),
            match result {
                Ok(stage) => stage == final(self).reached() && stage == old(self).reached().successor(),
                Err(_) => final(self).reached() == old(self).reached() && (old(self).reached() == Stage::Think
                    || old(self).reached() == Stage::Transition),
            },
            old(self).reached() == Stage::Think ==> thinks(
                mul_add,
                sigmoid,
                old(self).network(),
                old(self).perception().gathered(),
                old(self).decision(),
                final(self).decision(),
                result,
            ),
            old(self).reached() == Stage::Transition ==> transitions(
                old(self).decision(),
                old(self).perception(),
                final(self).perception(),
                result,
            ),
            old(self).reached() != Stage::Transition ==> final(self).perception().holds_what(
                old(self).perception(),
            ),
            old(self).reached() != Stage::Think ==> final(self).decision().holds_what(old(self).decision()),
    {
        match self.stage {
            Stage::Think => {
                match think(&self.brain, &self.perception, &mut self.decision, mul_add, sigmoid) {
                    Ok(_) => {},
                    Err(e) => {
                        return Err(e);
                    },
                }
            },
            Stage::Transition => {
                match transition(&mut self.perception, &self.decision) {
                    Ok(_) => {},
                    Err(e) => {
                        return Err(e);
                    },
                }
            },
            _ => {},
        }
        self.stage = self.stage.next();
        Ok(self.stage)
    }
}

/// What the think stage makes of the decisions: see [`think`].
pub open spec fn thinks<M: Fn(Scalar, Scalar, Scalar) -> Scalar, S: Fn(Scalar) -> Scalar, T>(
    mul_add: &M,
    sigmoid: &S,
    network: GeneModel,
    gathered: Seq<Scalar>,
    before: DecisionBundle,
    after: DecisionBundle,
    result: Result<T, BrainError>,
) -> bool {
    match result {
        Ok(_) => {
            &&& stage_fault(network.shape, gathered.len()) is None
            &&& exists|output: Seq<Scalar>|
                {
                    &&& #[trigger] feeds(mul_add, sigmoid, network, gathered, output)
                    &&& after.movement.0@ == output.take(MOVEMENT_WIDTH as int)
                    &&& after.reproduction.0@ == output.skip(MOVEMENT_WIDTH as int)
                }
        },
        Err(e) => stage_fault(network.shape, gathered.len()) == Some(e) && after.holds_what(before),
    }
}

/// What the transition stage makes of the perceptions: see [`transition`].
pub open spec fn transitions<T>(
    decision: DecisionBundle,
    before: PerceptionBundle,
    after: PerceptionBundle,
    result: Result<T, BrainError>,
) -> bool {
    match result {
        Ok(_) => {
            &&& decision.leftover() == 0
            &&& after.body.0@ == Seq::<Scalar>::empty()
            &&& after.vision.0@ == Seq::<Scalar>::empty()
        },
        Err(e) => {
            &&& decision.leftover() > 0
            &&& e == (BrainError::SchemaDesync { expected: 0, actual: decision.leftover() as usize })
            &&& after.holds_what(before)
        },
    }
}

} // verus!

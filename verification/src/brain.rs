//! What a brain perceives and decides, and the fixed order in which both are
//! laid out in the buffers of the network.

use crate::arith::{total1, total3};
use crate::conversion::{affine, from_bool, from_vector, into_bool, into_vector, to_radians, Vector2};
use crate::error::BrainError;
use crate::genes::{BrainGene, GeneConfig, GeneModel, WEIGHT_VARIANCE_BITS};
use crate::neural_network::{feeds, NeuralNetwork};
use crate::scalar::{Scalar, HALF_BITS, NEG_ONE_BITS, NEG_PI_BITS, ONE_BITS, TAU_BITS, TWO_BITS, ZERO_BITS};
use vstd::prelude::*;

verus! {

/// The relation "`out` is `v * scale + offset`" as `mul_add` computes it.
pub open spec fn scaling<M: Fn(Scalar, Scalar, Scalar) -> Scalar>(mul_add: &M) -> spec_fn(
    Scalar,
    u32,
    u32,
    Scalar,
) -> bool {
    |v: Scalar, scale: u32, offset: u32, out: Scalar| affine(mul_add, v, scale, offset, out)
}

/// What can be laid out in the input buffer of a network.
pub trait BrainInput: Sized {
    /// How many numbers a value of the type takes.
    spec fn width() -> nat;

    /// The numbers that stand for the value, in the order of the buffer.
    spec fn encoding(self) -> Seq<Scalar>;

    /// Every value takes as many numbers as its type says.
    proof fn lemma_encoding_width(self)
        ensures
            self.encoding().len() == Self::width(),
    ;

    fn len() -> (n: usize)
        ensures
            n == Self::width(),
    ;

    /// Lays the value out behind what `buffer` holds.
    fn put_into(self, buffer: &mut Vec<Scalar>)
        ensures
            final(buffer)@ == old(buffer)@ + self.encoding(),
    ;

    /// Lays the value out in a buffer of its own.
    fn to_input(self) -> (buffer: Vec<Scalar>)
        ensures
            buffer@ == self.encoding(),
    ;
}

/// What can be rebuilt from the output buffer of a network.
pub trait BrainOutput: Sized {
    /// How many numbers a value of the type is rebuilt from.
    spec fn width() -> nat;

    /// `value` is what `raw` stands for, where `scaled(v, scale, offset, out)`
    /// says that `out` is `v * scale + offset`.
    spec fn decodes(scaled: spec_fn(Scalar, u32, u32, Scalar) -> bool, raw: Seq<Scalar>, value: Self) -> bool;

    fn len() -> (n: usize)
        ensures
            n == Self::width(),
    ;

    /// Rebuilds a value from exactly the numbers of `output`. Fails with
    /// `SchemaDesync` exactly when `output` has another width than the type.
    fn from_output<M: Fn(Scalar, Scalar, Scalar) -> Scalar>(output: &Vec<Scalar>, mul_add: &M) -> (result: Result<
        Self,
        BrainError,
    >)
        requires
            total3(mul_add),
        ensures
            match result {
                Ok(value) => output.len() == Self::width() && Self::decodes(
                    scaling(mul_add),
                    output@,
                    value,
                ),
                Err(e) => output.len() != Self::width() && e == (BrainError::SchemaDesync {
                    expected: Self::width() as usize,
                    actual: output.len(),
                }),
            },
    ;
}

impl BrainInput for Scalar {
    open spec fn width() -> nat {
        1
    }

    open spec fn encoding(self) -> Seq<Scalar> {
        seq![self]
    }

    proof fn lemma_encoding_width(self) {
    }

    fn len() -> (n: usize) {
        1
    }

    fn put_into(self, buffer: &mut Vec<Scalar>) {
        buffer.push(self);
    }

    fn to_input(self) -> (buffer: Vec<Scalar>) {
        let mut buffer: Vec<Scalar> = Vec::new();
        self.put_into(&mut buffer);
        buffer
    }
}

impl BrainOutput for Scalar {
    open spec fn width() -> nat {
        1
    }

    /// A number is taken as the network gave it.
    open spec fn decodes(scaled: spec_fn(Scalar, u32, u32, Scalar) -> bool, raw: Seq<Scalar>, value: Scalar) -> bool {
        value == raw[0]
    }

    fn len() -> (n: usize) {
        1
    }

    fn from_output<M: Fn(Scalar, Scalar, Scalar) -> Scalar>(output: &Vec<Scalar>, mul_add: &M) -> (result: Result<
        Scalar,
        BrainError,
    >) {
        if output.len() != 1 {
            return Err(BrainError::SchemaDesync { expected: 1, actual: output.len() });
        }
        Ok(output[0])
    }
}

impl BrainInput for bool {
    open spec fn width() -> nat {
        1
    }

    open spec fn encoding(self) -> Seq<Scalar> {
        seq![
            if self {
                Scalar::one()
            } else {
                Scalar::zero()
            },
        ]
    }

    proof fn lemma_encoding_width(self) {
    }

    fn len() -> (n: usize) {
        1
    }

    fn put_into(self, buffer: &mut Vec<Scalar>) {
        buffer.push(from_bool(self));
    }

    fn to_input(self) -> (buffer: Vec<Scalar>) {
        let mut buffer: Vec<Scalar> = Vec::new();
        self.put_into(&mut buffer);
        buffer
    }
}

impl BrainOutput for bool {
    open spec fn width() -> nat {
        1
    }

    open spec fn decodes(scaled: spec_fn(Scalar, u32, u32, Scalar) -> bool, raw: Seq<Scalar>, value: bool) -> bool {
        value == raw[0].at_least_half()
    }

    fn len() -> (n: usize) {
        1
    }

    fn from_output<M: Fn(Scalar, Scalar, Scalar) -> Scalar>(output: &Vec<Scalar>, mul_add: &M) -> (result: Result<
        bool,
        BrainError,
    >) {
        if output.len() != 1 {
            return Err(BrainError::SchemaDesync { expected: 1, actual: output.len() });
        }
        Ok(into_bool(output[0]))
    }
}

/// How many numbers an organism carries from one evaluation to the next.
pub const MEMORY_SIZE: usize = 5;

/// The word of `1.0`: the saturation of every colour that a brain decides on.
pub const DECIDED_SATURATION_BITS: u32 = ONE_BITS;

/// The word of `0.5`: the lightness of every colour that a brain decides on.
pub const DECIDED_LIGHTNESS_BITS: u32 = HALF_BITS;

/// The entries of `v` from `from` up to, not including, `to`.
fn slice_of(v: &Vec<Scalar>, from: usize, to: usize) -> (out: Vec<Scalar>)
    requires
        from <= to <= v.len(),
    ensures
        out@ == v@.subrange(from as int, to as int),
{
    let mut out: Vec<Scalar> = Vec::new();
    let mut k: usize = from;
    while k < to
        invariant
            from <= k <= to <= v.len(),
            out@ == v@.subrange(from as int, k as int),
        decreases to - k,
    {
        out.push(v[k]);
        k += 1;
    }
    out
}

impl BrainInput for Vector2 {
    open spec fn width() -> nat {
        2
    }

    /// The components as they are, `x` first.
    open spec fn encoding(self) -> Seq<Scalar> {
        seq![self.x, self.y]
    }

    proof fn lemma_encoding_width(self) {
    }

    fn len() -> (n: usize) {
        2
    }

    fn put_into(self, buffer: &mut Vec<Scalar>) {
        let parts = from_vector(self);
        buffer.push(parts[0]);
        buffer.push(parts[1]);
    }

    fn to_input(self) -> (buffer: Vec<Scalar>) {
        let mut buffer: Vec<Scalar> = Vec::new();
        self.put_into(&mut buffer);
        buffer
    }
}

impl BrainOutput for Vector2 {
    open spec fn width() -> nat {
        2
    }

    /// Each component is taken from the range zero to one to the range minus
    /// one to one.
    open spec fn decodes(scaled: spec_fn(Scalar, u32, u32, Scalar) -> bool, raw: Seq<Scalar>, value: Vector2) -> bool {
        &&& scaled(raw[0], TWO_BITS, NEG_ONE_BITS, value.x)
        &&& scaled(raw[1], TWO_BITS, NEG_ONE_BITS, value.y)
    }

    fn len() -> (n: usize) {
        2
    }

    fn from_output<M: Fn(Scalar, Scalar, Scalar) -> Scalar>(output: &Vec<Scalar>, mul_add: &M) -> (result: Result<
        Vector2,
        BrainError,
    >) {
        if output.len() != 2 {
            return Err(BrainError::SchemaDesync { expected: 2, actual: output.len() });
        }
        Ok(into_vector([output[0], output[1]], mul_add))
    }
}

/// A colour by hue, in radians from -π to π, saturation and lightness.
#[derive(Clone, Copy, Debug, PartialEq, Eq, Structural)]
pub struct Hsl {
    pub hue: Scalar,
    pub saturation: Scalar,
    pub lightness: Scalar,
}

impl BrainInput for Hsl {
    open spec fn width() -> nat {
        1
    }

    /// Of a colour the network sees the hue alone.
    open spec fn encoding(self) -> Seq<Scalar> {
        seq![self.hue]
    }

    proof fn lemma_encoding_width(self) {
    }

    fn len() -> (n: usize) {
        1
    }

    fn put_into(self, buffer: &mut Vec<Scalar>) {
        buffer.push(self.hue);
    }

    fn to_input(self) -> (buffer: Vec<Scalar>) {
        let mut buffer: Vec<Scalar> = Vec::new();
        self.put_into(&mut buffer);
        buffer
    }
}

impl BrainOutput for Hsl {
    open spec fn width() -> nat {
        1
    }

    /// The network decides the hue alone, as a part of the full circle.
    /// Saturation and lightness are always the same.
    open spec fn decodes(scaled: spec_fn(Scalar, u32, u32, Scalar) -> bool, raw: Seq<Scalar>, value: Hsl) -> bool {
        &&& scaled(raw[0], TAU_BITS, NEG_PI_BITS, value.hue)
        &&& value.saturation.bits == DECIDED_SATURATION_BITS
        &&& value.lightness.bits == DECIDED_LIGHTNESS_BITS
    }

    fn len() -> (n: usize) {
        1
    }

    fn from_output<M: Fn(Scalar, Scalar, Scalar) -> Scalar>(output: &Vec<Scalar>, mul_add: &M) -> (result: Result<
        Hsl,
        BrainError,
    >) {
        if output.len() != 1 {
            return Err(BrainError::SchemaDesync { expected: 1, actual: output.len() });
        }
        Ok(
            Hsl {
                hue: to_radians(output[0], mul_add),
                saturation: Scalar::from_bits(DECIDED_SATURATION_BITS),
                lightness: Scalar::from_bits(DECIDED_LIGHTNESS_BITS),
            },
        )
    }
}

/// What an organism carries from one evaluation to the next.
#[derive(Clone, Copy, Debug, PartialEq, Eq)]
pub struct Memory(pub [Scalar; MEMORY_SIZE]);

impl Memory {
    /// The memory of an organism that has not decided anything yet: zeros.
    pub fn zeroed() -> (memory: Memory)
        ensures
            forall|k: int| 0 <= k < MEMORY_SIZE ==> memory.0[k] == Scalar::zero(),
    {
        let z = Scalar::from_bits(ZERO_BITS);
        Memory([z, z, z, z, z])
    }
}

impl BrainInput for Memory {
    open spec fn width() -> nat {
        MEMORY_SIZE as nat
    }

    open spec fn encoding(self) -> Seq<Scalar> {
        self.0@
    }

    proof fn lemma_encoding_width(self) {
    }

    fn len() -> (n: usize) {
        MEMORY_SIZE
    }

    fn put_into(self, buffer: &mut Vec<Scalar>) {
        let mut k: usize = 0;
        while k < MEMORY_SIZE
            invariant
                k <= MEMORY_SIZE,
                buffer@ == old(buffer)@ + self.0@.take(k as int),
            decreases MEMORY_SIZE - k,
        {
            buffer.push(self.0[k]);
            assert(buffer@ =~= old(buffer)@ + self.0@.take(k + 1));
            k += 1;
        }
        assert(self.0@.take(MEMORY_SIZE as int) =~= self.0@);
    }

    fn to_input(self) -> (buffer: Vec<Scalar>) {
        let mut buffer: Vec<Scalar> = Vec::new();
        self.put_into(&mut buffer);
        buffer
    }
}

impl BrainOutput for Memory {
    open spec fn width() -> nat {
        MEMORY_SIZE as nat
    }

    /// Memory is kept as the network gave it.
    open spec fn decodes(scaled: spec_fn(Scalar, u32, u32, Scalar) -> bool, raw: Seq<Scalar>, value: Memory) -> bool {
        value.0@ == raw
    }

    fn len() -> (n: usize) {
        MEMORY_SIZE
    }

    fn from_output<M: Fn(Scalar, Scalar, Scalar) -> Scalar>(output: &Vec<Scalar>, mul_add: &M) -> (result: Result<
        Memory,
        BrainError,
    >) {
        if output.len() != MEMORY_SIZE {
            return Err(BrainError::SchemaDesync { expected: MEMORY_SIZE, actual: output.len() });
        }
        let memory = Memory([output[0], output[1], output[2], output[3], output[4]]);
        assert(memory.0@ =~= output@);
        Ok(memory)
    }
}

/// A truth value laid out and rebuilt is the same truth value, and so are a
/// plain number and a memory, whatever the arithmetic.
pub proof fn lemma_codec_round_trip(
    will: bool,
    number: Scalar,
    memory: Memory,
    scaled: spec_fn(Scalar, u32, u32, Scalar) -> bool,
)
    ensures
        <bool as BrainOutput>::decodes(scaled, will.encoding(), will),
        <Scalar as BrainOutput>::decodes(scaled, number.encoding(), number),
        <Memory as BrainOutput>::decodes(scaled, memory.encoding(), memory),
{
    Scalar::one().lemma_half_threshold();
    Scalar::zero().lemma_half_threshold();
}

/// What an organism knows of its own body.
#[derive(Clone, Copy, Debug, PartialEq, Eq, Structural)]
pub struct BodyPerception {
    pub energy: Scalar,
    pub mass: Scalar,
}

impl BrainInput for BodyPerception {
    open spec fn width() -> nat {
        <Scalar as BrainInput>::width() + <Scalar as BrainInput>::width()
    }

    /// Energy, then mass.
    open spec fn encoding(self) -> Seq<Scalar> {
        self.energy.encoding() + self.mass.encoding()
    }

    proof fn lemma_encoding_width(self) {
    }

    fn len() -> (n: usize) {
        <Scalar as BrainInput>::len() + <Scalar as BrainInput>::len()
    }

    fn put_into(self, buffer: &mut Vec<Scalar>) {
        self.energy.put_into(buffer);
        self.mass.put_into(buffer);
        assert(buffer@ =~= old(buffer)@ + self.encoding());
    }

    fn to_input(self) -> (buffer: Vec<Scalar>) {
        let mut buffer: Vec<Scalar> = Vec::new();
        self.put_into(&mut buffer);
        buffer
    }
}

/// What an organism senses around it.
#[derive(Clone, Copy, Debug, PartialEq, Eq, Structural)]
pub struct EnvironmentPerception {
    pub velocity: Vector2,
    pub tile_color: Hsl,
}

impl BrainInput for EnvironmentPerception {
    open spec fn width() -> nat {
        <Vector2 as BrainInput>::width() + <Hsl as BrainInput>::width()
    }

    /// Velocity, then the colour of the ground.
    open spec fn encoding(self) -> Seq<Scalar> {
        self.velocity.encoding() + self.tile_color.encoding()
    }

    proof fn lemma_encoding_width(self) {
    }

    fn len() -> (n: usize) {
        <Vector2 as BrainInput>::len() + <Hsl as BrainInput>::len()
    }

    fn put_into(self, buffer: &mut Vec<Scalar>) {
        self.velocity.put_into(buffer);
        self.tile_color.put_into(buffer);
        assert(buffer@ =~= old(buffer)@ + self.encoding());
    }

    fn to_input(self) -> (buffer: Vec<Scalar>) {
        let mut buffer: Vec<Scalar> = Vec::new();
        self.put_into(&mut buffer);
        buffer
    }
}

/// Everything that a brain is given for one evaluation.
#[derive(Clone, Copy, Debug, PartialEq, Eq)]
pub struct Perception {
    pub body: BodyPerception,
    pub environment: EnvironmentPerception,
    pub memory: Memory,
}

impl Perception {
    /// Gathers what the collaborators supply into one record. An organism
    /// without a memory yet perceives zeros in its place.
    pub fn collect(
        energy: Scalar,
        mass: Scalar,
        velocity: Vector2,
        tile_color: Hsl,
        memory: Option<Memory>,
    ) -> (perception: Perception)
        ensures
            perception.body == (BodyPerception { energy, mass }),
            perception.environment == (EnvironmentPerception { velocity, tile_color }),
            match memory {
                Some(m) => perception.memory == m,
                None => forall|k: int| 0 <= k < MEMORY_SIZE ==> perception.memory.0[k] == Scalar::zero(),
            },
    {
        Perception {
            body: BodyPerception { energy, mass },
            environment: EnvironmentPerception { velocity, tile_color },
            memory: match memory {
                Some(m) => m,
                None => Memory::zeroed(),
            },
        }
    }
}

impl BrainInput for Perception {
    open spec fn width() -> nat {
        <BodyPerception as BrainInput>::width() + <EnvironmentPerception as BrainInput>::width()
            + <Memory as BrainInput>::width()
    }

    /// Body, then environment, then memory.
    open spec fn encoding(self) -> Seq<Scalar> {
        self.body.encoding() + self.environment.encoding() + self.memory.encoding()
    }

    proof fn lemma_encoding_width(self) {
    }

    fn len() -> (n: usize) {
        <BodyPerception as BrainInput>::len() + <EnvironmentPerception as BrainInput>::len()
            + <Memory as BrainInput>::len()
    }

    fn put_into(self, buffer: &mut Vec<Scalar>) {
        self.body.put_into(buffer);
        self.environment.put_into(buffer);
        self.memory.put_into(buffer);
        assert(buffer@ =~= old(buffer)@ + self.encoding());
    }

    fn to_input(self) -> (buffer: Vec<Scalar>) {
        let mut buffer: Vec<Scalar> = Vec::new();
        self.put_into(&mut buffer);
        buffer
    }
}

/// Everything that a brain decides in one evaluation.
#[derive(Clone, Copy, Debug, PartialEq, Eq)]
pub struct Decisions {
    pub force: Vector2,
    pub reproduction_will: bool,
    pub color: Hsl,
    pub memory: Memory,
}

impl BrainOutput for Decisions {
    open spec fn width() -> nat {
        <Vector2 as BrainOutput>::width() + <bool as BrainOutput>::width() + <Hsl as BrainOutput>::width()
            + <Memory as BrainOutput>::width()
    }

    /// Force, then the will to reproduce, then colour, then memory, each from
    /// its own stretch of the buffer.
    open spec fn decodes(scaled: spec_fn(Scalar, u32, u32, Scalar) -> bool, raw: Seq<Scalar>, value: Decisions) -> bool {
        let force_end = <Vector2 as BrainOutput>::width() as int;
        let will_end = force_end + <bool as BrainOutput>::width();
        let color_end = will_end + <Hsl as BrainOutput>::width();
        let memory_end = color_end + <Memory as BrainOutput>::width();
        &&& <Vector2 as BrainOutput>::decodes(scaled, raw.subrange(0, force_end), value.force)
        &&& <bool as BrainOutput>::decodes(scaled, raw.subrange(force_end, will_end), value.reproduction_will)
        &&& <Hsl as BrainOutput>::decodes(scaled, raw.subrange(will_end, color_end), value.color)
        &&& <Memory as BrainOutput>::decodes(scaled, raw.subrange(color_end, memory_end), value.memory)
    }

    fn len() -> (n: usize) {
        <Vector2 as BrainOutput>::len() + <bool as BrainOutput>::len() + <Hsl as BrainOutput>::len()
            + <Memory as BrainOutput>::len()
    }

    fn from_output<M: Fn(Scalar, Scalar, Scalar) -> Scalar>(output: &Vec<Scalar>, mul_add: &M) -> (result: Result<
        Decisions,
        BrainError,
    >) {
        let width = <Decisions as BrainOutput>::len();
        if output.len() != width {
            return Err(BrainError::SchemaDesync { expected: width, actual: output.len() });
        }
        let force_end = <Vector2 as BrainOutput>::len();
        let will_end = force_end + <bool as BrainOutput>::len();
        let color_end = will_end + <Hsl as BrainOutput>::len();
        let force = <Vector2 as BrainOutput>::from_output(&slice_of(output, 0, force_end), mul_add);
        let will = <bool as BrainOutput>::from_output(&slice_of(output, force_end, will_end), mul_add);
        let color = <Hsl as BrainOutput>::from_output(&slice_of(output, will_end, color_end), mul_add);
        let memory = <Memory as BrainOutput>::from_output(&slice_of(output, color_end, width), mul_add);
        match (force, will, color, memory) {
            (Ok(force), Ok(reproduction_will), Ok(color), Ok(memory)) => Ok(
                Decisions { force, reproduction_will, color, memory },
            ),
            _ => Err(BrainError::SchemaDesync { expected: width, actual: output.len() }),
        }
    }
}

/// What is wrong between a network of the given shape and the layout of
/// perceptions and decisions, if anything: the width of the input first, then
/// that of the output.
pub open spec fn schema_fault(shape: Seq<usize>) -> Option<BrainError> {
    if shape[0] != <Perception as BrainInput>::width() {
        Some(
            BrainError::DimensionMismatch {
                expected: shape[0],
                actual: <Perception as BrainInput>::width() as usize,
            },
        )
    } else if shape.last() != <Decisions as BrainOutput>::width() {
        Some(
            BrainError::SchemaDesync {
                expected: <Decisions as BrainOutput>::width() as usize,
                actual: shape.last(),
            },
        )
    } else {
        None
    }
}

/// `result` is what a network gives for a perception: the decisions rebuilt
/// from its output, or what is wrong between network and layout.
pub open spec fn thought<M: Fn(Scalar, Scalar, Scalar) -> Scalar, S: Fn(Scalar) -> Scalar>(
    mul_add: &M,
    sigmoid: &S,
    network: GeneModel,
    perception: Perception,
    result: Result<Decisions, BrainError>,
) -> bool {
    match result {
        Ok(decisions) => {
            &&& schema_fault(network.shape) is None
            &&& exists|output: Seq<Scalar>|
                #[trigger] feeds(mul_add, sigmoid, network, perception.encoding(), output)
                    && <Decisions as BrainOutput>::decodes(scaling(mul_add), output, decisions)
        },
        Err(e) => schema_fault(network.shape) == Some(e),
    }
}

/// The brain of one organism: its network, the memory that its last decision
/// left, and a buffer of its own that it lays perceptions out in, one
/// evaluation after the other.
#[derive(Debug)]
pub struct Brain {
    neural_network: NeuralNetwork,
    memory: Option<Memory>,
    io_cache: Vec<Scalar>,
}

impl Brain {
    /// The network's gene.
    pub closed spec fn network(&self) -> GeneModel {
        self.neural_network@
    }

    /// What the last decision left, if there was one.
    pub closed spec fn remembered(&self) -> Option<Memory> {
        self.memory
    }

    /// `memory` is what the brain perceives as its memory: what the last
    /// decision left, or zeros before the first.
    pub open spec fn recalls(&self, memory: Memory) -> bool {
        match self.remembered() {
            Some(m) => memory == m,
            None => forall|k: int| 0 <= k < MEMORY_SIZE ==> memory.0[k] == Scalar::zero(),
        }
    }

    /// `self` is what one evaluation makes of the brain `before`, and
    /// `result` what it gives: the network stays; the brain thought about what
    /// was sensed and about what it recalled; on success it remembers the
    /// memory decided on, on failure what it remembered before.
    pub open spec fn evaluated_from<M: Fn(Scalar, Scalar, Scalar) -> Scalar, S: Fn(Scalar) -> Scalar>(
        &self,
        before: &Brain,
        body: BodyPerception,
        environment: EnvironmentPerception,
        mul_add: &M,
        sigmoid: &S,
        result: Result<Decisions, BrainError>,
    ) -> bool {
        &&& self.network() == before.network()
        &&& exists|memory: Memory|
            #![trigger before.recalls(memory)]
            before.recalls(memory) && thought(
                mul_add,
                sigmoid,
                before.network(),
                Perception { body, environment, memory },
                result,
            )
        &&& match result {
            Ok(decisions) => self.remembered() == Some(decisions.memory),
            Err(_) => self.remembered() == before.remembered(),
        }
    }

    /// The settings under which a random gene fits the layout of perceptions
    /// and decisions.
    pub fn gene_config() -> (config: GeneConfig)
        ensures
            config.input_width == <Perception as BrainInput>::width(),
            config.output_width == <Decisions as BrainOutput>::width(),
            config.weight_variance.bits == WEIGHT_VARIANCE_BITS,
    {
        GeneConfig {
            input_width: <Perception as BrainInput>::len(),
            output_width: <Decisions as BrainOutput>::len(),
            weight_variance: Scalar::from_bits(WEIGHT_VARIANCE_BITS),
        }
    }

    /// The brain of a newborn: nothing remembered.
    pub fn new(gene: BrainGene) -> (brain: Brain)
        ensures
            brain.network() == gene@,
            brain.remembered() is None,
    {
        Brain { neural_network: NeuralNetwork::new(gene), memory: None, io_cache: Vec::new() }
    }

    /// What the last decision left, if there was one.
    pub fn memory(&self) -> (memory: Option<Memory>)
        ensures
            memory == self.remembered(),
    {
        self.memory
    }

    /// Whether the network fits the layout of perceptions and decisions: to
    /// be asked once, when the organism is made.
    pub fn validate(&self) -> (result: Result<(), BrainError>)
        ensures
            self.network().well_formed(),
            match result {
                Ok(_) => schema_fault(self.network().shape) is None,
                Err(e) => schema_fault(self.network().shape) == Some(e),
            },
    {
        let gene = self.neural_network.genes();
        let input = gene.input_width();
        let output = gene.output_width();
        if input != <Perception as BrainInput>::len() {
            Err(BrainError::DimensionMismatch { expected: input, actual: <Perception as BrainInput>::len() })
        } else if output != <Decisions as BrainOutput>::len() {
            Err(BrainError::SchemaDesync { expected: <Decisions as BrainOutput>::len(), actual: output })
        } else {
            Ok(())
        }
    }

    /// The record that the brain is to think about: what the collaborators
    /// sensed, and the brain's own memory.
    pub fn perceive(&self, body: BodyPerception, environment: EnvironmentPerception) -> (perception:
        Perception)
        ensures
            perception.body == body,
            perception.environment == environment,
            self.recalls(perception.memory),
    {
        Perception {
            body,
            environment,
            memory: match self.memory {
                Some(m) => m,
                None => Memory::zeroed(),
            },
        }
    }

    /// Lays the perception out, evaluates the network on it and rebuilds the
    /// decisions from the output. What the brain remembers stays as it is.
    ///
    /// Fails with `DimensionMismatch` exactly when the network's input is not
    /// as wide as a perception; otherwise with `SchemaDesync` exactly when
    /// its output is not as wide as the decisions.
    pub fn think<M: Fn(Scalar, Scalar, Scalar) -> Scalar, S: Fn(Scalar) -> Scalar>(
        &mut self,
        perception: Perception,
        mul_add: &M,
        sigmoid: &S,
    ) -> (result: Result<Decisions, BrainError>)
        requires
            total3(mul_add),
            total1(sigmoid),
        ensures
            final(self).network() == old(self).network(),
            final(self).remembered() == old(self).remembered(),
            old(self).network().well_formed(),
            thought(mul_add, sigmoid, old(self).network(), perception, result),
    {
        let mut input: Vec<Scalar> = Vec::new();
        core::mem::swap(&mut self.io_cache, &mut input);
        input.clear();
        perception.put_into(&mut input);
        proof {
            perception.lemma_encoding_width();
        }
        match self.neural_network.feed(input, mul_add, sigmoid) {
            Ok(output) => {
                let result = <Decisions as BrainOutput>::from_output(&output, mul_add);
                self.io_cache = output;
                result
            },
            Err(e) => Err(e),
        }
    }

    /// Keeps the memory of a decision for the next evaluation.
    pub fn transition(&mut self, decisions: &Decisions)
        ensures
            final(self).network() == old(self).network(),
            final(self).remembered() == Some(decisions.memory),
    {
        self.memory = Some(decisions.memory);
    }

    /// One evaluation from end to end: perceive, think, keep the memory.
    /// Where thinking fails, the brain is left as it was.
    pub fn cycle<M: Fn(Scalar, Scalar, Scalar) -> Scalar, S: Fn(Scalar) -> Scalar>(
        &mut self,
        body: BodyPerception,
        environment: EnvironmentPerception,
        mul_add: &M,
        sigmoid: &S,
    ) -> (result: Result<Decisions, BrainError>)
        requires
            total3(mul_add),
            total1(sigmoid),
        ensures
            final(self).evaluated_from(old(self), body, environment, mul_add, sigmoid, result),
    {
        let perception = self.perceive(body, environment);
        let result = self.think(perception, mul_add, sigmoid);
        match &result {
            Ok(decisions) => {
                self.transition(decisions);
            },
            Err(_) => {},
        }
        result
    }
}

} // verus!

//! The simulation with a fixed population: how many organisms to spawn, and
//! what a network makes one of them do.

use crate::arith::{total1, total2, total3};
use crate::error::BrainError;
use crate::genes::WEIGHT_VARIANCE_BITS;
use crate::neural_network::{feeds, NeuralNetwork, MUTATION_VARIANCE_BITS};
use crate::scalar::Scalar;
use vstd::prelude::*;

verus! {

/// How many organisms the spawner keeps alive.
pub const POPULATION: u32 = 50;

/// The layer widths of every spawned network.
pub const COGI_SHAPE: [usize; 5] = [5, 5, 7, 5, 2];

/// How many numbers a spawned network is fed: position twice, the two
/// components of the velocity, and the time.
pub const COGI_INPUT_WIDTH: usize = 5;

/// How many numbers a spawned network gives: the two components of a force.
pub const COGI_OUTPUT_WIDTH: usize = 2;

/// Keeps the population at [`POPULATION`]: counts who starved, and makes up
/// the difference with newborns.
#[derive(Debug)]
pub struct CogiSpawnSystem {
    counter: u32,
}

impl CogiSpawnSystem {
    /// How many organisms the system counts as alive.
    pub closed spec fn count(&self) -> nat {
        self.counter as nat
    }

    /// How many organisms are born in a run before which `alive` were counted
    /// and `starved` of them had starved.
    pub open spec fn births(alive: nat, starved: nat) -> nat {
        if alive - starved < POPULATION {
            (POPULATION - (alive - starved)) as nat
        } else {
            0
        }
    }

    pub fn new() -> (system: Self)
        ensures
            system.count() == 0,
    {
        Self { counter: 0 }
    }

    /// How many organisms the system counts as alive.
    pub fn counter(&self) -> (n: u32)
        ensures
            n == self.count(),
    {
        self.counter
    }

    /// An organism starves when its energy falls below zero.
    pub fn is_starved(energy: Scalar) -> (starved: bool)
        ensures
            starved == energy.below_zero(),
    {
        energy.is_below_zero()
    }

    /// One run: takes the starved off the count and makes a network for each
    /// newborn that brings the population back to [`POPULATION`].
    pub fn run<N: Fn(Scalar, Scalar) -> Scalar>(&mut self, starved: u32, normal: &N) -> (born: Vec<NeuralNetwork>)
        requires
            total2(normal),
            starved <= old(self).count(),
        ensures
            final(self).count() == POPULATION,
            born.len() == Self::births(old(self).count(), starved as nat),
            forall|k: int|
                0 <= k < born.len() ==> {
                    &&& (#[trigger] born[k])@.well_formed()
                    &&& born[k]@.shape == COGI_SHAPE@
                    &&& born[k]@.drawn_from(normal, Scalar::zero(), Scalar { bits: WEIGHT_VARIANCE_BITS })
                },
    {
        self.counter = self.counter - starved;
        let mut born: Vec<NeuralNetwork> = Vec::new();
        let mut n: u32 = self.counter;
        while n < POPULATION
            invariant
                total2(normal),
                self.counter <= n,
                n <= POPULATION || n == self.counter,
                born.len() == n - self.counter,
                forall|k: int|
                    0 <= k < born.len() ==> {
                        &&& (#[trigger] born[k])@.well_formed()
                        &&& born[k]@.shape == COGI_SHAPE@
                        &&& born[k]@.drawn_from(normal, Scalar::zero(), Scalar { bits: WEIGHT_VARIANCE_BITS })
                    },
            decreases POPULATION - n,
        {
            let shape = cogi_shape();
            if let Ok(network) = NeuralNetwork::new_random(shape, normal) {
                born.push(network);
            }
            n += 1;
        }
        self.counter = POPULATION;
        born
    }
}

/// [`COGI_SHAPE`] as a list.
fn cogi_shape() -> (shape: Vec<usize>)
    ensures
        shape@ == COGI_SHAPE@,
{
    let mut shape: Vec<usize> = Vec::new();
    let mut k: usize = 0;
    while k < 5
        invariant
            k <= 5,
            shape.len() == k,
            forall|j: int| 0 <= j < k ==> shape@[j] == COGI_SHAPE@[j],
        decreases 5 - k,
    {
        shape.push(COGI_SHAPE[k]);
        k += 1;
    }
    shape
}

/// Lets each organism's network decide on a force, and mutates the network
/// after every decision.
#[derive(Clone, Copy, Debug)]
pub struct CogiBrainSystem;

impl CogiBrainSystem {
    /// What is wrong between a network of the given shape and what the system
    /// feeds and takes, if anything.
    pub open spec fn fault(shape: Seq<usize>) -> Option<BrainError> {
        if shape[0] != COGI_INPUT_WIDTH {
            Some(BrainError::DimensionMismatch { expected: shape[0], actual: COGI_INPUT_WIDTH })
        } else if shape.last() != COGI_OUTPUT_WIDTH {
            Some(BrainError::SchemaDesync { expected: COGI_OUTPUT_WIDTH, actual: shape.last() })
        } else {
            None
        }
    }

    /// What the network is fed: the position `x` twice, the velocity, the
    /// time.
    pub open spec fn input(x: Scalar, velocity: [Scalar; 2], time: Scalar) -> Seq<Scalar> {
        seq![x, x, velocity[0], velocity[1], time]
    }

    /// One run for one organism: the force is the network's output on the
    /// organism's state, as it is; afterwards the network's weights mutate.
    ///
    /// Fails with `DimensionMismatch` exactly when the network does not take
    /// five numbers; otherwise with `SchemaDesync` exactly when it does not
    /// give two. The network is then left as it was.
    pub fn run<M: Fn(Scalar, Scalar, Scalar) -> Scalar, S: Fn(Scalar) -> Scalar, N: Fn(Scalar, Scalar) -> Scalar>(
        network: &mut NeuralNetwork,
        x: Scalar,
        velocity: [Scalar; 2],
        time: Scalar,
        mul_add: &M,
        sigmoid: &S,
        normal: &N,
    ) -> (result: Result<[Scalar; 2], BrainError>)
        requires
            total3(mul_add),
            total1(sigmoid),
            total2(normal),
        ensures
            match result {
                Ok(force) => {
                    &&& Self::fault(old(network)@.shape) is None
                    &&& feeds(mul_add, sigmoid, old(network)@, Self::input(x, velocity, time), force@)
                    &&& final(network)@.well_formed()
                    &&& final(network)@.mutated_from(
                        old(network)@,
                        normal,
                        mul_add,
                        Scalar { bits: MUTATION_VARIANCE_BITS },
                    )
                },
                Err(e) => Self::fault(old(network)@.shape) == Some(e) && final(network)@ == old(network)@,
            },
    {
        let mut input: Vec<Scalar> = Vec::new();
        input.push(x);
        input.push(x);
        input.push(velocity[0]);
        input.push(velocity[1]);
        input.push(time);
        assert(input@ =~= Self::input(x, velocity, time));
        match network.feed(input, mul_add, sigmoid) {
            Err(e) => Err(e),
            Ok(output) => {
                if output.len() != COGI_OUTPUT_WIDTH {
                    return Err(
                        BrainError::SchemaDesync { expected: COGI_OUTPUT_WIDTH, actual: output.len() },
                    );
                }
                let force = [output[0], output[1]];
                assert(force@ =~= output@);
                network.mutate_weights(normal, mul_add);
                Ok(force)
            },
        }
    }
}

} // verus!

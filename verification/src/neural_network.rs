//! The feed-forward pass over a gene.

use crate::arith::{dot_trace, sum_weighted, total1, total2, total3, weighted_sum};
use crate::error::BrainError;
use crate::genes::{
    first_defect, layers_view, rows_view, valid_shape, BrainGene, GeneModel, WEIGHT_VARIANCE_BITS,
};
use crate::scalar::{Scalar, ONE_BITS, ZERO_BITS};
use vstd::prelude::*;

verus! {

/// `out` is what a neuron with weights `w` and bias `bias` gives on the input
/// `x`: the activation of the weighted sum.
pub open spec fn neuron_output<M: Fn(Scalar, Scalar, Scalar) -> Scalar, S: Fn(Scalar) -> Scalar>(
    mul_add: &M,
    sigmoid: &S,
    w: Seq<Scalar>,
    bias: Scalar,
    x: Seq<Scalar>,
    out: Scalar,
) -> bool {
    exists|sum: Scalar| #[trigger] weighted_sum(mul_add, w, bias, x, sum) && sigmoid.ensures((sum,), out)
}

/// `y` is what a layer gives on the input `x`: one output per row of its
/// weight matrix.
pub open spec fn layer_output<M: Fn(Scalar, Scalar, Scalar) -> Scalar, S: Fn(Scalar) -> Scalar>(
    mul_add: &M,
    sigmoid: &S,
    weights: Seq<Seq<Scalar>>,
    biases: Seq<Scalar>,
    x: Seq<Scalar>,
    y: Seq<Scalar>,
) -> bool {
    &&& y.len() == weights.len()
    &&& forall|r: int|
        0 <= r < weights.len() ==> neuron_output(mul_add, sigmoid, weights[r], biases[r], x, #[trigger] y[r])
}

/// `acts` lists what every layer of `gene` holds during one evaluation, the
/// input layer first: each later entry is the output of its layer on the
/// entry before.
pub open spec fn activations<M: Fn(Scalar, Scalar, Scalar) -> Scalar, S: Fn(Scalar) -> Scalar>(
    mul_add: &M,
    sigmoid: &S,
    gene: GeneModel,
    acts: Seq<Seq<Scalar>>,
) -> bool {
    &&& acts.len() == gene.shape.len()
    &&& forall|i: int|
        1 <= i < acts.len() ==> layer_output(
            mul_add,
            sigmoid,
            gene.weights[i - 1],
            gene.biases[i - 1],
            acts[i - 1],
            #[trigger] acts[i],
        )
}

/// `output` is what `gene` gives on `input`.
pub open spec fn feeds<M: Fn(Scalar, Scalar, Scalar) -> Scalar, S: Fn(Scalar) -> Scalar>(
    mul_add: &M,
    sigmoid: &S,
    gene: GeneModel,
    input: Seq<Scalar>,
    output: Seq<Scalar>,
) -> bool {
    exists|acts: Seq<Seq<Scalar>>|
        #[trigger] activations(mul_add, sigmoid, gene, acts) && acts[0] == input && acts.last() == output
}

/// Every value of `sigmoid` is a number between zero and one.
pub open spec fn unit_valued<S: Fn(Scalar) -> Scalar>(sigmoid: &S) -> bool {
    forall|x: Scalar, y: Scalar| sigmoid.ensures((x,), y) ==> y.in_unit_interval()
}

/// On an input as wide as its first layer, a well-formed network gives an
/// output as wide as its last. Where a layer computes, every output is a
/// value of the activation function, and so lies between zero and one as soon
/// as every value of that function does; a network of one layer hands its
/// input on as it is.
pub proof fn lemma_output_width_and_range<M: Fn(Scalar, Scalar, Scalar) -> Scalar, S: Fn(Scalar) -> Scalar>(
    mul_add: &M,
    sigmoid: &S,
    gene: GeneModel,
    input: Seq<Scalar>,
    output: Seq<Scalar>,
)
    requires
        gene.well_formed(),
        input.len() == gene.shape[0],
        feeds(mul_add, sigmoid, gene, input, output),
    ensures
        output.len() == gene.shape.last(),
        gene.shape.len() == 1 ==> output == input,
        gene.shape.len() >= 2 && unit_valued(sigmoid) ==> forall|j: int|
            0 <= j < output.len() ==> (#[trigger] output[j]).in_unit_interval(),
{
    let acts = choose|acts: Seq<Seq<Scalar>>|
        #[trigger] activations(mul_add, sigmoid, gene, acts) && acts[0] == input && acts.last() == output;
    let last = acts.len() - 1;
    if last >= 1 {
        assert(layer_output(
            mul_add,
            sigmoid,
            gene.weights[last - 1],
            gene.biases[last - 1],
            acts[last - 1],
            acts[last],
        ));
        assert(gene.weights[last - 1].len() == gene.shape[last]);
        if unit_valued(sigmoid) {
            assert forall|j: int| 0 <= j < output.len() implies (#[trigger] output[j]).in_unit_interval() by {
                assert(neuron_output(
                    mul_add,
                    sigmoid,
                    gene.weights[last - 1][j],
                    gene.biases[last - 1][j],
                    acts[last - 1],
                    output[j],
                ));
            }
        }
    }
}

/// Whatever `f` returns for given arguments, it returns it every time.
pub open spec fn functional3<F: Fn(Scalar, Scalar, Scalar) -> Scalar>(f: &F) -> bool {
    forall|a: Scalar, b: Scalar, c: Scalar, r1: Scalar, r2: Scalar|
        #[trigger] f.ensures((a, b, c), r1) && #[trigger] f.ensures((a, b, c), r2) ==> r1 == r2
}

/// Whatever `f` returns for a given argument, it returns it every time.
pub open spec fn functional1<F: Fn(Scalar) -> Scalar>(f: &F) -> bool {
    forall|a: Scalar, r1: Scalar, r2: Scalar|
        #[trigger] f.ensures((a,), r1) && #[trigger] f.ensures((a,), r2) ==> r1 == r2
}

/// Two lists of partial sums over the same weights and inputs agree up to
/// place `k`.
proof fn lemma_partial_sums_agree<M: Fn(Scalar, Scalar, Scalar) -> Scalar>(
    mul_add: &M,
    w: Seq<Scalar>,
    x: Seq<Scalar>,
    a1: Seq<Scalar>,
    a2: Seq<Scalar>,
    k: int,
)
    requires
        functional3(mul_add),
        dot_trace(mul_add, w, x, a1),
        dot_trace(mul_add, w, x, a2),
        0 <= k <= w.len(),
    ensures
        a1[k] == a2[k],
    decreases k,
{
    if k > 0 {
        lemma_partial_sums_agree(mul_add, w, x, a1, a2, k - 1);
        assert(mul_add.ensures((w[k - 1], x[k - 1], a1[k - 1]), a1[k]));
        assert(mul_add.ensures((w[k - 1], x[k - 1], a2[k - 1]), a2[k]));
    }
}

/// With arithmetic that returns the same for the same, a neuron has one
/// output.
proof fn lemma_neuron_is_a_function<M: Fn(Scalar, Scalar, Scalar) -> Scalar, S: Fn(Scalar) -> Scalar>(
    mul_add: &M,
    sigmoid: &S,
    w: Seq<Scalar>,
    bias: Scalar,
    x: Seq<Scalar>,
    out1: Scalar,
    out2: Scalar,
)
    requires
        functional3(mul_add),
        functional1(sigmoid),
        neuron_output(mul_add, sigmoid, w, bias, x, out1),
        neuron_output(mul_add, sigmoid, w, bias, x, out2),
    ensures
        out1 == out2,
{
    let s1 = choose|sum: Scalar| #[trigger] weighted_sum(mul_add, w, bias, x, sum) && sigmoid.ensures((sum,), out1);
    let s2 = choose|sum: Scalar| #[trigger] weighted_sum(mul_add, w, bias, x, sum) && sigmoid.ensures((sum,), out2);
    let a1 = choose|accs: Seq<Scalar>|
        #[trigger] dot_trace(mul_add, w, x, accs) && mul_add.ensures((accs.last(), Scalar::one(), bias), s1);
    let a2 = choose|accs: Seq<Scalar>|
        #[trigger] dot_trace(mul_add, w, x, accs) && mul_add.ensures((accs.last(), Scalar::one(), bias), s2);
    lemma_partial_sums_agree(mul_add, w, x, a1, a2, w.len() as int);
    assert(s1 == s2);
}

/// Two lists of activations over the same network and input agree up to
/// layer `i`.
proof fn lemma_activations_agree<M: Fn(Scalar, Scalar, Scalar) -> Scalar, S: Fn(Scalar) -> Scalar>(
    mul_add: &M,
    sigmoid: &S,
    gene: GeneModel,
    acts1: Seq<Seq<Scalar>>,
    acts2: Seq<Seq<Scalar>>,
    i: int,
)
    requires
        functional3(mul_add),
        functional1(sigmoid),
        activations(mul_add, sigmoid, gene, acts1),
        activations(mul_add, sigmoid, gene, acts2),
        acts1[0] == acts2[0],
        0 <= i < gene.shape.len(),
    ensures
        acts1[i] == acts2[i],
    decreases i,
{
    if i > 0 {
        lemma_activations_agree(mul_add, sigmoid, gene, acts1, acts2, i - 1);
        let (weights, biases, x) = (gene.weights[i - 1], gene.biases[i - 1], acts1[i - 1]);
        assert(layer_output(mul_add, sigmoid, weights, biases, x, acts1[i]));
        assert(layer_output(mul_add, sigmoid, weights, biases, x, acts2[i]));
        assert forall|r: int| 0 <= r < weights.len() implies acts1[i][r] == acts2[i][r] by {
            lemma_neuron_is_a_function(mul_add, sigmoid, weights[r], biases[r], x, acts1[i][r], acts2[i][r]);
        }
        assert(acts1[i] =~= acts2[i]);
    }
}

/// Evaluation is a function of network and input: with arithmetic that
/// returns the same for the same, a network has one output on each input.
pub proof fn lemma_feed_is_a_function<M: Fn(Scalar, Scalar, Scalar) -> Scalar, S: Fn(Scalar) -> Scalar>(
    mul_add: &M,
    sigmoid: &S,
    gene: GeneModel,
    input: Seq<Scalar>,
    output1: Seq<Scalar>,
    output2: Seq<Scalar>,
)
    requires
        functional3(mul_add),
        functional1(sigmoid),
        gene.well_formed(),
        feeds(mul_add, sigmoid, gene, input, output1),
        feeds(mul_add, sigmoid, gene, input, output2),
    ensures
        output1 == output2,
{
    let acts1 = choose|acts: Seq<Seq<Scalar>>|
        #[trigger] activations(mul_add, sigmoid, gene, acts) && acts[0] == input && acts.last() == output1;
    let acts2 = choose|acts: Seq<Seq<Scalar>>|
        #[trigger] activations(mul_add, sigmoid, gene, acts) && acts[0] == input && acts.last() == output2;
    lemma_activations_agree(mul_add, sigmoid, gene, acts1, acts2, gene.shape.len() - 1);
}

/// The word of `1.0`: the variance with which [`NeuralNetwork::mutate_weights`]
/// perturbs, whatever the strength.
pub const MUTATION_VARIANCE_BITS: u32 = ONE_BITS;

/// A network: a gene that can be evaluated.
#[derive(Debug)]
pub struct NeuralNetwork {
    genes: BrainGene,
}

impl View for NeuralNetwork {
    type V = GeneModel;

    closed spec fn view(&self) -> GeneModel {
        self.genes@
    }
}

impl NeuralNetwork {
    pub fn new(genes: BrainGene) -> (network: Self)
        ensures
            network@ == genes@,
    {
        Self { genes }
    }

    /// A network of the given shape with weights and biases drawn around zero
    /// with variance [`WEIGHT_VARIANCE_BITS`].
    ///
    /// Fails on a shape that is not valid, naming the first layer at fault.
    pub fn new_random<N: Fn(Scalar, Scalar) -> Scalar>(shape: Vec<usize>, normal: &N) -> (made: Result<
        Self,
        BrainError,
    >)
        requires
            total2(normal),
        ensures
            made is Ok <==> valid_shape(shape@),
            match made {
                Ok(network) => {
                    &&& network@.well_formed()
                    &&& network@.shape == shape@
                    &&& network@.drawn_from(normal, Scalar::zero(), Scalar { bits: WEIGHT_VARIANCE_BITS })
                },
                Err(BrainError::DegenerateGenome { layer }) => first_defect(shape@, layer as int),
                Err(_) => false,
            },
    {
        match BrainGene::with_shape(
            shape,
            Scalar::from_bits(ZERO_BITS),
            Scalar::from_bits(WEIGHT_VARIANCE_BITS),
            normal,
        ) {
            Ok(genes) => Ok(Self { genes }),
            Err(e) => Err(e),
        }
    }

    /// Adds to every weight and every bias its own draw from the normal
    /// distribution around zero with variance [`MUTATION_VARIANCE_BITS`].
    pub fn mutate_weights<N: Fn(Scalar, Scalar) -> Scalar, M: Fn(Scalar, Scalar, Scalar) -> Scalar>(
        &mut self,
        normal: &N,
        mul_add: &M,
    )
        requires
            total2(normal),
            total3(mul_add),
        ensures
            final(self)@.well_formed(),
            final(self)@.mutated_from(old(self)@, normal, mul_add, Scalar { bits: MUTATION_VARIANCE_BITS }),
    {
        self.genes.perturb(Scalar::from_bits(MUTATION_VARIANCE_BITS), normal, mul_add);
    }

    /// The gene that the network evaluates.
    pub fn genes(&self) -> (genes: &BrainGene)
        ensures
            genes@ == self@,
    {
        &self.genes
    }

    /// One layer: the activation of each row's weighted sum of `x`.
    fn feed_layer<M: Fn(Scalar, Scalar, Scalar) -> Scalar, S: Fn(Scalar) -> Scalar>(
        weights: &Vec<Vec<Scalar>>,
        biases: &Vec<Scalar>,
        x: &Vec<Scalar>,
        mul_add: &M,
        sigmoid: &S,
    ) -> (y: Vec<Scalar>)
        requires
            total3(mul_add),
            total1(sigmoid),
            biases.len() == weights.len(),
            forall|r: int| 0 <= r < weights.len() ==> (#[trigger] weights@[r]).len() == x.len(),
        ensures
            layer_output(mul_add, sigmoid, rows_view(*weights), biases@, x@, y@),
    {
        let mut y: Vec<Scalar> = Vec::new();
        let mut r: usize = 0;
        while r < weights.len()
            invariant
                total3(mul_add),
                total1(sigmoid),
                biases.len() == weights.len(),
                forall|j: int| 0 <= j < weights.len() ==> (#[trigger] weights@[j]).len() == x.len(),
                r <= weights.len(),
                y.len() == r,
                forall|j: int|
                    0 <= j < r ==> neuron_output(
                        mul_add,
                        sigmoid,
                        weights@[j]@,
                        biases@[j],
                        x@,
                        #[trigger] y@[j],
                    ),
            decreases weights.len() - r,
        {
            let sum = sum_weighted(&weights[r], biases[r], x, mul_add);
            let out = sigmoid(sum);
            y.push(out);
            r += 1;
        }
        y
    }

    /// Evaluates the network on `inputs`: layer by layer, each neuron takes
    /// the weighted sum of the layer before, adds its bias and applies the
    /// activation function. Where a layer computes, every output lies between
    /// zero and one as soon as every value of the activation function does.
    ///
    /// Fails with `DimensionMismatch` exactly when `inputs` does not have the
    /// width of the first layer.
    pub fn feed<M: Fn(Scalar, Scalar, Scalar) -> Scalar, S: Fn(Scalar) -> Scalar>(
        &self,
        inputs: Vec<Scalar>,
        mul_add: &M,
        sigmoid: &S,
    ) -> (result: Result<Vec<Scalar>, BrainError>)
        requires
            total3(mul_add),
            total1(sigmoid),
        ensures
            self@.well_formed(),
            match result {
                Ok(output) => {
                    &&& inputs.len() == self@.shape[0]
                    &&& output.len() == self@.shape.last()
                    &&& feeds(mul_add, sigmoid, self@, inputs@, output@)
                    &&& self@.shape.len() >= 2 && unit_valued(sigmoid) ==> forall|j: int|
                        0 <= j < output.len() ==> (#[trigger] output[j]).in_unit_interval()
                },
                Err(e) => {
                    &&& inputs.len() != self@.shape[0]
                    &&& e == (BrainError::DimensionMismatch {
                        expected: self@.shape[0],
                        actual: inputs.len(),
                    })
                },
            },
    {
        let shape = self.genes.shape();
        let weights = self.genes.weights();
        let biases = self.genes.biases();
        if inputs.len() != shape[0] {
            return Err(BrainError::DimensionMismatch { expected: shape[0], actual: inputs.len() });
        }
        let ghost gene = self@;
        let ghost mut acts: Seq<Seq<Scalar>> = seq![inputs@];
        let mut current: Vec<Scalar> = inputs;
        let mut i: usize = 0;
        while i < weights.len()
            invariant
                total3(mul_add),
                total1(sigmoid),
                gene.well_formed(),
                gene.shape == shape@,
                gene.weights == layers_view(*weights),
                gene.biases == rows_view(*biases),
                i <= weights.len(),
                acts.len() == i + 1,
                acts[0] == inputs@,
                acts.last() == current@,
                current.len() == shape[i as int],
                forall|l: int|
                    1 <= l <= i ==> layer_output(
                        mul_add,
                        sigmoid,
                        gene.weights[l - 1],
                        gene.biases[l - 1],
                        acts[l - 1],
                        #[trigger] acts[l],
                    ),
            decreases weights.len() - i,
        {
            proof {
                assert(gene.weights[i as int] == rows_view(weights@[i as int]));
                assert(gene.biases[i as int] == biases@[i as int]@);
                assert forall|r: int| 0 <= r < weights@[i as int].len() implies (#[trigger] weights@[i as int]@[r]).len()
                    == current.len() by {
                    assert(gene.weights[i as int][r] == weights@[i as int]@[r]@);
                }
            }
            let next = Self::feed_layer(&weights[i], &biases[i], &current, mul_add, sigmoid);
            proof {
                acts = acts.push(next@);
            }
            current = next;
            i += 1;
        }
        proof {
            assert(activations(mul_add, sigmoid, gene, acts));
            lemma_output_width_and_range(mul_add, sigmoid, gene, inputs@, current@);
        }
        Ok(current)
    }
}

} // verus!

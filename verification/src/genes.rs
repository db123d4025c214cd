//! The heritable parameters of an organism.

use crate::arith::{total2, total3};
use crate::error::BrainError;
use crate::scalar::{Scalar, ONE_BITS, ZERO_BITS};
use rand::distributions::Uniform;
use rand::rngs::ThreadRng;
use rand::Rng;
use vstd::prelude::*;

verus! {

/// The word of `2.0`: mean and variance of the number of hidden layers.
pub const DEPTH_MEAN_BITS: u32 = 0x4000_0000;

pub const DEPTH_VARIANCE_BITS: u32 = 0x4000_0000;

/// The word of `5.0`: mean of the width of a hidden layer.
pub const WIDTH_MEAN_BITS: u32 = 0x40A0_0000;

/// The word of `4.0`: variance of the width of a hidden layer.
pub const WIDTH_VARIANCE_BITS: u32 = 0x4080_0000;

/// The word of `5.0`: variance of a fresh weight or bias, whose mean is zero.
pub const WEIGHT_VARIANCE_BITS: u32 = 0x40A0_0000;

/// The word of `0.1`: variance of a mutation of strength one, whose mean is
/// zero.
pub const WEIGHT_MUTATION_VARIANCE_BITS: u32 = 0x3DCC_CCCD;

/// The word of `1.0`: the strength at which a whole genome mutates.
pub const MUTATION_STRENGTH_BITS: u32 = 0x3F80_0000;

/// The word of `1.0`: mean of the step by which a colour channel mutates.
pub const COLOR_MUTATION_MEAN_BITS: u32 = 0x3F80_0000;

/// The word of `1.0`: variance of that step at strength one.
pub const COLOR_MUTATION_VARIATION_BITS: u32 = 0x3F80_0000;

/// Colour channels are drawn from zero up to, but not including, this value.
pub const CHANNEL_LIMIT: u8 = 255;

/// The rows of a matrix as sequences.
pub open spec fn rows_view(m: Vec<Vec<Scalar>>) -> Seq<Seq<Scalar>> {
    Seq::new(m.len() as nat, |r: int| m[r]@)
}

/// The matrices of a list as sequences of rows.
pub open spec fn layers_view(w: Vec<Vec<Vec<Scalar>>>) -> Seq<Seq<Seq<Scalar>>> {
    Seq::new(w.len() as nat, |i: int| rows_view(w[i]))
}

/// The mathematical content of a [`BrainGene`]: the layer widths, and for each
/// layer after the first its weight matrix, row by row, and its bias vector.
pub struct GeneModel {
    pub shape: Seq<usize>,
    pub weights: Seq<Seq<Seq<Scalar>>>,
    pub biases: Seq<Seq<Scalar>>,
}

/// A shape has at least one layer, and no layer without neurons. The first
/// layer takes the input and the last gives the output; in a shape of one
/// layer they are the same, and nothing computes.
pub open spec fn valid_shape(shape: Seq<usize>) -> bool {
    &&& shape.len() >= 1
    &&& forall|i: int| 0 <= i < shape.len() ==> shape[i] >= 1
}

/// `layer` is the first place where `shape` fails to be valid: the first layer
/// without neurons or, in a shape without layers, the missing first layer.
pub open spec fn first_defect(shape: Seq<usize>, layer: int) -> bool {
    &&& 0 <= layer <= shape.len()
    &&& forall|j: int| 0 <= j < layer ==> shape[j] >= 1
    &&& layer < shape.len() ==> shape[layer] == 0
    &&& layer == shape.len() ==> shape.len() < 1
}

impl GeneModel {
    /// The number of weight matrices, which is the number of layers that
    /// compute.
    pub open spec fn depth(self) -> int {
        self.shape.len() - 1
    }

    /// One matrix and one bias vector per computing layer; the matrix of layer
    /// `i` has as many rows as layer `i + 1` has neurons and as many columns
    /// as layer `i` has.
    pub open spec fn well_formed(self) -> bool {
        &&& valid_shape(self.shape)
        &&& self.weights.len() == self.depth()
        &&& self.biases.len() == self.depth()
        &&& forall|i: int|
            0 <= i < self.depth() ==> (#[trigger] self.weights[i]).len() == self.shape[i + 1]
        &&& forall|i: int, r: int|
            0 <= i < self.depth() && 0 <= r < self.shape[i + 1] ==> (#[trigger] self.weights[i][r]).len()
                == self.shape[i]
        &&& forall|i: int| 0 <= i < self.depth() ==> (#[trigger] self.biases[i]).len() == self.shape[i + 1]
    }

    /// `self` has the shape of `parent`, and each of its weights and biases is
    /// the parent's plus a draw around zero with the given variance.
    pub open spec fn mutated_from<N: Fn(Scalar, Scalar) -> Scalar, M: Fn(Scalar, Scalar, Scalar) -> Scalar>(
        self,
        parent: GeneModel,
        normal: &N,
        mul_add: &M,
        variance: Scalar,
    ) -> bool {
        &&& self.shape == parent.shape
        &&& self.weights.len() == parent.weights.len()
        &&& self.biases.len() == parent.biases.len()
        &&& forall|i: int|
            0 <= i < parent.weights.len() ==> perturbed_matrix(
                normal,
                mul_add,
                variance,
                parent.weights[i],
                #[trigger] self.weights[i],
            )
        &&& forall|i: int|
            0 <= i < parent.biases.len() ==> perturbed_vector(
                normal,
                mul_add,
                variance,
                parent.biases[i],
                #[trigger] self.biases[i],
            )
    }

    /// Every weight and every bias is something that `normal` may return for
    /// `mean` and `variance`.
    pub open spec fn drawn_from<N: Fn(Scalar, Scalar) -> Scalar>(
        self,
        normal: &N,
        mean: Scalar,
        variance: Scalar,
    ) -> bool {
        &&& forall|i: int, r: int, c: int|
            0 <= i < self.weights.len() && 0 <= r < self.weights[i].len() && 0 <= c
                < self.weights[i][r].len() ==> normal.ensures((mean, variance), #[trigger] self.weights[i][r][c])
        &&& forall|i: int, r: int|
            0 <= i < self.biases.len() && 0 <= r < self.biases[i].len() ==> normal.ensures(
                (mean, variance),
                #[trigger] self.biases[i][r],
            )
    }
}

/// What generation needs to know besides the fixed distributions of depth and
/// width: the widths of the first and the last layer, which the codec fixes,
/// and the variance of a fresh weight or bias.
#[derive(Clone, Copy, Debug)]
pub struct GeneConfig {
    pub input_width: usize,
    pub output_width: usize,
    pub weight_variance: Scalar,
}

/// The number of hidden layers that a sample stands for: the sample as a
/// count, leaving room for the input and the output layer.
pub open spec fn hidden_layers(sample: Scalar) -> nat {
    if sample.count() > usize::MAX - 2 {
        (usize::MAX - 2) as nat
    } else {
        sample.count()
    }
}

/// The width of a hidden layer that a sample stands for: the sample as a
/// count, but never less than one neuron.
pub open spec fn layer_width(sample: Scalar) -> nat {
    if sample.count() < 1 {
        1
    } else {
        sample.count()
    }
}

/// `draws` is what `normal` returned while a shape was generated: first the
/// sample for the number of hidden layers, then one sample for the width of
/// each.
pub open spec fn shape_draws<N: Fn(Scalar, Scalar) -> Scalar>(normal: &N, draws: Seq<Scalar>) -> bool {
    &&& draws.len() == hidden_layers(draws[0]) + 1
    &&& normal.ensures(
        (Scalar { bits: DEPTH_MEAN_BITS }, Scalar { bits: DEPTH_VARIANCE_BITS }),
        draws[0],
    )
    &&& forall|k: int|
        1 <= k < draws.len() ==> normal.ensures(
            (Scalar { bits: WIDTH_MEAN_BITS }, Scalar { bits: WIDTH_VARIANCE_BITS }),
            #[trigger] draws[k],
        )
}

/// The shape that the draws give: the input width, the hidden widths in the
/// order drawn, the output width.
pub open spec fn drawn_shape(input_width: usize, output_width: usize, draws: Seq<Scalar>) -> Seq<usize> {
    Seq::new(
        draws.len() + 1,
        |i: int|
            if i == 0 {
                input_width
            } else if i == draws.len() {
                output_width
            } else {
                layer_width(draws[i]) as usize
            },
    )
}

/// `new` is `old` plus a draw from the normal distribution around zero with
/// the given variance.
pub open spec fn perturbed<N: Fn(Scalar, Scalar) -> Scalar, M: Fn(Scalar, Scalar, Scalar) -> Scalar>(
    normal: &N,
    mul_add: &M,
    variance: Scalar,
    old: Scalar,
    new: Scalar,
) -> bool {
    exists|delta: Scalar|
        normal.ensures((Scalar::zero(), variance), delta) && #[trigger] mul_add.ensures(
            (delta, Scalar::one(), old),
            new,
        )
}

/// `new` holds the entries of `old`, each perturbed.
pub open spec fn perturbed_vector<N: Fn(Scalar, Scalar) -> Scalar, M: Fn(Scalar, Scalar, Scalar) -> Scalar>(
    normal: &N,
    mul_add: &M,
    variance: Scalar,
    old: Seq<Scalar>,
    new: Seq<Scalar>,
) -> bool {
    &&& new.len() == old.len()
    &&& forall|k: int| 0 <= k < old.len() ==> perturbed(normal, mul_add, variance, old[k], #[trigger] new[k])
}

/// `new` holds the rows of `old`, each perturbed.
pub open spec fn perturbed_matrix<N: Fn(Scalar, Scalar) -> Scalar, M: Fn(Scalar, Scalar, Scalar) -> Scalar>(
    normal: &N,
    mul_add: &M,
    variance: Scalar,
    old: Seq<Seq<Scalar>>,
    new: Seq<Seq<Scalar>>,
) -> bool {
    &&& new.len() == old.len()
    &&& forall|r: int|
        0 <= r < old.len() ==> perturbed_vector(normal, mul_add, variance, old[r], #[trigger] new[r])
}

/// `v` holds `n` draws from `normal`.
fn draw_vector<N: Fn(Scalar, Scalar) -> Scalar>(n: usize, mean: Scalar, variance: Scalar, normal: &N) -> (v:
    Vec<Scalar>)
    requires
        total2(normal),
    ensures
        v.len() == n,
        forall|k: int| 0 <= k < n ==> normal.ensures((mean, variance), #[trigger] v[k]),
{
    let mut v: Vec<Scalar> = Vec::new();
    let mut k: usize = 0;
    while k < n
        invariant
            total2(normal),
            k <= n,
            v.len() == k,
            forall|j: int| 0 <= j < k ==> normal.ensures((mean, variance), #[trigger] v[j]),
        decreases n - k,
    {
        let s = normal(mean, variance);
        v.push(s);
        k += 1;
    }
    v
}

/// `m` holds `rows` rows of `cols` draws from `normal`.
fn draw_matrix<N: Fn(Scalar, Scalar) -> Scalar>(
    rows: usize,
    cols: usize,
    mean: Scalar,
    variance: Scalar,
    normal: &N,
) -> (m: Vec<Vec<Scalar>>)
    requires
        total2(normal),
    ensures
        m.len() == rows,
        forall|r: int| 0 <= r < rows ==> (#[trigger] m[r]).len() == cols,
        forall|r: int, c: int|
            0 <= r < rows && 0 <= c < cols ==> normal.ensures((mean, variance), #[trigger] m[r][c]),
{
    let mut m: Vec<Vec<Scalar>> = Vec::new();
    let mut r: usize = 0;
    while r < rows
        invariant
            total2(normal),
            r <= rows,
            m.len() == r,
            forall|j: int| 0 <= j < r ==> (#[trigger] m[j]).len() == cols,
            forall|j: int, c: int|
                0 <= j < r && 0 <= c < cols ==> normal.ensures((mean, variance), #[trigger] m[j][c]),
        decreases rows - r,
    {
        let row = draw_vector(cols, mean, variance, normal);
        m.push(row);
        r += 1;
    }
    m
}

/// Adds a fresh draw to every entry of `v`.
fn perturb_vector<N: Fn(Scalar, Scalar) -> Scalar, M: Fn(Scalar, Scalar, Scalar) -> Scalar>(
    v: &Vec<Scalar>,
    variance: Scalar,
    normal: &N,
    mul_add: &M,
) -> (out: Vec<Scalar>)
    requires
        total2(normal),
        total3(mul_add),
    ensures
        perturbed_vector(normal, mul_add, variance, v@, out@),
{
    let mut out: Vec<Scalar> = Vec::new();
    let mut k: usize = 0;
    while k < v.len()
        invariant
            total2(normal),
            total3(mul_add),
            k <= v.len(),
            out.len() == k,
            forall|j: int| 0 <= j < k ==> perturbed(normal, mul_add, variance, v@[j], #[trigger] out@[j]),
        decreases v.len() - k,
    {
        let delta = normal(Scalar::from_bits(ZERO_BITS), variance);
        let entry = mul_add(delta, Scalar::from_bits(ONE_BITS), v[k]);
        out.push(entry);
        k += 1;
    }
    out
}

/// Adds a fresh draw to every entry of `m`.
fn perturb_matrix<N: Fn(Scalar, Scalar) -> Scalar, M: Fn(Scalar, Scalar, Scalar) -> Scalar>(
    m: &Vec<Vec<Scalar>>,
    variance: Scalar,
    normal: &N,
    mul_add: &M,
) -> (out: Vec<Vec<Scalar>>)
    requires
        total2(normal),
        total3(mul_add),
    ensures
        perturbed_matrix(normal, mul_add, variance, rows_view(*m), rows_view(out)),
{
    let mut out: Vec<Vec<Scalar>> = Vec::new();
    let mut r: usize = 0;
    while r < m.len()
        invariant
            total2(normal),
            total3(mul_add),
            r <= m.len(),
            out.len() == r,
            forall|j: int|
                0 <= j < r ==> perturbed_vector(normal, mul_add, variance, m@[j]@, (#[trigger] out@[j])@),
        decreases m.len() - r,
    {
        let row = perturb_vector(&m[r], variance, normal, mul_add);
        out.push(row);
        r += 1;
    }
    out
}

/// A copy of `v`.
fn copy_vector<T: Copy>(v: &Vec<T>) -> (out: Vec<T>)
    ensures
        out@ == v@,
{
    let mut out: Vec<T> = Vec::new();
    let mut k: usize = 0;
    while k < v.len()
        invariant
            k <= v.len(),
            out@ == v@.take(k as int),
        decreases v.len() - k,
    {
        out.push(v[k]);
        k += 1;
    }
    out
}

/// A copy of `m`, row by row.
fn copy_matrix(m: &Vec<Vec<Scalar>>) -> (out: Vec<Vec<Scalar>>)
    ensures
        rows_view(out) == rows_view(*m),
{
    let mut out: Vec<Vec<Scalar>> = Vec::new();
    let mut r: usize = 0;
    while r < m.len()
        invariant
            r <= m.len(),
            out.len() == r,
            forall|j: int| 0 <= j < r ==> (#[trigger] out@[j])@ == m@[j]@,
        decreases m.len() - r,
    {
        let row = copy_vector(&m[r]);
        out.push(row);
        r += 1;
    }
    out
}

/// Whether every row of `m` has `cols` entries.
fn rows_have_width(m: &Vec<Vec<Scalar>>, cols: usize) -> (all: bool)
    ensures
        all <==> forall|r: int| 0 <= r < m.len() ==> (#[trigger] m@[r]).len() == cols,
{
    let mut r: usize = 0;
    while r < m.len()
        invariant
            r <= m.len(),
            forall|j: int| 0 <= j < r ==> (#[trigger] m@[j]).len() == cols,
        decreases m.len() - r,
    {
        if m[r].len() != cols {
            return false;
        }
        r += 1;
    }
    true
}

/// The topology of a network and its parameters. The shape is fixed at
/// creation; only weights and biases ever change.
#[derive(Debug)]
pub struct BrainGene {
    shape: Vec<usize>,
    weights: Vec<Vec<Vec<Scalar>>>,
    biases: Vec<Vec<Scalar>>,
}

impl View for BrainGene {
    type V = GeneModel;

    closed spec fn view(&self) -> GeneModel {
        GeneModel {
            shape: self.shape@,
            weights: layers_view(self.weights),
            biases: rows_view(self.biases),
        }
    }
}

impl BrainGene {
    #[verifier::type_invariant]
    spec fn inv(&self) -> bool {
        self@.well_formed()
    }

    /// The first layer of `shape` that has no neurons, if there is one.
    fn find_empty_layer(shape: &Vec<usize>) -> (found: Option<usize>)
        ensures
            match found {
                Some(i) => i < shape.len() && shape[i as int] == 0 && forall|j: int|
                    0 <= j < i ==> shape[j] >= 1,
                None => forall|j: int| 0 <= j < shape.len() ==> shape[j] >= 1,
            },
    {
        let mut i: usize = 0;
        while i < shape.len()
            invariant
                i <= shape.len(),
                forall|j: int| 0 <= j < i ==> shape[j] >= 1,
            decreases shape.len() - i,
        {
            if shape[i] == 0 {
                return Some(i);
            }
            i += 1;
        }
        None
    }

    /// A gene of the given shape whose every weight and bias is a draw from
    /// `normal` with the given mean and variance.
    ///
    /// Fails on a shape that is not valid, naming the first layer at fault.
    pub fn with_shape<N: Fn(Scalar, Scalar) -> Scalar>(
        shape: Vec<usize>,
        mean: Scalar,
        variance: Scalar,
        normal: &N,
    ) -> (made: Result<BrainGene, BrainError>)
        requires
            total2(normal),
        ensures
            made is Ok <==> valid_shape(shape@),
            match made {
                Ok(gene) => {
                    &&& gene@.well_formed()
                    &&& gene@.shape == shape@
                    &&& gene@.drawn_from(normal, mean, variance)
                },
                Err(BrainError::DegenerateGenome { layer }) => first_defect(shape@, layer as int),
                Err(_) => false,
            },
    {
        match Self::find_empty_layer(&shape) {
            Some(layer) => {
                return Err(BrainError::DegenerateGenome { layer });
            },
            None => {},
        }
        if shape.len() < 1 {
            return Err(BrainError::DegenerateGenome { layer: 0 });
        }
        let mut weights: Vec<Vec<Vec<Scalar>>> = Vec::new();
        let mut biases: Vec<Vec<Scalar>> = Vec::new();
        let mut i: usize = 0;
        while i + 1 < shape.len()
            invariant
                total2(normal),
                valid_shape(shape@),
                i + 1 <= shape.len(),
                weights.len() == i,
                biases.len() == i,
                forall|l: int| 0 <= l < i ==> (#[trigger] weights[l]).len() == shape[l + 1],
                forall|l: int, r: int|
                    0 <= l < i && 0 <= r < shape[l + 1] ==> (#[trigger] weights[l][r]).len() == shape[l],
                forall|l: int| 0 <= l < i ==> (#[trigger] biases[l]).len() == shape[l + 1],
                forall|l: int, r: int, c: int|
                    0 <= l < i && 0 <= r < shape[l + 1] && 0 <= c < shape[l] ==> normal.ensures(
                        (mean, variance),
                        #[trigger] weights[l][r][c],
                    ),
                forall|l: int, r: int|
                    0 <= l < i && 0 <= r < shape[l + 1] ==> normal.ensures(
                        (mean, variance),
                        #[trigger] biases[l][r],
                    ),
            decreases shape.len() - i,
        {
            let matrix = draw_matrix(shape[i + 1], shape[i], mean, variance, normal);
            let bias = draw_vector(shape[i + 1], mean, variance, normal);
            weights.push(matrix);
            biases.push(bias);
            i += 1;
        }
        let gene = BrainGene { shape, weights, biases };
        Ok(gene)
    }

    /// A gene of random depth and random hidden widths between the given input
    /// and output widths, with weights and biases drawn around zero.
    ///
    /// The number of hidden layers is a draw around [`DEPTH_MEAN_BITS`],
    /// rounded and never negative; the width of each is a draw around
    /// [`WIDTH_MEAN_BITS`], rounded and never less than one. Fails exactly when
    /// the input or the output width is zero.
    pub fn random<N: Fn(Scalar, Scalar) -> Scalar>(config: &GeneConfig, normal: &N) -> (made: Result<
        BrainGene,
        BrainError,
    >)
        requires
            total2(normal),
        ensures
            made is Ok <==> config.input_width >= 1 && config.output_width >= 1,
            made matches Ok(gene) ==> gene@.shape[0] == config.input_width && gene@.shape.last()
                == config.output_width,
            exists|draws: Seq<Scalar>|
                #[trigger] shape_draws(normal, draws) && match made {
                    Ok(gene) => {
                        &&& gene@.well_formed()
                        &&& gene@.shape == drawn_shape(config.input_width, config.output_width, draws)
                        &&& gene@.drawn_from(normal, Scalar::zero(), config.weight_variance)
                    },
                    Err(BrainError::DegenerateGenome { layer }) => first_defect(
                        drawn_shape(config.input_width, config.output_width, draws),
                        layer as int,
                    ),
                    Err(_) => false,
                },
    {
        let depth_sample = normal(Scalar::from_bits(DEPTH_MEAN_BITS), Scalar::from_bits(DEPTH_VARIANCE_BITS));
        let mut depth: usize = depth_sample.round_to_count();
        if depth > usize::MAX - 2 {
            depth = usize::MAX - 2;
        }
        let mut shape: Vec<usize> = Vec::new();
        shape.push(config.input_width);
        let ghost mut draws: Seq<Scalar> = seq![depth_sample];
        let mut k: usize = 0;
        while k < depth
            invariant
                total2(normal),
                depth == hidden_layers(depth_sample),
                k <= depth,
                shape.len() == k + 1,
                draws.len() == k + 1,
                draws[0] == depth_sample,
                shape[0] == config.input_width,
                forall|j: int|
                    1 <= j <= k ==> normal.ensures(
                        (Scalar { bits: WIDTH_MEAN_BITS }, Scalar { bits: WIDTH_VARIANCE_BITS }),
                        #[trigger] draws[j],
                    ),
                forall|j: int| 1 <= j <= k ==> #[trigger] shape[j] == layer_width(draws[j]),
            decreases depth - k,
        {
            let sample = normal(Scalar::from_bits(WIDTH_MEAN_BITS), Scalar::from_bits(WIDTH_VARIANCE_BITS));
            let mut width: usize = sample.round_to_count();
            if width < 1 {
                width = 1;
            }
            shape.push(width);
            proof {
                draws = draws.push(sample);
            }
            k += 1;
        }
        shape.push(config.output_width);
        proof {
            assert(shape@ =~= drawn_shape(config.input_width, config.output_width, draws));
            assert(shape_draws(normal, draws));
            if config.input_width == 0 {
                assert(shape@[0] == 0);
            } else if config.output_width == 0 {
                assert(shape@[shape.len() - 1] == 0);
            }
        }
        Self::with_shape(shape, Scalar::from_bits(ZERO_BITS), config.weight_variance, normal)
    }

    /// Adds to every weight and every bias its own draw from the normal
    /// distribution around zero whose variance is
    /// [`WEIGHT_MUTATION_VARIANCE_BITS`] times `strength`. The shape stays.
    pub fn mutate<N: Fn(Scalar, Scalar) -> Scalar, M: Fn(Scalar, Scalar, Scalar) -> Scalar>(
        &mut self,
        strength: Scalar,
        normal: &N,
        mul_add: &M,
    )
        requires
            total2(normal),
            total3(mul_add),
        ensures
            final(self)@.well_formed(),
            exists|variance: Scalar|
                #[trigger] mul_add.ensures(
                    (Scalar { bits: WEIGHT_MUTATION_VARIANCE_BITS }, strength, Scalar::zero()),
                    variance,
                ) && final(self)@.mutated_from(old(self)@, normal, mul_add, variance),
    {
        let variance = mul_add(
            Scalar::from_bits(WEIGHT_MUTATION_VARIANCE_BITS),
            strength,
            Scalar::from_bits(ZERO_BITS),
        );
        self.perturb(variance, normal, mul_add);
    }

    /// Adds to every weight and every bias its own draw from the normal
    /// distribution around zero with the given variance. The shape stays.
    pub fn perturb<N: Fn(Scalar, Scalar) -> Scalar, M: Fn(Scalar, Scalar, Scalar) -> Scalar>(
        &mut self,
        variance: Scalar,
        normal: &N,
        mul_add: &M,
    )
        requires
            total2(normal),
            total3(mul_add),
        ensures
            final(self)@.well_formed(),
            final(self)@.mutated_from(old(self)@, normal, mul_add, variance),
    {
        proof {
            use_type_invariant(&*self);
        }
        let mut weights: Vec<Vec<Vec<Scalar>>> = Vec::new();
        let mut biases: Vec<Vec<Scalar>> = Vec::new();
        let mut i: usize = 0;
        while i < self.weights.len()
            invariant
                total2(normal),
                total3(mul_add),
                self@.well_formed(),
                i <= self.weights.len(),
                weights.len() == i,
                biases.len() == i,
                forall|l: int|
                    0 <= l < i ==> perturbed_matrix(
                        normal,
                        mul_add,
                        variance,
                        rows_view(self.weights@[l]),
                        rows_view(#[trigger] weights@[l]),
                    ),
                forall|l: int|
                    0 <= l < i ==> perturbed_vector(
                        normal,
                        mul_add,
                        variance,
                        self.biases@[l]@,
                        (#[trigger] biases@[l])@,
                    ),
            decreases self.weights.len() - i,
        {
            let matrix = perturb_matrix(&self.weights[i], variance, normal, mul_add);
            let bias = perturb_vector(&self.biases[i], variance, normal, mul_add);
            weights.push(matrix);
            biases.push(bias);
            i += 1;
        }
        proof {
            let parent = self@;
            let child = GeneModel { shape: self.shape@, weights: layers_view(weights), biases: rows_view(biases) };
            assert(child.mutated_from(parent, normal, mul_add, variance));
        }
        self.weights = weights;
        self.biases = biases;
    }

    /// A gene with exactly the given parameters, where they fit the shape.
    pub fn from_parts(shape: Vec<usize>, weights: Vec<Vec<Vec<Scalar>>>, biases: Vec<Vec<Scalar>>) -> (made:
        Option<BrainGene>)
        ensures
            made is Some <==> (GeneModel {
                shape: shape@,
                weights: layers_view(weights),
                biases: rows_view(biases),
            }).well_formed(),
            made matches Some(gene) ==> gene@ == (GeneModel {
                shape: shape@,
                weights: layers_view(weights),
                biases: rows_view(biases),
            }),
    {
        let ghost model = GeneModel { shape: shape@, weights: layers_view(weights), biases: rows_view(biases) };
        if Self::find_empty_layer(&shape).is_some() || shape.len() < 1 {
            return None;
        }
        if weights.len() != shape.len() - 1 || biases.len() != shape.len() - 1 {
            return None;
        }
        let mut i: usize = 0;
        while i < weights.len()
            invariant
                valid_shape(shape@),
                weights.len() == shape.len() - 1,
                biases.len() == shape.len() - 1,
                model == (GeneModel { shape: shape@, weights: layers_view(weights), biases: rows_view(biases) }),
                i <= weights.len(),
                forall|l: int| 0 <= l < i ==> (#[trigger] model.weights[l]).len() == shape[l + 1],
                forall|l: int, r: int|
                    0 <= l < i && 0 <= r < shape[l + 1] ==> (#[trigger] model.weights[l][r]).len() == shape[l],
                forall|l: int| 0 <= l < i ==> (#[trigger] model.biases[l]).len() == shape[l + 1],
            decreases weights.len() - i,
        {
            if weights[i].len() != shape[i + 1] || biases[i].len() != shape[i + 1] {
                assert(model.weights[i as int].len() != shape[i + 1] || model.biases[i as int].len() != shape[i
                    + 1]);
                return None;
            }
            if !rows_have_width(&weights[i], shape[i]) {
                let ghost r = choose|r: int| 0 <= r < weights@[i as int].len() && (#[trigger] weights@[i as int]@[r]).len() != shape[i as int];
                assert(model.weights[i as int][r].len() != shape[i as int]);
                return None;
            }
            i += 1;
        }
        Some(BrainGene { shape, weights, biases })
    }

    /// The layer widths, input first.
    pub fn shape(&self) -> (shape: &Vec<usize>)
        ensures
            shape@ == self@.shape,
            self@.well_formed(),
    {
        proof {
            use_type_invariant(self);
        }
        &self.shape
    }

    /// The weight matrices, one per computing layer, each as a list of rows.
    pub fn weights(&self) -> (weights: &Vec<Vec<Vec<Scalar>>>)
        ensures
            layers_view(*weights) == self@.weights,
            self@.well_formed(),
    {
        proof {
            use_type_invariant(self);
        }
        &self.weights
    }

    /// The bias vectors, one per computing layer.
    pub fn biases(&self) -> (biases: &Vec<Vec<Scalar>>)
        ensures
            rows_view(*biases) == self@.biases,
            self@.well_formed(),
    {
        proof {
            use_type_invariant(self);
        }
        &self.biases
    }

    /// The width of the first layer: how long an input must be.
    pub fn input_width(&self) -> (width: usize)
        ensures
            self@.well_formed(),
            width == self@.shape[0],
    {
        proof {
            use_type_invariant(self);
        }
        self.shape[0]
    }

    /// The width of the last layer: how long every output is.
    pub fn output_width(&self) -> (width: usize)
        ensures
            self@.well_formed(),
            width == self@.shape.last(),
    {
        proof {
            use_type_invariant(self);
        }
        self.shape[self.shape.len() - 1]
    }
}

impl Clone for BrainGene {
    /// A gene with its own copy of every weight and bias.
    fn clone(&self) -> (copy: Self)
        ensures
            copy@ == self@,
    {
        proof {
            use_type_invariant(self);
        }
        let shape = copy_vector(&self.shape);
        let mut weights: Vec<Vec<Vec<Scalar>>> = Vec::new();
        let mut biases: Vec<Vec<Scalar>> = Vec::new();
        let mut i: usize = 0;
        while i < self.weights.len()
            invariant
                self@.well_formed(),
                i <= self.weights.len(),
                weights.len() == i,
                biases.len() == i,
                forall|l: int| 0 <= l < i ==> rows_view(#[trigger] weights@[l]) == rows_view(self.weights@[l]),
                forall|l: int| 0 <= l < i ==> (#[trigger] biases@[l])@ == self.biases@[l]@,
            decreases self.weights.len() - i,
        {
            let matrix = copy_matrix(&self.weights[i]);
            let bias = copy_vector(&self.biases[i]);
            weights.push(matrix);
            biases.push(bias);
            i += 1;
        }
        assert(layers_view(weights) =~= layers_view(self.weights));
        assert(rows_view(biases) =~= rows_view(self.biases));
        BrainGene { shape, weights, biases }
    }
}

/// The generator that each thread has for itself.
#[verifier::external_type_specification]
#[verifier::external_body]
pub struct ExThreadRng(ThreadRng);

/// `Rng::sample` on `Uniform::new(low, high)`: a value of the half-open range
/// from `low` to `high`. The distribution cannot be made for an empty range,
/// which the precondition leaves out.
#[verifier::external_body]
fn sample_uniform(rng: &mut ThreadRng, low: u8, high: u8) -> (value: u8)
    requires
        low < high,
    ensures
        low <= value < high,
{
    rng.sample(Uniform::new(low, high))
}

/// The step that a sample stands for: the sample as a count, but no more than
/// a channel can hold.
pub open spec fn color_step(sample: Scalar) -> nat {
    if sample.count() > u8::MAX {
        u8::MAX as nat
    } else {
        sample.count()
    }
}

/// `channel` moved up by `step`, starting over from zero past the top.
pub open spec fn wrapped(channel: u8, step: nat) -> u8 {
    ((channel + step) % 256) as u8
}

/// The colour that an organism is born with.
#[derive(Clone, Copy, Debug, PartialEq, Eq, Structural)]
pub struct ColorGene {
    pub r: u8,
    pub g: u8,
    pub b: u8,
}

impl ColorGene {
    /// A colour with each channel drawn uniformly below [`CHANNEL_LIMIT`].
    pub fn random(rng: &mut ThreadRng) -> (color: ColorGene)
        ensures
            color.r < CHANNEL_LIMIT,
            color.g < CHANNEL_LIMIT,
            color.b < CHANNEL_LIMIT,
    {
        let r = sample_uniform(rng, 0, CHANNEL_LIMIT);
        let g = sample_uniform(rng, 0, CHANNEL_LIMIT);
        let b = sample_uniform(rng, 0, CHANNEL_LIMIT);
        ColorGene { r, g, b }
    }

    /// One channel moved by its own rounded draw.
    fn mutate_channel<N: Fn(Scalar, Scalar) -> Scalar>(channel: u8, variance: Scalar, normal: &N) -> (moved: u8)
        requires
            total2(normal),
        ensures
            exists|sample: Scalar|
                #[trigger] normal.ensures((Scalar { bits: COLOR_MUTATION_MEAN_BITS }, variance), sample) && moved
                    == wrapped(channel, color_step(sample)),
    {
        let sample = normal(Scalar::from_bits(COLOR_MUTATION_MEAN_BITS), variance);
        let count: usize = sample.round_to_count();
        let step: u8 = if count > 255 {
            255
        } else {
            count as u8
        };
        channel.wrapping_add(step)
    }

    /// Moves each channel up by its own draw around
    /// [`COLOR_MUTATION_MEAN_BITS`], rounded and held to what a channel can
    /// hold, starting over from zero past the top. The variance of the draws
    /// is [`COLOR_MUTATION_VARIATION_BITS`] times `strength`.
    pub fn mutate<N: Fn(Scalar, Scalar) -> Scalar, M: Fn(Scalar, Scalar, Scalar) -> Scalar>(
        &mut self,
        strength: Scalar,
        normal: &N,
        mul_add: &M,
    )
        requires
            total2(normal),
            total3(mul_add),
        ensures
            exists|variance: Scalar, red: Scalar, green: Scalar, blue: Scalar|
                {
                    &&& #[trigger] color_draws(normal, mul_add, strength, variance, red, green, blue)
                    &&& final(self).r == wrapped(old(self).r, color_step(red))
                    &&& final(self).g == wrapped(old(self).g, color_step(green))
                    &&& final(self).b == wrapped(old(self).b, color_step(blue))
                },
    {
        let variance = mul_add(
            Scalar::from_bits(COLOR_MUTATION_VARIATION_BITS),
            strength,
            Scalar::from_bits(ZERO_BITS),
        );
        let r = Self::mutate_channel(self.r, variance, normal);
        let ghost red = choose|sample: Scalar|
            #[trigger] normal.ensures((Scalar { bits: COLOR_MUTATION_MEAN_BITS }, variance), sample) && r
                == wrapped(self.r, color_step(sample));
        let g = Self::mutate_channel(self.g, variance, normal);
        let ghost green = choose|sample: Scalar|
            #[trigger] normal.ensures((Scalar { bits: COLOR_MUTATION_MEAN_BITS }, variance), sample) && g
                == wrapped(self.g, color_step(sample));
        let b = Self::mutate_channel(self.b, variance, normal);
        let ghost blue = choose|sample: Scalar|
            #[trigger] normal.ensures((Scalar { bits: COLOR_MUTATION_MEAN_BITS }, variance), sample) && b
                == wrapped(self.b, color_step(sample));
        assert(color_draws(normal, mul_add, strength, variance, red, green, blue));
        self.r = r;
        self.g = g;
        self.b = b;
    }
}

/// `variance` is what `mul_add` returned for the variance of a colour mutation
/// of the given strength, and the three samples are what `normal` returned
/// for it.
pub open spec fn color_draws<N: Fn(Scalar, Scalar) -> Scalar, M: Fn(Scalar, Scalar, Scalar) -> Scalar>(
    normal: &N,
    mul_add: &M,
    strength: Scalar,
    variance: Scalar,
    red: Scalar,
    green: Scalar,
    blue: Scalar,
) -> bool {
    &&& mul_add.ensures((Scalar { bits: COLOR_MUTATION_VARIATION_BITS }, strength, Scalar::zero()), variance)
    &&& normal.ensures((Scalar { bits: COLOR_MUTATION_MEAN_BITS }, variance), red)
    &&& normal.ensures((Scalar { bits: COLOR_MUTATION_MEAN_BITS }, variance), green)
    &&& normal.ensures((Scalar { bits: COLOR_MUTATION_MEAN_BITS }, variance), blue)
}

/// Everything that an organism inherits.
#[derive(Debug)]
pub struct Genome {
    pub brain: BrainGene,
    pub color: ColorGene,
}

impl Genome {
    /// `self` is what a mutation at strength [`MUTATION_STRENGTH_BITS`] makes
    /// of `parent`: the brain keeps its shape and has every weight and bias
    /// perturbed, and every colour channel has moved by its own step.
    pub open spec fn descends_from<N: Fn(Scalar, Scalar) -> Scalar, M: Fn(Scalar, Scalar, Scalar) -> Scalar>(
        self,
        parent: Genome,
        normal: &N,
        mul_add: &M,
    ) -> bool {
        &&& exists|variance: Scalar|
            #[trigger] mul_add.ensures(
                (
                    Scalar { bits: WEIGHT_MUTATION_VARIANCE_BITS },
                    Scalar { bits: MUTATION_STRENGTH_BITS },
                    Scalar::zero(),
                ),
                variance,
            ) && self.brain@.mutated_from(parent.brain@, normal, mul_add, variance)
        &&& exists|variance: Scalar, red: Scalar, green: Scalar, blue: Scalar|
            {
                &&& #[trigger] color_draws(
                    normal,
                    mul_add,
                    Scalar { bits: MUTATION_STRENGTH_BITS },
                    variance,
                    red,
                    green,
                    blue,
                )
                &&& self.color.r == wrapped(parent.color.r, color_step(red))
                &&& self.color.g == wrapped(parent.color.g, color_step(green))
                &&& self.color.b == wrapped(parent.color.b, color_step(blue))
            }
    }

    /// A genome with a random brain and a random colour. Fails exactly when
    /// the brain cannot be made.
    pub fn random<N: Fn(Scalar, Scalar) -> Scalar>(rng: &mut ThreadRng, config: &GeneConfig, normal: &N) -> (made:
        Result<Genome, BrainError>)
        requires
            total2(normal),
        ensures
            made is Ok <==> config.input_width >= 1 && config.output_width >= 1,
            exists|draws: Seq<Scalar>|
                #[trigger] shape_draws(normal, draws) && match made {
                    Ok(genome) => {
                        &&& genome.brain@.well_formed()
                        &&& genome.brain@.shape == drawn_shape(config.input_width, config.output_width, draws)
                        &&& genome.brain@.drawn_from(normal, Scalar::zero(), config.weight_variance)
                        &&& genome.color.r < CHANNEL_LIMIT
                        &&& genome.color.g < CHANNEL_LIMIT
                        &&& genome.color.b < CHANNEL_LIMIT
                    },
                    Err(BrainError::DegenerateGenome { layer }) => first_defect(
                        drawn_shape(config.input_width, config.output_width, draws),
                        layer as int,
                    ),
                    Err(_) => false,
                },
    {
        match BrainGene::random(config, normal) {
            Ok(brain) => {
                let color = ColorGene::random(rng);
                Ok(Genome { brain, color })
            },
            Err(e) => Err(e),
        }
    }

    /// Mutates brain and colour at strength [`MUTATION_STRENGTH_BITS`].
    pub fn mutate<N: Fn(Scalar, Scalar) -> Scalar, M: Fn(Scalar, Scalar, Scalar) -> Scalar>(
        &mut self,
        normal: &N,
        mul_add: &M,
    )
        requires
            total2(normal),
            total3(mul_add),
        ensures
            final(self).brain@.well_formed(),
            final(self).descends_from(*old(self), normal, mul_add),
    {
        self.brain.mutate(Scalar::from_bits(MUTATION_STRENGTH_BITS), normal, mul_add);
        self.color.mutate(Scalar::from_bits(MUTATION_STRENGTH_BITS), normal, mul_add);
    }

    /// The genome of a child: a copy of this one, mutated. This genome itself
    /// is only read.
    pub fn offspring<N: Fn(Scalar, Scalar) -> Scalar, M: Fn(Scalar, Scalar, Scalar) -> Scalar>(
        &self,
        normal: &N,
        mul_add: &M,
    ) -> (child: Genome)
        requires
            total2(normal),
            total3(mul_add),
        ensures
            child.brain@.well_formed(),
            child.descends_from(*self, normal, mul_add),
    {
        let mut child = self.clone();
        child.mutate(normal, mul_add);
        child
    }
}

impl Clone for Genome {
    /// A genome with its own copy of every weight and bias.
    fn clone(&self) -> (copy: Self)
        ensures
            copy.brain@ == self.brain@,
            copy.color == self.color,
    {
        Genome { brain: self.brain.clone(), color: self.color }
    }
}

} // verus!

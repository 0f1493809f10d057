//! One trainable layer, as the shapes of its buffers.
//!
//! The numbers of a layer live with the caller. What is kept here is the shape
//! of each buffer and the rule by which each pass gives the next shape, so that
//! a pass whose arrays cannot be combined is refused before it is run.

use crate::dataset::{labels_valid, NUM_CLASSES};
use crate::grid::{grid_get, grid_ncols, grid_set, grid_zeros, shape_fits, ByteGrid};
use crate::shape::{Shape, ShapeMismatch};
use vstd::prelude::*;

verus! {

/// The shapes of the buffers of one layer.
#[derive(Clone, Copy, Debug, PartialEq, Eq, Structural)]
pub struct Layer {
    /// The affine output, before the activation.
    pub preactivation: Shape,
    /// The output after the activation.
    pub layer: Shape,
    /// The gradient of the loss with respect to the affine output.
    pub d_activation: Shape,
    /// The weights, one row per node.
    pub weights: Shape,
    /// The gradient of the weights.
    pub d_weights: Shape,
    /// The biases, one per node, as a column.
    pub biases: Shape,
    /// The gradient of the biases.
    pub d_biases: Shape,
    /// The number of samples of a pass.
    pub samples: usize,
}

/// A layer under an activation: what applying the activation and what taking
/// the gradient back through it do to the layer's shapes.
pub trait ActivationLayer: Sized {
    /// The unit once the activation has been applied to the affine output.
    spec fn spec_activate(self) -> Self;

    /// The unit once the gradient has been taken against `previous_layer`,
    /// where the shapes allow that.
    spec fn spec_deactivate(self, previous_layer: Layer) -> Option<Self>;

    /// Applies the activation to the affine output.
    fn activate(&mut self)
        ensures
            *final(self) == old(self).spec_activate(),
    ;

    /// Takes the gradient of the activation against `previous_layer`.
    /// Refused, with nothing changed, where the shapes do not allow it.
    fn deactivate(&mut self, previous_layer: &Layer) -> (r: Result<(), ShapeMismatch>)
        ensures
            r is Ok <==> old(self).spec_deactivate(*previous_layer) is Some,
            r is Ok ==> Some(*final(self)) == old(self).spec_deactivate(*previous_layer),
            r is Err ==> *final(self) == *old(self),
    ;
}

/// One in the row that the label names, zero in every other.
pub open spec fn indicator(label: u8, class: int) -> u8 {
    if label == class {
        1
    } else {
        0
    }
}

/// The shape of `weights * input + biases`, the biases broadcast.
pub open spec fn spec_affine(weights: Shape, input: Shape, biases: Shape) -> Option<Shape> {
    match weights.spec_dot(input) {
        Some(product) => product.spec_broadcast(biases),
        None => None,
    }
}

impl Layer {
    /// The layer is laid out for `input` inputs, `nodes` outputs and passes
    /// of `samples` samples.
    pub open spec fn configured(&self, input: usize, nodes: usize, samples: usize) -> bool {
        &&& self.preactivation == (Shape { rows: nodes, cols: samples })
        &&& self.layer == (Shape { rows: nodes, cols: samples })
        &&& self.d_activation == (Shape { rows: nodes, cols: samples })
        &&& self.weights == (Shape { rows: nodes, cols: input })
        &&& self.d_weights == (Shape { rows: nodes, cols: input })
        &&& self.biases == (Shape { rows: nodes, cols: 1 })
        &&& self.d_biases == (Shape { rows: nodes, cols: 1 })
        &&& self.samples == samples
    }

    /// The layer after a forward pass on `previous_layer`, where that pass
    /// can be made.
    pub open spec fn spec_forward(self, previous_layer: Layer) -> Option<Layer> {
        match spec_affine(self.weights, previous_layer.layer, self.biases) {
            Some(preactivation) => Some(Layer { preactivation, ..self }),
            None => None,
        }
    }

    /// The layer after a backward pass against the input `previous_layer`,
    /// where that pass can be made.
    pub open spec fn spec_backward(self, previous_layer: Layer) -> Option<Layer> {
        match self.d_activation.spec_dot(previous_layer.layer.spec_t()) {
            Some(d_weights) => Some(
                Layer { d_weights, d_biases: self.d_activation.spec_row_sums(), ..self },
            ),
            None => None,
        }
    }

    /// Whether the gradients can be subtracted from the parameters, entry
    /// by entry.
    pub open spec fn spec_updatable(self) -> bool {
        self.weights == self.d_weights && self.biases == self.d_biases
    }

    /// A layer of `nodes` nodes over `input` inputs, for passes of `samples`
    /// samples.
    pub fn new_layer(input: usize, nodes: usize, samples: usize) -> (l: Layer)
        ensures
            l.configured(input, nodes, samples),
    {
        Layer {
            preactivation: Shape { rows: nodes, cols: samples },
            layer: Shape { rows: nodes, cols: samples },
            d_activation: Shape { rows: nodes, cols: samples },
            weights: Shape { rows: nodes, cols: input },
            d_weights: Shape { rows: nodes, cols: input },
            biases: Shape { rows: nodes, cols: 1 },
            d_biases: Shape { rows: nodes, cols: 1 },
            samples,
        }
    }

    /// The layer that only carries an output of shape `layer`: every other
    /// buffer is a single cell.
    pub open spec fn spec_dummy(layer: Shape) -> Layer {
        let one = Shape { rows: 1, cols: 1 };
        Layer {
            preactivation: one,
            layer,
            d_activation: one,
            weights: one,
            d_weights: one,
            biases: one,
            d_biases: one,
            samples: 0,
        }
    }

    /// A layer that only carries an output of shape `layer`, to stand where
    /// a layer is asked for: the data before the first layer, the labels
    /// after the last.
    pub fn dummy_layer(layer: Shape) -> (l: Layer)
        ensures
            l == Self::spec_dummy(layer),
    {
        let one = Shape { rows: 1, cols: 1 };
        Layer {
            preactivation: one,
            layer,
            d_activation: one,
            weights: one,
            d_weights: one,
            biases: one,
            d_biases: one,
            samples: 0,
        }
    }

    /// The affine output for the output of `previous_layer`: the weights
    /// times that output, plus the biases on every column. Refused, with
    /// nothing changed, where the shapes do not allow it.
    pub fn forward_prop(&mut self, previous_layer: &Layer) -> (r: Result<(), ShapeMismatch>)
        ensures
            r is Ok <==> old(self).spec_forward(*previous_layer) is Some,
            r is Ok ==> Some(*final(self)) == old(self).spec_forward(*previous_layer),
            r is Err ==> *final(self) == *old(self),
    {
        match self.weights.dot(previous_layer.layer) {
            Some(product) => match product.broadcast(self.biases) {
                Some(preactivation) => {
                    self.preactivation = preactivation;
                    Ok(())
                },
                None => Err(ShapeMismatch),
            },
            None => Err(ShapeMismatch),
        }
    }

    /// The gradients of weights and biases from the gradient of the affine
    /// output and the input `previous_layer`: that gradient times the
    /// transposed input, and its row sums as a column. Refused, with nothing
    /// changed, where the shapes do not allow it.
    pub fn backward_prop(&mut self, previous_layer: &Layer) -> (r: Result<(), ShapeMismatch>)
        ensures
            r is Ok <==> old(self).spec_backward(*previous_layer) is Some,
            r is Ok ==> Some(*final(self)) == old(self).spec_backward(*previous_layer),
            r is Err ==> *final(self) == *old(self),
    {
        match self.d_activation.dot(previous_layer.layer.t()) {
            Some(d_weights) => {
                self.d_weights = d_weights;
                self.d_biases = self.d_activation.row_sums();
                Ok(())
            },
            None => Err(ShapeMismatch),
        }
    }

    /// The descent step subtracts each gradient from its parameter entry by
    /// entry, so the two must have one shape. No shape changes.
    pub fn update_params(&self) -> (r: Result<(), ShapeMismatch>)
        ensures
            r is Ok <==> self.spec_updatable(),
    {
        if self.weights == self.d_weights && self.biases == self.d_biases {
            Ok(())
        } else {
            Err(ShapeMismatch)
        }
    }

    /// The labels as indicator columns: one row per class, one column per
    /// label, a one in the row the label names and zeros elsewhere.
    pub fn one_hot(input: &ByteGrid) -> (out: ByteGrid)
        requires
            input.wf(),
            labels_valid(*input),
            shape_fits(NUM_CLASSES as nat, input.width()),
        ensures
            out.has_shape(NUM_CLASSES as nat, input.width()),
            forall|c: int, j: int|
                0 <= c < NUM_CLASSES && 0 <= j < input.width() ==> out.rows()[c][j] == indicator(
                    input.rows()[0][j],
                    c,
                ),
    {
        let n = grid_ncols(input);
        let mut out = grid_zeros(NUM_CLASSES, n);
        let mut j: usize = 0;
        while j < n
            invariant
                j <= n,
                n == input.width(),
                input.wf(),
                labels_valid(*input),
                out.has_shape(NUM_CLASSES as nat, n as nat),
                forall|c: int, q: int|
                    0 <= c < NUM_CLASSES && 0 <= q < j ==> out.rows()[c][q] == indicator(
                        input.rows()[0][q],
                        c,
                    ),
                forall|c: int, q: int|
                    0 <= c < NUM_CLASSES && j <= q < n ==> out.rows()[c][q] == 0,
            decreases n - j,
        {
            match grid_get(input, 0, j) {
                Some(label) => {
                    grid_set(&mut out, label as usize, j, 1);
                },
                None => {},
            }
            j += 1;
        }
        out
    }
}

/// A layer laid out for `input` inputs, `nodes` outputs and `samples` samples
/// keeps that layout through its passes: on an input of shape `input` by
/// `samples` the forward pass is made and leaves an affine output of `nodes`
/// by `samples`, and the backward pass is made and leaves a weight gradient of
/// `nodes` by `input` and a bias gradient of `nodes` by one.
pub proof fn lemma_layer_keeps_layout(
    layer: Layer,
    previous_layer: Layer,
    input: usize,
    nodes: usize,
    samples: usize,
)
    requires
        layer.configured(input, nodes, samples),
        previous_layer.layer == (Shape { rows: input, cols: samples }),
    ensures
        layer.spec_forward(previous_layer) matches Some(after) && after.preactivation == (Shape {
            rows: nodes,
            cols: samples,
        }) && after.configured(input, nodes, samples),
        layer.spec_backward(previous_layer) matches Some(after) && after.d_weights == (Shape {
            rows: nodes,
            cols: input,
        }) && after.d_biases == (Shape { rows: nodes, cols: 1 }) && after.configured(
            input,
            nodes,
            samples,
        ),
        layer.spec_updatable(),
{
}

} // verus!

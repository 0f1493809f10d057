//! The output unit: a layer under a softmax over each column, as shapes.

use crate::dataset::NUM_CLASSES;
use crate::layer::{ActivationLayer, Layer};
use crate::shape::{Shape, ShapeMismatch};
use vstd::prelude::*;

verus! {

/// A layer whose output columns are turned into class probabilities.
#[derive(Clone, Copy, Debug, PartialEq, Eq, Structural)]
pub struct Softmax {
    pub layer: Layer,
}

impl Softmax {
    /// The unit after a forward pass on `previous_layer`.
    pub open spec fn spec_forward(self, previous_layer: Layer) -> Option<Softmax> {
        match self.layer.spec_forward(previous_layer) {
            Some(layer) => Some((Softmax { layer }).spec_activate()),
            None => None,
        }
    }

    /// The shape of the indicator columns of a row of labels.
    pub open spec fn spec_one_hot(labels: Shape) -> Shape {
        Shape { rows: NUM_CLASSES, cols: labels.cols }
    }

    /// The unit after a backward pass: the gradient against the indicator
    /// columns of the labels `previous_layer`, then the layer's own gradients
    /// against its input `next_layer`.
    pub open spec fn spec_backward(self, previous_layer: Layer, next_layer: Layer) -> Option<
        Softmax,
    > {
        match self.spec_deactivate(
            Layer { layer: Self::spec_one_hot(previous_layer.layer), ..previous_layer },
        ) {
            Some(unit) => match unit.layer.spec_backward(next_layer) {
                Some(layer) => Some(Softmax { layer }),
                None => None,
            },
            None => None,
        }
    }

    /// A softmax layer of `nodes` nodes over `input` inputs, for passes of
    /// `samples` samples.
    pub fn new(input: usize, nodes: usize, samples: usize) -> (unit: Softmax)
        ensures
            unit.layer.configured(input, nodes, samples),
    {
        Softmax { layer: Layer::new_layer(input, nodes, samples) }
    }

    /// The forward pass: the affine output, then the softmax. Refused, with
    /// nothing changed, where the shapes do not allow it.
    pub fn forward_prop(&mut self, previous_layer: &Layer) -> (r: Result<(), ShapeMismatch>)
        ensures
            r is Ok <==> old(self).spec_forward(*previous_layer) is Some,
            r is Ok ==> Some(*final(self)) == old(self).spec_forward(*previous_layer),
            r is Err ==> *final(self) == *old(self),
    {
        match self.layer.forward_prop(previous_layer) {
            Ok(()) => {
                self.activate();
                Ok(())
            },
            Err(e) => Err(e),
        }
    }

    /// The backward pass: the gradient against the indicator columns of the
    /// labels, then the layer's own gradients. Refused, with nothing changed,
    /// where the shapes do not allow it.
    pub fn backward_prop(&mut self, previous_layer: &Layer, next_layer: &Layer) -> (r: Result<
        (),
        ShapeMismatch,
    >)
        ensures
            r is Ok <==> old(self).spec_backward(*previous_layer, *next_layer) is Some,
            r is Ok ==> Some(*final(self)) == old(self).spec_backward(*previous_layer, *next_layer),
            r is Err ==> *final(self) == *old(self),
    {
        let mut unit = *self;
        let mut one_hot = *previous_layer;
        one_hot.layer = Shape { rows: NUM_CLASSES, cols: previous_layer.layer.cols };
        match unit.deactivate(&one_hot) {
            Ok(()) => match unit.layer.backward_prop(next_layer) {
                Ok(()) => {
                    *self = unit;
                    Ok(())
                },
                Err(e) => Err(e),
            },
            Err(e) => Err(e),
        }
    }
}

impl ActivationLayer for Softmax {
    /// The output takes the shape of the affine output: every column is
    /// scaled on its own.
    open spec fn spec_activate(self) -> Softmax {
        Softmax { layer: Layer { layer: self.layer.preactivation, ..self.layer } }
    }

    /// The gradient is the output minus the indicator columns
    /// `previous_layer`.
    open spec fn spec_deactivate(self, previous_layer: Layer) -> Option<Softmax> {
        match self.layer.layer.spec_broadcast(previous_layer.layer) {
            Some(d_activation) => Some(Softmax { layer: Layer { d_activation, ..self.layer } }),
            None => None,
        }
    }

    fn activate(&mut self) {
        self.layer.layer = self.layer.preactivation;
    }

    fn deactivate(&mut self, previous_layer: &Layer) -> (r: Result<(), ShapeMismatch>) {
        match self.layer.layer.broadcast(previous_layer.layer) {
            Some(d_activation) => {
                self.layer.d_activation = d_activation;
                Ok(())
            },
            None => Err(ShapeMismatch),
        }
    }
}

} // verus!

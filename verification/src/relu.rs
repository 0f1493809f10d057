//! The hidden unit: a layer under a rectifier, as shapes.

use crate::layer::{ActivationLayer, Layer};
use crate::shape::{Shape, ShapeMismatch};
use vstd::prelude::*;

verus! {

/// A layer whose output is rectified entry by entry.
#[derive(Clone, Copy, Debug, PartialEq, Eq, Structural)]
pub struct ReLU {
    pub layer: Layer,
}

impl ReLU {
    /// The unit after a forward pass on `previous_layer`.
    pub open spec fn spec_forward(self, previous_layer: Layer) -> Option<ReLU> {
        match self.layer.spec_forward(previous_layer) {
            Some(layer) => Some((ReLU { layer }).spec_activate()),
            None => None,
        }
    }

    /// The unit after a backward pass: the gradient comes back from
    /// `previous_layer`, then the layer's own gradients are taken against its
    /// input `next_layer`.
    pub open spec fn spec_backward(self, previous_layer: Layer, next_layer: Layer) -> Option<ReLU> {
        match self.spec_deactivate(previous_layer) {
            Some(unit) => match unit.layer.spec_backward(next_layer) {
                Some(layer) => Some(ReLU { layer }),
                None => None,
            },
            None => None,
        }
    }

    /// A rectified layer of `nodes` nodes over `input` inputs, for passes of
    /// `samples` samples.
    pub fn new(input: usize, nodes: usize, samples: usize) -> (unit: ReLU)
        ensures
            unit.layer.configured(input, nodes, samples),
    {
        ReLU { layer: Layer::new_layer(input, nodes, samples) }
    }

    /// The shape of the rectifier's slope: that of the output.
    pub fn derivate(&self) -> (r: Shape)
        ensures
            r == self.layer.layer,
    {
        self.layer.layer
    }

    /// The forward pass: the affine output, then the rectifier. Refused, with
    /// nothing changed, where the shapes do not allow it.
    pub fn forward_prop(&mut self, previous_layer: &Layer) -> (r: Result<(), ShapeMismatch>)
        ensures
            r is Ok <==> old(self).spec_forward(*previous_layer) is Some,
            r is Ok ==> Some(*final(self)) == old(self).spec_forward(*previous_layer),
            r is Err ==> *final(self) == *old(self),
    {
        match self.layer.forward_prop(previous_layer) {
            Ok(()) => {
                self.activate();
                Ok(())
            },
            Err(e) => Err(e),
        }
    }

    /// The backward pass: the gradient from the layer that follows, then the
    /// layer's own gradients. Refused, with nothing changed, where the shapes
    /// do not allow it.
    pub fn backward_prop(&mut self, previous_layer: &Layer, next_layer: &Layer) -> (r: Result<
        (),
        ShapeMismatch,
    >)
        ensures
            r is Ok <==> old(self).spec_backward(*previous_layer, *next_layer) is Some,
            r is Ok ==> Some(*final(self)) == old(self).spec_backward(*previous_layer, *next_layer),
            r is Err ==> *final(self) == *old(self),
    {
        let mut unit = *self;
        match unit.deactivate(previous_layer) {
            Ok(()) => match unit.layer.backward_prop(next_layer) {
                Ok(()) => {
                    *self = unit;
                    Ok(())
                },
                Err(e) => Err(e),
            },
            Err(e) => Err(e),
        }
    }
}

impl ActivationLayer for ReLU {
    /// The output takes the shape of the affine output: the rectifier works
    /// entry by entry.
    open spec fn spec_activate(self) -> ReLU {
        ReLU { layer: Layer { layer: self.layer.preactivation, ..self.layer } }
    }

    /// The gradient comes back from `previous_layer`, the layer that follows
    /// in the network: that layer's transposed weights times its gradient,
    /// gated entry by entry by the rectifier's slope.
    open spec fn spec_deactivate(self, previous_layer: Layer) -> Option<ReLU> {
        match previous_layer.weights.spec_t().spec_dot(previous_layer.d_activation) {
            Some(upstream) => match upstream.spec_broadcast(self.layer.layer) {
                Some(d_activation) => Some(ReLU { layer: Layer { d_activation, ..self.layer } }),
                None => None,
            },
            None => None,
        }
    }

    fn activate(&mut self) {
        self.layer.layer = self.layer.preactivation;
    }

    fn deactivate(&mut self, previous_layer: &Layer) -> (r: Result<(), ShapeMismatch>) {
        match previous_layer.weights.t().dot(previous_layer.d_activation) {
            Some(upstream) => match upstream.broadcast(self.derivate()) {
                Some(d_activation) => {
                    self.layer.d_activation = d_activation;
                    Ok(())
                },
                None => Err(ShapeMismatch),
            },
            None => Err(ShapeMismatch),
        }
    }
}

} // verus!

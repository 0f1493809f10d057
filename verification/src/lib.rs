//! Training control for a two-layer digit classifier: the data set and its
//! batches, the wiring of the layers by shape, predictions and accuracy.

pub mod accuracy;
pub mod dataset;
pub mod grid;
pub mod layer;
pub mod model;
pub mod random;
pub mod relu;
pub mod shape;
pub mod softmax;

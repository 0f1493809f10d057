//! The classifier's passes as a state machine.
//!
//! The arithmetic of a pass is the caller's. The model decides what is to be
//! done next, keeps the data set and the tally, and is told when each step is
//! done: it answers every such report with the next step.

use crate::accuracy::{get_predictions, is_argmax, rows_have_len, score_column, Accuracy};
use crate::dataset::{columns_permuted, is_permutation, Dataset, NUM_CLASSES};
use crate::layer::Layer;
use crate::relu::ReLU;
use crate::shape::{Shape, ShapeMismatch};
use crate::softmax::Softmax;
use vstd::prelude::*;

verus! {

/// Which half of the data a pass or a batch selection works on.
#[derive(Clone, Copy, Debug, PartialEq, Eq, Structural)]
pub enum CONFIG {
    TRAIN,
    TEST,
}

/// What the model is waiting for.
#[derive(Clone, Copy, Debug, PartialEq, Eq, Structural)]
pub enum Phase {
    /// No pass is under way.
    Idle,
    /// Training: the forward pass on the current batch.
    Forward,
    /// Training: the backward pass.
    Backward,
    /// Training: the descent step.
    Update,
    /// Training: the tally of the epoch is complete and waits to be read.
    EpochReport,
    /// Evaluation: the forward pass on the current batch.
    EvalForward,
    /// Evaluation: the tally is complete and waits to be read.
    EvaluationReport,
}

/// Why a run was given up.
#[derive(Clone, Copy, Debug, PartialEq, Eq, Structural)]
pub enum Fault {
    /// The scores handed in do not have one row per class and one column per
    /// sample of the batch.
    ShapeMismatch,
    /// A value that is not finite turned up in a buffer.
    NonFinite,
    /// The report does not answer the step that was asked for.
    OutOfTurn,
}

/// What the caller is to do next.
#[derive(Clone, Copy, Debug, PartialEq, Eq, Structural)]
pub enum Action {
    /// Run the forward pass on the current batch of the given half.
    Forward(CONFIG),
    /// Run the backward pass against the labels of the current batch.
    Backward,
    /// Apply the descent step.
    Update,
    /// Read the tally; it is complete.
    Report,
    /// Nothing: the run is over.
    Halt,
    /// Nothing: the run was given up.
    Abort(Fault),
}

/// What the caller reports. `Forwarded` says whether the scores that came with
/// it had the shape of the output.
#[derive(Clone, Copy, Debug, PartialEq, Eq, Structural)]
pub enum Signal {
    Train(usize),
    Test,
    Forwarded(bool),
    Backwarded,
    Updated,
    Reported,
    Unstable,
}

/// Where a run stands: the phase, the epochs still to be finished, this one
/// included, and the index of the current batch in its pass.
#[derive(Clone, Copy, Debug, PartialEq, Eq, Structural)]
pub struct Control {
    pub phase: Phase,
    pub epochs_left: usize,
    pub batch: usize,
}

/// The state between runs.
pub open spec fn idle() -> Control {
    Control { phase: Phase::Idle, epochs_left: 0, batch: 0 }
}

/// The state in which a run is given up, and the answer that says why.
pub open spec fn give_up(fault: Fault) -> (Control, Action) {
    (idle(), Action::Abort(fault))
}

/// The next state and the next step, for a pass of `train_batches` batches
/// over the training half and `test_batches` over the testing half.
///
/// Training runs epoch by epoch; in each, batch by batch, forward, backward
/// and update follow one another, and after the last batch the tally is
/// reported. Evaluation runs the forward pass alone on each batch of the
/// testing half and then reports. A report that is out of turn, scores of the
/// wrong shape and a value that is not finite each end the run.
pub open spec fn transition(c: Control, s: Signal, train_batches: nat, test_batches: nat) -> (
    Control,
    Action,
) {
    match s {
        Signal::Unstable => give_up(Fault::NonFinite),
        Signal::Train(epochs) => if c.phase != Phase::Idle {
            give_up(Fault::OutOfTurn)
        } else if epochs == 0 {
            (idle(), Action::Halt)
        } else {
            (
                Control { phase: Phase::Forward, epochs_left: epochs, batch: 0 },
                Action::Forward(CONFIG::TRAIN),
            )
        },
        Signal::Test => if c.phase != Phase::Idle {
            give_up(Fault::OutOfTurn)
        } else {
            (
                Control { phase: Phase::EvalForward, epochs_left: 0, batch: 0 },
                Action::Forward(CONFIG::TEST),
            )
        },
        Signal::Forwarded(fits) => match c.phase {
            Phase::Forward => if fits {
                (Control { phase: Phase::Backward, ..c }, Action::Backward)
            } else {
                give_up(Fault::ShapeMismatch)
            },
            Phase::EvalForward => if !fits {
                give_up(Fault::ShapeMismatch)
            } else if c.batch + 1 < test_batches {
                (Control { batch: (c.batch + 1) as usize, ..c }, Action::Forward(CONFIG::TEST))
            } else {
                (Control { phase: Phase::EvaluationReport, ..c }, Action::Report)
            },
            _ => give_up(Fault::OutOfTurn),
        },
        Signal::Backwarded => if c.phase == Phase::Backward {
            (Control { phase: Phase::Update, ..c }, Action::Update)
        } else {
            give_up(Fault::OutOfTurn)
        },
        Signal::Updated => if c.phase != Phase::Update {
            give_up(Fault::OutOfTurn)
        } else if c.batch + 1 < train_batches {
            (
                Control { phase: Phase::Forward, batch: (c.batch + 1) as usize, ..c },
                Action::Forward(CONFIG::TRAIN),
            )
        } else {
            (Control { phase: Phase::EpochReport, ..c }, Action::Report)
        },
        Signal::Reported => match c.phase {
            Phase::EpochReport => if c.epochs_left > 1 {
                (
                    Control {
                        phase: Phase::Forward,
                        epochs_left: (c.epochs_left - 1) as usize,
                        batch: 0,
                    },
                    Action::Forward(CONFIG::TRAIN),
                )
            } else {
                (idle(), Action::Halt)
            },
            Phase::EvaluationReport => (idle(), Action::Halt),
            _ => give_up(Fault::OutOfTurn),
        },
    }
}

/// The scores have one row per class and `samples` columns.
pub open spec fn scores_fit(scores: Seq<Vec<u32>>, samples: nat) -> bool {
    scores.len() == NUM_CLASSES && rows_have_len(scores, samples)
}

/// `predictions` assigns every column of `scores` the first row at which it
/// is greatest.
pub open spec fn predicts(predictions: Seq<u8>, scores: Seq<Vec<u32>>, samples: nat) -> bool {
    predictions.len() == samples && forall|j: int|
        0 <= j < samples ==> is_argmax(score_column(scores, j), predictions[j] as int)
}

/// A two-layer classifier over a data set: a rectified hidden layer, a softmax
/// output layer, the tally of the pass under way, and where that pass stands.
pub struct Model {
    /// The samples and the current batches.
    pub dataset: Dataset,
    /// The hidden layer.
    pub hidden_layer: ReLU,
    /// The output layer.
    pub output_layer: Softmax,
    /// The tally of the pass under way, or of the last one.
    pub accuracy: Accuracy,
    /// Where the run stands.
    pub control: Control,
    /// The classes predicted for the current batch.
    pub predictions: Vec<u8>,
}

impl Model {
    /// The width of a batch.
    pub open spec fn width(&self) -> nat {
        self.dataset.slice_range as nat
    }

    /// The number of nodes of the hidden layer.
    pub open spec fn layer_size(&self) -> usize {
        self.hidden_layer.layer.weights.rows
    }

    /// The two layers fit the data and each other: the hidden layer takes a
    /// batch of samples, the output layer takes the hidden layer's output and
    /// has one node per class.
    pub open spec fn wired(&self) -> bool {
        &&& self.dataset.input_dim() <= usize::MAX
        &&& self.hidden_layer.layer.configured(
            self.dataset.input_dim() as usize,
            self.layer_size(),
            self.dataset.slice_range,
        )
        &&& self.output_layer.layer.configured(
            self.layer_size(),
            NUM_CLASSES,
            self.dataset.slice_range,
        )
    }

    /// What holds of the tally, the batch and the predictions in each phase:
    /// the tally counts the samples of the batches that are done, the current
    /// batch is the one the state names, and once the forward pass of a
    /// training batch is done there is a prediction for each of its samples.
    pub open spec fn in_step(&self) -> bool {
        let c = self.control;
        match c.phase {
            Phase::Idle => c == idle(),
            Phase::Forward | Phase::Backward | Phase::Update => {
                &&& c.epochs_left >= 1
                &&& c.batch < self.dataset.batches(CONFIG::TRAIN)
                &&& self.accuracy.samples() == c.batch * self.width()
                &&& self.dataset.holds_batch(CONFIG::TRAIN, c.batch as int)
                &&& c.phase != Phase::Forward ==> self.predictions@.len() == self.width()
            },
            Phase::EpochReport => {
                &&& c.epochs_left >= 1
                &&& c.batch + 1 == self.dataset.batches(CONFIG::TRAIN)
                &&& self.accuracy.samples() == self.dataset.batches(CONFIG::TRAIN) * self.width()
            },
            Phase::EvalForward => {
                &&& c.epochs_left == 0
                &&& c.batch < self.dataset.batches(CONFIG::TEST)
                &&& self.accuracy.samples() == c.batch * self.width()
                &&& self.dataset.holds_batch(CONFIG::TEST, c.batch as int)
            },
            Phase::EvaluationReport => {
                &&& c.epochs_left == 0
                &&& c.batch + 1 == self.dataset.batches(CONFIG::TEST)
                &&& self.accuracy.samples() == self.dataset.batches(CONFIG::TEST) * self.width()
            },
        }
    }

    /// The data set and the tally are sound, the layers fit, and the state
    /// agrees with the tally and the current batch.
    pub open spec fn wf(&self) -> bool {
        &&& self.dataset.wf()
        &&& self.accuracy.wf()
        &&& self.wired()
        &&& self.in_step()
    }

    /// The layers are those of `old`.
    pub open spec fn same_layers(&self, old: &Model) -> bool {
        self.hidden_layer == old.hidden_layer && self.output_layer == old.output_layer
    }

    /// Data set, tally and predictions are those of `old`.
    pub open spec fn same_record(&self, old: &Model) -> bool {
        &&& self.dataset == old.dataset
        &&& self.accuracy == old.accuracy
        &&& self.predictions == old.predictions
    }

    /// An epoch has begun since `old`: the tally is empty, the training
    /// samples have been rearranged, images and labels by one permutation,
    /// and the first batch is current. The testing half is untouched.
    pub open spec fn epoch_begun(&self, old: &Model) -> bool {
        &&& self.accuracy.is_empty()
        &&& exists|p: Seq<int>|
            is_permutation(p) && #[trigger] columns_permuted(
                old.dataset.training_data,
                self.dataset.training_data,
                p,
            ) && columns_permuted(old.dataset.training_labels, self.dataset.training_labels, p)
        &&& self.dataset.testing_data == old.dataset.testing_data
        &&& self.dataset.testing_labels == old.dataset.testing_labels
        &&& self.dataset.same_test_batch(&old.dataset)
        &&& self.dataset.slice_range == old.dataset.slice_range
        &&& self.dataset.holds_batch(CONFIG::TRAIN, 0)
        &&& self.predictions == old.predictions
    }

    /// The next batch of the half `mode` has been made current since `old`;
    /// the samples themselves and the other half's batch are untouched.
    pub open spec fn batch_advanced(&self, old: &Model, mode: CONFIG) -> bool {
        &&& self.dataset.same_samples(&old.dataset)
        &&& self.dataset.holds_batch(mode, self.control.batch as int)
        &&& mode == CONFIG::TRAIN ==> self.dataset.same_test_batch(&old.dataset)
        &&& mode == CONFIG::TEST ==> self.dataset.same_train_batch(&old.dataset)
    }

    /// A classifier over `dataset` with a hidden layer of `layer_size`
    /// nodes. The first training batch is current, the tally is empty, and
    /// no run is under way.
    pub fn new(dataset: Dataset, layer_size: usize) -> (m: Model)
        requires
            dataset.wf(),
        ensures
            m.wf(),
            m.control == idle(),
            m.layer_size() == layer_size,
            m.accuracy.is_empty(),
            m.dataset.same_samples(&dataset),
            m.dataset.same_test_batch(&dataset),
            m.dataset.holds_batch(CONFIG::TRAIN, 0),
            m.predictions@.len() == 0,
    {
        let mut dataset = dataset;
        proof {
            crate::dataset::lemma_whole_batches(dataset.train_len(), dataset.slice_range as nat, 0);
        }
        dataset.set_batch(CONFIG::TRAIN, 0);
        let input = dataset.training_data.nrows();
        let samples = dataset.slice_range;
        Model {
            dataset,
            hidden_layer: ReLU::new(input, layer_size, samples),
            output_layer: Softmax::new(layer_size, NUM_CLASSES, samples),
            accuracy: Accuracy::new(),
            control: Control { phase: Phase::Idle, epochs_left: 0, batch: 0 },
            predictions: Vec::new(),
        }
    }

    /// The shape of the current batch of the half `configuration`.
    pub open spec fn batch_shape(&self, configuration: CONFIG) -> Shape {
        match configuration {
            CONFIG::TRAIN => Shape {
                rows: self.dataset.train_data_slice.height() as usize,
                cols: self.dataset.train_data_slice.width() as usize,
            },
            CONFIG::TEST => Shape {
                rows: self.dataset.test_data_slice.height() as usize,
                cols: self.dataset.test_data_slice.width() as usize,
            },
        }
    }

    /// The shape of the labels of the current training batch.
    pub open spec fn label_shape(&self) -> Shape {
        Shape {
            rows: self.dataset.train_label_slice.height() as usize,
            cols: self.dataset.train_label_slice.width() as usize,
        }
    }

    /// The two layers after a forward pass on the current batch of the half
    /// `configuration`: the hidden layer on the batch, the output layer on
    /// the hidden layer's output.
    pub open spec fn spec_forward_prop(&self, configuration: CONFIG) -> Option<(ReLU, Softmax)> {
        match self.hidden_layer.spec_forward(Layer::spec_dummy(self.batch_shape(configuration))) {
            Some(hidden) => match self.output_layer.spec_forward(hidden.layer) {
                Some(output) => Some((hidden, output)),
                None => None,
            },
            None => None,
        }
    }

    /// The two layers after a backward pass against the current training
    /// batch: the output layer against the labels and the hidden layer's
    /// output, then the hidden layer against the output layer and the batch.
    pub open spec fn spec_backward_prop(&self) -> Option<(ReLU, Softmax)> {
        match self.output_layer.spec_backward(
            Layer::spec_dummy(self.label_shape()),
            self.hidden_layer.layer,
        ) {
            Some(output) => match self.hidden_layer.spec_backward(
                output.layer,
                Layer::spec_dummy(self.batch_shape(CONFIG::TRAIN)),
            ) {
                Some(hidden) => Some((hidden, output)),
                None => None,
            },
            None => None,
        }
    }

    fn batch_layer(&self, configuration: CONFIG) -> (l: Layer)
        ensures
            l == Layer::spec_dummy(self.batch_shape(configuration)),
    {
        match configuration {
            CONFIG::TRAIN => Layer::dummy_layer(
                Shape::new(
                    self.dataset.train_data_slice.nrows(),
                    self.dataset.train_data_slice.ncols(),
                ),
            ),
            CONFIG::TEST => Layer::dummy_layer(
                Shape::new(
                    self.dataset.test_data_slice.nrows(),
                    self.dataset.test_data_slice.ncols(),
                ),
            ),
        }
    }

    /// The forward pass through both layers on the current batch of the half
    /// `configuration`, by shape. Refused, with nothing changed, where the
    /// shapes do not allow it.
    pub fn forward_prop(&mut self, configuration: CONFIG) -> (r: Result<(), ShapeMismatch>)
        ensures
            r is Ok <==> old(self).spec_forward_prop(configuration) is Some,
            r is Ok ==> old(self).spec_forward_prop(configuration) == Some(
                (final(self).hidden_layer, final(self).output_layer),
            ),
            r is Err ==> final(self).same_layers(old(self)),
            final(self).same_record(old(self)),
            final(self).control == old(self).control,
    {
        let data = self.batch_layer(configuration);
        let mut hidden = self.hidden_layer;
        let mut output = self.output_layer;
        match hidden.forward_prop(&data) {
            Ok(()) => match output.forward_prop(&hidden.layer) {
                Ok(()) => {
                    self.hidden_layer = hidden;
                    self.output_layer = output;
                    Ok(())
                },
                Err(e) => Err(e),
            },
            Err(e) => Err(e),
        }
    }

    /// The backward pass through both layers against the current training
    /// batch, by shape. Refused, with nothing changed, where the shapes do
    /// not allow it.
    pub fn backward_prop(&mut self) -> (r: Result<(), ShapeMismatch>)
        ensures
            r is Ok <==> old(self).spec_backward_prop() is Some,
            r is Ok ==> old(self).spec_backward_prop() == Some(
                (final(self).hidden_layer, final(self).output_layer),
            ),
            r is Err ==> final(self).same_layers(old(self)),
            final(self).same_record(old(self)),
            final(self).control == old(self).control,
    {
        let data = self.batch_layer(CONFIG::TRAIN);
        let labels = Layer::dummy_layer(
            Shape::new(
                self.dataset.train_label_slice.nrows(),
                self.dataset.train_label_slice.ncols(),
            ),
        );
        let mut hidden = self.hidden_layer;
        let mut output = self.output_layer;
        match output.backward_prop(&labels, &hidden.layer) {
            Ok(()) => match hidden.backward_prop(&output.layer, &data) {
                Ok(()) => {
                    self.hidden_layer = hidden;
                    self.output_layer = output;
                    Ok(())
                },
                Err(e) => Err(e),
            },
            Err(e) => Err(e),
        }
    }

    /// Whether the descent step can be applied to both layers.
    pub fn update_params(&self) -> (r: Result<(), ShapeMismatch>)
        ensures
            r is Ok <==> self.output_layer.layer.spec_updatable()
                && self.hidden_layer.layer.spec_updatable(),
    {
        match self.output_layer.layer.update_params() {
            Ok(()) => self.hidden_layer.layer.update_params(),
            Err(e) => Err(e),
        }
    }

    /// The samples predicted right and the samples seen in the pass so far.
    pub fn get_accuracy(&self) -> (r: (usize, usize))
        requires
            self.wf(),
        ensures
            r.0 == self.accuracy.hits(),
            r.1 == self.accuracy.samples(),
            r.0 <= r.1,
    {
        self.accuracy.get_accuracy()
    }

    /// Gives the run up.
    fn abort(&mut self, fault: Fault) -> (action: Action)
        requires
            old(self).dataset.wf(),
            old(self).accuracy.wf(),
            old(self).wired(),
        ensures
            final(self).wf(),
            (final(self).control, action) == give_up(fault),
            final(self).same_layers(old(self)),
            final(self).same_record(old(self)),
    {
        self.control = Control { phase: Phase::Idle, epochs_left: 0, batch: 0 };
        Action::Abort(fault)
    }

    /// Empties the tally, rearranges the training samples and makes the
    /// first batch current.
    fn begin_epoch(&mut self, epochs: usize) -> (action: Action)
        requires
            old(self).dataset.wf(),
            old(self).accuracy.wf(),
            old(self).wired(),
            epochs >= 1,
        ensures
            final(self).wf(),
            final(self).control == (Control {
                phase: Phase::Forward,
                epochs_left: epochs,
                batch: 0,
            }),
            action == Action::Forward(CONFIG::TRAIN),
            final(self).same_layers(old(self)),
            final(self).epoch_begun(old(self)),
            final(self).predictions == old(self).predictions,
    {
        self.accuracy = Accuracy::new();
        self.dataset.shuffle();
        proof {
            crate::dataset::lemma_whole_batches(
                self.dataset.train_len(),
                self.dataset.slice_range as nat,
                0,
            );
        }
        self.dataset.set_batch(CONFIG::TRAIN, 0);
        self.control = Control { phase: Phase::Forward, epochs_left: epochs, batch: 0 };
        Action::Forward(CONFIG::TRAIN)
    }

    /// Starts a training run of `epochs` epochs.
    ///
    /// Where no run is under way and `epochs` is not zero, the first epoch
    /// begins and the forward pass on its first batch is asked for.
    pub fn train(&mut self, epochs: usize) -> (action: Action)
        requires
            old(self).wf(),
        ensures
            final(self).wf(),
            (final(self).control, action) == transition(
                old(self).control,
                Signal::Train(epochs),
                old(self).dataset.batches(CONFIG::TRAIN),
                old(self).dataset.batches(CONFIG::TEST),
            ),
            final(self).same_layers(old(self)),
            action == Action::Forward(CONFIG::TRAIN) ==> final(self).epoch_begun(old(self)),
            action != Action::Forward(CONFIG::TRAIN) ==> final(self).same_record(old(self)),
    {
        if self.control.phase != Phase::Idle {
            self.abort(Fault::OutOfTurn)
        } else if epochs == 0 {
            Action::Halt
        } else {
            self.begin_epoch(epochs)
        }
    }

    /// Starts an evaluation pass over the testing half.
    ///
    /// Where no run is under way, the tally is emptied, the first testing
    /// batch is made current and the forward pass on it is asked for.
    pub fn test(&mut self) -> (action: Action)
        requires
            old(self).wf(),
        ensures
            final(self).wf(),
            (final(self).control, action) == transition(
                old(self).control,
                Signal::Test,
                old(self).dataset.batches(CONFIG::TRAIN),
                old(self).dataset.batches(CONFIG::TEST),
            ),
            final(self).same_layers(old(self)),
            action == Action::Forward(CONFIG::TEST) ==> {
                &&& final(self).accuracy.is_empty()
                &&& final(self).batch_advanced(old(self), CONFIG::TEST)
                &&& final(self).predictions == old(self).predictions
            },
            action != Action::Forward(CONFIG::TEST) ==> final(self).same_record(old(self)),
    {
        if self.control.phase != Phase::Idle {
            self.abort(Fault::OutOfTurn)
        } else {
            self.accuracy = Accuracy::new();
            proof {
                crate::dataset::lemma_whole_batches(
                    self.dataset.test_len(),
                    self.dataset.slice_range as nat,
                    0,
                );
            }
            self.dataset.set_batch(CONFIG::TEST, 0);
            self.control = Control { phase: Phase::EvalForward, epochs_left: 0, batch: 0 };
            Action::Forward(CONFIG::TEST)
        }
    }

    /// Whether `scores` has one row per class and one column per sample of
    /// a batch.
    pub fn accepts(&self, scores: &Vec<Vec<u32>>) -> (fits: bool)
        ensures
            fits == scores_fit(scores@, self.width()),
    {
        if scores.len() != NUM_CLASSES {
            return false;
        }
        let mut i: usize = 0;
        while i < scores.len()
            invariant
                i <= scores.len(),
                forall|q: int| 0 <= q < i ==> (#[trigger] scores@[q])@.len() == self.width(),
            decreases scores.len() - i,
        {
            if scores[i].len() != self.dataset.slice_range {
                return false;
            }
            i += 1;
        }
        true
    }

    /// Adds the current batch of the half `mode`, as predicted, to the tally.
    fn tally_batch(&mut self, mode: CONFIG)
        requires
            old(self).dataset.wf(),
            old(self).accuracy.wf(),
            old(self).predictions@.len() == old(self).width(),
            old(self).accuracy.samples() + old(self).width() <= usize::MAX,
        ensures
            final(self).accuracy.wf(),
            final(self).accuracy.extends(
                &old(self).accuracy,
                old(self).predictions@,
                old(self).batch_labels(mode),
            ),
            final(self).accuracy.samples() == old(self).accuracy.samples() + old(self).width(),
            final(self).dataset == old(self).dataset,
            final(self).predictions == old(self).predictions,
            final(self).control == old(self).control,
            final(self).same_layers(old(self)),
    {
        let truth = match mode {
            CONFIG::TRAIN => self.dataset.train_label_slice.row(0),
            CONFIG::TEST => self.dataset.test_label_slice.row(0),
        };
        self.accuracy.set_accuracy(&self.predictions, &truth);
    }

    /// The labels of the current batch of the half `mode`.
    pub open spec fn batch_labels(&self, mode: CONFIG) -> Seq<u8> {
        match mode {
            CONFIG::TRAIN => self.dataset.train_label_slice.rows()[0],
            CONFIG::TEST => self.dataset.test_label_slice.rows()[0],
        }
    }

    /// Reports that the forward pass is done, with the score of each class
    /// for each sample of the batch: one row per class, one column per
    /// sample, a larger score for a more probable class.
    ///
    /// The predictions of the batch are taken from the scores. In training
    /// the backward pass is asked for. In evaluation the batch is added to
    /// the tally, and the next batch is made current or, after the last, the
    /// report is asked for.
    pub fn forwarded(&mut self, scores: &Vec<Vec<u32>>) -> (action: Action)
        requires
            old(self).wf(),
        ensures
            final(self).wf(),
            (final(self).control, action) == transition(
                old(self).control,
                Signal::Forwarded(scores_fit(scores@, old(self).width())),
                old(self).dataset.batches(CONFIG::TRAIN),
                old(self).dataset.batches(CONFIG::TEST),
            ),
            final(self).same_layers(old(self)),
            action is Abort ==> final(self).same_record(old(self)),
            !(action is Abort) ==> predicts(final(self).predictions@, scores@, old(self).width()),
            action == Action::Backward ==> {
                &&& final(self).dataset == old(self).dataset
                &&& final(self).accuracy == old(self).accuracy
            },
            action == Action::Forward(CONFIG::TEST) || action == Action::Report ==> final(
                self
            ).accuracy.extends(
                &old(self).accuracy,
                final(self).predictions@,
                old(self).batch_labels(CONFIG::TEST),
            ),
            action == Action::Forward(CONFIG::TEST) ==> final(self).batch_advanced(
                old(self),
                CONFIG::TEST,
            ),
            action == Action::Report ==> final(self).dataset == old(self).dataset,
    {
        let phase = self.control.phase;
        if phase != Phase::Forward && phase != Phase::EvalForward {
            return self.abort(Fault::OutOfTurn);
        }
        if !self.accepts(scores) {
            return self.abort(Fault::ShapeMismatch);
        }
        self.predictions = get_predictions(scores);
        if phase == Phase::Forward {
            self.control.phase = Phase::Backward;
            return Action::Backward;
        }
        let batches = self.dataset.batch_count(CONFIG::TEST);
        let batch = self.control.batch;
        proof {
            crate::dataset::lemma_whole_batches(
                self.dataset.test_len(),
                self.width(),
                batch as nat,
            );
            lemma_next_batch(batch as nat, self.width());
        }
        self.tally_batch(CONFIG::TEST);
        if batch + 1 < batches {
            self.dataset.set_batch(CONFIG::TEST, batch + 1);
            self.control.batch = batch + 1;
            Action::Forward(CONFIG::TEST)
        } else {
            self.control.phase = Phase::EvaluationReport;
            Action::Report
        }
    }

    /// Reports that the backward pass is done: the descent step is asked for.
    pub fn backwarded(&mut self) -> (action: Action)
        requires
            old(self).wf(),
        ensures
            final(self).wf(),
            (final(self).control, action) == transition(
                old(self).control,
                Signal::Backwarded,
                old(self).dataset.batches(CONFIG::TRAIN),
                old(self).dataset.batches(CONFIG::TEST),
            ),
            final(self).same_layers(old(self)),
            final(self).same_record(old(self)),
    {
        if self.control.phase != Phase::Backward {
            self.abort(Fault::OutOfTurn)
        } else {
            self.control.phase = Phase::Update;
            Action::Update
        }
    }

    /// Reports that the descent step is done. The batch is added to the
    /// tally as it was predicted, and the next batch is made current or,
    /// after the last, the report of the epoch is asked for.
    pub fn updated(&mut self) -> (action: Action)
        requires
            old(self).wf(),
        ensures
            final(self).wf(),
            (final(self).control, action) == transition(
                old(self).control,
                Signal::Updated,
                old(self).dataset.batches(CONFIG::TRAIN),
                old(self).dataset.batches(CONFIG::TEST),
            ),
            final(self).same_layers(old(self)),
            final(self).predictions == old(self).predictions,
            action is Abort ==> final(self).same_record(old(self)),
            !(action is Abort) ==> final(self).accuracy.extends(
                &old(self).accuracy,
                old(self).predictions@,
                old(self).batch_labels(CONFIG::TRAIN),
            ),
            action == Action::Forward(CONFIG::TRAIN) ==> final(self).batch_advanced(
                old(self),
                CONFIG::TRAIN,
            ),
            action == Action::Report ==> final(self).dataset == old(self).dataset,
    {
        if self.control.phase != Phase::Update {
            return self.abort(Fault::OutOfTurn);
        }
        let batches = self.dataset.batch_count(CONFIG::TRAIN);
        let batch = self.control.batch;
        proof {
            crate::dataset::lemma_whole_batches(
                self.dataset.train_len(),
                self.width(),
                batch as nat,
            );
            lemma_next_batch(batch as nat, self.width());
        }
        self.tally_batch(CONFIG::TRAIN);
        if batch + 1 < batches {
            self.dataset.set_batch(CONFIG::TRAIN, batch + 1);
            self.control.phase = Phase::Forward;
            self.control.batch = batch + 1;
            Action::Forward(CONFIG::TRAIN)
        } else {
            self.control.phase = Phase::EpochReport;
            Action::Report
        }
    }

    /// Reports that the tally has been read. After an epoch the next epoch
    /// begins, if one is left; otherwise the run is over.
    pub fn reported(&mut self) -> (action: Action)
        requires
            old(self).wf(),
        ensures
            final(self).wf(),
            (final(self).control, action) == transition(
                old(self).control,
                Signal::Reported,
                old(self).dataset.batches(CONFIG::TRAIN),
                old(self).dataset.batches(CONFIG::TEST),
            ),
            final(self).same_layers(old(self)),
            action == Action::Forward(CONFIG::TRAIN) ==> final(self).epoch_begun(old(self)),
            action != Action::Forward(CONFIG::TRAIN) ==> final(self).same_record(old(self)),
    {
        match self.control.phase {
            Phase::EpochReport => {
                let left = self.control.epochs_left;
                if left > 1 {
                    self.begin_epoch(left - 1)
                } else {
                    self.control = Control { phase: Phase::Idle, epochs_left: 0, batch: 0 };
                    Action::Halt
                }
            },
            Phase::EvaluationReport => {
                self.control = Control { phase: Phase::Idle, epochs_left: 0, batch: 0 };
                Action::Halt
            },
            _ => self.abort(Fault::OutOfTurn),
        }
    }

    /// Reports that a value which is not finite was found in a buffer: the
    /// run is given up, whatever it was at.
    pub fn unstable(&mut self) -> (action: Action)
        requires
            old(self).wf(),
        ensures
            final(self).wf(),
            (final(self).control, action) == transition(
                old(self).control,
                Signal::Unstable,
                old(self).dataset.batches(CONFIG::TRAIN),
                old(self).dataset.batches(CONFIG::TEST),
            ),
            final(self).same_layers(old(self)),
            final(self).same_record(old(self)),
    {
        self.abort(Fault::NonFinite)
    }
}

/// In a model whose layers fit, every pass can be made and leaves every
/// shape as it was: the hidden layer's output has one row per node and the
/// output layer's one row per class, each with one column per sample of a
/// batch, and every gradient has the shape of its parameter.
pub proof fn lemma_wired_model_keeps_layout(m: Model, configuration: CONFIG)
    requires
        m.dataset.wf(),
        m.wired(),
    ensures
        m.spec_forward_prop(configuration) == Some((m.hidden_layer, m.output_layer)),
        m.spec_backward_prop() == Some((m.hidden_layer, m.output_layer)),
        m.hidden_layer.layer.spec_updatable(),
        m.output_layer.layer.spec_updatable(),
        m.output_layer.layer.layer == (Shape { rows: NUM_CLASSES, cols: m.dataset.slice_range }),
{
}

proof fn lemma_next_batch(k: nat, w: nat)
    ensures
        (k + 1) * w == k * w + w,
        0 * w == 0,
{
    assert((k + 1) * w == k * w + w) by (nonlinear_arith);
}

} // verus!

use mnist_recognition::dataset::Dataset;
use mnist_recognition::model::{Action, Control, Fault, Model, Phase, CONFIG};
use mnist_recognition::shape::Shape;

// Four training samples of two cells with labels 0, 1, 0, 1; four testing
// samples with labels 1, 0, 3, 9.
fn small_model(slice_range: usize, layer_size: usize) -> Model {
    let dataset = Dataset::new(
        &vec![10, 11, 20, 21, 30, 31, 40, 41],
        &vec![0, 1, 0, 1],
        &vec![50, 51, 60, 61, 70, 71, 80, 81],
        &vec![1, 0, 3, 9],
        4,
        4,
        2,
        slice_range,
        3,
    )
    .unwrap();
    Model::new(dataset, layer_size)
}

// Scores under which every sample is given the class `class`.
fn scores_for(class: usize, samples: usize) -> Vec<Vec<u32>> {
    (0..10).map(|c| vec![if c == class { 7 } else { 2 }; samples]).collect()
}

// Scores under which every sample is given its label.
fn scores_matching(labels: &[u8]) -> Vec<Vec<u32>> {
    (0..10u8).map(|c| labels.iter().map(|&l| if l == c { 9 } else { 1 }).collect()).collect()
}

fn idle() -> Control {
    Control { phase: Phase::Idle, epochs_left: 0, batch: 0 }
}

#[test]
fn a_new_model_is_idle_with_the_first_batch_current() {
    let m = small_model(2, 3);
    assert_eq!(m.control, idle());
    assert_eq!(m.get_accuracy(), (0, 0));
    assert_eq!(m.dataset.train_data_slice.row(0), vec![10, 20]);
    assert_eq!(m.dataset.train_label_slice.row(0), vec![0, 1]);
    assert_eq!(m.hidden_layer.layer.weights, Shape::new(3, 2));
    assert_eq!(m.hidden_layer.layer.layer, Shape::new(3, 2));
    assert_eq!(m.output_layer.layer.weights, Shape::new(10, 3));
    assert_eq!(m.output_layer.layer.layer, Shape::new(10, 2));
}

#[test]
fn the_layers_of_a_model_fit() {
    let mut m = small_model(4, 3);
    assert_eq!(m.forward_prop(CONFIG::TRAIN), Ok(()));
    assert_eq!(m.forward_prop(CONFIG::TEST), Ok(()));
    assert_eq!(m.backward_prop(), Ok(()));
    assert_eq!(m.update_params(), Ok(()));
    assert_eq!(m.output_layer.layer.layer, Shape::new(10, 4));
    assert_eq!(m.output_layer.layer.d_weights, Shape::new(10, 3));
    assert_eq!(m.hidden_layer.layer.d_weights, Shape::new(3, 2));
    assert_eq!(m.hidden_layer.layer.d_biases, Shape::new(3, 1));
}

#[test]
fn mismatched_layers_are_refused() {
    let mut m = small_model(4, 3);
    m.output_layer.layer.weights = Shape::new(10, 5);
    let hidden = m.hidden_layer;
    let output = m.output_layer;
    assert!(m.forward_prop(CONFIG::TRAIN).is_err());
    assert_eq!(m.hidden_layer, hidden);
    assert_eq!(m.output_layer, output);
    assert!(m.update_params().is_err());
}

#[test]
fn one_epoch_over_one_batch() {
    let mut m = small_model(4, 3);
    assert_eq!(m.train(1), Action::Forward(CONFIG::TRAIN));
    assert_eq!(m.control, Control { phase: Phase::Forward, epochs_left: 1, batch: 0 });
    assert_eq!(m.dataset.train_data_slice.ncols(), 4);
    // The batch is the whole shuffled set, labels with their images.
    for j in 0..4 {
        assert_eq!(m.dataset.train_data_slice.column_cells(j), m.dataset.training_data.column_cells(j));
        let image = m.dataset.train_data_slice.get(0, j).unwrap();
        let label = if image == 10 || image == 30 { 0 } else { 1 };
        assert_eq!(m.dataset.train_label_slice.get(0, j), Some(label));
    }
    assert_eq!(m.forwarded(&scores_for(0, 4)), Action::Backward);
    assert_eq!(m.predictions, vec![0, 0, 0, 0]);
    assert_eq!(m.get_accuracy(), (0, 0));
    assert_eq!(m.backwarded(), Action::Update);
    assert_eq!(m.updated(), Action::Report);
    assert_eq!(m.control.phase, Phase::EpochReport);
    // Two of the four samples are of class 0.
    assert_eq!(m.get_accuracy(), (2, 4));
    assert_eq!(m.accuracy.class_accuracy(0), Some((2, 2)));
    assert_eq!(m.accuracy.class_accuracy(1), Some((0, 2)));
    assert_eq!(m.reported(), Action::Halt);
    assert_eq!(m.control, idle());
}

#[test]
fn two_epochs_over_two_batches() {
    let mut m = small_model(2, 3);
    let mut action = m.train(2);
    let mut trace: Vec<Action> = vec![action];
    let mut reports: Vec<(usize, usize)> = Vec::new();
    let mut batches_seen: Vec<usize> = Vec::new();
    while action != Action::Halt {
        action = match action {
            Action::Forward(CONFIG::TRAIN) => {
                batches_seen.push(m.control.batch);
                let labels = m.dataset.train_label_slice.row(0);
                m.forwarded(&scores_matching(&labels))
            }
            Action::Backward => m.backwarded(),
            Action::Update => m.updated(),
            Action::Report => {
                reports.push(m.get_accuracy());
                m.reported()
            }
            other => panic!("unexpected {:?}", other),
        };
        trace.push(action);
    }
    let f = Action::Forward(CONFIG::TRAIN);
    let epoch = vec![f, Action::Backward, Action::Update, f, Action::Backward, Action::Update, Action::Report];
    let mut expected = epoch.clone();
    expected.extend(epoch);
    expected.push(Action::Halt);
    assert_eq!(trace, expected);
    assert_eq!(batches_seen, vec![0, 1, 0, 1]);
    // Every sample once per epoch, every prediction right, the tally emptied
    // between the epochs.
    assert_eq!(reports, vec![(4, 4), (4, 4)]);
    assert_eq!(m.control, idle());
}

#[test]
fn batches_of_an_epoch_share_no_sample() {
    let mut m = small_model(1, 3);
    let mut action = m.train(1);
    let mut seen: Vec<u8> = Vec::new();
    while action != Action::Halt {
        action = match action {
            Action::Forward(_) => {
                seen.push(m.dataset.train_data_slice.get(0, 0).unwrap());
                m.forwarded(&scores_for(1, 1))
            }
            Action::Backward => m.backwarded(),
            Action::Update => m.updated(),
            Action::Report => m.reported(),
            other => panic!("unexpected {:?}", other),
        };
    }
    seen.sort();
    assert_eq!(seen, vec![10, 20, 30, 40]);
}

#[test]
fn training_for_no_epochs_does_nothing() {
    let mut m = small_model(2, 3);
    assert_eq!(m.train(0), Action::Halt);
    assert_eq!(m.control, idle());
    assert_eq!(m.dataset.training_data.row(0), vec![10, 20, 30, 40]);
}

#[test]
fn an_evaluation_pass_tallies_every_testing_batch() {
    let mut m = small_model(2, 3);
    assert_eq!(m.test(), Action::Forward(CONFIG::TEST));
    assert_eq!(m.control, Control { phase: Phase::EvalForward, epochs_left: 0, batch: 0 });
    assert_eq!(m.dataset.test_label_slice.row(0), vec![1, 0]);
    // Predict class 1 for both: one is right.
    assert_eq!(m.forwarded(&scores_for(1, 2)), Action::Forward(CONFIG::TEST));
    assert_eq!(m.get_accuracy(), (1, 2));
    assert_eq!(m.control.batch, 1);
    assert_eq!(m.dataset.test_label_slice.row(0), vec![3, 9]);
    assert_eq!(m.forwarded(&scores_for(9, 2)), Action::Report);
    assert_eq!(m.control.phase, Phase::EvaluationReport);
    assert_eq!(m.get_accuracy(), (2, 4));
    assert_eq!(m.accuracy.class_accuracy(1), Some((1, 1)));
    assert_eq!(m.accuracy.class_accuracy(0), Some((0, 1)));
    assert_eq!(m.accuracy.class_accuracy(3), Some((0, 1)));
    assert_eq!(m.accuracy.class_accuracy(9), Some((1, 1)));
    assert_eq!(m.reported(), Action::Halt);
    assert_eq!(m.control, idle());
    // The training half was not touched.
    assert_eq!(m.dataset.training_data.row(0), vec![10, 20, 30, 40]);
}

#[test]
fn the_tally_is_emptied_when_a_pass_starts() {
    let mut m = small_model(4, 3);
    assert_eq!(m.test(), Action::Forward(CONFIG::TEST));
    assert_eq!(m.forwarded(&scores_for(1, 4)), Action::Report);
    assert_eq!(m.get_accuracy(), (1, 4));
    assert_eq!(m.reported(), Action::Halt);
    // The tally of the last pass stays readable until the next begins.
    assert_eq!(m.get_accuracy(), (1, 4));
    assert_eq!(m.train(1), Action::Forward(CONFIG::TRAIN));
    assert_eq!(m.get_accuracy(), (0, 0));
}

#[test]
fn scores_of_the_wrong_shape_end_the_run() {
    let mut m = small_model(2, 3);
    assert_eq!(m.train(1), Action::Forward(CONFIG::TRAIN));
    let too_few_classes: Vec<Vec<u32>> = vec![vec![1, 1]; 9];
    assert!(!m.accepts(&too_few_classes));
    assert_eq!(m.forwarded(&too_few_classes), Action::Abort(Fault::ShapeMismatch));
    assert_eq!(m.control, idle());

    assert_eq!(m.train(1), Action::Forward(CONFIG::TRAIN));
    let too_wide: Vec<Vec<u32>> = vec![vec![1, 1, 1]; 10];
    assert!(!m.accepts(&too_wide));
    assert_eq!(m.forwarded(&too_wide), Action::Abort(Fault::ShapeMismatch));
    assert_eq!(m.control, idle());

    assert_eq!(m.test(), Action::Forward(CONFIG::TEST));
    let mut ragged: Vec<Vec<u32>> = vec![vec![1, 1]; 10];
    ragged[9] = vec![1];
    assert!(!m.accepts(&ragged));
    assert_eq!(m.forwarded(&ragged), Action::Abort(Fault::ShapeMismatch));
    assert_eq!(m.control, idle());
    assert!(m.accepts(&scores_for(0, 2)));
}

#[test]
fn reports_out_of_turn_end_the_run() {
    let mut m = small_model(2, 3);
    assert_eq!(m.forwarded(&scores_for(0, 2)), Action::Abort(Fault::OutOfTurn));
    assert_eq!(m.backwarded(), Action::Abort(Fault::OutOfTurn));
    assert_eq!(m.updated(), Action::Abort(Fault::OutOfTurn));
    assert_eq!(m.reported(), Action::Abort(Fault::OutOfTurn));
    assert_eq!(m.control, idle());

    assert_eq!(m.train(3), Action::Forward(CONFIG::TRAIN));
    assert_eq!(m.backwarded(), Action::Abort(Fault::OutOfTurn));
    assert_eq!(m.control, idle());

    assert_eq!(m.train(3), Action::Forward(CONFIG::TRAIN));
    assert_eq!(m.train(1), Action::Abort(Fault::OutOfTurn));
    assert_eq!(m.control, idle());

    assert_eq!(m.train(3), Action::Forward(CONFIG::TRAIN));
    assert_eq!(m.test(), Action::Abort(Fault::OutOfTurn));
    assert_eq!(m.control, idle());

    assert_eq!(m.train(3), Action::Forward(CONFIG::TRAIN));
    assert_eq!(m.forwarded(&scores_for(0, 2)), Action::Backward);
    assert_eq!(m.updated(), Action::Abort(Fault::OutOfTurn));
    assert_eq!(m.control, idle());

    assert_eq!(m.test(), Action::Forward(CONFIG::TEST));
    assert_eq!(m.updated(), Action::Abort(Fault::OutOfTurn));
    assert_eq!(m.control, idle());
}

#[test]
fn a_value_that_is_not_finite_ends_the_run() {
    let mut m = small_model(2, 3);
    assert_eq!(m.train(2), Action::Forward(CONFIG::TRAIN));
    assert_eq!(m.forwarded(&scores_for(0, 2)), Action::Backward);
    assert_eq!(m.unstable(), Action::Abort(Fault::NonFinite));
    assert_eq!(m.control, idle());
    assert_eq!(m.unstable(), Action::Abort(Fault::NonFinite));
    assert_eq!(m.test(), Action::Forward(CONFIG::TEST));
}

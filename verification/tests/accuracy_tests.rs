use mnist_recognition::accuracy::{get_predictions, Accuracy};

#[test]
fn predictions_pick_the_greatest_score_of_each_column() {
    let scores: Vec<Vec<u32>> = vec![vec![1, 9, 0], vec![5, 2, 0], vec![3, 4, 7]];
    assert_eq!(get_predictions(&scores), vec![1, 0, 2]);
}

#[test]
fn predictions_resolve_ties_to_the_lowest_class() {
    let scores: Vec<Vec<u32>> = vec![vec![1, 0, 4], vec![5, 0, 4], vec![5, 0, 2]];
    assert_eq!(get_predictions(&scores), vec![1, 0, 0]);
}

#[test]
fn predictions_of_no_samples_are_empty() {
    let scores: Vec<Vec<u32>> = vec![vec![], vec![]];
    assert_eq!(get_predictions(&scores), Vec::<u8>::new());
}

#[test]
fn predictions_over_a_single_class_are_that_class() {
    let scores: Vec<Vec<u32>> = vec![vec![3, 0, 8]];
    assert_eq!(get_predictions(&scores), vec![0, 0, 0]);
}

#[test]
fn a_new_tally_has_seen_nothing() {
    let tally = Accuracy::new();
    assert_eq!(tally.get_accuracy(), (0, 0));
    for class in 0..10 {
        assert_eq!(tally.class_accuracy(class), Some((0, 0)));
    }
    assert_eq!(tally.class_accuracy(10), None);
}

#[test]
fn accuracy_bookkeeping() {
    let mut tally = Accuracy::new();
    tally.set_accuracy(&vec![0, 1, 2, 1], &vec![0, 1, 1, 1]);
    assert_eq!(tally.class_accuracy(1), Some((2, 3)));
    assert_eq!(tally.class_accuracy(0), Some((1, 1)));
    assert_eq!(tally.class_accuracy(2), Some((0, 0)));
    let (right, seen) = tally.get_accuracy();
    assert_eq!((right, seen), (3, 4));
    assert_eq!(right as f64 / seen as f64, 0.75);
}

#[test]
fn the_tally_adds_up_over_batches() {
    let mut tally = Accuracy::new();
    tally.set_accuracy(&vec![9, 9, 3], &vec![9, 8, 3]);
    tally.set_accuracy(&vec![8, 3], &vec![8, 4]);
    assert_eq!(tally.class_accuracy(9), Some((1, 1)));
    assert_eq!(tally.class_accuracy(8), Some((1, 2)));
    assert_eq!(tally.class_accuracy(3), Some((1, 1)));
    assert_eq!(tally.class_accuracy(4), Some((0, 1)));
    assert_eq!(tally.get_accuracy(), (3, 5));
}

#[test]
fn an_empty_batch_changes_nothing() {
    let mut tally = Accuracy::new();
    tally.set_accuracy(&vec![1], &vec![1]);
    tally.set_accuracy(&vec![], &vec![]);
    assert_eq!(tally.get_accuracy(), (1, 1));
}

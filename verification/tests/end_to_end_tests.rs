use mnist_recognition::dataset::Dataset;
use mnist_recognition::grid::ByteGrid;
use mnist_recognition::layer::Layer;
use mnist_recognition::model::{Action, Model, CONFIG};

// A dense matrix of numbers, row after row, for the arithmetic that the
// library leaves to its caller.
#[derive(Clone, Debug, PartialEq)]
struct Matrix {
    rows: usize,
    cols: usize,
    cells: Vec<f32>,
}

impl Matrix {
    fn from_fn(rows: usize, cols: usize, f: impl Fn(usize, usize) -> f32) -> Matrix {
        let mut cells = Vec::with_capacity(rows * cols);
        for i in 0..rows {
            for j in 0..cols {
                cells.push(f(i, j));
            }
        }
        Matrix { rows, cols, cells }
    }

    fn at(&self, i: usize, j: usize) -> f32 {
        self.cells[i * self.cols + j]
    }

    fn from_grid(grid: &ByteGrid, scale: f32) -> Matrix {
        Matrix::from_fn(grid.nrows(), grid.ncols(), |i, j| grid.get(i, j).unwrap() as f32 / scale)
    }

    fn dot(&self, rhs: &Matrix) -> Matrix {
        assert_eq!(self.cols, rhs.rows);
        Matrix::from_fn(self.rows, rhs.cols, |i, j| {
            (0..self.cols).map(|k| self.at(i, k) * rhs.at(k, j)).sum()
        })
    }

    fn t(&self) -> Matrix {
        Matrix::from_fn(self.cols, self.rows, |i, j| self.at(j, i))
    }
}

struct Dense {
    weights: Matrix,
    biases: Matrix,
    preactivation: Matrix,
    output: Matrix,
    d_activation: Matrix,
    d_weights: Matrix,
    d_biases: Matrix,
}

impl Dense {
    fn new(input: usize, nodes: usize, samples: usize) -> Dense {
        Dense {
            weights: Matrix::from_fn(nodes, input, |i, j| ((i * 7 + j * 3) % 5) as f32 * 0.1 - 0.2),
            biases: Matrix::from_fn(nodes, 1, |_, _| 0.0),
            preactivation: Matrix::from_fn(nodes, samples, |_, _| 0.0),
            output: Matrix::from_fn(nodes, samples, |_, _| 0.0),
            d_activation: Matrix::from_fn(nodes, samples, |_, _| 0.0),
            d_weights: Matrix::from_fn(nodes, input, |_, _| 0.0),
            d_biases: Matrix::from_fn(nodes, 1, |_, _| 0.0),
        }
    }

    fn forward(&mut self, input: &Matrix) {
        let product = self.weights.dot(input);
        self.preactivation =
            Matrix::from_fn(product.rows, product.cols, |i, j| product.at(i, j) + self.biases.at(i, 0));
    }

    fn backward(&mut self, input: &Matrix) {
        let samples = input.cols as f32;
        let product = self.d_activation.dot(&input.t());
        self.d_weights = Matrix::from_fn(product.rows, product.cols, |i, j| product.at(i, j) / samples);
        self.d_biases = Matrix::from_fn(self.d_activation.rows, 1, |i, _| {
            (0..self.d_activation.cols).map(|j| self.d_activation.at(i, j)).sum::<f32>() / samples
        });
    }

    fn update(&mut self, alpha: f32) {
        self.weights = Matrix::from_fn(self.weights.rows, self.weights.cols, |i, j| {
            self.weights.at(i, j) - alpha * self.d_weights.at(i, j)
        });
        self.biases = Matrix::from_fn(self.biases.rows, 1, |i, _| {
            self.biases.at(i, 0) - alpha * self.d_biases.at(i, 0)
        });
    }
}

fn rectify(layer: &mut Dense, leak: f32) {
    let pre = &layer.preactivation;
    layer.output = Matrix::from_fn(pre.rows, pre.cols, |i, j| {
        let x = pre.at(i, j);
        if x > 0.0 {
            x
        } else {
            leak * x
        }
    });
}

fn softmax(layer: &mut Dense) {
    let pre = &layer.preactivation;
    let greatest: Vec<f32> = (0..pre.cols)
        .map(|j| (0..pre.rows).map(|i| pre.at(i, j)).fold(f32::NEG_INFINITY, f32::max))
        .collect();
    let raised = Matrix::from_fn(pre.rows, pre.cols, |i, j| (pre.at(i, j) - greatest[j]).exp());
    let sums: Vec<f32> = (0..pre.cols).map(|j| (0..pre.rows).map(|i| raised.at(i, j)).sum()).collect();
    layer.output = Matrix::from_fn(pre.rows, pre.cols, |i, j| raised.at(i, j) / sums[j]);
}

fn scores(output: &Matrix) -> Vec<Vec<u32>> {
    (0..output.rows)
        .map(|i| {
            (0..output.cols)
                .map(|j| {
                    let p = output.at(i, j);
                    if p > 0.0 {
                        p.to_bits()
                    } else {
                        0
                    }
                })
                .collect()
        })
        .collect()
}

#[test]
fn one_training_epoch_end_to_end() {
    let images: Vec<u8> = vec![200, 10, 20, 220, 180, 30, 5, 250];
    let labels: Vec<u8> = vec![0, 1, 0, 1];
    let dataset = Dataset::new(&images, &labels, &images, &labels, 4, 4, 2, 4, 11).unwrap();
    let mut model = Model::new(dataset, 3);
    let alpha = 0.1f32;
    let leak = 0.01f32;
    let mut hidden = Dense::new(2, 3, 4);
    let mut output = Dense::new(3, 10, 4);
    let hidden_before = hidden.weights.clone();
    let output_before = output.weights.clone();
    let mut input = Matrix::from_fn(2, 4, |_, _| 0.0);

    let mut action = model.train(1);
    let mut steps: Vec<Action> = vec![action];
    let mut reports = 0;
    while action != Action::Halt {
        action = match action {
            Action::Forward(mode) => {
                assert_eq!(mode, CONFIG::TRAIN);
                assert_eq!(model.forward_prop(mode), Ok(()));
                input = Matrix::from_grid(&model.dataset.train_data_slice, 256.0);
                hidden.forward(&input);
                rectify(&mut hidden, leak);
                output.forward(&hidden.output);
                softmax(&mut output);
                assert_eq!((output.output.rows, output.output.cols), (10, 4));
                for j in 0..4 {
                    let sum: f32 = (0..10).map(|i| output.output.at(i, j)).sum();
                    assert!((sum - 1.0).abs() < 1e-5);
                    for i in 0..10 {
                        let p = output.output.at(i, j);
                        assert!(p.is_finite() && (0.0..=1.0).contains(&p));
                    }
                }
                model.forwarded(&scores(&output.output))
            }
            Action::Backward => {
                assert_eq!(model.backward_prop(), Ok(()));
                let marks = Matrix::from_grid(&Layer::one_hot(&model.dataset.train_label_slice), 1.0);
                output.d_activation =
                    Matrix::from_fn(10, 4, |i, j| output.output.at(i, j) - marks.at(i, j));
                output.backward(&hidden.output);
                let upstream = output.weights.t().dot(&output.d_activation);
                hidden.d_activation = Matrix::from_fn(3, 4, |i, j| {
                    upstream.at(i, j) * if hidden.output.at(i, j) > 0.0 { 1.0 } else { leak }
                });
                hidden.backward(&input);
                assert_eq!((output.d_weights.rows, output.d_weights.cols), (10, 3));
                assert_eq!((hidden.d_weights.rows, hidden.d_weights.cols), (3, 2));
                assert_eq!((hidden.d_biases.rows, hidden.d_biases.cols), (3, 1));
                model.backwarded()
            }
            Action::Update => {
                assert_eq!(model.update_params(), Ok(()));
                output.update(alpha);
                hidden.update(alpha);
                model.updated()
            }
            Action::Report => {
                reports += 1;
                let (right, seen) = model.get_accuracy();
                assert_eq!(seen, 4);
                assert!(right <= seen);
                model.reported()
            }
            other => panic!("the run was given up: {:?}", other),
        };
        steps.push(action);
    }
    assert_eq!(
        steps,
        vec![
            Action::Forward(CONFIG::TRAIN),
            Action::Backward,
            Action::Update,
            Action::Report,
            Action::Halt
        ]
    );
    assert_eq!(reports, 1);
    assert_ne!(output.weights, output_before);
    assert_ne!(hidden.weights, hidden_before);
}

#[test]
fn predictions_follow_the_probabilities_handed_over_as_bit_patterns() {
    let dataset = Dataset::new(&vec![1, 2], &vec![3, 4], &vec![1, 2], &vec![3, 4], 2, 2, 1, 2, 0).unwrap();
    let mut model = Model::new(dataset, 3);
    assert_eq!(model.test(), Action::Forward(CONFIG::TEST));
    // Sample 0 is most probably a 3, sample 1 most probably a 7.
    let output = Matrix::from_fn(10, 2, |i, j| match (i, j) {
        (3, 0) => 0.91,
        (7, 1) => 0.55,
        (4, 1) => 0.45,
        (_, 0) => 0.01,
        _ => 0.0,
    });
    assert_eq!(model.forwarded(&scores(&output)), Action::Report);
    assert_eq!(model.predictions, vec![3, 7]);
    assert_eq!(model.get_accuracy(), (1, 2));
}

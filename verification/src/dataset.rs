//! The data set: training and testing samples, their labels, and the batch
//! windows cut from them.

use crate::grid::{
    grid_from_shape_vec, grid_ncols, grid_reversed_axes, grid_slice_columns, grid_zeros,
    shape_fits, ByteGrid,
};
use crate::accuracy::{count_truth, Accuracy};
use crate::model::CONFIG;
use crate::random::{draw_index, seeded_rng};
use rand::rngs::StdRng;
use vstd::prelude::*;

verus! {

/// The number of classes a label can name.
pub const NUM_CLASSES: usize = 10;

/// Why a data set could not be built.
#[derive(Clone, Copy, Debug, PartialEq, Eq, Structural)]
pub enum DatasetError {
    /// A sample count or the sample dimension is zero.
    Empty,
    /// A buffer does not hold exactly the announced number of cells, or the
    /// announced shape is too large to lay out.
    ShapeMismatch,
    /// The batch width is zero, exceeds one of the two sample counts, or is
    /// too large for the indicator columns of a batch to be laid out.
    BatchSize,
    /// A label does not name a class.
    LabelOutOfRange,
}

/// `v` holds the cells of an `n` by `m` array that can be laid out.
pub open spec fn buffer_fits(v: Seq<u8>, n: nat, m: nat) -> bool {
    shape_fits(n, m) && n * m == v.len()
}

/// `g` is `v` read as `n` rows of `m` cells and then transposed: `m` rows, `n`
/// columns, and column `j` is the `j`-th run of `m` cells of `v`.
pub open spec fn holds_transposed(g: ByteGrid, v: Seq<u8>, n: nat, m: nat) -> bool {
    g.has_shape(m, n) && forall|i: int, j: int|
        0 <= i < m && 0 <= j < n ==> g.rows()[i][j] == v[j * m + i]
}

/// Every element of `v` is below `bound`.
pub open spec fn all_below(v: Seq<u8>, bound: int) -> bool {
    forall|j: int| 0 <= j < v.len() ==> v[j] < bound
}

/// Every label of the one-row grid `g` names a class.
pub open spec fn labels_valid(g: ByteGrid) -> bool {
    g.height() == 1 && all_below(g.rows()[0], NUM_CLASSES as int)
}

/// The error that construction answers its arguments with, `None` where it
/// accepts them. The tests are made in this order.
pub open spec fn rejection(
    trn_img: Seq<u8>,
    trn_lbl: Seq<u8>,
    tst_img: Seq<u8>,
    tst_lbl: Seq<u8>,
    n_train: nat,
    n_test: nat,
    input_dim: nat,
    slice_range: nat,
) -> Option<DatasetError> {
    if n_train == 0 || n_test == 0 || input_dim == 0 {
        Some(DatasetError::Empty)
    } else if !(buffer_fits(trn_img, n_train, input_dim) && buffer_fits(trn_lbl, n_train, 1)
        && buffer_fits(tst_img, n_test, input_dim) && buffer_fits(tst_lbl, n_test, 1)) {
        Some(DatasetError::ShapeMismatch)
    } else if slice_range == 0 || slice_range > n_train || slice_range > n_test || !shape_fits(
        NUM_CLASSES as nat,
        slice_range,
    ) {
        Some(DatasetError::BatchSize)
    } else if !(all_below(trn_lbl, NUM_CLASSES as int) && all_below(tst_lbl, NUM_CLASSES as int)) {
        Some(DatasetError::LabelOutOfRange)
    } else {
        None
    }
}

/// `p` maps the indices below its length one to one onto themselves.
pub open spec fn is_permutation(p: Seq<int>) -> bool {
    &&& forall|c: int| 0 <= c < p.len() ==> 0 <= #[trigger] p[c] < p.len()
    &&& forall|c: int, d: int| 0 <= c < d < p.len() ==> p[c] != p[d]
}

/// The permutation of `n` indices that exchanges `i` and `j`.
pub open spec fn transposition(n: nat, i: int, j: int) -> Seq<int> {
    Seq::new(
        n,
        |c: int|
            if c == i {
                j
            } else if c == j {
                i
            } else {
                c
            },
    )
}

/// One pick for each of `n` positions, each from its position to the end.
pub open spec fn picks_valid(picks: Seq<usize>, n: nat) -> bool {
    picks.len() == n && forall|i: int| 0 <= i < n ==> i <= #[trigger] picks[i] < n
}

/// Where the samples come from once the first `k` positions have been
/// exchanged with their picks: entry `c` is the position that the sample now
/// at `c` had at the start.
pub open spec fn shuffled_order(picks: Seq<usize>, k: nat) -> Seq<int>
    decreases k,
{
    if k == 0 || k > picks.len() {
        Seq::new(picks.len(), |c: int| c)
    } else {
        let before = shuffled_order(picks, (k - 1) as nat);
        let exchange = transposition(picks.len(), k - 1, picks[k - 1] as int);
        Seq::new(picks.len(), |c: int| before[exchange[c]])
    }
}

/// Exchanging positions with picks rearranges and neither loses nor doubles a
/// sample.
pub proof fn lemma_shuffled_order_is_permutation(picks: Seq<usize>, k: nat)
    requires
        picks_valid(picks, picks.len()),
        k <= picks.len(),
    ensures
        shuffled_order(picks, k).len() == picks.len(),
        is_permutation(shuffled_order(picks, k)),
    decreases k,
{
    if k > 0 {
        lemma_shuffled_order_is_permutation(picks, (k - 1) as nat);
        let before = shuffled_order(picks, (k - 1) as nat);
        let exchange = transposition(picks.len(), k - 1, picks[k - 1] as int);
        let after = shuffled_order(picks, k);
        assert forall|c: int, d: int| 0 <= c < d < after.len() implies after[c] != after[d] by {
            assert(exchange[c] != exchange[d]);
        }
    }
}

/// Column `c` of `after` is column `p[c]` of `before`, for every column.
pub open spec fn columns_permuted(before: ByteGrid, after: ByteGrid, p: Seq<int>) -> bool {
    &&& after.has_shape(before.height(), before.width())
    &&& p.len() == before.width()
    &&& forall|r: int, c: int|
        0 <= r < before.height() && 0 <= c < before.width() ==> after.rows()[r][c]
            == before.rows()[r][p[c]]
}

/// `part` holds the `w` columns of `full` that start at column `s`.
pub open spec fn is_window(full: ByteGrid, part: ByteGrid, s: int, w: int) -> bool {
    &&& part.has_shape(full.height(), w as nat)
    &&& forall|r: int, c: int|
        0 <= r < full.height() && 0 <= c < w ==> part.rows()[r][c] == full.rows()[r][s + c]
}

/// Where the window of `w` columns lies that is asked for at column `start` of
/// `n`. It begins at `start` if it fits there. If it would run past the last
/// column it is moved back by its width and ends where it would have begun;
/// where that too is impossible it ends at the last column.
pub open spec fn spec_window_start(start: int, w: int, n: int) -> int {
    if start + w <= n {
        start
    } else if start >= w {
        start - w
    } else {
        n - w
    }
}

/// The first column of the window asked for at `start`.
pub fn window_start(start: usize, w: usize, n: usize) -> (s: usize)
    requires
        w <= n,
        start < n,
    ensures
        s == spec_window_start(start as int, w as int, n as int),
        s + w <= n,
{
    if start <= n - w {
        start
    } else if start >= w {
        start - w
    } else {
        n - w
    }
}

fn labels_in_range(v: &Vec<u8>) -> (b: bool)
    ensures
        b == all_below(v@, NUM_CLASSES as int),
{
    let mut j: usize = 0;
    while j < v.len()
        invariant
            j <= v.len(),
            forall|q: int| 0 <= q < j ==> v@[q] < NUM_CLASSES,
        decreases v.len() - j,
    {
        if v[j] >= NUM_CLASSES as u8 {
            return false;
        }
        j += 1;
    }
    true
}

/// The batches that fit into `n` samples end within them.
pub proof fn lemma_whole_batches(n: nat, w: nat, k: nat)
    requires
        0 < w <= n,
    ensures
        n / w >= 1,
        (n / w) * w <= n,
        k < n / w ==> 0 <= k * w && k * w + w <= n,
{
    vstd::arithmetic::div_mod::lemma_fundamental_div_mod(n as int, w as int);
    vstd::arithmetic::div_mod::lemma_mod_bound(n as int, w as int);
    assert(w * (n / w) == (n / w) * w) by (nonlinear_arith);
    assert(n / w >= 1) by (nonlinear_arith)
        requires
            0 < w <= n,
            n == (n / w) * w + n % w,
            0 <= n % w < w,
    ;
    if k < n / w {
        assert(k * w + w <= (n / w) * w) by (nonlinear_arith)
            requires
                k + 1 <= n / w,
                w > 0,
        ;
        assert(0 <= k * w) by (nonlinear_arith)
            requires
                k >= 0,
                w > 0,
        ;
    }
}

/// Batches taken in turn share no column: an earlier one ends before a later
/// one begins.
pub proof fn lemma_batches_apart(w: nat, k: nat, l: nat)
    requires
        k < l,
    ensures
        k * w + w <= l * w,
{
    assert(k * w + w <= l * w) by (nonlinear_arith)
        requires
            k + 1 <= l,
    ;
}

proof fn lemma_batch_fits(n: nat, m: nat, w: nat)
    requires
        shape_fits(n, m),
        n > 0,
        m > 0,
        0 < w <= n,
    ensures
        shape_fits(m, w),
        shape_fits(1, w),
        n <= isize::MAX,
{
    assert(m * w <= n * m) by (nonlinear_arith)
        requires
            w <= n,
    ;
    assert(n <= n * m) by (nonlinear_arith)
        requires
            m >= 1,
    ;
    assert(1 * w == w) by (nonlinear_arith);
}

/// Training and testing samples with their labels, one sample per column, and
/// the current batch of each.
pub struct Dataset {
    /// All training images, one per column.
    pub training_data: ByteGrid,
    /// The training labels, one row, in the order of the images.
    pub training_labels: ByteGrid,
    /// All testing images, one per column.
    pub testing_data: ByteGrid,
    /// The testing labels, one row, in the order of the images.
    pub testing_labels: ByteGrid,
    /// The current training batch.
    pub train_data_slice: ByteGrid,
    /// The labels of the current training batch.
    pub train_label_slice: ByteGrid,
    /// The current testing batch.
    pub test_data_slice: ByteGrid,
    /// The labels of the current testing batch.
    pub test_label_slice: ByteGrid,
    /// The width of a batch.
    pub slice_range: usize,
    /// Where shuffling and batch selection draw their indices from.
    pub rng: StdRng,
}

impl Dataset {
    /// The number of cells of a sample.
    pub open spec fn input_dim(&self) -> nat {
        self.training_data.height()
    }

    /// The number of training samples.
    pub open spec fn train_len(&self) -> nat {
        self.training_data.width()
    }

    /// The number of testing samples.
    pub open spec fn test_len(&self) -> nat {
        self.testing_data.width()
    }

    /// Images and labels agree in number, a batch is no wider than either
    /// sample set, the batch buffers have the batch width, and every label
    /// names a class.
    pub open spec fn wf(&self) -> bool {
        &&& self.input_dim() > 0
        &&& self.training_data.wf()
        &&& self.testing_data.has_shape(self.input_dim(), self.test_len())
        &&& self.training_labels.has_shape(1, self.train_len())
        &&& self.testing_labels.has_shape(1, self.test_len())
        &&& 0 < self.slice_range <= self.train_len() <= isize::MAX
        &&& self.slice_range <= self.test_len() <= isize::MAX
        &&& shape_fits(NUM_CLASSES as nat, self.slice_range as nat)
        &&& self.train_data_slice.has_shape(self.input_dim(), self.slice_range as nat)
        &&& self.train_label_slice.has_shape(1, self.slice_range as nat)
        &&& self.test_data_slice.has_shape(self.input_dim(), self.slice_range as nat)
        &&& self.test_label_slice.has_shape(1, self.slice_range as nat)
        &&& labels_valid(self.training_labels)
        &&& labels_valid(self.testing_labels)
        &&& labels_valid(self.train_label_slice)
        &&& labels_valid(self.test_label_slice)
    }

    /// Reads `vector` as `n` samples of `m` cells each and lays them out one
    /// sample per column.
    pub fn vec_to_array(vector: &Vec<u8>, n: usize, m: usize) -> (res: Result<
        ByteGrid,
        DatasetError,
    >)
        ensures
            res is Ok <==> buffer_fits(vector@, n as nat, m as nat),
            res matches Ok(g) ==> holds_transposed(g, vector@, n as nat, m as nat),
            res matches Err(e) ==> e == DatasetError::ShapeMismatch,
    {
        match grid_from_shape_vec(n, m, vector.clone()) {
            Ok(rows) => Ok(grid_reversed_axes(rows)),
            Err(_) => Err(DatasetError::ShapeMismatch),
        }
    }

    /// The four full grids and the batch width are those of `other`.
    pub open spec fn same_samples(&self, other: &Dataset) -> bool {
        &&& self.training_data == other.training_data
        &&& self.training_labels == other.training_labels
        &&& self.testing_data == other.testing_data
        &&& self.testing_labels == other.testing_labels
        &&& self.slice_range == other.slice_range
    }

    /// The training batch is that of `other`.
    pub open spec fn same_train_batch(&self, other: &Dataset) -> bool {
        &&& self.train_data_slice == other.train_data_slice
        &&& self.train_label_slice == other.train_label_slice
    }

    /// The testing batch is that of `other`.
    pub open spec fn same_test_batch(&self, other: &Dataset) -> bool {
        &&& self.test_data_slice == other.test_data_slice
        &&& self.test_label_slice == other.test_label_slice
    }

    /// The training images and labels of `self` are those of `old`, both
    /// rearranged by `p`; nothing else differs but the random source.
    pub open spec fn rearranged(&self, old: &Dataset, p: Seq<int>) -> bool {
        &&& columns_permuted(old.training_data, self.training_data, p)
        &&& columns_permuted(old.training_labels, self.training_labels, p)
        &&& self.testing_data == old.testing_data
        &&& self.testing_labels == old.testing_labels
        &&& self.slice_range == old.slice_range
        &&& self.same_train_batch(old)
        &&& self.same_test_batch(old)
    }

    /// Builds the data set from the loader's buffers: `n_train` training and
    /// `n_test` testing images of `input_dim` cells each, image after image,
    /// and one label per image. Batches are `slice_range` samples wide and
    /// start out as zeros. `seed` fixes every later random choice.
    pub fn new(
        trn_img: &Vec<u8>,
        trn_lbl: &Vec<u8>,
        tst_img: &Vec<u8>,
        tst_lbl: &Vec<u8>,
        n_train: usize,
        n_test: usize,
        input_dim: usize,
        slice_range: usize,
        seed: u64,
    ) -> (res: Result<Dataset, DatasetError>)
        ensures
            res is Ok <==> rejection(
                trn_img@,
                trn_lbl@,
                tst_img@,
                tst_lbl@,
                n_train as nat,
                n_test as nat,
                input_dim as nat,
                slice_range as nat,
            ) is None,
            res matches Err(e) ==> rejection(
                trn_img@,
                trn_lbl@,
                tst_img@,
                tst_lbl@,
                n_train as nat,
                n_test as nat,
                input_dim as nat,
                slice_range as nat,
            ) == Some(e),
            res matches Ok(d) ==> {
                &&& d.wf()
                &&& d.slice_range == slice_range
                &&& holds_transposed(d.training_data, trn_img@, n_train as nat, input_dim as nat)
                &&& holds_transposed(d.training_labels, trn_lbl@, n_train as nat, 1)
                &&& holds_transposed(d.testing_data, tst_img@, n_test as nat, input_dim as nat)
                &&& holds_transposed(d.testing_labels, tst_lbl@, n_test as nat, 1)
            },
    {
        if n_train == 0 || n_test == 0 || input_dim == 0 {
            return Err(DatasetError::Empty);
        }
        let training_data = match Self::vec_to_array(trn_img, n_train, input_dim) {
            Ok(g) => g,
            Err(e) => { return Err(e); },
        };
        let training_labels = match Self::vec_to_array(trn_lbl, n_train, 1) {
            Ok(g) => g,
            Err(e) => { return Err(e); },
        };
        let testing_data = match Self::vec_to_array(tst_img, n_test, input_dim) {
            Ok(g) => g,
            Err(e) => { return Err(e); },
        };
        let testing_labels = match Self::vec_to_array(tst_lbl, n_test, 1) {
            Ok(g) => g,
            Err(e) => { return Err(e); },
        };
        if slice_range == 0 || slice_range > n_train || slice_range > n_test || slice_range
            > isize::MAX as usize / NUM_CLASSES {
            return Err(DatasetError::BatchSize);
        }
        if !labels_in_range(trn_lbl) || !labels_in_range(tst_lbl) {
            return Err(DatasetError::LabelOutOfRange);
        }
        proof {
            lemma_batch_fits(n_train as nat, input_dim as nat, slice_range as nat);
            lemma_batch_fits(n_test as nat, input_dim as nat, slice_range as nat);
        }
        let train_data_slice = grid_zeros(input_dim, slice_range);
        let train_label_slice = grid_zeros(1, slice_range);
        let test_data_slice = grid_zeros(input_dim, slice_range);
        let test_label_slice = grid_zeros(1, slice_range);
        Ok(
            Dataset {
                training_data,
                training_labels,
                testing_data,
                testing_labels,
                train_data_slice,
                train_label_slice,
                test_data_slice,
                test_label_slice,
                slice_range,
                rng: seeded_rng(seed),
            },
        )
    }

    /// How many labels of the one-row grid `labels` name each class.
    pub fn dist(labels: &ByteGrid) -> (counts: Vec<usize>)
        requires
            labels.wf(),
            labels_valid(*labels),
        ensures
            counts@.len() == NUM_CLASSES,
            forall|c: int|
                0 <= c < NUM_CLASSES ==> counts@[c] == count_truth(labels.rows()[0], c),
    {
        let row = labels.row(0);
        let mut tally = Accuracy::new();
        assert(row@.len() == row.len());
        tally.set_accuracy(&row, &row);
        tally.total
    }

    /// Exchanges training samples `i` and `j`, image and label together.
    pub fn swap_samples(&mut self, i: usize, j: usize)
        requires
            old(self).wf(),
            i < old(self).train_len(),
            j < old(self).train_len(),
        ensures
            final(self).wf(),
            final(self).rearranged(
                old(self),
                transposition(old(self).train_len(), i as int, j as int),
            ),
            final(self).rng == old(self).rng,
    {
        self.training_data.swap_columns(i, j);
        self.training_labels.swap_columns(i, j);
    }

    /// Rearranges the training samples by the picks given: sample `i` is
    /// exchanged with sample `picks[i]`, for every `i` in turn, image and
    /// label together.
    pub fn shuffle_with(&mut self, picks: &Vec<usize>)
        requires
            old(self).wf(),
            picks_valid(picks@, old(self).train_len()),
        ensures
            final(self).wf(),
            final(self).rearranged(old(self), shuffled_order(picks@, picks@.len())),
            final(self).rng == old(self).rng,
    {
        let n = picks.len();
        let mut i: usize = 0;
        while i < n
            invariant
                i <= n,
                n == picks@.len(),
                picks_valid(picks@, old(self).train_len()),
                old(self).wf(),
                self.wf(),
                self.rearranged(old(self), shuffled_order(picks@, i as nat)),
                self.rng == old(self).rng,
            decreases n - i,
        {
            let next = picks[i];
            proof {
                lemma_shuffled_order_is_permutation(picks@, i as nat);
            }
            if i != next {
                self.swap_samples(i, next);
            }
            i += 1;
        }
    }

    /// Puts the training samples in a random order: for every position in
    /// turn a position from there to the end is drawn, and the two samples
    /// are exchanged. Images and labels move together, so the label in a
    /// column is the one that belonged to the image now in that column.
    pub fn shuffle(&mut self)
        requires
            old(self).wf(),
        ensures
            final(self).wf(),
            exists|picks: Seq<usize>|
                picks_valid(picks, old(self).train_len()) && #[trigger] final(self).rearranged(
                    old(self),
                    shuffled_order(picks, picks.len()),
                ),
            exists|p: Seq<int>|
                is_permutation(p) && #[trigger] final(self).rearranged(old(self), p),
    {
        let n = grid_ncols(&self.training_data);
        let mut picks: Vec<usize> = Vec::new();
        let mut i: usize = 0;
        while i < n
            invariant
                i <= n,
                picks@.len() == i,
                forall|q: int| 0 <= q < i ==> q <= #[trigger] picks@[q] < n,
                self.training_data == old(self).training_data,
                self.training_labels == old(self).training_labels,
                self.testing_data == old(self).testing_data,
                self.testing_labels == old(self).testing_labels,
                self.slice_range == old(self).slice_range,
                self.same_train_batch(old(self)),
                self.same_test_batch(old(self)),
            decreases n - i,
        {
            let next = draw_index(&mut self.rng, i, n);
            picks.push(next);
            i += 1;
        }
        self.shuffle_with(&picks);
        proof {
            lemma_shuffled_order_is_permutation(picks@, picks@.len());
            assert(self.rearranged(old(self), shuffled_order(picks@, picks@.len())));
        }
    }

    /// Makes the window asked for at column `start` the current batch of the
    /// half that `mode` names: images and labels are copied from the same
    /// columns.
    pub fn set_slice_at(&mut self, mode: CONFIG, start: usize)
        requires
            old(self).wf(),
            mode == CONFIG::TRAIN ==> start < old(self).train_len(),
            mode == CONFIG::TEST ==> start < old(self).test_len(),
        ensures
            final(self).wf(),
            final(self).same_samples(old(self)),
            final(self).rng == old(self).rng,
            mode == CONFIG::TRAIN ==> {
                let s = spec_window_start(
                    start as int,
                    old(self).slice_range as int,
                    old(self).train_len() as int,
                );
                &&& is_window(
                    final(self).training_data,
                    final(self).train_data_slice,
                    s,
                    old(self).slice_range as int,
                )
                &&& is_window(
                    final(self).training_labels,
                    final(self).train_label_slice,
                    s,
                    old(self).slice_range as int,
                )
                &&& final(self).same_test_batch(old(self))
            },
            mode == CONFIG::TEST ==> {
                let s = spec_window_start(
                    start as int,
                    old(self).slice_range as int,
                    old(self).test_len() as int,
                );
                &&& is_window(
                    final(self).testing_data,
                    final(self).test_data_slice,
                    s,
                    old(self).slice_range as int,
                )
                &&& is_window(
                    final(self).testing_labels,
                    final(self).test_label_slice,
                    s,
                    old(self).slice_range as int,
                )
                &&& final(self).same_train_batch(old(self))
            },
    {
        let w = self.slice_range;
        match mode {
            CONFIG::TRAIN => {
                let n = grid_ncols(&self.training_data);
                let s = window_start(start, w, n);
                self.train_data_slice = grid_slice_columns(&self.training_data, s, s + w);
                self.train_label_slice = grid_slice_columns(&self.training_labels, s, s + w);
            },
            CONFIG::TEST => {
                let n = grid_ncols(&self.testing_data);
                let s = window_start(start, w, n);
                self.test_data_slice = grid_slice_columns(&self.testing_data, s, s + w);
                self.test_label_slice = grid_slice_columns(&self.testing_labels, s, s + w);
            },
        }
    }

    /// The number of whole batches in the half that `mode` names.
    pub open spec fn batches(&self, mode: CONFIG) -> nat {
        match mode {
            CONFIG::TRAIN => self.train_len() / (self.slice_range as nat),
            CONFIG::TEST => self.test_len() / (self.slice_range as nat),
        }
    }

    /// The current batch of the half that `mode` names is its `k`-th run of
    /// `slice_range` samples, images and labels alike.
    pub open spec fn holds_batch(&self, mode: CONFIG, k: int) -> bool {
        match mode {
            CONFIG::TRAIN => {
                &&& is_window(
                    self.training_data,
                    self.train_data_slice,
                    k * self.slice_range,
                    self.slice_range as int,
                )
                &&& is_window(
                    self.training_labels,
                    self.train_label_slice,
                    k * self.slice_range,
                    self.slice_range as int,
                )
            },
            CONFIG::TEST => {
                &&& is_window(
                    self.testing_data,
                    self.test_data_slice,
                    k * self.slice_range,
                    self.slice_range as int,
                )
                &&& is_window(
                    self.testing_labels,
                    self.test_label_slice,
                    k * self.slice_range,
                    self.slice_range as int,
                )
            },
        }
    }

    /// The number of whole batches in the half that `mode` names.
    pub fn batch_count(&self, mode: CONFIG) -> (n: usize)
        requires
            self.wf(),
        ensures
            n == self.batches(mode),
            n >= 1,
    {
        let len = match mode {
            CONFIG::TRAIN => grid_ncols(&self.training_data),
            CONFIG::TEST => grid_ncols(&self.testing_data),
        };
        proof {
            lemma_whole_batches(len as nat, self.slice_range as nat, 0);
        }
        len / self.slice_range
    }

    /// Makes the `k`-th run of `slice_range` samples the current batch of the
    /// half that `mode` names. Taken for every `k` in turn, the batches share
    /// no sample.
    pub fn set_batch(&mut self, mode: CONFIG, k: usize)
        requires
            old(self).wf(),
            k < old(self).batches(mode),
        ensures
            final(self).wf(),
            final(self).same_samples(old(self)),
            final(self).rng == old(self).rng,
            final(self).holds_batch(mode, k as int),
            mode == CONFIG::TRAIN ==> final(self).same_test_batch(old(self)),
            mode == CONFIG::TEST ==> final(self).same_train_batch(old(self)),
    {
        proof {
            lemma_whole_batches(self.train_len(), self.slice_range as nat, k as nat);
            lemma_whole_batches(self.test_len(), self.slice_range as nat, k as nat);
        }
        self.set_slice_at(mode, k * self.slice_range);
    }

    /// Makes a window at a random column the current batch of the half that
    /// `mode` names. Whatever is drawn, the batch is a run of whole samples:
    /// its images and its labels come from the same columns.
    pub fn set_slice(&mut self, mode: CONFIG)
        requires
            old(self).wf(),
        ensures
            final(self).wf(),
            final(self).same_samples(old(self)),
            mode == CONFIG::TRAIN ==> final(self).same_test_batch(old(self)) && exists|s: int|
                0 <= s <= old(self).train_len() - old(self).slice_range && #[trigger] is_window(
                    final(self).training_data,
                    final(self).train_data_slice,
                    s,
                    old(self).slice_range as int,
                ) && is_window(
                    final(self).training_labels,
                    final(self).train_label_slice,
                    s,
                    old(self).slice_range as int,
                ),
            mode == CONFIG::TEST ==> final(self).same_train_batch(old(self)) && exists|s: int|
                0 <= s <= old(self).test_len() - old(self).slice_range && #[trigger] is_window(
                    final(self).testing_data,
                    final(self).test_data_slice,
                    s,
                    old(self).slice_range as int,
                ) && is_window(
                    final(self).testing_labels,
                    final(self).test_label_slice,
                    s,
                    old(self).slice_range as int,
                ),
    {
        let n = match mode {
            CONFIG::TRAIN => grid_ncols(&self.training_data),
            CONFIG::TEST => grid_ncols(&self.testing_data),
        };
        let start = draw_index(&mut self.rng, 0, n);
        self.set_slice_at(mode, start);
    }
}

} // verus!

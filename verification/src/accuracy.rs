//! Predictions from class scores, and the tally of how many were right.

use crate::dataset::{all_below, NUM_CLASSES};
use vstd::prelude::*;

verus! {

/// Column `j` of a score table given by rows, one row per class.
pub open spec fn score_column(scores: Seq<Vec<u32>>, j: int) -> Seq<u32> {
    Seq::new(scores.len(), |i: int| scores[i]@[j])
}

/// Every row of the table has `n` entries.
pub open spec fn rows_have_len(scores: Seq<Vec<u32>>, n: nat) -> bool {
    forall|i: int| 0 <= i < scores.len() ==> (#[trigger] scores[i])@.len() == n
}

/// `k` is the first index at which `col` is greatest: nothing before it is as
/// large, nothing after it is larger.
pub open spec fn is_argmax(col: Seq<u32>, k: int) -> bool {
    &&& 0 <= k < col.len()
    &&& forall|i: int| 0 <= i < k ==> col[i] < col[k]
    &&& forall|i: int| k <= i < col.len() ==> col[i] <= col[k]
}

/// A column has one first greatest entry and no other.
pub proof fn lemma_argmax_unique(col: Seq<u32>, k: int, l: int)
    requires
        is_argmax(col, k),
        is_argmax(col, l),
    ensures
        k == l,
{
    if k < l {
        assert(col[k] < col[l]);
        assert(col[l] <= col[k]);
    } else if l < k {
        assert(col[l] < col[k]);
        assert(col[k] <= col[l]);
    }
}

/// The class each sample is assigned: for every column of `scores`, the first
/// row at which the column is greatest. `scores` has one row per class and one
/// column per sample; a larger score means a more probable class.
pub fn get_predictions(scores: &Vec<Vec<u32>>) -> (out: Vec<u8>)
    requires
        0 < scores.len() <= 256,
        rows_have_len(scores@, scores[0]@.len()),
    ensures
        out@.len() == scores[0]@.len(),
        forall|j: int| 0 <= j < out@.len() ==> is_argmax(score_column(scores@, j), out@[j] as int),
{
    let classes = scores.len();
    let samples = scores[0].len();
    let mut out: Vec<u8> = Vec::new();
    let mut j: usize = 0;
    while j < samples
        invariant
            j <= samples,
            classes == scores.len(),
            0 < classes <= 256,
            samples == scores[0]@.len(),
            rows_have_len(scores@, samples as nat),
            out@.len() == j,
            forall|q: int| 0 <= q < j ==> is_argmax(score_column(scores@, q), out@[q] as int),
        decreases samples - j,
    {
        let mut best: usize = 0;
        let mut best_score: u32 = scores[0][j];
        let mut i: usize = 1;
        while i < classes
            invariant
                1 <= i <= classes,
                classes == scores.len(),
                j < samples,
                rows_have_len(scores@, samples as nat),
                best < i,
                best_score == scores[best as int]@[j as int],
                forall|q: int| 0 <= q < best ==> scores[q]@[j as int] < best_score,
                forall|q: int| best <= q < i ==> scores[q]@[j as int] <= best_score,
            decreases classes - i,
        {
            if scores[i][j] > best_score {
                best = i;
                best_score = scores[i][j];
            }
            i += 1;
        }
        out.push(best as u8);
        j += 1;
    }
    out
}

/// How many of the labels `truth` name `class`.
pub open spec fn count_truth(truth: Seq<u8>, class: int) -> nat
    decreases truth.len(),
{
    if truth.len() == 0 {
        0
    } else {
        count_truth(truth.drop_last(), class) + if truth.last() == class {
            1nat
        } else {
            0nat
        }
    }
}

/// How many samples of `class` were predicted to be of that class.
pub open spec fn count_hits(predictions: Seq<u8>, truth: Seq<u8>, class: int) -> nat
    decreases truth.len(),
{
    if truth.len() == 0 || predictions.len() != truth.len() {
        0
    } else {
        count_hits(predictions.drop_last(), truth.drop_last(), class) + if truth.last() == class
            && predictions.last() == truth.last() {
            1nat
        } else {
            0nat
        }
    }
}

/// The sum of the first `n` entries of `counts`.
pub open spec fn sum_first(counts: Seq<usize>, n: nat) -> nat
    decreases n,
{
    if n == 0 || n > counts.len() {
        0
    } else {
        sum_first(counts, (n - 1) as nat) + counts[n - 1] as nat
    }
}

/// For each class, how many samples of it were seen and how many of those
/// were predicted right.
pub struct Accuracy {
    /// Per class, the samples predicted right.
    pub correct: Vec<usize>,
    /// Per class, the samples seen.
    pub total: Vec<usize>,
}

impl Accuracy {
    /// One entry per class, never more right than seen, and a number of
    /// samples that can be counted.
    pub open spec fn wf(&self) -> bool {
        &&& self.correct@.len() == NUM_CLASSES
        &&& self.total@.len() == NUM_CLASSES
        &&& forall|c: int| 0 <= c < NUM_CLASSES ==> self.correct@[c] <= self.total@[c]
        &&& self.samples() <= usize::MAX
    }

    /// The number of samples seen.
    pub open spec fn samples(&self) -> nat {
        sum_first(self.total@, NUM_CLASSES as nat)
    }

    /// The number of samples predicted right.
    pub open spec fn hits(&self) -> nat {
        sum_first(self.correct@, NUM_CLASSES as nat)
    }

    /// Nothing has been seen.
    pub open spec fn is_empty(&self) -> bool {
        forall|c: int| 0 <= c < NUM_CLASSES ==> self.correct@[c] == 0 && self.total@[c] == 0
    }

    /// `self` is `before` with the samples `truth`, predicted as
    /// `predictions`, added to it.
    pub open spec fn extends(
        &self,
        before: &Accuracy,
        predictions: Seq<u8>,
        truth: Seq<u8>,
    ) -> bool {
        forall|c: int|
            0 <= c < NUM_CLASSES ==> self.total@[c] == before.total@[c] + count_truth(truth, c)
                && self.correct@[c] == before.correct@[c] + count_hits(predictions, truth, c)
    }

    /// A tally in which nothing has been seen.
    pub fn new() -> (t: Accuracy)
        ensures
            t.wf(),
            t.is_empty(),
            t.samples() == 0,
            t.hits() == 0,
    {
        let mut correct: Vec<usize> = Vec::new();
        let mut total: Vec<usize> = Vec::new();
        let mut c: usize = 0;
        while c < NUM_CLASSES
            invariant
                c <= NUM_CLASSES,
                correct@.len() == c,
                total@.len() == c,
                forall|q: int| 0 <= q < c ==> correct@[q] == 0 && total@[q] == 0,
            decreases NUM_CLASSES - c,
        {
            correct.push(0);
            total.push(0);
            c += 1;
        }
        let t = Accuracy { correct, total };
        proof {
            lemma_sum_first_zero(t.total@, NUM_CLASSES as nat);
            lemma_sum_first_zero(t.correct@, NUM_CLASSES as nat);
        }
        t
    }

    /// Adds a batch to the tally: each sample counts as seen for the class
    /// `ground_truth` gives it, and as right too if `predictions` gives it
    /// the same class.
    pub fn set_accuracy(&mut self, predictions: &Vec<u8>, ground_truth: &Vec<u8>)
        requires
            old(self).wf(),
            predictions@.len() == ground_truth@.len(),
            all_below(ground_truth@, NUM_CLASSES as int),
            old(self).samples() + ground_truth@.len() <= usize::MAX,
        ensures
            final(self).wf(),
            final(self).extends(old(self), predictions@, ground_truth@),
            final(self).samples() == old(self).samples() + ground_truth@.len(),
            old(self).hits() <= final(self).hits() <= old(self).hits() + ground_truth@.len(),
    {
        let n = ground_truth.len();
        let mut j: usize = 0;
        proof {
            lemma_sum_first_pointwise(self.correct@, self.total@, NUM_CLASSES as nat);
        }
        while j < n
            invariant
                j <= n,
                n == ground_truth@.len(),
                predictions@.len() == ground_truth@.len(),
                all_below(ground_truth@, NUM_CLASSES as int),
                old(self).samples() + n <= usize::MAX,
                self.wf(),
                self.extends(old(self), predictions@.take(j as int), ground_truth@.take(j as int)),
                self.samples() == old(self).samples() + j,
                old(self).hits() <= self.hits() <= old(self).hits() + j,
            decreases n - j,
        {
            let class = ground_truth[j] as usize;
            let right = predictions[j] == ground_truth[j];
            let ghost before = *self;
            proof {
                lemma_entry_le_sum(self.total@, NUM_CLASSES as nat, class as int);
                lemma_entry_le_sum(self.correct@, NUM_CLASSES as nat, class as int);
                lemma_sum_first_pointwise(self.correct@, self.total@, NUM_CLASSES as nat);
                assert(ground_truth@.take(j + 1).drop_last() == ground_truth@.take(j as int));
                assert(predictions@.take(j + 1).drop_last() == predictions@.take(j as int));
            }
            let seen = self.total[class];
            self.total.set(class, seen + 1);
            if right {
                let hit = self.correct[class];
                self.correct.set(class, hit + 1);
            }
            proof {
                lemma_sum_first_update(
                    before.total@,
                    NUM_CLASSES as nat,
                    class as int,
                    (seen + 1) as usize,
                );
                if right {
                    lemma_sum_first_update(
                        before.correct@,
                        NUM_CLASSES as nat,
                        class as int,
                        (before.correct@[class as int] + 1) as usize,
                    );
                }
            }
            j += 1;
        }
        proof {
            assert(ground_truth@.take(n as int) == ground_truth@);
            assert(predictions@.take(n as int) == predictions@);
        }
    }

    /// The samples predicted right and the samples seen, over all classes.
    /// Their quotient is the overall accuracy.
    pub fn get_accuracy(&self) -> (r: (usize, usize))
        requires
            self.wf(),
        ensures
            r.0 == self.hits(),
            r.1 == self.samples(),
            r.0 <= r.1,
    {
        let mut right: usize = 0;
        let mut seen: usize = 0;
        let mut c: usize = 0;
        proof {
            lemma_sum_first_pointwise(self.correct@, self.total@, NUM_CLASSES as nat);
        }
        while c < NUM_CLASSES
            invariant
                c <= NUM_CLASSES,
                self.wf(),
                right == sum_first(self.correct@, c as nat),
                seen == sum_first(self.total@, c as nat),
                self.hits() <= self.samples(),
            decreases NUM_CLASSES - c,
        {
            proof {
                lemma_sum_first_monotone(self.total@, (c + 1) as nat, NUM_CLASSES as nat);
                lemma_sum_first_monotone(self.correct@, (c + 1) as nat, NUM_CLASSES as nat);
            }
            right += self.correct[c];
            seen += self.total[c];
            c += 1;
        }
        (right, seen)
    }

    /// For one class, the samples predicted right and the samples seen;
    /// `None` if there is no such class.
    pub fn class_accuracy(&self, class: usize) -> (r: Option<(usize, usize)>)
        requires
            self.wf(),
        ensures
            r == (if class < NUM_CLASSES {
                Some((self.correct@[class as int], self.total@[class as int]))
            } else {
                None
            }),
    {
        if class < NUM_CLASSES {
            Some((self.correct[class], self.total[class]))
        } else {
            None
        }
    }
}

/// A sum of zeros is zero.
proof fn lemma_sum_first_zero(counts: Seq<usize>, n: nat)
    requires
        n <= counts.len(),
        forall|i: int| 0 <= i < n ==> counts[i] == 0,
    ensures
        sum_first(counts, n) == 0,
    decreases n,
{
    if n > 0 {
        lemma_sum_first_zero(counts, (n - 1) as nat);
    }
}

/// A longer prefix sums to no less.
proof fn lemma_sum_first_monotone(counts: Seq<usize>, a: nat, b: nat)
    requires
        a <= b <= counts.len(),
    ensures
        sum_first(counts, a) <= sum_first(counts, b),
    decreases b - a,
{
    if a < b {
        lemma_sum_first_monotone(counts, a, (b - 1) as nat);
    }
}

/// Changing one entry changes the sum by as much.
proof fn lemma_sum_first_update(counts: Seq<usize>, n: nat, c: int, v: usize)
    requires
        0 <= c < counts.len(),
        n <= counts.len(),
    ensures
        sum_first(counts.update(c, v), n) == if c < n {
            sum_first(counts, n) - counts[c] + v
        } else {
            sum_first(counts, n) as int
        },
    decreases n,
{
    if n > 0 {
        lemma_sum_first_update(counts, (n - 1) as nat, c, v);
    }
}

/// Entry by entry no larger, the sum is no larger.
proof fn lemma_sum_first_pointwise(a: Seq<usize>, b: Seq<usize>, n: nat)
    requires
        n <= a.len(),
        n <= b.len(),
        forall|i: int| 0 <= i < n ==> a[i] <= b[i],
    ensures
        sum_first(a, n) <= sum_first(b, n),
    decreases n,
{
    if n > 0 {
        lemma_sum_first_pointwise(a, b, (n - 1) as nat);
    }
}

/// No entry exceeds the sum.
proof fn lemma_entry_le_sum(counts: Seq<usize>, n: nat, c: int)
    requires
        0 <= c < n <= counts.len(),
    ensures
        counts[c] <= sum_first(counts, n),
    decreases n,
{
    if c < n - 1 {
        lemma_entry_le_sum(counts, (n - 1) as nat, c);
    }
}

} // verus!

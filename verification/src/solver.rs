//! The linear solver: full-batch gradient descent over a dense matrix of
//! samples, with the per-sample gradient work done in parallel and the
//! partial results merged in a fixed order after a barrier.

use vstd::prelude::*;
use rayon::iter::IntoParallelIterator;
use rayon::iter::ParallelIterator;

use crate::MathError;
use crate::matrix::Matrix;
use crate::matrix::MatView;
use crate::matrix::lemma_rc_index;
use crate::scalar::ZERO_BITS;
use crate::scalar::add_bits;
use crate::scalar::sub_bits;
use crate::scalar::mul_bits;
use crate::scalar::div_bits;
use crate::scalar::from_usize_bits;
use crate::scalar::add32;
use crate::scalar::sub32;
use crate::scalar::mul32;
use crate::scalar::div32;
use crate::scalar::from_usize32;

verus! {

/// The prediction for sample `i` after the first `j` features have been
/// accumulated: the bias, plus the weighted features in increasing order.
pub open spec fn pred_acc(x: MatView, w: Seq<u32>, b: u32, i: int, j: int) -> u32
    decreases j,
{
    if j <= 0 {
        b
    } else {
        add_bits(pred_acc(x, w, b, i, j - 1), mul_bits(w[j - 1], x.at(i, j - 1)))
    }
}

/// The model's prediction for sample `i`: `b + Σ_j w[j] * x[i, j]`, the sum
/// taken in increasing feature order.
pub open spec fn prediction(x: MatView, w: Seq<u32>, b: u32, i: int) -> u32 {
    pred_acc(x, w, b, i, x.cols)
}

/// The signed error of sample `i`: prediction minus target.
pub open spec fn sample_err(x: MatView, y: Seq<u32>, w: Seq<u32>, b: u32, i: int) -> u32 {
    sub_bits(prediction(x, w, b, i), y[i])
}

/// The weight-gradient entry for feature `j` accumulated over the first `i`
/// samples, in increasing sample order: `Σ_i err_i * x[i, j]`.
pub open spec fn grad_w_acc(x: MatView, y: Seq<u32>, w: Seq<u32>, b: u32, j: int, i: int) -> u32
    decreases i,
{
    if i <= 0 {
        ZERO_BITS
    } else {
        add_bits(
            grad_w_acc(x, y, w, b, j, i - 1),
            mul_bits(sample_err(x, y, w, b, i - 1), x.at(i - 1, j)),
        )
    }
}

/// The bias gradient accumulated over the first `i` samples, in increasing
/// sample order: `Σ_i err_i`.
pub open spec fn grad_b_acc(x: MatView, y: Seq<u32>, w: Seq<u32>, b: u32, i: int) -> u32
    decreases i,
{
    if i <= 0 {
        ZERO_BITS
    } else {
        add_bits(grad_b_acc(x, y, w, b, i - 1), sample_err(x, y, w, b, i - 1))
    }
}

/// A gradient entry turned into an update step: divided by the sample count
/// and scaled by the learning rate.
pub open spec fn step_scale(x: MatView, g: u32, lr: u32) -> u32 {
    mul_bits(div_bits(g, from_usize_bits(x.rows)), lr)
}

/// The weights after one full-batch update of `w`.
pub open spec fn step_w(x: MatView, y: Seq<u32>, w: Seq<u32>, b: u32, lr: u32) -> Seq<u32> {
    Seq::new(
        x.cols as nat,
        |j: int| sub_bits(w[j], step_scale(x, grad_w_acc(x, y, w, b, j, x.rows), lr)),
    )
}

/// The bias after one full-batch update of `b`.
pub open spec fn step_b(x: MatView, y: Seq<u32>, w: Seq<u32>, b: u32, lr: u32) -> u32 {
    sub_bits(b, step_scale(x, grad_b_acc(x, y, w, b, x.rows), lr))
}

/// A weight vector of `n` zeros.
pub open spec fn zero_weights(n: int) -> Seq<u32> {
    Seq::new(n as nat, |j: int| ZERO_BITS)
}

/// The solver state `(weights, bias)` after `t` rounds of full-batch
/// gradient descent starting from all-zero weights and zero bias.
pub open spec fn gd_iter(x: MatView, y: Seq<u32>, lr: u32, t: int) -> (Seq<u32>, u32)
    decreases t,
{
    if t <= 0 {
        (zero_weights(x.cols), ZERO_BITS)
    } else {
        let (w, b) = gd_iter(x, y, lr, t - 1);
        (step_w(x, y, w, b, lr), step_b(x, y, w, b, lr))
    }
}

/// After any number of rounds the weight vector has one entry per feature.
pub proof fn lemma_gd_iter_w_len(x: MatView, y: Seq<u32>, lr: u32, t: int)
    requires
        x.cols >= 0,
    ensures
        gd_iter(x, y, lr, t).0.len() == x.cols,
    decreases (if t >= 0 { t } else { 0 }),
{
    if t > 0 {
        lemma_gd_iter_w_len(x, y, lr, t - 1);
    }
}

/// Gradient descent is deterministic: two outcomes of the same design
/// matrix, targets, learning rate and iteration count coincide exactly, so
/// repeated fits cannot drift apart.
pub proof fn lemma_fit_deterministic(
    x: MatView,
    y: Seq<u32>,
    lr: u32,
    t: int,
    w1: Seq<u32>,
    b1: u32,
    w2: Seq<u32>,
    b2: u32,
)
    requires
        w1 == gd_iter(x, y, lr, t).0,
        b1 == gd_iter(x, y, lr, t).1,
        w2 == gd_iter(x, y, lr, t).0,
        b2 == gd_iter(x, y, lr, t).1,
    ensures
        w1 == w2,
        b1 == b2,
{
}

/// The model's prediction for row `i` of `x`, accumulated in increasing
/// feature order.
fn predict_row(x: &Matrix, w: &Vec<u32>, b: u32, i: usize) -> (r: u32)
    requires
        x@.wf(),
        w@.len() == x@.cols,
        i < x@.rows,
    ensures
        r == prediction(x@, w@, b, i as int),
{
    let cols = x.cols;
    let nx = x.data.len();
    let mut acc: u32 = b;
    for j in 0..cols
        invariant
            x@.wf(),
            w@.len() == x@.cols,
            i < x@.rows,
            cols == x@.cols,
            nx == x@.elems.len(),
            acc == pred_acc(x@, w@, b, i as int, j as int),
    {
        proof {
            lemma_rc_index(x@, i as int, j as int);
        }
        acc = add32(acc, mul32(w[j], x.data[i * cols + j]));
    }
    acc
}

/// The gradient contribution of sample `i`: the per-feature products of its
/// error with its features, and the error itself.
fn sample_grad(x: &Matrix, y: &Vec<u32>, w: &Vec<u32>, b: u32, i: usize) -> (r: (Vec<u32>, u32))
    requires
        x@.wf(),
        w@.len() == x@.cols,
        y@.len() == x@.rows,
        i < x@.rows,
    ensures
        r.1 == sample_err(x@, y@, w@, b, i as int),
        r.0@.len() == x@.cols,
        forall|j: int| 0 <= j < x@.cols
            ==> #[trigger] r.0@[j] == mul_bits(sample_err(x@, y@, w@, b, i as int), x@.at(i as int, j)),
{
    let pred = predict_row(x, w, b, i);
    let err = sub32(pred, y[i]);
    let cols = x.cols;
    let nx = x.data.len();
    let mut g: Vec<u32> = Vec::new();
    for j in 0..cols
        invariant
            x@.wf(),
            i < x@.rows,
            cols == x@.cols,
            nx == x@.elems.len(),
            err == sample_err(x@, y@, w@, b, i as int),
            g@.len() == j,
            forall|t: int| 0 <= t < j ==> #[trigger] g@[t] == mul_bits(err, x@.at(i as int, t)),
    {
        proof {
            lemma_rc_index(x@, i as int, j as int);
        }
        g.push(mul32(err, x.data[i * cols + j]));
    }
    (g, err)
}

/// Relies on rayon's parallel iterator over the sample indices: `map` with
/// `collect` keeps index order, and each per-sample contribution is produced
/// by the verified `sample_grad`.
#[verifier::external_body]
fn par_sample_grads(x: &Matrix, y: &Vec<u32>, w: &Vec<u32>, b: u32) -> (r: Vec<(Vec<u32>, u32)>)
    requires
        x@.wf(),
        w@.len() == x@.cols,
        y@.len() == x@.rows,
    ensures
        r@.len() == x@.rows,
        forall|i: int| 0 <= i < x@.rows ==> (#[trigger] r@[i]).1 == sample_err(x@, y@, w@, b, i),
        forall|i: int| 0 <= i < x@.rows ==> (#[trigger] r@[i]).0@.len() == x@.cols,
        forall|i: int, j: int| #![trigger r@[i].0@[j]] 0 <= i < x@.rows && 0 <= j < x@.cols
            ==> r@[i].0@[j] == mul_bits(sample_err(x@, y@, w@, b, i), x@.at(i, j)),
{
    (0..x.rows).into_par_iter().map(|i| sample_grad(x, y, w, b, i)).collect()
}

/// Relies on rayon's parallel iterator over the row indices: `map` with
/// `collect` keeps index order, and each prediction is produced by the
/// verified `predict_row`.
#[verifier::external_body]
fn par_predict_rows(x: &Matrix, w: &Vec<u32>, b: u32) -> (r: Vec<u32>)
    requires
        x@.wf(),
        w@.len() == x@.cols,
    ensures
        r@.len() == x@.rows,
        forall|i: int| 0 <= i < x@.rows ==> #[trigger] r@[i] == prediction(x@, w@, b, i),
{
    (0..x.rows).into_par_iter().map(|i| predict_row(x, w, b, i)).collect()
}

/// An iterative gradient-descent linear model: a weight per feature and a
/// bias, with the hyperparameters fixed at construction.
pub struct Solver {
    pub weights: Vec<u32>,
    pub bias: u32,
    pub lr: u32,
    pub iters: usize,
}

impl Solver {
    /// A fresh, untrained solver with the given learning rate and iteration
    /// count: no weights, zero bias.
    pub fn new(lr: u32, iters: usize) -> (r: Solver)
        ensures
            r.weights@.len() == 0,
            r.bias == ZERO_BITS,
            r.lr == lr,
            r.iters == iters,
    {
        Solver { weights: Vec::new(), bias: ZERO_BITS, lr, iters }
    }

    /// Resets the model and runs exactly `iters` rounds of full-batch
    /// gradient descent on `x` and the targets `y`.  Succeeds exactly when
    /// `y` holds one target per sample; the final state is the exact
    /// `gd_iter` recurrence, so it depends on the inputs alone.
    pub fn fit(&mut self, x: &Matrix, y: &Vec<u32>) -> (r: Result<(), MathError>)
        requires
            x@.wf(),
        ensures
            final(self).lr == old(self).lr,
            final(self).iters == old(self).iters,
            match r {
                Ok(()) => y@.len() == x@.rows
                    && final(self).weights@ == gd_iter(x@, y@, old(self).lr, old(self).iters as int).0
                    && final(self).bias == gd_iter(x@, y@, old(self).lr, old(self).iters as int).1
                    && final(self).weights@.len() == x@.cols,
                Err(e) => e == MathError::DimensionMismatchError && y@.len() != x@.rows
                    && final(self).weights@ == old(self).weights@
                    && final(self).bias == old(self).bias,
            },
    {
        if y.len() != x.rows {
            return Err(MathError::DimensionMismatchError);
        }
        let n_samples = x.rows;
        let n_features = x.cols;
        let lr = self.lr;
        let iters = self.iters;
        let nf32 = from_usize32(n_samples);
        let mut w: Vec<u32> = Vec::new();
        for j in 0..n_features
            invariant
                w@.len() == j,
                forall|t: int| 0 <= t < j ==> #[trigger] w@[t] == ZERO_BITS,
        {
            w.push(ZERO_BITS);
        }
        let mut b: u32 = ZERO_BITS;
        proof {
            assert(w@ =~= zero_weights(x@.cols));
        }
        for t in 0..iters
            invariant
                x@.wf(),
                y@.len() == x@.rows,
                n_samples == x@.rows,
                n_features == x@.cols,
                nf32 == from_usize_bits(x@.rows),
                w@.len() == n_features,
                w@ == gd_iter(x@, y@, lr, t as int).0,
                b == gd_iter(x@, y@, lr, t as int).1,
        {
            let grads = par_sample_grads(x, y, &w, b);
            let mut dw: Vec<u32> = Vec::new();
            for j in 0..n_features
                invariant
                    dw@.len() == j,
                    forall|t2: int| 0 <= t2 < j ==> #[trigger] dw@[t2] == ZERO_BITS,
            {
                dw.push(ZERO_BITS);
            }
            let mut db: u32 = ZERO_BITS;
            for i in 0..n_samples
                invariant
                    x@.wf(),
                    y@.len() == x@.rows,
                    n_samples == x@.rows,
                    n_features == x@.cols,
                    w@.len() == n_features,
                    grads@.len() == n_samples,
                    forall|i2: int| 0 <= i2 < n_samples
                        ==> (#[trigger] grads@[i2]).1 == sample_err(x@, y@, w@, b, i2),
                    forall|i2: int| 0 <= i2 < n_samples
                        ==> (#[trigger] grads@[i2]).0@.len() == n_features,
                    forall|i2: int, j2: int| #![trigger grads@[i2].0@[j2]]
                        0 <= i2 < n_samples && 0 <= j2 < n_features
                        ==> grads@[i2].0@[j2]
                            == mul_bits(sample_err(x@, y@, w@, b, i2), x@.at(i2, j2)),
                    dw@.len() == n_features,
                    forall|j2: int| 0 <= j2 < n_features
                        ==> #[trigger] dw@[j2] == grad_w_acc(x@, y@, w@, b, j2, i as int),
                    db == grad_b_acc(x@, y@, w@, b, i as int),
            {
                let gi = &grads[i];
                for j in 0..n_features
                    invariant
                        x@.wf(),
                        y@.len() == x@.rows,
                        n_samples == x@.rows,
                        n_features == x@.cols,
                        w@.len() == n_features,
                        i < n_samples,
                        grads@.len() == n_samples,
                        forall|i2: int, j2: int| #![trigger grads@[i2].0@[j2]]
                            0 <= i2 < n_samples && 0 <= j2 < n_features
                            ==> grads@[i2].0@[j2]
                                == mul_bits(sample_err(x@, y@, w@, b, i2), x@.at(i2, j2)),
                        gi == &grads@[i as int],
                        gi.0@.len() == n_features,
                        dw@.len() == n_features,
                        forall|j2: int| 0 <= j2 < j
                            ==> #[trigger] dw@[j2] == grad_w_acc(x@, y@, w@, b, j2, i as int + 1),
                        forall|j2: int| j <= j2 < n_features
                            ==> #[trigger] dw@[j2] == grad_w_acc(x@, y@, w@, b, j2, i as int),
                {
                    let val = add32(dw[j], gi.0[j]);
                    dw.set(j, val);
                }
                db = add32(db, gi.1);
            }
            let mut new_w: Vec<u32> = Vec::new();
            for j in 0..n_features
                invariant
                    x@.wf(),
                    y@.len() == x@.rows,
                    n_samples == x@.rows,
                    n_features == x@.cols,
                    nf32 == from_usize_bits(x@.rows),
                    w@.len() == n_features,
                    dw@.len() == n_features,
                    forall|j2: int| 0 <= j2 < n_features
                        ==> #[trigger] dw@[j2] == grad_w_acc(x@, y@, w@, b, j2, x@.rows),
                    new_w@.len() == j,
                    forall|j2: int| 0 <= j2 < j
                        ==> #[trigger] new_w@[j2]
                            == sub_bits(w@[j2], step_scale(x@, grad_w_acc(x@, y@, w@, b, j2, x@.rows), lr)),
            {
                new_w.push(sub32(w[j], mul32(div32(dw[j], nf32), lr)));
            }
            let b_next = sub32(b, mul32(div32(db, nf32), lr));
            proof {
                assert(new_w@ =~= step_w(x@, y@, w@, b, lr));
                assert(b_next == step_b(x@, y@, w@, b, lr));
            }
            w = new_w;
            b = b_next;
        }
        self.weights = w;
        self.bias = b;
        proof {
            lemma_gd_iter_w_len(x@, y@, lr, iters as int);
        }
        Ok(())
    }

    /// One prediction per row of `x`, each row handled by its own parallel
    /// task.  Succeeds exactly when the feature count of `x` matches the
    /// trained weight count.
    pub fn predict(&self, x: &Matrix) -> (r: Result<Vec<u32>, MathError>)
        requires
            x@.wf(),
        ensures
            match r {
                Ok(v) => x@.cols == self.weights@.len() && v@.len() == x@.rows
                    && forall|i: int| 0 <= i < x@.rows
                        ==> #[trigger] v@[i] == prediction(x@, self.weights@, self.bias, i),
                Err(e) => e == MathError::DimensionMismatchError
                    && x@.cols != self.weights@.len(),
            },
    {
        if x.cols != self.weights.len() {
            return Err(MathError::DimensionMismatchError);
        }
        Ok(par_predict_rows(x, &self.weights, self.bias))
    }
}

} // verus!

use turbo_ml::MathError;
use turbo_ml::matrix::Matrix;
use turbo_ml::solver::Solver;

fn bits(v: &[f32]) -> Vec<u32> {
    v.iter().map(|x| x.to_bits()).collect()
}

fn floats(v: &[u32]) -> Vec<f32> {
    v.iter().map(|x| f32::from_bits(*x)).collect()
}

fn mat(v: &[f32], rows: usize, cols: usize) -> Matrix {
    Matrix::new(bits(v), rows, cols).unwrap()
}

#[test]
fn fit_is_deterministic() {
    let x = mat(&[1.0, 2.0, 3.0, 4.0], 4, 1);
    let y = bits(&[2.0, 4.0, 6.0, 8.0]);
    let mut s1 = Solver::new(0.01f32.to_bits(), 100);
    let mut s2 = Solver::new(0.01f32.to_bits(), 100);
    s1.fit(&x, &y).unwrap();
    s2.fit(&x, &y).unwrap();
    assert_eq!(s1.weights, s2.weights);
    assert_eq!(s1.bias, s2.bias);
}

#[test]
fn fit_end_to_end() {
    let x = mat(&[1.0, 2.0, 3.0, 4.0], 4, 1);
    let y = bits(&[2.0, 4.0, 6.0, 8.0]);
    let mut s = Solver::new(0.01f32.to_bits(), 1000);
    s.fit(&x, &y).unwrap();
    let w = floats(&s.weights);
    assert_eq!(w.len(), 1);
    let b = f32::from_bits(s.bias);
    assert!((w[0] - 2.0).abs() < 0.1, "weight {}", w[0]);
    // after exactly 1000 rounds the bias has only decayed to ~0.136; a
    // sequential binary32 reference run reaches the same value bit for bit
    assert!(b.abs() < 0.2, "bias {b}");
    let x_new = mat(&[5.0], 1, 1);
    let p = floats(&s.predict(&x_new).unwrap());
    assert_eq!(p.len(), 1);
    assert!((p[0] - 10.0).abs() < 0.5, "prediction {}", p[0]);
}

#[test]
fn fit_sample_count_mismatch() {
    let x = mat(&[1.0, 2.0, 3.0, 4.0], 4, 1);
    let y = bits(&[2.0, 4.0, 6.0]);
    let mut s = Solver::new(0.01f32.to_bits(), 10);
    assert_eq!(s.fit(&x, &y).unwrap_err(), MathError::DimensionMismatchError);
    assert!(s.weights.is_empty());
    assert_eq!(f32::from_bits(s.bias), 0.0);
}

#[test]
fn predict_before_fit_mismatch() {
    let s = Solver::new(0.01f32.to_bits(), 10);
    let x = mat(&[1.0, 2.0], 2, 1);
    assert_eq!(s.predict(&x).unwrap_err(), MathError::DimensionMismatchError);
}

#[test]
fn predict_feature_count_mismatch() {
    let x = mat(&[1.0, 2.0, 3.0, 4.0], 4, 1);
    let y = bits(&[2.0, 4.0, 6.0, 8.0]);
    let mut s = Solver::new(0.01f32.to_bits(), 50);
    s.fit(&x, &y).unwrap();
    let wide = mat(&[1.0, 2.0, 3.0, 4.0], 2, 2);
    assert_eq!(s.predict(&wide).unwrap_err(), MathError::DimensionMismatchError);
}

#[test]
fn fit_resets_previous_training() {
    let xa = mat(&[1.0, 2.0, 3.0], 3, 1);
    let ya = bits(&[3.0, 6.0, 9.0]);
    let xb = mat(&[1.0, 2.0, 3.0, 4.0], 4, 1);
    let yb = bits(&[2.0, 4.0, 6.0, 8.0]);
    let mut twice = Solver::new(0.01f32.to_bits(), 200);
    twice.fit(&xa, &ya).unwrap();
    twice.fit(&xb, &yb).unwrap();
    let mut fresh = Solver::new(0.01f32.to_bits(), 200);
    fresh.fit(&xb, &yb).unwrap();
    assert_eq!(twice.weights, fresh.weights);
    assert_eq!(twice.bias, fresh.bias);
}

#[test]
fn predict_exact_values() {
    // a hand-built trained state: weights [2.0], bias 1.0
    let mut s = Solver::new(0.5f32.to_bits(), 0);
    s.weights = bits(&[2.0]);
    s.bias = 1.0f32.to_bits();
    let x = mat(&[1.0, 2.0, 3.0], 3, 1);
    let p = floats(&s.predict(&x).unwrap());
    assert_eq!(p, vec![3.0, 5.0, 7.0]);
}

#[test]
fn fit_zero_iterations_gives_zero_model() {
    let x = mat(&[1.0, 2.0], 2, 1);
    let y = bits(&[5.0, 9.0]);
    let mut s = Solver::new(0.1f32.to_bits(), 0);
    s.fit(&x, &y).unwrap();
    assert_eq!(floats(&s.weights), vec![0.0]);
    assert_eq!(f32::from_bits(s.bias), 0.0);
}

#[test]
fn fit_matches_sequential_reference() {
    // two features, a few samples: compare against a plain sequential
    // gradient-descent loop in the same accumulation order
    let xv = [1.0f32, 2.0, 2.0, 1.0, 3.0, 0.5, 0.0, 4.0];
    let yv = [5.0f32, 4.0, 6.5, 8.0];
    let (n, d) = (4usize, 2usize);
    let lr = 0.05f32;
    let iters = 60usize;
    let x = mat(&xv, n, d);
    let y = bits(&yv);
    let mut s = Solver::new(lr.to_bits(), iters);
    s.fit(&x, &y).unwrap();

    let mut w = vec![0.0f32; d];
    let mut b = 0.0f32;
    for _ in 0..iters {
        let mut dw = vec![0.0f32; d];
        let mut db = 0.0f32;
        for i in 0..n {
            let mut pred = b;
            for j in 0..d {
                pred += w[j] * xv[i * d + j];
            }
            let err = pred - yv[i];
            for j in 0..d {
                dw[j] += err * xv[i * d + j];
            }
            db += err;
        }
        for j in 0..d {
            w[j] -= (dw[j] / n as f32) * lr;
        }
        b -= (db / n as f32) * lr;
    }
    let got_w = floats(&s.weights);
    for j in 0..d {
        assert!((got_w[j] - w[j]).abs() <= 1e-4, "weight {j}: {} vs {}", got_w[j], w[j]);
    }
    assert!((f32::from_bits(s.bias) - b).abs() <= 1e-4);
}

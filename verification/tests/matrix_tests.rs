use turbo_ml::MathError;
use turbo_ml::matrix::Matrix;

fn bits(v: &[f32]) -> Vec<u32> {
    v.iter().map(|x| x.to_bits()).collect()
}

fn floats(v: &[u32]) -> Vec<f32> {
    v.iter().map(|x| f32::from_bits(*x)).collect()
}

fn mat(v: &[f32], rows: usize, cols: usize) -> Matrix {
    Matrix::new(bits(v), rows, cols).unwrap()
}

fn approx(a: f32, b: f32, tol: f32) -> bool {
    (a - b).abs() <= tol
}

#[test]
fn construct_valid() {
    let m = mat(&[1.0, 2.0, 3.0, 4.0, 5.0, 6.0], 2, 3);
    assert_eq!(m.shape(), (2, 3));
    assert_eq!(floats(&m.to_list()), vec![1.0, 2.0, 3.0, 4.0, 5.0, 6.0]);
}

#[test]
fn construct_shape_error() {
    assert_eq!(
        Matrix::new(bits(&[1.0, 2.0, 3.0, 4.0, 5.0]), 2, 3).unwrap_err(),
        MathError::ShapeError
    );
    assert_eq!(
        Matrix::new(bits(&[1.0, 2.0, 3.0, 4.0, 5.0, 6.0]), 3, 3).unwrap_err(),
        MathError::ShapeError
    );
    assert_eq!(Matrix::new(bits(&[1.0, 2.0]), 0, 5).unwrap_err(), MathError::ShapeError);
    assert_eq!(Matrix::new(Vec::new(), 1, 1).unwrap_err(), MathError::ShapeError);
}

#[test]
fn construct_empty_ok() {
    let m = Matrix::new(Vec::new(), 0, 7).unwrap();
    assert_eq!(m.shape(), (0, 7));
    assert!(m.to_list().is_empty());
}

#[test]
fn matmul_shape_and_values() {
    let a = mat(&[1.0, 2.0, 3.0, 4.0, 5.0, 6.0], 2, 3);
    let b = mat(&[7.0, 8.0, 9.0, 10.0, 11.0, 12.0], 3, 2);
    let c = a.matmul(&b).unwrap();
    assert_eq!(c.shape(), (2, 2));
    let got = floats(&c.to_list());
    let want = [58.0f32, 64.0, 139.0, 154.0];
    for (g, w) in got.iter().zip(want.iter()) {
        assert!(approx(*g, *w, 1e-3), "got {g}, want {w}");
    }
}

#[test]
fn matmul_matches_sequential_reference() {
    let av = [0.5f32, -1.25, 2.0, 3.5, 4.0, -0.75, 1.5, 2.25, -3.0, 0.125, 5.0, -2.5];
    let bv = [1.5f32, -0.5, 2.5, 0.25, -1.0, 3.0, 0.75, -2.0];
    let a = mat(&av, 3, 4);
    let b = mat(&bv, 4, 2);
    let c = a.matmul(&b).unwrap();
    let got = floats(&c.to_list());
    // naive sequential triple loop, same accumulation order
    let (n, m, p) = (3usize, 4usize, 2usize);
    let mut want = vec![0.0f32; n * p];
    for i in 0..n {
        for k in 0..m {
            let va = av[i * m + k];
            for j in 0..p {
                want[i * p + j] += va * bv[k * p + j];
            }
        }
    }
    for (g, w) in got.iter().zip(want.iter()) {
        assert!(approx(*g, *w, 1e-4), "got {g}, want {w}");
    }
}

#[test]
fn matmul_shape_mismatch() {
    let a = mat(&[1.0, 2.0, 3.0, 4.0, 5.0, 6.0], 2, 3);
    let b = mat(&[1.0, 2.0, 3.0, 4.0], 2, 2);
    assert_eq!(a.matmul(&b).unwrap_err(), MathError::ShapeMismatchError);
}

#[test]
fn transpose_values() {
    let a = mat(&[1.0, 2.0, 3.0, 4.0, 5.0, 6.0], 2, 3);
    let t = a.transpose();
    assert_eq!(t.shape(), (3, 2));
    assert_eq!(floats(&t.to_list()), vec![1.0, 4.0, 2.0, 5.0, 3.0, 6.0]);
}

#[test]
fn transpose_twice_is_identity() {
    let a = mat(&[0.5, -2.0, 3.25, 7.0, -0.125, 9.5], 3, 2);
    let tt = a.transpose().transpose();
    assert_eq!(tt.shape(), a.shape());
    assert_eq!(tt.to_list(), a.to_list());
}

#[test]
fn scalar_add_zero_is_identity() {
    let a = mat(&[1.5, -2.25, 0.0, 3.0], 2, 2);
    let r = a.scalar_add(0.0f32.to_bits());
    assert_eq!(r.shape(), (2, 2));
    assert_eq!(floats(&r.to_list()), floats(&a.to_list()));
}

#[test]
fn scalar_mul_one_is_identity() {
    let a = mat(&[1.5, -2.25, 0.0, 3.0], 2, 2);
    let r = a.scalar_mul(1.0f32.to_bits());
    assert_eq!(r.shape(), (2, 2));
    assert_eq!(floats(&r.to_list()), floats(&a.to_list()));
}

#[test]
fn scalar_add_values() {
    let a = mat(&[1.0, -2.5, 0.25, 4.0], 2, 2);
    let r = a.scalar_add(2.5f32.to_bits());
    assert_eq!(floats(&r.to_list()), vec![3.5, 0.0, 2.75, 6.5]);
}

#[test]
fn scalar_mul_values() {
    let a = mat(&[1.0, -2.5, 0.25, 4.0], 2, 2);
    let r = a.scalar_mul(2.0f32.to_bits());
    assert_eq!(floats(&r.to_list()), vec![2.0, -5.0, 0.5, 8.0]);
}

#[test]
fn scalar_ops_match_sequential_reference() {
    let av = [0.1f32, -7.25, 3.1415, 88.0, -0.0625, 123456.0];
    let a = mat(&av, 2, 3);
    let v = 1.7f32;
    let add_got = floats(&a.scalar_add(v.to_bits()).to_list());
    let mul_got = floats(&a.scalar_mul(v.to_bits()).to_list());
    for (i, x) in av.iter().enumerate() {
        assert_eq!(add_got[i], x + v);
        assert_eq!(mul_got[i], x * v);
    }
}

use curve25519_dalek::scalar::Scalar;
use zk_wordle::circuit::{
    build_matrix_a, build_matrix_b, build_matrix_c, game_constraints, A_LEN, B_LEN, C_LEN,
};

#[test]
fn matrix_sizes() {
    assert_eq!(build_matrix_a().len(), A_LEN);
    assert_eq!(build_matrix_b().len(), B_LEN);
    assert_eq!(build_matrix_c().len(), C_LEN);
}

#[test]
fn every_coefficient_is_plus_or_minus_one() {
    let one = Scalar::from(1u8).to_bytes();
    let neg_one = (-Scalar::from(1u8)).to_bytes();
    for e in build_matrix_a().iter().chain(build_matrix_b().iter()).chain(build_matrix_c().iter())
    {
        assert!(e.2 == one || e.2 == neg_one);
    }
}

#[test]
fn spot_check_entries() {
    let one = Scalar::from(1u8).to_bytes();
    let neg_one = (-Scalar::from(1u8)).to_bytes();
    let a = build_matrix_a();
    let b = build_matrix_b();
    let c = build_matrix_c();
    // first chain row of position 0: (w[0] - g[0]) * (w[1] - g[0]) = m[0][0]
    assert_eq!(a[0], (0, 0, one));
    assert_eq!(a[1], (0, 65, neg_one));
    assert_eq!(b[0], (0, 1, one));
    assert_eq!(b[1], (0, 65, neg_one));
    assert_eq!(c[0], (0, 5, one));
    // first presence row of position 0: F(0) * ep[0] = 1 - P[0]
    assert_eq!(a[25], (20, 8, one));
    assert_eq!(b[40], (20, 25, one));
    assert_eq!(c[20], (20, 64, one));
    assert_eq!(c[21], (20, 70, neg_one));
    // last correctness rows: (w[4] - g[4]) * Q[4] = 0
    assert_eq!(a[53], (31 + 2 * 4, 4, one));
    assert_eq!(a[54], (31 + 2 * 4, 65 + 4, neg_one));
    assert_eq!(b[59], (39, 79, one));
    assert_eq!(c[39], (38, 79, neg_one));
}

#[test]
fn rows_and_columns_in_range() {
    for e in build_matrix_a().iter().chain(build_matrix_b().iter()).chain(build_matrix_c().iter())
    {
        assert!(e.0 < 64);
        assert!(e.1 < 64 + 1 + 15);
    }
}

#[test]
fn backend_accepts_the_circuit() {
    assert!(game_constraints().is_ok());
}

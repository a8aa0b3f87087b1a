use vstd::prelude::*;
use crate::errors::GameError;
use crate::backend::{
    entries_ok, entry_views, instance_build, instance_max_entries, instance_new, instance_of,
    instance_num_inputs, instance_num_vars,
};
use crate::encode::{
    canonical_scalar, scalar_repr, neg_scalar_repr, scalar_bytes_from_u8, scalar_neg_bytes,
};

verus! {

// ---------------------------------------------------------------------
// The circuit.
//
// One fixed rank-1 constraint system covers every word/guess pair; it is
// the circuit, never an instance. Each constraint is
// `(A·z) * (B·z) = (C·z)` over the full vector
// `z = private variables ++ [1] ++ public inputs`.
//
// Letters enter as field values (the direct encoding: a letter is its
// rank). Writing d(i,j) for the linear form `w[j] - g[i]`, position i's
// guessed letter occurs in the word exactly when the running product
// F(i) = d(i,0)·d(i,1)·d(i,2)·d(i,3)·d(i,4) vanishes, and it is correct
// exactly when d(i,i) vanishes; each "is zero" claim is fixed by the
// standard inverse-witness pair of constraints.
//
// Private variables (columns 0..64; 35 used, the rest zero padding):
//     0..5     w[j]       the hidden word's letter ranks
//     5..25    m[i][s]    running products: m[i][0] = d(i,0)·d(i,1),
//                         m[i][s] = m[i][s-1]·d(i,s+1); m[i][3] = F(i)
//    25..30    ep[i]      inverse of F(i) when it is nonzero, else 0
//    30..35    eq[i]      inverse of d(i,i) when it is nonzero, else 0
//
// Column 64 is the constant one. Public inputs (columns 65..80):
//    65..70    g[i]       the guess's letter ranks
//    70..75    P[i]       claimed presence bit per position
//    75..80    Q[i]       claimed correctness bit per position
//
// Constraint rows (40 used out of 64):
//     0..20    rows 4i+s: the product chains
//                s = 0:    (w[0] - g[i]) * (w[1] - g[i]) = m[i][0]
//                s = 1..3: m[i][s-1] * (w[s+1] - g[i])   = m[i][s]
//    20..30    rows 20+2i: F(i) * ep[i] = 1 - P[i]
//              rows 21+2i: F(i) * P[i]  = 0
//                (so P[i] = 1 exactly when some position matches g[i])
//    30..40    rows 30+2i: (w[i] - g[i]) * eq[i] = 1 - Q[i]
//              rows 31+2i: (w[i] - g[i]) * Q[i]  = 0
//                (so Q[i] = 1 exactly when w[i] = g[i])
//
// Every nonzero coefficient is 1 or -1, so each matrix is fully
// described by its entry positions and a sign.
// ---------------------------------------------------------------------

/// Declared number of constraint rows (a power of two; rows beyond 40
/// carry no entries and hold trivially).
pub const NUM_CONS: usize = 64;

/// Declared number of private variables (a power of two; slots beyond
/// 35 are zero padding).
pub const NUM_VARS: usize = 64;

/// Number of public inputs: the guess's five ranks plus the two
/// five-bit feedback vectors.
pub const NUM_INPUTS: usize = 15;

/// Upper bound on the non-zero entries of any one matrix, for the
/// backend's parameter generation.
pub const NUM_NONZERO: usize = 64;

/// Number of entries of matrix A.
pub const A_LEN: usize = 55;

/// Number of entries of matrix B.
pub const B_LEN: usize = 60;

/// Number of entries of matrix C.
pub const C_LEN: usize = 40;

/// The (row, column, sign) of entry `k` of matrix A (`true` is +1,
/// `false` is -1), in construction order: product chains, presence
/// rows, correctness rows.
pub open spec fn a_entry(k: int) -> (int, int, bool) {
    if k < 25 {
        // chain row 4i: the first factor w[0] - g[i]; later chain rows
        // carry the previous running product
        let i = k / 5;
        let r = k % 5;
        if r == 0 {
            (4 * i, 0, true)
        } else if r == 1 {
            (4 * i, 65 + i, false)
        } else {
            (4 * i + (r - 1), 5 + 4 * i + (r - 2), true)
        }
    } else if k < 35 {
        // F(i) = m[i][3] on both presence rows of position i
        let t = k - 25;
        (20 + t, 8 + 4 * (t / 2), true)
    } else {
        // w[i] - g[i] on both correctness rows of position i
        let t = k - 35;
        let i = t / 4;
        let r = t % 4;
        (30 + 2 * i + r / 2, if r % 2 == 0 { i } else { 65 + i }, r % 2 == 0)
    }
}

/// The (row, column, sign) of entry `k` of matrix B, in the same group
/// order.
pub open spec fn b_entry(k: int) -> (int, int, bool) {
    if k < 40 {
        // chain row 4i+s multiplies by w[s+1] - g[i]
        let i = k / 8;
        let r = k % 8;
        (4 * i + r / 2, if r % 2 == 0 { 1 + r / 2 } else { 65 + i }, r % 2 == 0)
    } else if k < 50 {
        // ep[i] on the first presence row, the input P[i] on the second
        let t = k - 40;
        let i = t / 2;
        (20 + t, if t % 2 == 0 { 25 + i } else { 70 + i }, true)
    } else {
        // eq[i] on the first correctness row, the input Q[i] on the second
        let t = k - 50;
        let i = t / 2;
        (30 + t, if t % 2 == 0 { 30 + i } else { 75 + i }, true)
    }
}

/// The (row, column, sign) of entry `k` of matrix C, in the same group
/// order.
pub open spec fn c_entry(k: int) -> (int, int, bool) {
    if k < 20 {
        // chain row t assigns the running product m-slot
        (k, 5 + k, true)
    } else if k < 30 {
        // the first presence row receives 1 - P[i]
        let t = k - 20;
        let i = t / 2;
        (20 + 2 * i, if t % 2 == 0 { 64 } else { 70 + i }, t % 2 == 0)
    } else {
        // the first correctness row receives 1 - Q[i]
        let t = k - 30;
        let i = t / 2;
        (30 + 2 * i, if t % 2 == 0 { 64 } else { 75 + i }, t % 2 == 0)
    }
}

/// Matrix A as the sequence of its entry views.
pub open spec fn circuit_matrix_a() -> Seq<(int, int, Seq<u8>)> {
    Seq::new(A_LEN as nat, |k: int| (a_entry(k).0, a_entry(k).1, sign_repr(a_entry(k).2)))
}

/// Matrix B as the sequence of its entry views.
pub open spec fn circuit_matrix_b() -> Seq<(int, int, Seq<u8>)> {
    Seq::new(B_LEN as nat, |k: int| (b_entry(k).0, b_entry(k).1, sign_repr(b_entry(k).2)))
}

/// Matrix C as the sequence of its entry views.
pub open spec fn circuit_matrix_c() -> Seq<(int, int, Seq<u8>)> {
    Seq::new(C_LEN as nat, |k: int| (c_entry(k).0, c_entry(k).1, sign_repr(c_entry(k).2)))
}

/// The one constraint-system handle of this circuit: what the backend
/// deterministically builds from the fixed shape and the three
/// matrices above.
pub open spec fn the_circuit_instance() -> libspartan::Instance {
    instance_of(
        NUM_CONS as nat,
        NUM_VARS as nat,
        NUM_INPUTS as nat,
        circuit_matrix_a(),
        circuit_matrix_b(),
        circuit_matrix_c(),
    )
}

/// The coefficient bytes an entry sign stands for.
pub open spec fn sign_repr(positive: bool) -> Seq<u8> {
    if positive {
        scalar_repr(1)
    } else {
        neg_scalar_repr(1)
    }
}

/// Builds the entry list of matrix A: positions and signs as `a_entry`.
pub fn build_matrix_a() -> (a: Vec<(usize, usize, [u8; 32])>)
    ensures
        a@.len() == A_LEN,
        forall|k: int|
            0 <= k < A_LEN ==> {
                let e = a_entry(k);
                ((#[trigger] a@[k]).0 as int, a@[k].1 as int) == (e.0, e.1) && a@[k].2@
                    == sign_repr(e.2)
            },
        entries_ok(a@, NUM_CONS as int, (NUM_VARS + 1 + NUM_INPUTS) as int),
{
    let one = scalar_bytes_from_u8(1);
    let neg_one = scalar_neg_bytes(1);
    let mut a: Vec<(usize, usize, [u8; 32])> = Vec::new();
    for k in 0..A_LEN
        invariant
            one@ == scalar_repr(1),
            neg_one@ == neg_scalar_repr(1),
            canonical_scalar(one@),
            canonical_scalar(neg_one@),
            a@.len() == k,
            forall|m: int|
                0 <= m < k ==> {
                    let e = a_entry(m);
                    ((#[trigger] a@[m]).0 as int, a@[m].1 as int) == (e.0, e.1) && a@[m].2@
                        == sign_repr(e.2)
                },
            entries_ok(a@.take(k as int), NUM_CONS as int, (NUM_VARS + 1 + NUM_INPUTS) as int),
    {
        let entry: (usize, usize, bool) = if k < 25 {
            let i = k / 5;
            let r = k % 5;
            if r == 0 {
                (4 * i, 0, true)
            } else if r == 1 {
                (4 * i, 65 + i, false)
            } else {
                (4 * i + (r - 1), 5 + 4 * i + (r - 2), true)
            }
        } else if k < 35 {
            let t = k - 25;
            (20 + t, 8 + 4 * (t / 2), true)
        } else {
            let t = k - 35;
            let i = t / 4;
            let r = t % 4;
            (30 + 2 * i + r / 2, if r % 2 == 0 { i } else { 65 + i }, r % 2 == 0)
        };
        a.push((entry.0, entry.1, if entry.2 { one } else { neg_one }));
    }
    a
}

/// Builds the entry list of matrix B: positions and signs as `b_entry`.
pub fn build_matrix_b() -> (b: Vec<(usize, usize, [u8; 32])>)
    ensures
        b@.len() == B_LEN,
        forall|k: int|
            0 <= k < B_LEN ==> {
                let e = b_entry(k);
                ((#[trigger] b@[k]).0 as int, b@[k].1 as int) == (e.0, e.1) && b@[k].2@
                    == sign_repr(e.2)
            },
        entries_ok(b@, NUM_CONS as int, (NUM_VARS + 1 + NUM_INPUTS) as int),
{
    let one = scalar_bytes_from_u8(1);
    let neg_one = scalar_neg_bytes(1);
    let mut b: Vec<(usize, usize, [u8; 32])> = Vec::new();
    for k in 0..B_LEN
        invariant
            one@ == scalar_repr(1),
            neg_one@ == neg_scalar_repr(1),
            canonical_scalar(one@),
            canonical_scalar(neg_one@),
            b@.len() == k,
            forall|m: int|
                0 <= m < k ==> {
                    let e = b_entry(m);
                    ((#[trigger] b@[m]).0 as int, b@[m].1 as int) == (e.0, e.1) && b@[m].2@
                        == sign_repr(e.2)
                },
            entries_ok(b@.take(k as int), NUM_CONS as int, (NUM_VARS + 1 + NUM_INPUTS) as int),
    {
        let entry: (usize, usize, bool) = if k < 40 {
            let i = k / 8;
            let r = k % 8;
            (4 * i + r / 2, if r % 2 == 0 { 1 + r / 2 } else { 65 + i }, r % 2 == 0)
        } else if k < 50 {
            let t = k - 40;
            let i = t / 2;
            (20 + t, if t % 2 == 0 { 25 + i } else { 70 + i }, true)
        } else {
            let t = k - 50;
            let i = t / 2;
            (30 + t, if t % 2 == 0 { 30 + i } else { 75 + i }, true)
        };
        b.push((entry.0, entry.1, if entry.2 { one } else { neg_one }));
    }
    b
}

/// Builds the entry list of matrix C: positions and signs as `c_entry`.
pub fn build_matrix_c() -> (c: Vec<(usize, usize, [u8; 32])>)
    ensures
        c@.len() == C_LEN,
        forall|k: int|
            0 <= k < C_LEN ==> {
                let e = c_entry(k);
                ((#[trigger] c@[k]).0 as int, c@[k].1 as int) == (e.0, e.1) && c@[k].2@
                    == sign_repr(e.2)
            },
        entries_ok(c@, NUM_CONS as int, (NUM_VARS + 1 + NUM_INPUTS) as int),
{
    let one = scalar_bytes_from_u8(1);
    let neg_one = scalar_neg_bytes(1);
    let mut c: Vec<(usize, usize, [u8; 32])> = Vec::new();
    for k in 0..C_LEN
        invariant
            one@ == scalar_repr(1),
            neg_one@ == neg_scalar_repr(1),
            canonical_scalar(one@),
            canonical_scalar(neg_one@),
            c@.len() == k,
            forall|m: int|
                0 <= m < k ==> {
                    let e = c_entry(m);
                    ((#[trigger] c@[m]).0 as int, c@[m].1 as int) == (e.0, e.1) && c@[m].2@
                        == sign_repr(e.2)
                },
            entries_ok(c@.take(k as int), NUM_CONS as int, (NUM_VARS + 1 + NUM_INPUTS) as int),
    {
        let entry: (usize, usize, bool) = if k < 20 {
            (k, 5 + k, true)
        } else if k < 30 {
            let t = k - 20;
            let i = t / 2;
            (20 + 2 * i, if t % 2 == 0 { 64 } else { 70 + i }, t % 2 == 0)
        } else {
            let t = k - 30;
            let i = t / 2;
            (30 + 2 * i, if t % 2 == 0 { 64 } else { 75 + i }, t % 2 == 0)
        };
        c.push((entry.0, entry.1, if entry.2 { one } else { neg_one }));
    }
    c
}

/// Assembles the fixed constraint system and hands it to the backend.
/// The shape never depends on a word or a guess. Every entry is proved
/// in range with a canonical coefficient, so the backend accepts the
/// matrices — the `ShapeMismatch` arm of the error taxonomy is shown
/// unreachable — and the returned handle is exactly the one the backend
/// builds from this circuit's matrices, the same on every call.
pub fn game_constraints() -> (r: Result<libspartan::Instance, GameError>)
    ensures
        r is Ok,
        r matches Ok(inst) ==> {
            &&& inst == the_circuit_instance()
            &&& instance_num_vars(inst) >= NUM_VARS
            &&& instance_num_inputs(inst) == NUM_INPUTS
            &&& instance_build(inst) == (NUM_CONS as nat, NUM_VARS as nat, NUM_INPUTS as nat)
            &&& instance_max_entries(inst) <= NUM_NONZERO
        },
{
    let a = build_matrix_a();
    let b = build_matrix_b();
    let c = build_matrix_c();
    proof {
        assert(entry_views(a@) =~= circuit_matrix_a());
        assert(entry_views(b@) =~= circuit_matrix_b());
        assert(entry_views(c@) =~= circuit_matrix_c());
    }
    match instance_new(NUM_CONS, NUM_VARS, NUM_INPUTS, &a, &b, &c) {
        Some(inst) => Ok(inst),
        None => {
            proof {
                assert(false);
            }
            Err(GameError::ShapeMismatch)
        },
    }
}

} // verus!

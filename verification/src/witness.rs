use vstd::prelude::*;
use crate::game::{Word, Guess, GameOutputs, outputs_wf};
use crate::circuit::{NUM_VARS, NUM_INPUTS};
use crate::encode::{
    scalar_repr, sub_repr, mul_repr, inv_repr, canonical_scalar, scalar_bytes_from_u8,
    scalar_sub_bytes, scalar_mul_bytes, scalar_invert_bytes, bytes_is_zero, encode_bool,
};

verus! {

/// The byte standing for a boolean in the field encoding.
pub open spec fn bool_byte(b: bool) -> u8 {
    if b {
        1u8
    } else {
        0u8
    }
}

/// The encoded difference `w[j] - g[i]` between the word's letter at a
/// position and the guessed letter `gi`.
pub open spec fn diff_repr(wj: u8, gi: u8) -> Seq<u8> {
    sub_repr(scalar_repr(wj), scalar_repr(gi))
}

/// The encoded running product
/// `m[i][s] = (w[0] - gi)·(w[1] - gi)·...·(w[s+1] - gi)`
/// of the circuit's chain rows; at `s = 3` it is F(i), which vanishes
/// exactly when `gi` occurs somewhere in the word.
pub open spec fn chain_repr(w: Seq<u8>, gi: u8, s: int) -> Seq<u8>
    decreases s,
{
    if s <= 0 {
        mul_repr(diff_repr(w[0], gi), diff_repr(w[1], gi))
    } else {
        mul_repr(chain_repr(w, gi, s - 1), diff_repr(w[s + 1], gi))
    }
}

/// The value of private-variable slot `k` for hidden word `w` and guess
/// `g`, following the circuit's column layout: the word's five ranks,
/// the twenty running products, the presence inverses, the correctness
/// inverses; every remaining slot is zero padding.
pub open spec fn witness_slot(w: Seq<u8>, g: Seq<u8>, k: int) -> Seq<u8> {
    if k < 5 {
        scalar_repr(w[k])
    } else if k < 25 {
        let t = k - 5;
        chain_repr(w, g[t / 4], t % 4)
    } else if k < 30 {
        // ep[i]: the inverse witness for "F(i) is zero"
        let f = chain_repr(w, g[k - 25], 3);
        if f == scalar_repr(0) {
            scalar_repr(0)
        } else {
            inv_repr(f)
        }
    } else if k < 35 {
        // eq[i]: the inverse witness for "w[i] - g[i] is zero"
        let d = diff_repr(w[k - 30], g[k - 30]);
        if d == scalar_repr(0) {
            scalar_repr(0)
        } else {
            inv_repr(d)
        }
    } else {
        scalar_repr(0)
    }
}

/// The whole private witness of `w` and `g`, as the byte sequences the
/// backend parses.
pub open spec fn witness_reprs(w: Seq<u8>, g: Seq<u8>) -> Seq<Seq<u8>> {
    Seq::new(NUM_VARS as nat, |k: int| witness_slot(w, g, k))
}

/// The value of public-input slot `k` for guess `g` and the claimed
/// feedback vectors `p` (presence) and `q` (correctness): the guess's
/// five ranks, then the five presence bits, then the five correctness
/// bits.
pub open spec fn input_slot(g: Seq<u8>, p: Seq<bool>, q: Seq<bool>, k: int) -> Seq<u8> {
    if k < 5 {
        scalar_repr(g[k])
    } else if k < 10 {
        scalar_repr(bool_byte(p[k - 5]))
    } else {
        scalar_repr(bool_byte(q[k - 10]))
    }
}

/// The whole public-input vector for guess `g` and claimed feedback
/// `p`, `q`, as the byte sequences the backend parses.
pub open spec fn input_reprs(g: Seq<u8>, p: Seq<bool>, q: Seq<bool>) -> Seq<Seq<u8>> {
    Seq::new(NUM_INPUTS as nat, |k: int| input_slot(g, p, q, k))
}

/// Computes the encoded running product `m[i][s]` for the guessed
/// letter `gi`.
fn chain_bytes(w: &Word, gi: u8, s: usize) -> (r: [u8; 32])
    requires
        w.wf(),
        s < 4,
    ensures
        r@ == chain_repr(w@, gi, s as int),
        canonical_scalar(r@),
{
    let gb = scalar_bytes_from_u8(gi);
    let w0 = scalar_bytes_from_u8(w.rank(0));
    let w1 = scalar_bytes_from_u8(w.rank(1));
    let d0 = scalar_sub_bytes(&w0, &gb);
    let d1 = scalar_sub_bytes(&w1, &gb);
    let mut acc = scalar_mul_bytes(&d0, &d1);
    let mut s_cur: usize = 0;
    while s_cur < s
        invariant
            w.wf(),
            s < 4,
            s_cur <= s,
            gb@ == scalar_repr(gi),
            acc@ == chain_repr(w@, gi, s_cur as int),
            canonical_scalar(acc@),
        decreases s - s_cur,
    {
        s_cur = s_cur + 1;
        let wj = scalar_bytes_from_u8(w.rank(s_cur + 1));
        let dj = scalar_sub_bytes(&wj, &gb);
        acc = scalar_mul_bytes(&acc, &dj);
    }
    acc
}

/// The inverse witness for an "is zero" gadget: the field inverse of
/// `d` when `d` is nonzero, and zero otherwise.
fn inverse_or_zero(d: &[u8; 32]) -> (r: [u8; 32])
    ensures
        r@ == if d@ == scalar_repr(0) {
            scalar_repr(0)
        } else {
            inv_repr(d@)
        },
        canonical_scalar(r@),
{
    if bytes_is_zero(d) {
        scalar_bytes_from_u8(0)
    } else {
        scalar_invert_bytes(d)
    }
}

/// Assembles the private witness vector for `w` and `g`, laid out
/// exactly as the constraint matrices expect, with every unused slot
/// zero-filled. Every element is a canonical encoding, so the backend's
/// assignment parser accepts the vector.
pub fn build_witness(w: &Word, g: &Guess) -> (vars: Vec<[u8; 32]>)
    requires
        w.wf(),
        g.wf(),
    ensures
        vars@.len() == NUM_VARS,
        forall|k: int| 0 <= k < NUM_VARS ==> (#[trigger] vars@[k])@ == witness_slot(w@, g@, k),
        forall|k: int| 0 <= k < NUM_VARS ==> canonical_scalar((#[trigger] vars@[k])@),
        vars@.map_values(|v: [u8; 32]| v@) == witness_reprs(w@, g@),
{
    let mut vars: Vec<[u8; 32]> = Vec::new();
    for k in 0..NUM_VARS
        invariant
            w.wf(),
            g.wf(),
            vars@.len() == k,
            forall|m: int| 0 <= m < k ==> (#[trigger] vars@[m])@ == witness_slot(w@, g@, m),
            forall|m: int| 0 <= m < k ==> canonical_scalar((#[trigger] vars@[m])@),
    {
        let v: [u8; 32] = if k < 5 {
            scalar_bytes_from_u8(w.rank(k))
        } else if k < 25 {
            let t = k - 5;
            chain_bytes(w, g.rank(t / 4), t % 4)
        } else if k < 30 {
            let f = chain_bytes(w, g.rank(k - 25), 3);
            inverse_or_zero(&f)
        } else if k < 35 {
            let i = k - 30;
            let wi = scalar_bytes_from_u8(w.rank(i));
            let gi = scalar_bytes_from_u8(g.rank(i));
            let d = scalar_sub_bytes(&wi, &gi);
            inverse_or_zero(&d)
        } else {
            scalar_bytes_from_u8(0)
        };
        vars.push(v);
    }
    proof {
        assert(vars@.map_values(|v: [u8; 32]| v@) =~= witness_reprs(w@, g@));
    }
    vars
}

/// Assembles the public-input vector the verifier also computes for
/// itself: the guess's ranks followed by the claimed presence and
/// correctness bits. Every element is a canonical encoding.
pub fn build_public_inputs(g: &Guess, outs: &GameOutputs) -> (ins: Vec<[u8; 32]>)
    requires
        g.wf(),
        outputs_wf(outs),
    ensures
        ins@.len() == NUM_INPUTS,
        forall|k: int|
            0 <= k < NUM_INPUTS ==> (#[trigger] ins@[k])@ == input_slot(
                g@,
                outs.letter_in_word@,
                outs.letter_correct@,
                k,
            ),
        forall|k: int| 0 <= k < NUM_INPUTS ==> canonical_scalar((#[trigger] ins@[k])@),
        ins@.map_values(|v: [u8; 32]| v@) == input_reprs(
            g@,
            outs.letter_in_word@,
            outs.letter_correct@,
        ),
{
    let mut ins: Vec<[u8; 32]> = Vec::new();
    for k in 0..NUM_INPUTS
        invariant
            g.wf(),
            outputs_wf(outs),
            ins@.len() == k,
            forall|m: int|
                0 <= m < k ==> (#[trigger] ins@[m])@ == input_slot(
                    g@,
                    outs.letter_in_word@,
                    outs.letter_correct@,
                    m,
                ),
            forall|m: int| 0 <= m < k ==> canonical_scalar((#[trigger] ins@[m])@),
    {
        let v: [u8; 32] = if k < 5 {
            scalar_bytes_from_u8(g.rank(k))
        } else if k < 10 {
            encode_bool(outs.letter_in_word[k - 5])
        } else {
            encode_bool(outs.letter_correct[k - 10])
        };
        ins.push(v);
    }
    proof {
        assert(ins@.map_values(|v: [u8; 32]| v@) =~= input_reprs(
            g@,
            outs.letter_in_word@,
            outs.letter_correct@,
        ));
    }
    ins
}

} // verus!

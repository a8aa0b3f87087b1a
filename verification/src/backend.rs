use vstd::prelude::*;
use crate::encode::canonical_scalar;

verus! {

// The proving backend's objects are opaque here: a constraint system
// handle, public parameters, a commitment with its decommitment, dense
// variable/input assignments, and the proof itself. The library only
// moves them between the five lifecycle operations and never looks
// inside; what the contracts need of them is said through the named
// spec functions below.

#[verifier::external_type_specification]
#[verifier::external_body]
pub struct ExInstance(libspartan::Instance);

#[verifier::external_type_specification]
#[verifier::external_body]
pub struct ExSnarkGens(libspartan::SNARKGens);

#[verifier::external_type_specification]
#[verifier::external_body]
pub struct ExSnark(libspartan::SNARK);

#[verifier::external_type_specification]
#[verifier::external_body]
pub struct ExComputationCommitment(libspartan::ComputationCommitment);

#[verifier::external_type_specification]
#[verifier::external_body]
pub struct ExComputationDecommitment(libspartan::ComputationDecommitment);

#[verifier::external_type_specification]
#[verifier::external_body]
pub struct ExAssignment(libspartan::Assignment);

/// How many field elements an assignment holds.
pub uninterp spec fn assignment_len(a: libspartan::Assignment) -> nat;

/// The assignment value parsed from a sequence of canonical 32-byte
/// encodings; parsing is deterministic in the bytes.
pub uninterp spec fn assignment_of(vals: Seq<Seq<u8>>) -> libspartan::Assignment;

/// The padded variable count a constraint-system handle carries.
pub uninterp spec fn instance_num_vars(inst: libspartan::Instance) -> nat;

/// The public-input count a constraint-system handle carries.
pub uninterp spec fn instance_num_inputs(inst: libspartan::Instance) -> nat;

/// The (constraint, variable, input) counts a constraint-system handle
/// was built with, before the backend's padding.
pub uninterp spec fn instance_build(inst: libspartan::Instance) -> (nat, nat, nat);

/// The largest entry count among the three matrices a constraint-system
/// handle stores.
pub uninterp spec fn instance_max_entries(inst: libspartan::Instance) -> nat;

/// A fingerprint identifying the constraint matrices a handle stores;
/// commitments and decommitments derived from a handle carry the same
/// fingerprint.
pub uninterp spec fn instance_key(inst: libspartan::Instance) -> Seq<u8>;

/// The (row, column, coefficient-bytes) views of a matrix's entries.
pub open spec fn entry_views(v: Seq<(usize, usize, [u8; 32])>) -> Seq<(int, int, Seq<u8>)> {
    v.map_values(|e: (usize, usize, [u8; 32])| (e.0 as int, e.1 as int, e.2@))
}

/// The constraint-system handle the backend builds from the given
/// shape and matrices: `Instance::new` is deterministic in its
/// arguments, so equal circuits give equal handles (and so, downstream,
/// equal commitments).
pub uninterp spec fn instance_of(
    num_cons: nat,
    num_vars: nat,
    num_inputs: nat,
    a: Seq<(int, int, Seq<u8>)>,
    b: Seq<(int, int, Seq<u8>)>,
    c: Seq<(int, int, Seq<u8>)>,
) -> libspartan::Instance;

/// Whether a proof value's internal structure — its vector lengths and
/// compressed curve points — fits the committed shape, so that the
/// backend's verifier runs to completion on it instead of asserting.
/// Honestly produced proofs fit their own session; bytes crafted to
/// parse need not.
pub uninterp spec fn snark_fits(
    proof: libspartan::SNARK,
    comm: libspartan::ComputationCommitment,
    gens: libspartan::SNARKGens,
) -> bool;

/// The public-input count recorded inside a computation commitment.
pub uninterp spec fn comm_num_inputs(comm: libspartan::ComputationCommitment) -> nat;

/// The fingerprint of the constraint system a commitment was derived
/// from.
pub uninterp spec fn comm_key(comm: libspartan::ComputationCommitment) -> Seq<u8>;

/// The fingerprint of the constraint system a decommitment was derived
/// from.
pub uninterp spec fn decomm_key(decomm: libspartan::ComputationDecommitment) -> Seq<u8>;

/// The (constraint, variable, input, non-zero entry) counts a set of
/// public parameters was generated for.
pub uninterp spec fn gens_params(gens: libspartan::SNARKGens) -> (nat, nat, nat, nat);

/// Whether an assignment pair satisfies a constraint system: the
/// backend's satisfiability check, deterministic in its arguments.
pub uninterp spec fn instance_sat(
    inst: libspartan::Instance,
    vars: libspartan::Assignment,
    inputs: libspartan::Assignment,
) -> bool;

/// The verifier's verdict on a proof against a commitment, public
/// inputs and parameters, under this protocol's fixed transcript label.
/// The backend's verifier draws no randomness, so the verdict is a
/// function of the four arguments.
pub uninterp spec fn snark_verifies(
    proof: libspartan::SNARK,
    comm: libspartan::ComputationCommitment,
    inputs: libspartan::Assignment,
    gens: libspartan::SNARKGens,
) -> bool;

/// The byte form of a proof object; serialization is deterministic.
pub uninterp spec fn snark_bytes(proof: libspartan::SNARK) -> Seq<u8>;

/// Whether a byte string parses into a proof object.
pub uninterp spec fn parse_ok(bytes: Seq<u8>) -> bool;

/// The proof object a parseable byte string parses into; parsing is
/// deterministic.
pub uninterp spec fn parsed_snark(bytes: Seq<u8>) -> libspartan::SNARK;

/// The largest of three entry counts.
pub open spec fn max3(a: nat, b: nat, c: nat) -> nat {
    if a >= b && a >= c {
        a
    } else if b >= c {
        b
    } else {
        c
    }
}

/// The generators agree with the shape the instance was built from, and
/// have room for its non-zero entries: what the backend's commit and
/// prove paths demand of a (instance, generators) pair.
pub open spec fn gens_match(
    inst: libspartan::Instance,
    gens: libspartan::SNARKGens,
) -> bool {
    &&& gens_params(gens).0 == instance_build(inst).0
    &&& gens_params(gens).1 == instance_build(inst).1
    &&& gens_params(gens).2 == instance_build(inst).2
    &&& instance_max_entries(inst) <= gens_params(gens).3
}

/// Every entry of a matrix names a row below `num_cons`, a column below
/// `width`, and a canonically encoded coefficient: the condition under
/// which the backend accepts the matrix.
pub open spec fn entries_ok(
    v: Seq<(usize, usize, [u8; 32])>,
    num_cons: int,
    width: int,
) -> bool {
    forall|k: int|
        0 <= k < v.len() ==> (#[trigger] v[k]).0 < num_cons && v[k].1 < width && canonical_scalar(
            v[k].2@,
        )
}

/// Relies on libspartan's `Assignment::new`: it parses each 32-byte
/// little-endian element into a field scalar, succeeding exactly when
/// every element is a canonical encoding, keeping their number and
/// order; parsing is deterministic. The backend's error type is not
/// nameable outside its crate, so a rejection comes back as `None`.
#[verifier::external_body]
pub(crate) fn assignment_new(vals: &Vec<[u8; 32]>) -> (r: Option<libspartan::Assignment>)
    ensures
        r is Some <==> (forall|k: int| 0 <= k < vals@.len() ==> canonical_scalar(vals@[k]@)),
        r matches Some(a) ==> {
            &&& assignment_len(a) == vals@.len()
            &&& a == assignment_of(vals@.map_values(|v: [u8; 32]| v@))
        },
{
    libspartan::Assignment::new(vals.as_slice()).ok()
}

/// Relies on libspartan's `Instance::new`: it stores the three sparse
/// matrices, padding the variable count up to at least `num_inputs + 1`
/// and to a power of two, and keeps the declared input count. It
/// accepts exactly the matrices whose every entry has an in-range row
/// and column and a canonical coefficient encoding, and with at least
/// two constraints it returns rather than panics on every input.
#[verifier::external_body]
pub(crate) fn instance_new(
    num_cons: usize,
    num_vars: usize,
    num_inputs: usize,
    a: &Vec<(usize, usize, [u8; 32])>,
    b: &Vec<(usize, usize, [u8; 32])>,
    c: &Vec<(usize, usize, [u8; 32])>,
) -> (r: Option<libspartan::Instance>)
    requires
        2 <= num_cons,
        num_cons <= 0x10000,
        num_vars <= 0x10000,
        num_inputs <= 0x10000,
    ensures
        r is Some <==> {
            &&& entries_ok(a@, num_cons as int, num_vars + 1 + num_inputs)
            &&& entries_ok(b@, num_cons as int, num_vars + 1 + num_inputs)
            &&& entries_ok(c@, num_cons as int, num_vars + 1 + num_inputs)
        },
        r matches Some(inst) ==> {
            &&& instance_num_vars(inst) >= num_vars
            &&& instance_num_vars(inst) >= num_inputs + 1
            &&& instance_num_inputs(inst) == num_inputs
            &&& instance_build(inst) == (num_cons as nat, num_vars as nat, num_inputs as nat)
            &&& instance_max_entries(inst) == max3(a@.len(), b@.len(), c@.len())
            &&& inst == instance_of(
                num_cons as nat,
                num_vars as nat,
                num_inputs as nat,
                entry_views(a@),
                entry_views(b@),
                entry_views(c@),
            )
        },
{
    libspartan::Instance::new(num_cons, num_vars, num_inputs, a.as_slice(), b.as_slice(), c.as_slice()).ok()
}

/// Relies on libspartan's `SNARKGens::new`: public parameters for the
/// given circuit shape, where `num_nz` bounds the non-zero entries of
/// any one matrix. A pure function of the shape, safe to compute once
/// per session and reuse; it needs a nonzero constraint and entry count
/// for its logarithms.
#[verifier::external_body]
pub(crate) fn gens_new(num_cons: usize, num_vars: usize, num_inputs: usize, num_nz: usize) -> (r:
    libspartan::SNARKGens)
    requires
        1 <= num_cons,
        num_cons <= 0x10000,
        num_vars <= 0x10000,
        num_inputs < num_vars,
        1 <= num_nz,
        num_nz <= 0x10000,
    ensures
        gens_params(r) == (num_cons as nat, num_vars as nat, num_inputs as nat, num_nz as nat),
{
    libspartan::SNARKGens::new(num_cons, num_vars, num_inputs, num_nz)
}

/// Relies on libspartan's `SNARK::encode`: a deterministic commitment to
/// the constraint matrices, which records the instance's input count.
/// The generators must agree with the instance's shape, or the backend's
/// polynomial commitments assert.
#[verifier::external_body]
pub(crate) fn snark_encode(inst: &libspartan::Instance, gens: &libspartan::SNARKGens) -> (r: (
    libspartan::ComputationCommitment,
    libspartan::ComputationDecommitment,
))
    requires
        gens_match(*inst, *gens),
    ensures
        comm_num_inputs(r.0) == instance_num_inputs(*inst),
        comm_key(r.0) == instance_key(*inst),
        decomm_key(r.1) == instance_key(*inst),
{
    libspartan::SNARK::encode(inst, gens)
}

/// Relies on libspartan's `Instance::is_sat`: the backend's own check
/// of whether the assignment pair satisfies every constraint,
/// deterministic in its arguments; `None` exactly when the assignment
/// sizes do not fit the instance. It never panics.
#[verifier::external_body]
pub(crate) fn instance_is_sat(
    inst: &libspartan::Instance,
    vars: &libspartan::Assignment,
    inputs: &libspartan::Assignment,
) -> (r: Option<bool>)
    ensures
        r is Some <==> {
            &&& assignment_len(*vars) <= instance_num_vars(*inst)
            &&& assignment_len(*inputs) == instance_num_inputs(*inst)
        },
        r matches Some(b) ==> b == instance_sat(*inst, *vars, *inputs),
{
    inst.is_sat(vars, inputs).ok()
}

/// Relies on libspartan's `SNARK::prove` and on the scheme's
/// completeness: a proof produced from an assignment pair that
/// satisfies the instance is accepted by the verifier against the
/// commitment derived from this instance, whatever blinding randomness
/// the prover drew. The transcript is created here with the protocol's
/// fixed domain-separation label, the same one the verifying side uses.
/// The commitment, decommitment and generators must come from this
/// instance and shape, or the backend's polynomial commitments assert.
#[verifier::external_body]
pub(crate) fn snark_prove(
    inst: &libspartan::Instance,
    comm: &libspartan::ComputationCommitment,
    decomm: &libspartan::ComputationDecommitment,
    vars: libspartan::Assignment,
    inputs: &libspartan::Assignment,
    gens: &libspartan::SNARKGens,
) -> (r: libspartan::SNARK)
    requires
        assignment_len(vars) <= instance_num_vars(*inst),
        assignment_len(*inputs) == instance_num_inputs(*inst),
        gens_match(*inst, *gens),
        comm_key(*comm) == instance_key(*inst),
        decomm_key(*decomm) == instance_key(*inst),
    ensures
        snark_fits(r, *comm, *gens),
        instance_sat(*inst, vars, *inputs) ==> snark_verifies(r, *comm, *inputs, *gens),
{
    // this label must byte-match its twin in snark_verify below
    let mut transcript = merlin::Transcript::new(b"zk_wordle");
    libspartan::SNARK::prove(inst, comm, decomm, vars, inputs, gens, &mut transcript)
}

/// Relies on libspartan's `SNARK::verify`: the deterministic verdict on
/// the proof against the commitment, public inputs and parameters. The
/// transcript is created here with the same fixed label as on the
/// proving side. A proof that fails validation is an `Err` inside the
/// backend, returned here as `false`. The input count must match the
/// commitment's, and the proof's internal structure must fit the
/// committed shape — on one that does not, the backend asserts on its
/// vector lengths and unwraps its point decompressions rather than
/// return; the `snark_fits` precondition carries that boundary to every
/// caller.
#[verifier::external_body]
pub(crate) fn snark_verify(
    proof: &libspartan::SNARK,
    comm: &libspartan::ComputationCommitment,
    inputs: &libspartan::Assignment,
    gens: &libspartan::SNARKGens,
) -> (r: bool)
    requires
        assignment_len(*inputs) == comm_num_inputs(*comm),
        snark_fits(*proof, *comm, *gens),
    ensures
        r == snark_verifies(*proof, *comm, *inputs, *gens),
{
    // this label must byte-match its twin in snark_prove above
    let mut transcript = merlin::Transcript::new(b"zk_wordle");
    proof.verify(comm, inputs, &mut transcript, gens).is_ok()
}

/// Relies on bincode's `serialize`: the proof's deterministic byte form
/// for transport. Writing this plain-data type to a growable buffer
/// cannot fail, and bincode's round trip parses the bytes back into the
/// same proof value.
#[verifier::external_body]
pub(crate) fn serialize_snark(proof: &libspartan::SNARK) -> (r: Option<Vec<u8>>)
    ensures
        r is Some,
        r matches Some(b) ==> {
            &&& b@ == snark_bytes(*proof)
            &&& parse_ok(b@)
            &&& parsed_snark(b@) == *proof
        },
{
    bincode::serialize(proof).ok()
}

/// Relies on bincode's `deserialize`: parses a byte string back into a
/// proof object, deterministically, `None` exactly when the bytes are
/// malformed.
#[verifier::external_body]
pub(crate) fn deserialize_snark(bytes: &Vec<u8>) -> (r: Option<libspartan::SNARK>)
    ensures
        r is Some <==> parse_ok(bytes@),
        r matches Some(p) ==> p == parsed_snark(bytes@),
{
    bincode::deserialize(bytes.as_slice()).ok()
}

} // verus!

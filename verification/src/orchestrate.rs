use vstd::prelude::*;
use crate::backend::{
    assignment_new, assignment_of, comm_key, comm_num_inputs, decomm_key,
    deserialize_snark, gens_new, gens_params, instance_build, instance_is_sat,
    instance_key, instance_max_entries, instance_num_inputs, instance_num_vars, instance_sat,
    parse_ok, parsed_snark, serialize_snark, snark_encode, snark_fits, snark_prove,
    snark_verifies, snark_verify,
};
use crate::circuit::{
    game_constraints, the_circuit_instance, NUM_CONS, NUM_INPUTS, NUM_NONZERO, NUM_VARS,
};
use crate::errors::GameError;
use crate::game::{
    compute_outputs, correct_seq, outputs_wf, presence_seq, GameOutputs, Guess, Word,
};
use crate::witness::{build_public_inputs, build_witness, input_reprs, witness_reprs};

verus! {

/// The session-scoped, immutable proving context: the fixed constraint
/// system, the backend's public parameters for its shape, and the
/// commitment/decommitment pair derived from it. Built once per game
/// and reused for every guess; nothing in it depends on a word or a
/// guess.
pub struct ProofSystem {
    inst: libspartan::Instance,
    gens: libspartan::SNARKGens,
    comm: libspartan::ComputationCommitment,
    decomm: libspartan::ComputationDecommitment,
}

impl ProofSystem {
    /// The session's constraint-system handle.
    pub closed spec fn instance(&self) -> libspartan::Instance {
        self.inst
    }

    /// The session's public commitment to the constraint matrices.
    pub closed spec fn commitment(&self) -> libspartan::ComputationCommitment {
        self.comm
    }

    /// The session's public parameters.
    pub closed spec fn generators(&self) -> libspartan::SNARKGens {
        self.gens
    }

    /// The constructor guarantees that the instance is exactly this
    /// circuit's constraint system, that parameters describe its shape,
    /// and that commitment and decommitment derive from its matrices.
    pub closed spec fn wf(&self) -> bool {
        &&& self.inst == the_circuit_instance()
        &&& instance_num_vars(self.inst) >= NUM_VARS
        &&& instance_num_inputs(self.inst) == NUM_INPUTS
        &&& instance_build(self.inst) == (NUM_CONS as nat, NUM_VARS as nat, NUM_INPUTS as nat)
        &&& instance_max_entries(self.inst) <= NUM_NONZERO
        &&& gens_params(self.gens) == (
            NUM_CONS as nat,
            NUM_VARS as nat,
            NUM_INPUTS as nat,
            NUM_NONZERO as nat,
        )
        &&& comm_num_inputs(self.comm) == NUM_INPUTS
        &&& comm_key(self.comm) == instance_key(self.inst)
        &&& decomm_key(self.decomm) == instance_key(self.inst)
    }

    /// Runs the shape-only setup once: builds the circuit, derives the
    /// public parameters, and commits to the constraint matrices. The
    /// circuit is proved acceptable to the backend, so setup always
    /// succeeds.
    pub fn new() -> (r: Result<ProofSystem, GameError>)
        ensures
            r is Ok,
            r matches Ok(ps) ==> ps.wf(),
    {
        let inst = match game_constraints() {
            Ok(inst) => inst,
            Err(_) => {
                proof {
                    assert(false);
                }
                return Err(GameError::ShapeMismatch);
            },
        };
        let gens = gens_new(NUM_CONS, NUM_VARS, NUM_INPUTS, NUM_NONZERO);
        let (comm, decomm) = snark_encode(&inst, &gens);
        Ok(ProofSystem { inst, gens, comm, decomm })
    }
}

/// Proves that the claimed feedback `outs` for guess `g` against hidden
/// word `w` satisfies the circuit, returning the proof in byte form.
///
/// The witness is checked against the constraint system before the
/// backend is asked to prove, and the round fails with
/// `WitnessConstraintViolation` exactly when that check refuses the
/// assignment — which is how feedback that is not the honest evaluation
/// of the two predicates is rejected. On success the returned bytes
/// parse back into a proof that the verifier accepts for this session,
/// this guess and this feedback.
pub fn prove_with_outputs(ps: &ProofSystem, w: &Word, g: &Guess, outs: &GameOutputs) -> (r: Result<
    Vec<u8>,
    GameError,
>)
    requires
        ps.wf(),
        w.wf(),
        g.wf(),
        outputs_wf(outs),
    ensures
        r is Err <==> !instance_sat(
            ps.instance(),
            assignment_of(witness_reprs(w@, g@)),
            assignment_of(input_reprs(g@, outs.letter_in_word@, outs.letter_correct@)),
        ),
        r matches Err(e) ==> e == GameError::WitnessConstraintViolation,
        r matches Ok(bytes) ==> {
            &&& parse_ok(bytes@)
            &&& snark_fits(parsed_snark(bytes@), ps.commitment(), ps.generators())
            &&& snark_verifies(
                parsed_snark(bytes@),
                ps.commitment(),
                assignment_of(input_reprs(g@, outs.letter_in_word@, outs.letter_correct@)),
                ps.generators(),
            )
        },
{
    let vars = build_witness(w, g);
    let ins = build_public_inputs(g, outs);
    let vars_assignment = match assignment_new(&vars) {
        Some(a) => a,
        None => {
            proof {
                assert(false);
            }
            return Err(GameError::WitnessConstraintViolation);
        },
    };
    let ins_assignment = match assignment_new(&ins) {
        Some(a) => a,
        None => {
            proof {
                assert(false);
            }
            return Err(GameError::WitnessConstraintViolation);
        },
    };
    match instance_is_sat(&ps.inst, &vars_assignment, &ins_assignment) {
        Some(true) => {},
        Some(false) => {
            return Err(GameError::WitnessConstraintViolation);
        },
        None => {
            proof {
                assert(false);
            }
            return Err(GameError::WitnessConstraintViolation);
        },
    }
    let proof = snark_prove(
        &ps.inst,
        &ps.comm,
        &ps.decomm,
        vars_assignment,
        &ins_assignment,
        &ps.gens,
    );
    match serialize_snark(&proof) {
        Some(bytes) => Ok(bytes),
        None => {
            proof {
                assert(false);
            }
            Err(GameError::WitnessConstraintViolation)
        },
    }
}

/// One prover round: computes the honest feedback for `g` against `w`,
/// proves it, and returns the proof bytes together with the two
/// feedback vectors. On success the vectors are exactly the presence
/// and correctness predicates, and the bytes parse back into a proof
/// the verifier accepts for this session, guess and feedback — the
/// round-trip property.
pub fn prove_game(ps: &ProofSystem, w: &Word, g: &Guess) -> (r: Result<
    (Vec<u8>, Vec<bool>, Vec<bool>),
    GameError,
>)
    requires
        ps.wf(),
        w.wf(),
        g.wf(),
    ensures
        r matches Ok(t) ==> {
            &&& t.1@ == presence_seq(w@, g@)
            &&& t.2@ == correct_seq(w@, g@)
            &&& parse_ok(t.0@)
            &&& snark_fits(parsed_snark(t.0@), ps.commitment(), ps.generators())
            &&& snark_verifies(
                parsed_snark(t.0@),
                ps.commitment(),
                assignment_of(input_reprs(g@, presence_seq(w@, g@), correct_seq(w@, g@))),
                ps.generators(),
            )
        },
        r is Err <==> !instance_sat(
            ps.instance(),
            assignment_of(witness_reprs(w@, g@)),
            assignment_of(input_reprs(g@, presence_seq(w@, g@), correct_seq(w@, g@))),
        ),
        r matches Err(e) ==> e == GameError::WitnessConstraintViolation,
{
    let outs = compute_outputs(w, g);
    proof {
        assert(outs.letter_in_word@ =~= presence_seq(w@, g@));
        assert(outs.letter_correct@ =~= correct_seq(w@, g@));
    }
    let bytes = match prove_with_outputs(ps, w, g, &outs) {
        Ok(bytes) => bytes,
        Err(e) => {
            return Err(e);
        },
    };
    Ok((bytes, outs.letter_in_word, outs.letter_correct))
}

/// One verifier round: parses the proof bytes and checks them against
/// the session's commitment and the public inputs rebuilt from the
/// guess and the claimed feedback. Malformed bytes are exactly the
/// error `ProofDeserializationError`; a proof that parses is judged by
/// the backend, and its verdict — `Ok(false)` for one that does not
/// validate — is an ordinary value, never an error.
///
/// The last precondition carries the backend's limitation: its verifier
/// asserts on parseable proofs whose internal structure does not fit
/// the committed shape, and no boundary here can intercept that abort,
/// so the caller must bring bytes that parse into a fitting proof.
/// Bytes that do not parse at all are fine. `prove_game`'s contract
/// supplies fitness for every proof this session produced; for bytes of
/// unknown origin it is an assumption, and `play_round` packages the
/// one call for which it is discharged by proof.
pub fn verify_game(ps: &ProofSystem, g: &Guess, outs: &GameOutputs, proof_bytes: &Vec<u8>) -> (r:
    Result<bool, GameError>)
    requires
        ps.wf(),
        g.wf(),
        outputs_wf(outs),
        parse_ok(proof_bytes@) ==> snark_fits(
            parsed_snark(proof_bytes@),
            ps.commitment(),
            ps.generators(),
        ),
    ensures
        r is Err <==> !parse_ok(proof_bytes@),
        r matches Err(e) ==> e == GameError::ProofDeserializationError,
        r matches Ok(b) ==> b == snark_verifies(
            parsed_snark(proof_bytes@),
            ps.commitment(),
            assignment_of(input_reprs(g@, outs.letter_in_word@, outs.letter_correct@)),
            ps.generators(),
        ),
{
    let proof = match deserialize_snark(proof_bytes) {
        Some(p) => p,
        None => {
            return Err(GameError::ProofDeserializationError);
        },
    };
    let ins = build_public_inputs(g, outs);
    let ins_assignment = match assignment_new(&ins) {
        Some(a) => a,
        None => {
            proof {
                assert(false);
            }
            return Err(GameError::ProofDeserializationError);
        },
    };
    Ok(snark_verify(&proof, &ps.comm, &ins_assignment, &ps.gens))
}

/// One full turn, prover and verifier roles in sequence: computes the
/// honest feedback, proves it, and immediately verifies the proof bytes
/// it just produced. On success the verifier's verdict is proved true —
/// the round-trip property end to end — and the feedback vectors are
/// exactly the two predicates.
pub fn play_round(ps: &ProofSystem, w: &Word, g: &Guess) -> (r: Result<
    (Vec<u8>, Vec<bool>, Vec<bool>, bool),
    GameError,
>)
    requires
        ps.wf(),
        w.wf(),
        g.wf(),
    ensures
        r matches Ok(t) ==> {
            &&& t.1@ == presence_seq(w@, g@)
            &&& t.2@ == correct_seq(w@, g@)
            &&& t.3 == true
        },
        r matches Err(e) ==> e == GameError::WitnessConstraintViolation,
{
    let (bytes, letter_in_word, letter_correct) = match prove_game(ps, w, g) {
        Ok(t) => t,
        Err(e) => {
            return Err(e);
        },
    };
    let outs = GameOutputs { letter_in_word, letter_correct };
    let verified = match verify_game(ps, g, &outs, &bytes) {
        Ok(b) => b,
        Err(_) => {
            proof {
                assert(false);
            }
            return Err(GameError::WitnessConstraintViolation);
        },
    };
    Ok((bytes, outs.letter_in_word, outs.letter_correct, verified))
}

} // verus!

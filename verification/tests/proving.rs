use zk_wordle::errors::GameError;
use zk_wordle::game::{compute_outputs, is_win, GameOutputs, Guess, Word};
use zk_wordle::orchestrate::{prove_game, prove_with_outputs, verify_game, ProofSystem};

fn word(ranks: &[u8]) -> Word {
    Word::new(ranks.to_vec()).expect("well-formed word")
}

fn guess(ranks: &[u8]) -> Guess {
    Guess::new(ranks.to_vec()).expect("well-formed guess")
}

#[test]
fn round_trip_ranch_chant() {
    // hidden "ranch", guess "chant": prove and verify must both succeed
    // and report exactly the expected feedback vectors
    let ps = ProofSystem::new().expect("setup");
    let w = word(&[17, 0, 13, 2, 7]);
    let g = guess(&[2, 7, 0, 13, 19]);
    let (bytes, presence, correctness) = prove_game(&ps, &w, &g).expect("prove");
    assert_eq!(presence, vec![true, true, true, true, false]);
    assert_eq!(correctness, vec![false, false, false, false, false]);
    let outs = GameOutputs { letter_in_word: presence, letter_correct: correctness };
    assert_eq!(verify_game(&ps, &g, &outs, &bytes).expect("parse"), true);
}

#[test]
fn round_trip_winning_guess() {
    let ps = ProofSystem::new().expect("setup");
    let w = word(&[18, 15, 0, 17, 4]);
    let g = guess(&[18, 15, 0, 17, 4]);
    let (bytes, presence, correctness) = prove_game(&ps, &w, &g).expect("prove");
    assert_eq!(presence, vec![true; 5]);
    assert_eq!(correctness, vec![true; 5]);
    let outs = GameOutputs { letter_in_word: presence, letter_correct: correctness };
    assert!(is_win(&outs));
    assert_eq!(verify_game(&ps, &g, &outs, &bytes).expect("parse"), true);
}

#[test]
fn round_trip_repeated_letters() {
    let ps = ProofSystem::new().expect("setup");
    let w = word(&[11, 11, 0, 12, 0]);
    let g = guess(&[11, 0, 1, 4, 11]);
    let (bytes, presence, correctness) = prove_game(&ps, &w, &g).expect("prove");
    assert_eq!(presence, vec![true, true, false, false, true]);
    assert_eq!(correctness, vec![true, false, false, false, false]);
    let outs = GameOutputs { letter_in_word: presence, letter_correct: correctness };
    assert_eq!(verify_game(&ps, &g, &outs, &bytes).expect("parse"), true);
}

#[test]
fn tampered_feedback_does_not_verify() {
    // a proof of the honest feedback must not check out against feedback
    // with one flipped bit
    let ps = ProofSystem::new().expect("setup");
    let w = word(&[17, 0, 13, 2, 7]);
    let g = guess(&[2, 7, 0, 13, 19]);
    let (bytes, presence, correctness) = prove_game(&ps, &w, &g).expect("prove");
    let mut tampered_presence = presence.clone();
    tampered_presence[4] = !tampered_presence[4];
    let outs = GameOutputs { letter_in_word: tampered_presence, letter_correct: correctness };
    assert_eq!(verify_game(&ps, &g, &outs, &bytes).expect("parse"), false);
}

#[test]
fn tampered_witness_fails_before_proving() {
    // claimed feedback with one flipped output bit cannot satisfy the
    // constraints; the local check rejects it without calling the prover
    let ps = ProofSystem::new().expect("setup");
    let w = word(&[17, 0, 13, 2, 7]);
    let g = guess(&[2, 7, 0, 13, 19]);
    let mut outs = compute_outputs(&w, &g);
    outs.letter_correct[2] = !outs.letter_correct[2];
    assert_eq!(
        prove_with_outputs(&ps, &w, &g, &outs),
        Err(GameError::WitnessConstraintViolation)
    );
}

#[test]
fn proof_bytes_reserialize_and_still_verify() {
    // a proof carried through deserialize + serialize verifies exactly
    // like the byte form it came from
    let ps = ProofSystem::new().expect("setup");
    let w = word(&[18, 15, 0, 17, 4]);
    let g = guess(&[2, 17, 0, 13, 4]);
    let (bytes, presence, correctness) = prove_game(&ps, &w, &g).expect("prove");
    let parsed: libspartan::SNARK = bincode::deserialize(&bytes).expect("parse proof bytes");
    let bytes_again = bincode::serialize(&parsed).expect("write proof bytes");
    let outs = GameOutputs { letter_in_word: presence, letter_correct: correctness };
    assert_eq!(verify_game(&ps, &g, &outs, &bytes).expect("parse"), true);
    assert_eq!(verify_game(&ps, &g, &outs, &bytes_again).expect("parse"), true);
}

#[test]
fn malformed_proof_bytes_are_an_error() {
    let ps = ProofSystem::new().expect("setup");
    let g = guess(&[2, 7, 0, 13, 19]);
    let outs = GameOutputs {
        letter_in_word: vec![true; 5],
        letter_correct: vec![false; 5],
    };
    let garbage = vec![0u8, 1, 2, 3];
    assert_eq!(
        verify_game(&ps, &g, &outs, &garbage),
        Err(GameError::ProofDeserializationError)
    );
}

#[test]
fn play_round_verifies_its_own_proof() {
    let ps = ProofSystem::new().expect("setup");
    let w = word(&[17, 0, 13, 2, 7]);
    let g = guess(&[2, 7, 0, 13, 19]);
    let (_bytes, presence, correctness, verified) =
        zk_wordle::orchestrate::play_round(&ps, &w, &g).expect("round");
    assert!(verified);
    assert_eq!(presence, vec![true, true, true, true, false]);
    assert_eq!(correctness, vec![false; 5]);
}

use curve25519_dalek::scalar::Scalar;
use zk_wordle::encode::{bytes_is_zero, encode, encode_bool, vec_to_array_32};
use zk_wordle::errors::GameError;
use zk_wordle::game::{Guess, Word};
use zk_wordle::witness::{build_public_inputs, build_witness};
use zk_wordle::game::{compute_outputs};

#[test]
fn encode_matches_backend_encoding() {
    let b = encode(3).expect("in range");
    assert_eq!(b, Scalar::from(3u8).to_bytes());
    let mut expected = [0u8; 32];
    expected[0] = 3;
    assert_eq!(b, expected);
}

#[test]
fn encode_rejects_out_of_range() {
    assert_eq!(encode(26), Err(GameError::EncodingOverflow));
    assert_eq!(encode(u64::MAX), Err(GameError::EncodingOverflow));
    assert!(encode(25).is_ok());
}

#[test]
fn encode_bool_zero_one() {
    assert_eq!(encode_bool(false), Scalar::from(0u8).to_bytes());
    assert_eq!(encode_bool(true), Scalar::from(1u8).to_bytes());
}

#[test]
fn zero_test_matches_canonical_zero() {
    assert!(bytes_is_zero(&Scalar::from(0u8).to_bytes()));
    assert!(!bytes_is_zero(&Scalar::from(1u8).to_bytes()));
    assert!(!bytes_is_zero(&(-Scalar::from(1u8)).to_bytes()));
}

#[test]
fn pad_to_field_width() {
    let arr = vec_to_array_32(vec![9, 8, 7]);
    assert_eq!(&arr[..3], &[9, 8, 7]);
    assert!(arr[3..].iter().all(|&b| b == 0));
    let full = vec_to_array_32(vec![1u8; 32]);
    assert_eq!(full, [1u8; 32]);
}

fn diff(w: u8, g: u8) -> Scalar {
    Scalar::from(w) - Scalar::from(g)
}

#[test]
fn witness_layout_matches_field_arithmetic() {
    // hidden "ranch" (17,0,13,2,7), guess "chant" (2,7,0,13,19)
    let w = Word::new(vec![17, 0, 13, 2, 7]).unwrap();
    let g = Guess::new(vec![2, 7, 0, 13, 19]).unwrap();
    let vars = build_witness(&w, &g);
    assert_eq!(vars.len(), 64);

    // the word's ranks head the vector
    for (j, &rank) in [17u8, 0, 13, 2, 7].iter().enumerate() {
        assert_eq!(vars[j], Scalar::from(rank).to_bytes());
    }

    // running products for position 0 (guessed letter rank 2)
    let word = [17u8, 0, 13, 2, 7];
    let m0 = diff(word[0], 2) * diff(word[1], 2);
    assert_eq!(vars[5], m0.to_bytes());
    let f0 = m0 * diff(word[2], 2) * diff(word[3], 2) * diff(word[4], 2);
    assert_eq!(vars[8], f0.to_bytes());
    // 'c' occurs in "ranch", so F(0) vanishes and ep[0] is zero
    assert_eq!(f0, Scalar::from(0u8));
    assert_eq!(vars[25], Scalar::from(0u8).to_bytes());

    // 't' (rank 19) does not occur: F(4) is nonzero and ep[4] inverts it
    let f4 = word.iter().map(|&c| diff(c, 19)).product::<Scalar>();
    assert_ne!(f4, Scalar::from(0u8));
    // F(4) sits at slot 5 + 4*4 + 3 = 24
    assert_eq!(vars[24], f4.to_bytes());
    assert_eq!(vars[29], f4.invert().to_bytes());
    // a genuine field inverse, not the product handed back
    assert_ne!(vars[29], vars[24]);

    // no position matches, so every eq[i] inverts a nonzero difference
    for i in 0..5 {
        let guess = [2u8, 7, 0, 13, 19];
        let d = diff(word[i], guess[i]);
        assert_ne!(d, Scalar::from(0u8));
        assert_eq!(vars[30 + i], d.invert().to_bytes());
    }

    // padding stays zero
    let zero = Scalar::from(0u8).to_bytes();
    assert!(vars[35..].iter().all(|v| *v == zero));
}

#[test]
fn matching_position_gets_zero_inverse_witness() {
    let w = Word::new(vec![11, 11, 0, 12, 0]).unwrap();
    let g = Guess::new(vec![11, 0, 1, 4, 11]).unwrap();
    let vars = build_witness(&w, &g);
    // position 0 matches: eq[0] is the zero witness
    assert_eq!(vars[30], Scalar::from(0u8).to_bytes());
    // position 1 does not: eq[1] inverts w[1] - g[1] = 11 - 0
    assert_eq!(vars[31], Scalar::from(11u8).invert().to_bytes());
}

#[test]
fn public_inputs_layout() {
    let w = Word::new(vec![17, 0, 13, 2, 7]).unwrap();
    let g = Guess::new(vec![2, 7, 0, 13, 19]).unwrap();
    let outs = compute_outputs(&w, &g);
    let ins = build_public_inputs(&g, &outs);
    assert_eq!(ins.len(), 15);
    for (i, &rank) in [2u8, 7, 0, 13, 19].iter().enumerate() {
        assert_eq!(ins[i], Scalar::from(rank).to_bytes());
    }
    let one = Scalar::from(1u8).to_bytes();
    let zero = Scalar::from(0u8).to_bytes();
    // presence [true, true, true, true, false]
    assert_eq!(&ins[5..10], &[one, one, one, one, zero]);
    // correctness all false
    assert!(ins[10..15].iter().all(|v| *v == zero));
}

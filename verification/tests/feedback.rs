use zk_wordle::game::{compute_outputs, is_win, rank_of_letter, Guess, Word};

fn word(ranks: &[u8]) -> Word {
    Word::new(ranks.to_vec()).expect("well-formed word")
}

fn guess(ranks: &[u8]) -> Guess {
    Guess::new(ranks.to_vec()).expect("well-formed guess")
}

#[test]
fn ranch_vs_chant_feedback() {
    // hidden "ranch" (r=17,a=0,n=13,c=2,h=7), guess "chant" (c=2,h=7,a=0,n=13,t=19)
    let w = word(&[17, 0, 13, 2, 7]);
    let g = guess(&[2, 7, 0, 13, 19]);
    let outs = compute_outputs(&w, &g);
    assert_eq!(outs.letter_in_word, vec![true, true, true, true, false]);
    assert_eq!(outs.letter_correct, vec![false, false, false, false, false]);
    assert!(!is_win(&outs));
}

#[test]
fn equal_guess_is_a_win() {
    let w = word(&[17, 0, 13, 2, 7]);
    let g = guess(&[17, 0, 13, 2, 7]);
    let outs = compute_outputs(&w, &g);
    assert_eq!(outs.letter_in_word, vec![true; 5]);
    assert_eq!(outs.letter_correct, vec![true; 5]);
    assert!(is_win(&outs));
}

#[test]
fn repeated_letters_presence() {
    // hidden "llama" (l=11,l=11,a=0,m=12,a=0), guess "label" (l=11,a=0,b=1,e=4,l=11)
    let w = word(&[11, 11, 0, 12, 0]);
    let g = guess(&[11, 0, 1, 4, 11]);
    let outs = compute_outputs(&w, &g);
    assert_eq!(outs.letter_in_word, vec![true, true, false, false, true]);
    assert_eq!(outs.letter_correct, vec![true, false, false, false, false]);
}

#[test]
fn word_rejects_wrong_length() {
    assert!(Word::new(vec![1, 2, 3, 4]).is_none());
    assert!(Word::new(vec![1, 2, 3, 4, 5, 6]).is_none());
    assert!(Guess::new(vec![]).is_none());
}

#[test]
fn word_rejects_rank_out_of_range() {
    assert!(Word::new(vec![1, 2, 3, 4, 26]).is_none());
    assert!(Guess::new(vec![26, 0, 0, 0, 0]).is_none());
    assert!(Word::new(vec![0, 25, 13, 4, 9]).is_some());
}

#[test]
fn letter_ranks() {
    assert_eq!(rank_of_letter('a'), Some(0));
    assert_eq!(rank_of_letter('z'), Some(25));
    assert_eq!(rank_of_letter('h'), Some(7));
    assert_eq!(rank_of_letter('A'), None);
    assert_eq!(rank_of_letter('!'), None);
}

#[test]
fn not_a_win_with_one_miss() {
    let w = word(&[4, 4, 4, 4, 4]);
    let g = guess(&[4, 4, 4, 4, 5]);
    let outs = compute_outputs(&w, &g);
    assert_eq!(outs.letter_correct, vec![true, true, true, true, false]);
    assert!(!is_win(&outs));
}

use vstd::prelude::*;

verus! {

/// Number of letter positions in a word and in a guess.
pub const NUM_DIGITS: usize = 5;

/// Number of distinct letter ranks: `'a'` maps to 0, `'z'` to 25.
pub const DIGIT_RANGE: usize = 26;

/// A sequence of letter ranks is well formed when it has exactly
/// `NUM_DIGITS` entries, each in `[0, DIGIT_RANGE)`.
pub open spec fn ranks_wf(s: Seq<u8>) -> bool {
    s.len() == NUM_DIGITS && forall|i: int| 0 <= i < s.len() ==> s[i] < DIGIT_RANGE as u8
}

/// Rank `x` occurs somewhere in `w`.
pub open spec fn letter_in(w: Seq<u8>, x: u8) -> bool {
    exists|j: int| 0 <= j < w.len() && w[j] == x
}

/// The presence predicate at position `i`: the letter guessed at `i`
/// occurs anywhere in the hidden word.
pub open spec fn presence_at(w: Seq<u8>, g: Seq<u8>, i: int) -> bool {
    letter_in(w, g[i])
}

/// The correctness predicate at position `i`: the letter guessed at `i`
/// equals the hidden word's letter at the same position.
pub open spec fn correct_at(w: Seq<u8>, g: Seq<u8>, i: int) -> bool {
    w[i] == g[i]
}

/// The honest presence vector for word `w` and guess `g`.
pub open spec fn presence_seq(w: Seq<u8>, g: Seq<u8>) -> Seq<bool> {
    Seq::new(NUM_DIGITS as nat, |i: int| presence_at(w, g, i))
}

/// The honest correctness vector for word `w` and guess `g`.
pub open spec fn correct_seq(w: Seq<u8>, g: Seq<u8>) -> Seq<bool> {
    Seq::new(NUM_DIGITS as nat, |i: int| correct_at(w, g, i))
}

/// The hidden word: five letter ranks, fixed once drawn.
pub struct Word {
    ranks: Vec<u8>,
}

/// A player's guess: the same shape as a word, never changed after
/// submission.
pub struct Guess {
    ranks: Vec<u8>,
}

impl View for Word {
    type V = Seq<u8>;

    closed spec fn view(&self) -> Seq<u8> {
        self.ranks@
    }
}

impl View for Guess {
    type V = Seq<u8>;

    closed spec fn view(&self) -> Seq<u8> {
        self.ranks@
    }
}

/// Checks that `ranks` holds exactly `NUM_DIGITS` entries, all below
/// `DIGIT_RANGE`.
fn ranks_valid(ranks: &Vec<u8>) -> (b: bool)
    ensures
        b == ranks_wf(ranks@),
{
    if ranks.len() != NUM_DIGITS {
        return false;
    }
    for i in 0..ranks.len()
        invariant
            ranks@.len() == NUM_DIGITS,
            forall|j: int| 0 <= j < i ==> ranks@[j] < DIGIT_RANGE as u8,
    {
        if ranks[i] >= DIGIT_RANGE as u8 {
            return false;
        }
    }
    true
}

impl Word {
    /// The word's well-formedness invariant; the constructor establishes it.
    pub open spec fn wf(&self) -> bool {
        ranks_wf(self@)
    }

    /// Accepts exactly the well-formed rank sequences.
    pub fn new(ranks: Vec<u8>) -> (r: Option<Word>)
        ensures
            r is Some <==> ranks_wf(ranks@),
            r matches Some(w) ==> w@ == ranks@ && w.wf(),
    {
        if ranks_valid(&ranks) {
            Some(Word { ranks })
        } else {
            None
        }
    }

    /// The letter rank at position `i`.
    pub fn rank(&self, i: usize) -> (r: u8)
        requires
            self.wf(),
            i < NUM_DIGITS,
        ensures
            r == self@[i as int],
    {
        self.ranks[i]
    }

    /// Whether rank `x` occurs anywhere in the word.
    pub fn contains_rank(&self, x: u8) -> (b: bool)
        ensures
            b == letter_in(self@, x),
    {
        for j in 0..self.ranks.len()
            invariant
                forall|k: int| 0 <= k < j ==> self.ranks@[k] != x,
        {
            if self.ranks[j] == x {
                return true;
            }
        }
        false
    }
}

impl Guess {
    /// The guess's well-formedness invariant; the constructor establishes it.
    pub open spec fn wf(&self) -> bool {
        ranks_wf(self@)
    }

    /// Accepts exactly the well-formed rank sequences.
    pub fn new(ranks: Vec<u8>) -> (r: Option<Guess>)
        ensures
            r is Some <==> ranks_wf(ranks@),
            r matches Some(g) ==> g@ == ranks@ && g.wf(),
    {
        if ranks_valid(&ranks) {
            Some(Guess { ranks })
        } else {
            None
        }
    }

    /// The letter rank at position `i`.
    pub fn rank(&self, i: usize) -> (r: u8)
        requires
            self.wf(),
            i < NUM_DIGITS,
        ensures
            r == self@[i as int],
    {
        self.ranks[i]
    }
}

/// The two public feedback vectors a proof attests to.
pub struct GameOutputs {
    /// Per position, whether the guessed letter occurs anywhere in the word.
    pub letter_in_word: Vec<bool>,
    /// Per position, whether the guessed letter matches the word's letter.
    pub letter_correct: Vec<bool>,
}

/// Both feedback vectors have one entry per letter position.
pub open spec fn outputs_wf(o: &GameOutputs) -> bool {
    o.letter_in_word@.len() == NUM_DIGITS && o.letter_correct@.len() == NUM_DIGITS
}

/// The feedback is exactly the honest evaluation of the two predicates
/// on word `w` and guess `g`.
pub open spec fn outputs_honest(o: &GameOutputs, w: Seq<u8>, g: Seq<u8>) -> bool {
    &&& forall|i: int| 0 <= i < NUM_DIGITS ==> o.letter_in_word@[i] == presence_at(w, g, i)
    &&& forall|i: int| 0 <= i < NUM_DIGITS ==> o.letter_correct@[i] == correct_at(w, g, i)
}

/// Computes the honest feedback for guess `g` against hidden word `w`:
/// `letter_in_word[i]` holds iff `g[i]` occurs anywhere in `w`, and
/// `letter_correct[i]` holds iff `g[i] == w[i]`.
pub fn compute_outputs(w: &Word, g: &Guess) -> (o: GameOutputs)
    requires
        w.wf(),
        g.wf(),
    ensures
        outputs_wf(&o),
        outputs_honest(&o, w@, g@),
{
    let mut letter_in_word: Vec<bool> = Vec::new();
    let mut letter_correct: Vec<bool> = Vec::new();
    for i in 0..NUM_DIGITS
        invariant
            w.wf(),
            g.wf(),
            letter_in_word@.len() == i,
            letter_correct@.len() == i,
            forall|k: int| 0 <= k < i ==> letter_in_word@[k] == presence_at(w@, g@, k),
            forall|k: int| 0 <= k < i ==> letter_correct@[k] == correct_at(w@, g@, k),
    {
        let gi = g.rank(i);
        letter_in_word.push(w.contains_rank(gi));
        letter_correct.push(w.rank(i) == gi);
    }
    GameOutputs { letter_in_word, letter_correct }
}

/// Every entry of a boolean sequence is true.
pub open spec fn all_true(s: Seq<bool>) -> bool {
    forall|i: int| 0 <= i < s.len() ==> s[i]
}

/// The game is won when every position is correct.
pub fn is_win(o: &GameOutputs) -> (b: bool)
    ensures
        b == all_true(o.letter_correct@),
{
    for i in 0..o.letter_correct.len()
        invariant
            forall|k: int| 0 <= k < i ==> o.letter_correct@[k],
    {
        if !o.letter_correct[i] {
            return false;
        }
    }
    true
}

/// When the guess equals the hidden word, honest feedback is all-true on
/// both vectors, so the game reports a win.
pub proof fn lemma_equal_guess_wins(o: &GameOutputs, w: Seq<u8>, g: Seq<u8>)
    requires
        ranks_wf(w),
        g == w,
        outputs_wf(o),
        outputs_honest(o, w, g),
    ensures
        all_true(o.letter_correct@),
        all_true(o.letter_in_word@),
{
    assert forall|i: int| 0 <= i < NUM_DIGITS implies o.letter_in_word@[i] by {
        assert(w[i] == g[i]);
        assert(letter_in(w, g[i]));
        assert(presence_at(w, g, i));
    }
    assert forall|i: int| 0 <= i < NUM_DIGITS implies o.letter_correct@[i] by {
        assert(correct_at(w, g, i));
    }
}

/// Maps a lowercase ASCII letter to its rank: `'a'` to 0 through `'z'`
/// to 25; anything else is rejected.
pub fn rank_of_letter(c: char) -> (r: Option<u8>)
    ensures
        r is Some <==> 'a' <= c && c <= 'z',
        r matches Some(v) ==> v == c as u8 - 'a' as u8 && v < DIGIT_RANGE as u8,
{
    if c >= 'a' && c <= 'z' {
        Some(c as u8 - 97)
    } else {
        None
    }
}

} // verus!

//! The session state machine: it owns the solution, the scored guesses
//! submitted so far, the keyboard tracker and the outcome tag, and it decides
//! after every validated guess whether the session goes on, is won, or is
//! lost. `Won` and `Lost` are terminal.

use vstd::prelude::*;

use crate::keyboard::folded;
use crate::keyboard::KeyboardStatus;
use crate::keyboard::KeyStatus;
use crate::score::score;
use crate::score::score_spec;
use crate::score::Verdict;
use crate::words::wf_word;
use crate::words::words_equal;
use crate::words::Word;

verus! {

/// The most guesses one session allows.
pub const MAX_GUESSES: usize = 6;

/// Where a session stands.
#[derive(Clone, Copy, PartialEq, Eq, Structural, Debug)]
pub enum Outcome {
    /// Guesses are still accepted.
    Active,
    /// A submitted guess equalled the solution.
    Won,
    /// The allowed guesses are used up and none equalled the solution.
    Lost,
}

/// A submitted guess together with its per-position verdicts.
pub struct ScoredGuess {
    pub guess: Word,
    pub verdicts: Vec<Verdict>,
}

/// One round-by-round game: solution, scored history, keyboard tracker and
/// outcome.
pub struct Session {
    solution: Word,
    solution_index: usize,
    history: Vec<ScoredGuess>,
    keyboard: KeyboardStatus,
    outcome: Outcome,
}

impl Session {
    /// The hidden solution's letters.
    pub closed spec fn solution_spec(&self) -> Seq<char> {
        self.solution@
    }

    /// Where the solution stands in the dictionary, for post-game display.
    pub closed spec fn solution_index_spec(&self) -> int {
        self.solution_index as int
    }

    /// How many guesses were submitted so far.
    pub closed spec fn history_len(&self) -> nat {
        self.history@.len()
    }

    /// The letters of the i-th submitted guess.
    pub closed spec fn guess_at(&self, i: int) -> Seq<char> {
        self.history@[i].guess@
    }

    /// The verdicts of the i-th submitted guess.
    pub closed spec fn verdicts_at(&self, i: int) -> Seq<Verdict> {
        self.history@[i].verdicts@
    }

    /// The keyboard tracker's table.
    pub closed spec fn keyboard_view(&self) -> Seq<KeyStatus> {
        self.keyboard@
    }

    /// The outcome tag.
    pub closed spec fn outcome_spec(&self) -> Outcome {
        self.outcome
    }

    /// Whether some submitted guess equals the solution.
    pub open spec fn has_winning_guess(&self) -> bool {
        exists|i: int| 0 <= i < self.history_len() && self.guess_at(i) == self.solution_spec()
    }

    /// The session invariant. Besides well-formedness of the parts it pins
    /// the outcome tag down: `Won` exactly when some guess equals the
    /// solution, `Lost` exactly when all allowed guesses are used up and none
    /// equals the solution — so never both.
    pub open spec fn wf(&self) -> bool {
        &&& wf_word(self.solution_spec())
        &&& self.history_len() <= MAX_GUESSES
        &&& forall|i: int| 0 <= i < self.history_len() ==> wf_word(#[trigger] self.guess_at(i))
        &&& forall|i: int|
            0 <= i < self.history_len() ==> #[trigger] self.verdicts_at(i) == score_spec(
                self.guess_at(i),
                self.solution_spec(),
            )
        &&& forall|i: int, j: int|
            0 <= i < j < self.history_len() ==> #[trigger] self.guess_at(i) != #[trigger] self.guess_at(j)
        &&& self.keyboard_view().len() == 26
        &&& (self.outcome_spec() == Outcome::Won <==> self.has_winning_guess())
        &&& (self.outcome_spec() == Outcome::Lost <==> self.history_len() == MAX_GUESSES
            && !self.has_winning_guess())
    }

    /// Open a session on a solution drawn from the dictionary: no guesses
    /// yet, every letter `Unknown`, outcome `Active`.
    pub fn new(solution: Word, solution_index: usize) -> (r: Session)
        requires
            solution.wf(),
        ensures
            r.wf(),
            r.solution_spec() == solution@,
            r.solution_index_spec() == solution_index as int,
            r.history_len() == 0,
            r.outcome_spec() == Outcome::Active,
            forall|k: int| 0 <= k < 26 ==> r.keyboard_view()[k] == KeyStatus::Unknown,
    {
        Session {
            solution,
            solution_index,
            history: Vec::new(),
            keyboard: KeyboardStatus::new(),
            outcome: Outcome::Active,
        }
    }

    /// Submit one validated guess: score it, append it to the history, fold
    /// it into the keyboard tracker, and move to `Won` if it equals the
    /// solution, to `Lost` if it was the last allowed guess, and otherwise
    /// stay `Active`. Returns the verdicts of the guess. Callers hand in only
    /// fresh guesses while the session is active; the line editor enforces
    /// both by construction.
    pub fn submit_guess(&mut self, guess: Word) -> (r: Vec<Verdict>)
        requires
            old(self).wf(),
            old(self).outcome_spec() == Outcome::Active,
            guess.wf(),
            forall|i: int| 0 <= i < old(self).history_len() ==> old(self).guess_at(i) != guess@,
        ensures
            final(self).wf(),
            r@ == score_spec(guess@, old(self).solution_spec()),
            final(self).solution_spec() == old(self).solution_spec(),
            final(self).solution_index_spec() == old(self).solution_index_spec(),
            final(self).history_len() == old(self).history_len() + 1,
            forall|i: int|
                0 <= i < old(self).history_len() ==> #[trigger] final(self).guess_at(i) == old(
                    self,
                ).guess_at(i) && final(self).verdicts_at(i) == old(self).verdicts_at(i),
            final(self).guess_at(old(self).history_len() as int) == guess@,
            final(self).verdicts_at(old(self).history_len() as int) == r@,
            final(self).keyboard_view() == folded(
                old(self).keyboard_view(),
                guess@,
                r@,
                guess@.len() as int,
            ),
            final(self).outcome_spec() == if guess@ == old(self).solution_spec() {
                Outcome::Won
            } else if old(self).history_len() + 1 == MAX_GUESSES {
                Outcome::Lost
            } else {
                Outcome::Active
            },
    {
        let verdicts = score(&guess, &self.solution);
        self.keyboard.update(&guess, &verdicts);
        let won = words_equal(&guess, &self.solution);
        let r = copy_verdicts(&verdicts);
        let ghost old_len = self.history@.len() as int;
        let ghost gv = guess@;
        self.history.push(ScoredGuess { guess, verdicts });
        if won {
            self.outcome = Outcome::Won;
        } else if self.history.len() == MAX_GUESSES {
            self.outcome = Outcome::Lost;
        }
        proof {
            assert forall|i: int| 0 <= i < self.history_len() implies wf_word(
                #[trigger] self.guess_at(i),
            ) by {
                if i < old_len {
                    assert(self.guess_at(i) == old(self).guess_at(i));
                }
            }
            assert forall|i: int|
                0 <= i < self.history_len() implies #[trigger] self.verdicts_at(i) == score_spec(
                self.guess_at(i),
                self.solution_spec(),
            ) by {
                if i < old_len {
                    assert(self.verdicts_at(i) == old(self).verdicts_at(i));
                    assert(self.guess_at(i) == old(self).guess_at(i));
                } else {
                    assert(self.guess_at(i) == gv);
                }
            }
            assert forall|i: int, j: int|
                0 <= i < j < self.history_len() implies #[trigger] self.guess_at(i)
                != #[trigger] self.guess_at(j) by {
                if j < old_len {
                    assert(old(self).guess_at(i) != old(self).guess_at(j));
                } else {
                    assert(self.guess_at(i) == old(self).guess_at(i));
                    assert(self.guess_at(j) == gv);
                }
            }
            if won {
                assert(self.guess_at(old_len) == self.solution_spec());
            } else {
                assert forall|i: int|
                    0 <= i < self.history_len() implies self.guess_at(i)
                    != self.solution_spec() by {
                    if i < old_len {
                        assert(old(self).guess_at(i) != old(self).solution_spec());
                    }
                }
            }
        }
        r
    }

    /// Whether a word was already submitted this session.
    pub fn has_guessed(&self, w: &Word) -> (r: bool)
        ensures
            r == exists|i: int| 0 <= i < self.history_len() && self.guess_at(i) == w@,
    {
        let mut i: usize = 0;
        while i < self.history.len()
            invariant
                i <= self.history_len(),
                forall|j: int| 0 <= j < i ==> self.guess_at(j) != w@,
            decreases self.history_len() - i,
        {
            if words_equal(&self.history[i].guess, w) {
                proof {
                    assert(self.guess_at(i as int) == w@);
                }
                return true;
            }
            i += 1;
        }
        false
    }

    /// The outcome tag.
    pub fn outcome(&self) -> (r: Outcome)
        ensures
            r == self.outcome_spec(),
    {
        self.outcome
    }

    /// The number of the round about to be played: one more than the guesses
    /// already submitted.
    pub fn attempt_number(&self) -> (r: usize)
        requires
            self.wf(),
        ensures
            r == self.history_len() + 1,
    {
        self.history.len() + 1
    }

    /// The scored guesses submitted so far, oldest first.
    pub fn history(&self) -> (r: &Vec<ScoredGuess>)
        ensures
            r@.len() == self.history_len(),
            forall|i: int|
                0 <= i < r@.len() ==> #[trigger] r@[i].guess@ == self.guess_at(i)
                    && r@[i].verdicts@ == self.verdicts_at(i),
    {
        &self.history
    }

    /// The keyboard tracker, for rendering.
    pub fn keyboard(&self) -> (r: &KeyboardStatus)
        ensures
            r@ == self.keyboard_view(),
    {
        &self.keyboard
    }

    /// The solution, for post-game display.
    pub fn solution(&self) -> (r: &Word)
        ensures
            r@ == self.solution_spec(),
    {
        &self.solution
    }

    /// Where the solution stands in the dictionary, for post-game display.
    pub fn solution_index(&self) -> (r: usize)
        ensures
            r as int == self.solution_index_spec(),
    {
        self.solution_index
    }
}

/// A session is `Won` exactly when some submitted guess equals the solution,
/// `Lost` exactly when `MAX_GUESSES` guesses were submitted and none equals
/// the solution — and never both, since a winning sixth guess wins.
pub proof fn lemma_won_lost_exclusive(s: &Session)
    requires
        s.wf(),
    ensures
        s.outcome_spec() == Outcome::Won <==> s.has_winning_guess(),
        s.outcome_spec() == Outcome::Lost <==> s.history_len() == MAX_GUESSES
            && !s.has_winning_guess(),
        !(s.outcome_spec() == Outcome::Won && s.outcome_spec() == Outcome::Lost),
{
}

/// An explicit copy of a verdict vector, showing the same verdicts.
pub fn copy_verdicts(v: &Vec<Verdict>) -> (r: Vec<Verdict>)
    ensures
        r@ == v@,
{
    let mut r: Vec<Verdict> = Vec::new();
    let mut i: usize = 0;
    while i < v.len()
        invariant
            i <= v@.len(),
            r@ == v@.subrange(0, i as int),
        decreases v@.len() - i,
    {
        r.push(v[i]);
        i += 1;
    }
    proof {
        assert(r@ =~= v@);
    }
    r
}

} // verus!

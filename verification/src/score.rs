//! The guess scorer: compares a guess with the solution and classifies every
//! position as `Hit`, `Present` or `Miss` with the duplicate-aware two-pass
//! algorithm. A hit pass first consumes every letter the guess matches in
//! place; the second pass walks the remaining positions left to right and
//! grants `Present` only while unconsumed occurrences of the letter are left
//! in the solution, so a repeated guess letter is never credited more often
//! than it occurs.

use vstd::prelude::*;

use crate::words::is_letter;
use crate::words::Word;

verus! {

/// Per-position classification of one guessed letter.
#[derive(Clone, Copy, PartialEq, Eq, Structural, Debug)]
pub enum Verdict {
    /// Correct letter in the correct position.
    Hit,
    /// Correct letter in the wrong position, within the solution's remaining
    /// multiplicity of that letter.
    Present,
    /// Letter absent from the solution, or present only in occurrences that
    /// earlier positions already consumed.
    Miss,
}

/// Slot of a lowercase letter in a 26-entry table.
pub open spec fn letter_idx(c: char) -> int {
    c as int - 97
}

/// Executable form of `letter_idx`.
pub fn letter_index(c: char) -> (r: usize)
    requires
        is_letter(c),
    ensures
        r == letter_idx(c),
        r < 26,
{
    (c as u32 - 97) as usize
}

/// Number of positions below `n` at which `a` shows `c` while `b` shows some
/// other letter. Read with `a` as the solution it counts the occurrences of
/// `c` that the hit pass leaves unconsumed; read with `a` as the guess it
/// counts the non-hit positions at which the guess claims `c`.
pub open spec fn misplaced_below(a: Seq<char>, b: Seq<char>, c: char, n: int) -> nat
    decreases n,
{
    if n <= 0 {
        0
    } else {
        misplaced_below(a, b, c, n - 1) + (if a[n - 1] == c && b[n - 1] != c {
            1nat
        } else {
            0nat
        })
    }
}

/// The verdict the two-pass algorithm assigns at position `i`. A position that
/// matches in place is a `Hit`. Otherwise the position makes the k-th non-hit
/// claim on its letter (k counted left to right, up to and including `i`), and
/// the claim succeeds exactly when the solution still has a k-th unconsumed
/// occurrence of that letter: the second pass consumes occurrences in claim
/// order, so the first claims succeed and the over-counted ones miss.
pub open spec fn verdict_at(guess: Seq<char>, solution: Seq<char>, i: int) -> Verdict {
    if guess[i] == solution[i] {
        Verdict::Hit
    } else if misplaced_below(guess, solution, guess[i], i + 1) <= misplaced_below(
        solution,
        guess,
        guess[i],
        solution.len() as int,
    ) {
        Verdict::Present
    } else {
        Verdict::Miss
    }
}

/// The verdict sequence for a whole guess.
pub open spec fn score_spec(guess: Seq<char>, solution: Seq<char>) -> Seq<Verdict> {
    Seq::new(guess.len(), |i: int| verdict_at(guess, solution, i))
}

/// What the second pass still owes a letter once the first `i` positions are
/// decided: the unconsumed occurrences left after the hit pass, less the
/// claims already granted.
pub open spec fn remaining_spec(guess: Seq<char>, solution: Seq<char>, c: char, i: int) -> nat {
    let supply = misplaced_below(solution, guess, c, solution.len() as int);
    let claims = misplaced_below(guess, solution, c, i);
    if claims <= supply {
        (supply - claims) as nat
    } else {
        0
    }
}

/// Occurrences of `c` among the first `n` letters of `s`.
pub open spec fn count_letter(s: Seq<char>, c: char, n: int) -> nat
    decreases n,
{
    if n <= 0 {
        0
    } else {
        count_letter(s, c, n - 1) + (if s[n - 1] == c {
            1nat
        } else {
            0nat
        })
    }
}

/// Positions below `n` at which the guess shows `c` and the verdict sequence
/// credits it, that is, grades it `Hit` or `Present`.
pub open spec fn credited_below(g: Seq<char>, vs: Seq<Verdict>, c: char, n: int) -> nat
    decreases n,
{
    if n <= 0 {
        0
    } else {
        credited_below(g, vs, c, n - 1) + (if g[n - 1] == c && vs[n - 1] != Verdict::Miss {
            1nat
        } else {
            0nat
        })
    }
}

/// Positions below `n` at which guess and solution both show `c` in place.
spec fn hits_below(g: Seq<char>, s: Seq<char>, c: char, n: int) -> nat
    decreases n,
{
    if n <= 0 {
        0
    } else {
        hits_below(g, s, c, n - 1) + (if g[n - 1] == c && s[n - 1] == c {
            1nat
        } else {
            0nat
        })
    }
}

/// Positions below `n` at which the guess shows `c` out of place and the
/// two-pass algorithm grades it `Present`.
spec fn present_below(g: Seq<char>, s: Seq<char>, c: char, n: int) -> nat
    decreases n,
{
    if n <= 0 {
        0
    } else {
        present_below(g, s, c, n - 1) + (if g[n - 1] == c && s[n - 1] != c && verdict_at(g, s, n - 1)
            == Verdict::Present {
            1nat
        } else {
            0nat
        })
    }
}

/// The occurrences of `c` in the solution split into those the hit pass
/// consumes and those it leaves for the present pass.
proof fn lemma_count_letter_split(g: Seq<char>, s: Seq<char>, c: char, n: int)
    ensures
        count_letter(s, c, n) == hits_below(g, s, c, n) + misplaced_below(s, g, c, n),
    decreases n,
{
    if n > 0 {
        lemma_count_letter_split(g, s, c, n - 1);
    }
}

/// The credited positions of `c` split into its hits and its presents.
proof fn lemma_credited_split(g: Seq<char>, s: Seq<char>, c: char, n: int)
    requires
        n <= g.len() == s.len(),
    ensures
        credited_below(g, score_spec(g, s), c, n) == hits_below(g, s, c, n) + present_below(
            g,
            s,
            c,
            n,
        ),
    decreases n,
{
    if n > 0 {
        lemma_credited_split(g, s, c, n - 1);
    }
}

/// Of the first `n` non-hit claims on `c`, exactly as many succeed as the
/// solution has unconsumed occurrences of `c` to cover them.
proof fn lemma_present_min(g: Seq<char>, s: Seq<char>, c: char, n: int)
    requires
        g.len() == s.len(),
    ensures
        present_below(g, s, c, n) == if misplaced_below(g, s, c, n) <= misplaced_below(
            s,
            g,
            c,
            s.len() as int,
        ) {
            misplaced_below(g, s, c, n)
        } else {
            misplaced_below(s, g, c, s.len() as int)
        },
    decreases n,
{
    if n > 0 {
        lemma_present_min(g, s, c, n - 1);
    }
}

/// No over-crediting of duplicates: for every letter, a scored guess holds at
/// most as many `Hit`-or-`Present` positions for that letter as the solution
/// holds occurrences of it.
pub proof fn lemma_no_overcredit(g: Seq<char>, s: Seq<char>, c: char)
    requires
        g.len() == s.len(),
    ensures
        credited_below(g, score_spec(g, s), c, g.len() as int) <= count_letter(
            s,
            c,
            s.len() as int,
        ),
{
    lemma_count_letter_split(g, s, c, s.len() as int);
    lemma_credited_split(g, s, c, g.len() as int);
    lemma_present_min(g, s, c, g.len() as int);
}

/// Scoring any word against itself yields `Hit` at every position.
pub proof fn lemma_self_score_all_hits(s: Seq<char>)
    ensures
        score_spec(s, s).len() == s.len(),
        forall|i: int| 0 <= i < s.len() ==> score_spec(s, s)[i] == Verdict::Hit,
{
}

proof fn lemma_misplaced_bound(a: Seq<char>, b: Seq<char>, c: char, n: int)
    ensures
        misplaced_below(a, b, c, n) <= if n <= 0 {
            0
        } else {
            n as nat
        },
    decreases n,
{
    if n > 0 {
        lemma_misplaced_bound(a, b, c, n - 1);
    }
}

/// Score a guess against the solution: one verdict per position, exactly as
/// `score_spec` describes.
pub fn score(guess: &Word, solution: &Word) -> (r: Vec<Verdict>)
    requires
        guess.wf(),
        solution.wf(),
    ensures
        r@ == score_spec(guess@, solution@),
{
    let n = guess.len();
    let mut supply: Vec<usize> = Vec::new();
    let mut k: usize = 0;
    while k < 26
        invariant
            supply@.len() == k,
            k <= 26,
            forall|t: int| 0 <= t < k ==> supply@[t] == 0,
        decreases 26 - k,
    {
        supply.push(0);
        k += 1;
    }
    // Hit pass: tally, per letter, the solution occurrences that are not
    // matched in place; only those feed the present pass.
    let mut j: usize = 0;
    while j < n
        invariant
            supply@.len() == 26,
            j <= n,
            n == guess@.len(),
            guess.wf(),
            solution.wf(),
            forall|c: char|
                is_letter(c) ==> supply@[#[trigger] letter_idx(c)] == misplaced_below(
                    solution@,
                    guess@,
                    c,
                    j as int,
                ),
        decreases n - j,
    {
        let sc = solution.char_at(j);
        if guess.char_at(j) != sc {
            let li = letter_index(sc);
            proof {
                lemma_misplaced_bound(solution@, guess@, sc, j as int);
            }
            let cur = supply[li];
            supply.set(li, cur + 1);
        }
        j += 1;
    }
    // Present pass: grant each non-hit claim while its letter's supply lasts.
    let mut r: Vec<Verdict> = Vec::new();
    let mut i: usize = 0;
    while i < n
        invariant
            supply@.len() == 26,
            i <= n,
            n == guess@.len(),
            guess.wf(),
            solution.wf(),
            r@.len() == i,
            forall|t: int| 0 <= t < i ==> r@[t] == verdict_at(guess@, solution@, t),
            forall|c: char|
                is_letter(c) ==> supply@[#[trigger] letter_idx(c)] == remaining_spec(
                    guess@,
                    solution@,
                    c,
                    i as int,
                ),
        decreases n - i,
    {
        let gc = guess.char_at(i);
        if gc == solution.char_at(i) {
            r.push(Verdict::Hit);
        } else {
            let li = letter_index(gc);
            if supply[li] > 0 {
                let cur = supply[li];
                supply.set(li, cur - 1);
                r.push(Verdict::Present);
            } else {
                r.push(Verdict::Miss);
            }
        }
        i += 1;
    }
    proof {
        assert(r@ =~= score_spec(guess@, solution@));
    }
    r
}

} // verus!

//! The keyboard status tracker: one best-verdict-seen entry per letter of the
//! alphabet, aggregated over every scored guess of the session. An entry only
//! ever improves, in the order `Hit > Present > Miss > Unknown`, and folding
//! the same scored guess twice changes nothing the second time.

use vstd::prelude::*;

use crate::score::letter_idx;
use crate::score::letter_index;
use crate::score::Verdict;
use crate::words::is_letter;
use crate::words::letter;
use crate::words::Word;

verus! {

/// Best verdict seen for one letter; `Unknown` until the letter is guessed.
#[derive(Clone, Copy, PartialEq, Eq, Structural, Debug)]
pub enum KeyStatus {
    Unknown,
    Miss,
    Present,
    Hit,
}

/// The aggregation order `Hit > Present > Miss > Unknown`, as a rank.
pub open spec fn rank(k: KeyStatus) -> int {
    match k {
        KeyStatus::Unknown => 0,
        KeyStatus::Miss => 1,
        KeyStatus::Present => 2,
        KeyStatus::Hit => 3,
    }
}

/// The better of two statuses under the aggregation order.
pub open spec fn status_max(a: KeyStatus, b: KeyStatus) -> KeyStatus {
    if rank(a) >= rank(b) {
        a
    } else {
        b
    }
}

/// The status a verdict contributes for its letter.
pub open spec fn status_of_verdict(v: Verdict) -> KeyStatus {
    match v {
        Verdict::Hit => KeyStatus::Hit,
        Verdict::Present => KeyStatus::Present,
        Verdict::Miss => KeyStatus::Miss,
    }
}

/// A keyboard table after the first `n` positions of a scored guess are
/// folded in, position by position.
pub open spec fn folded(kb: Seq<KeyStatus>, g: Seq<char>, vs: Seq<Verdict>, n: int) -> Seq<
    KeyStatus,
>
    decreases n,
{
    if n <= 0 {
        kb
    } else {
        let prev = folded(kb, g, vs, n - 1);
        let li = letter_idx(g[n - 1]);
        prev.update(li, status_max(prev[li], status_of_verdict(vs[n - 1])))
    }
}

/// The best status the first `n` positions of a scored guess contribute to
/// the table slot `k`.
pub open spec fn best_below(g: Seq<char>, vs: Seq<Verdict>, k: int, n: int) -> KeyStatus
    decreases n,
{
    if n <= 0 {
        KeyStatus::Unknown
    } else {
        let b = best_below(g, vs, k, n - 1);
        if letter_idx(g[n - 1]) == k {
            status_max(b, status_of_verdict(vs[n - 1]))
        } else {
            b
        }
    }
}

/// What a fold does to each slot: it replaces the slot's status with the
/// better of the old status and the best status the scored guess contributes
/// to that slot.
pub proof fn lemma_folded_best(kb: Seq<KeyStatus>, g: Seq<char>, vs: Seq<Verdict>, n: int)
    requires
        kb.len() == 26,
        n <= g.len(),
        forall|i: int| 0 <= i < g.len() ==> is_letter(#[trigger] g[i]),
    ensures
        folded(kb, g, vs, n).len() == 26,
        forall|k: int|
            0 <= k < 26 ==> folded(kb, g, vs, n)[k] == status_max(
                kb[k],
                best_below(g, vs, k, n),
            ),
    decreases n,
{
    if n > 0 {
        lemma_folded_best(kb, g, vs, n - 1);
    }
}

/// Folding the same scored guess twice yields the table that folding it once
/// yields: the update is idempotent.
pub proof fn lemma_fold_idempotent(kb: Seq<KeyStatus>, g: Seq<char>, vs: Seq<Verdict>)
    requires
        kb.len() == 26,
        forall|i: int| 0 <= i < g.len() ==> is_letter(#[trigger] g[i]),
    ensures
        folded(folded(kb, g, vs, g.len() as int), g, vs, g.len() as int) == folded(
            kb,
            g,
            vs,
            g.len() as int,
        ),
{
    let n = g.len() as int;
    let once = folded(kb, g, vs, n);
    lemma_folded_best(kb, g, vs, n);
    lemma_folded_best(once, g, vs, n);
    assert(folded(once, g, vs, n) =~= once);
}

/// A fold never worsens a slot; in particular a letter that reached `Hit`
/// keeps it through every later fold.
pub proof fn lemma_fold_monotonic(kb: Seq<KeyStatus>, g: Seq<char>, vs: Seq<Verdict>, k: int)
    requires
        kb.len() == 26,
        0 <= k < 26,
        forall|i: int| 0 <= i < g.len() ==> is_letter(#[trigger] g[i]),
    ensures
        rank(folded(kb, g, vs, g.len() as int)[k]) >= rank(kb[k]),
        kb[k] == KeyStatus::Hit ==> folded(kb, g, vs, g.len() as int)[k] == KeyStatus::Hit,
{
    lemma_folded_best(kb, g, vs, g.len() as int);
}

/// The best-verdict-per-letter table of one session: entry `k` belongs to the
/// k-th letter of the alphabet and holds the best verdict that letter has
/// received in any scored guess so far.
pub struct KeyboardStatus {
    statuses: Vec<KeyStatus>,
}

impl View for KeyboardStatus {
    type V = Seq<KeyStatus>;

    closed spec fn view(&self) -> Seq<KeyStatus> {
        self.statuses@
    }
}

/// Executable form of `status_max`.
pub fn better_status(a: KeyStatus, b: KeyStatus) -> (r: KeyStatus)
    ensures
        r == status_max(a, b),
{
    let ra: u8 = match a {
        KeyStatus::Unknown => 0,
        KeyStatus::Miss => 1,
        KeyStatus::Present => 2,
        KeyStatus::Hit => 3,
    };
    let rb: u8 = match b {
        KeyStatus::Unknown => 0,
        KeyStatus::Miss => 1,
        KeyStatus::Present => 2,
        KeyStatus::Hit => 3,
    };
    if ra >= rb {
        a
    } else {
        b
    }
}

impl KeyboardStatus {
    /// One entry per letter of the alphabet.
    pub open spec fn wf(&self) -> bool {
        self@.len() == 26
    }

    /// The empty tracker of a fresh session: every letter `Unknown`.
    pub fn new() -> (r: KeyboardStatus)
        ensures
            r.wf(),
            forall|k: int| 0 <= k < 26 ==> r@[k] == KeyStatus::Unknown,
    {
        let mut statuses: Vec<KeyStatus> = Vec::new();
        let mut k: usize = 0;
        while k < 26
            invariant
                statuses@.len() == k,
                k <= 26,
                forall|t: int| 0 <= t < k ==> statuses@[t] == KeyStatus::Unknown,
            decreases 26 - k,
        {
            statuses.push(KeyStatus::Unknown);
            k += 1;
        }
        KeyboardStatus { statuses }
    }

    /// Fold one scored guess into the tracker: every letter of the guess
    /// moves to the better of its old status and the verdict it just got.
    pub fn update(&mut self, guess: &Word, verdicts: &Vec<Verdict>)
        requires
            old(self).wf(),
            guess.wf(),
            verdicts@.len() == guess@.len(),
        ensures
            final(self).wf(),
            final(self)@ == folded(old(self)@, guess@, verdicts@, guess@.len() as int),
    {
        let n = guess.len();
        let mut i: usize = 0;
        while i < n
            invariant
                self@.len() == 26,
                i <= n,
                n == guess@.len(),
                guess.wf(),
                verdicts@.len() == guess@.len(),
                self@ == folded(old(self)@, guess@, verdicts@, i as int),
            decreases n - i,
        {
            let c = guess.char_at(i);
            let li = letter_index(c);
            let cur = self.statuses[li];
            let better = better_status(cur, verdict_status(verdicts[i]));
            self.statuses.set(li, better);
            i += 1;
        }
    }

    /// The status of one character: the table entry for a lowercase letter,
    /// `Unknown` for every other character, so that the reported mapping is
    /// total.
    pub fn status_of(&self, c: char) -> (r: KeyStatus)
        requires
            self.wf(),
        ensures
            r == if is_letter(c) {
                self@[letter_idx(c)]
            } else {
                KeyStatus::Unknown
            },
    {
        if letter(c) {
            self.statuses[letter_index(c)]
        } else {
            KeyStatus::Unknown
        }
    }

    /// The whole table, for rendering: entry `k` belongs to the k-th letter.
    pub fn statuses(&self) -> (r: &Vec<KeyStatus>)
        ensures
            r@ == self@,
    {
        &self.statuses
    }
}

/// Executable form of `status_of_verdict`.
pub fn verdict_status(v: Verdict) -> (r: KeyStatus)
    ensures
        r == status_of_verdict(v),
{
    match v {
        Verdict::Hit => KeyStatus::Hit,
        Verdict::Present => KeyStatus::Present,
        Verdict::Miss => KeyStatus::Miss,
    }
}

} // verus!

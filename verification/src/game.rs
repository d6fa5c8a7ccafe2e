//! The driver that ties the parts together, one key event at a time: it feeds
//! character and delete keys to the line editor, validates a submission
//! against the session's history (and, when so configured, against the
//! dictionary), and hands accepted guesses to the session state machine. The
//! presentation layer only reads keys, calls `handle_key` and renders what
//! comes back.

use vstd::prelude::*;

use crate::editor::KeyEvent;
use crate::editor::LineEditor;
use crate::keyboard::folded;
use crate::score::score_spec;
use crate::score::Verdict;
use crate::session::Outcome;
use crate::session::Session;
use crate::session::MAX_GUESSES;
use crate::words::contains_word;
use crate::words::is_alphabetic;
use crate::words::lower_char;
use crate::words::Word;
use crate::words::WORD_LENGTH;

verus! {

/// What one key event did.
pub enum StepResult {
    /// The editor's buffer changed.
    Edited,
    /// The event was input noise and changed nothing authoritative.
    Ignored,
    /// A submission was refused; the editor keeps its buffer.
    Refused,
    /// A guess was accepted and scored: its verdicts, position by position.
    Played(Vec<Verdict>),
}

/// One running game: the session, the line editor of the current round, the
/// dictionary the solution was drawn from, and whether submissions must
/// belong to the dictionary.
pub struct Game {
    session: Session,
    editor: LineEditor,
    dictionary: Vec<Word>,
    require_membership: bool,
}

impl Game {
    /// The session state machine.
    pub closed spec fn session_spec(&self) -> Session {
        self.session
    }

    /// The line editor of the current round.
    pub closed spec fn editor_spec(&self) -> LineEditor {
        self.editor
    }

    /// The dictionary, in its display order.
    pub closed spec fn dictionary_spec(&self) -> Seq<Word> {
        self.dictionary@
    }

    /// Whether submissions must belong to the dictionary.
    pub closed spec fn membership_required(&self) -> bool {
        self.require_membership
    }

    /// The game invariant: a well-formed session and editor over a dictionary
    /// of well-formed words.
    pub open spec fn wf(&self) -> bool {
        &&& self.session_spec().wf()
        &&& self.editor_spec().wf()
        &&& forall|i: int|
            0 <= i < self.dictionary_spec().len() ==> (#[trigger] self.dictionary_spec()[i]).wf()
    }

    /// The submission guard: a buffer may become a guess exactly when it is a
    /// full word, was not guessed before in this session, and — if membership
    /// is enforced — belongs to the dictionary.
    pub open spec fn acceptable_submission(&self, b: Seq<char>) -> bool {
        &&& b.len() == WORD_LENGTH
        &&& !(exists|i: int|
            0 <= i < self.session_spec().history_len() && self.session_spec().guess_at(i) == b)
        &&& self.membership_required() ==> exists|i: int|
            0 <= i < self.dictionary_spec().len() && self.dictionary_spec()[i]@ == b
    }

    /// Start a game on the word at `solution_index` in the dictionary.
    pub fn new(dictionary: Vec<Word>, solution_index: usize, require_membership: bool) -> (r: Game)
        requires
            solution_index < dictionary@.len(),
            forall|i: int| 0 <= i < dictionary@.len() ==> (#[trigger] dictionary@[i]).wf(),
        ensures
            r.wf(),
            r.session_spec().solution_spec() == dictionary@[solution_index as int]@,
            r.session_spec().solution_index_spec() == solution_index as int,
            r.session_spec().history_len() == 0,
            r.session_spec().outcome_spec() == Outcome::Active,
            r.editor_spec()@ == Seq::<char>::empty(),
            r.dictionary_spec() == dictionary@,
            r.membership_required() == require_membership,
    {
        let solution = dictionary[solution_index].duplicate();
        Game {
            session: Session::new(solution, solution_index),
            editor: LineEditor::new(),
            dictionary,
            require_membership,
        }
    }

    /// Advance the game by one key event.
    ///
    /// While the session is active, a character key and the delete key go to
    /// the line editor, and a submit key offers the buffer as the round's
    /// guess: refused (buffer kept, rejection recorded) unless the submission
    /// guard accepts it, in which case the guess is scored, folded into the
    /// history and the keyboard tracker, the outcome advances, and the editor
    /// resets for the next round. Once the session is over, every event is
    /// ignored.
    #[verifier::rlimit(60)]
    pub fn handle_key(&mut self, key: KeyEvent) -> (r: StepResult)
        requires
            old(self).wf(),
        ensures
            final(self).wf(),
            final(self).dictionary_spec() == old(self).dictionary_spec(),
            final(self).membership_required() == old(self).membership_required(),
            old(self).session_spec().outcome_spec() != Outcome::Active ==> {
                &&& final(self).session_spec() == old(self).session_spec()
                &&& final(self).editor_spec() == old(self).editor_spec()
                &&& r is Ignored
            },
            old(self).session_spec().outcome_spec() == Outcome::Active ==> (key matches
            KeyEvent::Insert(c) ==> {
                    &&& final(self).session_spec() == old(self).session_spec()
                    &&& if is_alphabetic(c) && old(self).editor_spec()@.len() < WORD_LENGTH {
                        &&& final(self).editor_spec()@ == old(self).editor_spec()@.push(
                            lower_char(c),
                        )
                        &&& final(self).editor_spec().rejected() == old(
                            self,
                        ).editor_spec().rejected()
                        &&& r is Edited
                    } else {
                        &&& final(self).editor_spec()@ == old(self).editor_spec()@
                        &&& final(self).editor_spec().rejected() == Some(key)
                        &&& r is Ignored
                    }
                }),
            old(self).session_spec().outcome_spec() == Outcome::Active && key == KeyEvent::Delete
                ==> {
                    &&& final(self).session_spec() == old(self).session_spec()
                    &&& if old(self).editor_spec()@.len() > 0 {
                        &&& final(self).editor_spec()@ == old(self).editor_spec()@.drop_last()
                        &&& final(self).editor_spec().rejected() == old(
                            self,
                        ).editor_spec().rejected()
                        &&& r is Edited
                    } else {
                        &&& final(self).editor_spec()@ == old(self).editor_spec()@
                        &&& final(self).editor_spec().rejected() == Some(key)
                        &&& r is Ignored
                    }
                },
            old(self).session_spec().outcome_spec() == Outcome::Active && key == KeyEvent::Submit
                && old(self).acceptable_submission(old(self).editor_spec()@) ==> {
                &&& final(self).editor_spec()@ == Seq::<char>::empty()
                &&& final(self).editor_spec().rejected() is None
                &&& final(self).session_spec().solution_spec()
                    == old(self).session_spec().solution_spec()
                &&& final(self).session_spec().history_len() == old(self).session_spec().history_len()
                    + 1
                &&& forall|i: int|
                    0 <= i < old(self).session_spec().history_len()
                        ==> #[trigger] final(self).session_spec().guess_at(i)
                        == old(self).session_spec().guess_at(i)
                &&& final(self).session_spec().guess_at(old(self).session_spec().history_len() as int)
                    == old(self).editor_spec()@
                &&& final(self).session_spec().verdicts_at(
                    old(self).session_spec().history_len() as int,
                ) == score_spec(old(self).editor_spec()@, old(self).session_spec().solution_spec())
                &&& final(self).session_spec().keyboard_view() == folded(
                    old(self).session_spec().keyboard_view(),
                    old(self).editor_spec()@,
                    score_spec(old(self).editor_spec()@, old(self).session_spec().solution_spec()),
                    WORD_LENGTH as int,
                )
                &&& final(self).session_spec().outcome_spec() == (if old(self).editor_spec()@
                    == old(self).session_spec().solution_spec() {
                    Outcome::Won
                } else if old(self).session_spec().history_len() + 1 == MAX_GUESSES {
                    Outcome::Lost
                } else {
                    Outcome::Active
                })
                &&& (r matches StepResult::Played(v) && v@ == score_spec(
                    old(self).editor_spec()@,
                    old(self).session_spec().solution_spec(),
                ))
            },
            old(self).session_spec().outcome_spec() == Outcome::Active && key == KeyEvent::Submit
                && !old(self).acceptable_submission(old(self).editor_spec()@)
                ==> final(self).session_spec() == old(self).session_spec(),
            old(self).session_spec().outcome_spec() == Outcome::Active && key == KeyEvent::Submit
                && !old(self).acceptable_submission(old(self).editor_spec()@)
                ==> final(self).editor_spec()@ == old(self).editor_spec()@,
            old(self).session_spec().outcome_spec() == Outcome::Active && key == KeyEvent::Submit
                && !old(self).acceptable_submission(old(self).editor_spec()@)
                ==> final(self).editor_spec().rejected() == Some(key),
            old(self).session_spec().outcome_spec() == Outcome::Active && key == KeyEvent::Submit
                && !old(self).acceptable_submission(old(self).editor_spec()@) ==> r is Refused,
    {
        let r = if self.session.outcome() != Outcome::Active {
            StepResult::Ignored
        } else {
            match key {
            KeyEvent::Insert(c) => {
                let alphabetic = ('a' <= c && c <= 'z') || ('A' <= c && c <= 'Z');
                let accepted = alphabetic && self.editor.buffer().len() < WORD_LENGTH;
                self.editor.insert(c);
                if accepted {
                    StepResult::Edited
                } else {
                    StepResult::Ignored
                }
            },
            KeyEvent::Delete => {
                let accepted = self.editor.buffer().len() > 0;
                self.editor.delete();
                if accepted {
                    StepResult::Edited
                } else {
                    StepResult::Ignored
                }
            },
            KeyEvent::Submit => {
                match self.editor.candidate() {
                    None => {
                        self.editor.note_rejected(KeyEvent::Submit);
                        StepResult::Refused
                    },
                    Some(w) => {
                        let duplicate = self.session.has_guessed(&w);
                        let member_ok = !self.require_membership || contains_word(
                            &self.dictionary,
                            &w,
                        );
                        if duplicate || !member_ok {
                            proof {
                                assert(!old(self).acceptable_submission(old(self).editor_spec()@));
                            }
                            self.editor.note_rejected(KeyEvent::Submit);
                            StepResult::Refused
                        } else {
                            proof {
                                assert(old(self).acceptable_submission(old(self).editor_spec()@));
                            }
                            self.editor.reset();
                            let verdicts = self.session.submit_guess(w);
                            StepResult::Played(verdicts)
                        }
                    },
                }
            },
            }
        };
        proof {
            assert forall|i: int|
                0 <= i < self.dictionary_spec().len() implies (
            #[trigger] self.dictionary_spec()[i]).wf() by {
                assert(self.dictionary_spec()[i] == old(self).dictionary_spec()[i]);
            }
        }
        r
    }

    /// The session, for rendering and post-game display.
    pub fn session(&self) -> (r: &Session)
        ensures
            *r == self.session_spec(),
    {
        &self.session
    }

    /// The line editor, for rendering the buffer and the diagnostic display.
    pub fn editor(&self) -> (r: &LineEditor)
        ensures
            *r == self.editor_spec(),
    {
        &self.editor
    }

    /// The dictionary the solution was drawn from.
    pub fn dictionary(&self) -> (r: &Vec<Word>)
        ensures
            r@ == self.dictionary_spec(),
    {
        &self.dictionary
    }

    /// Whether submissions must belong to the dictionary.
    pub fn requires_membership(&self) -> (r: bool)
        ensures
            r == self.membership_required(),
    {
        self.require_membership
    }
}

} // verus!

//! The line editor: a per-round state machine that accumulates one candidate
//! guess from discrete key events. Letters are appended lower-cased while the
//! buffer is short of `WORD_LENGTH`; everything else is ignored as input
//! noise, never an error. The editor also remembers the most recent rejected
//! event, purely for diagnostic display.

use vstd::prelude::*;

use crate::words::is_alphabetic;
use crate::words::is_letter;
use crate::words::lower_char;
use crate::words::to_lower;
use crate::words::Word;
use crate::words::WORD_LENGTH;

verus! {

/// One discrete input event, as the presentation layer hands it in.
#[derive(Clone, Copy, PartialEq, Eq, Structural, Debug)]
pub enum KeyEvent {
    /// A character key.
    Insert(char),
    /// Remove the last buffered character.
    Delete,
    /// Offer the buffer as the round's guess.
    Submit,
}

/// The editing state of one round: a buffer of at most `WORD_LENGTH`
/// lowercase letters, plus the cosmetic record of the last rejected event.
pub struct LineEditor {
    buffer: Vec<char>,
    last_rejected: Option<KeyEvent>,
}

impl View for LineEditor {
    type V = Seq<char>;

    closed spec fn view(&self) -> Seq<char> {
        self.buffer@
    }
}

impl LineEditor {
    /// The buffer never exceeds a word's length and holds only lowercase
    /// letters.
    pub open spec fn wf(&self) -> bool {
        &&& self@.len() <= WORD_LENGTH
        &&& forall|i: int| 0 <= i < self@.len() ==> is_letter(#[trigger] self@[i])
    }

    /// The most recent rejected event, for diagnostic display only.
    pub closed spec fn rejected(&self) -> Option<KeyEvent> {
        self.last_rejected
    }

    /// A fresh editor: empty buffer, nothing rejected yet.
    pub fn new() -> (r: LineEditor)
        ensures
            r.wf(),
            r@ == Seq::<char>::empty(),
            r.rejected() is None,
    {
        LineEditor { buffer: Vec::new(), last_rejected: None }
    }

    /// Handle a character key: append it lower-cased if it is a letter and
    /// the buffer is short of a full word, otherwise ignore it and record the
    /// rejection.
    pub fn insert(&mut self, c: char)
        requires
            old(self).wf(),
        ensures
            final(self).wf(),
            if is_alphabetic(c) && old(self)@.len() < WORD_LENGTH {
                final(self)@ == old(self)@.push(lower_char(c)) && final(self).rejected() == old(
                    self,
                ).rejected()
            } else {
                final(self)@ == old(self)@ && final(self).rejected() == Some(KeyEvent::Insert(c))
            },
    {
        let alphabetic = ('a' <= c && c <= 'z') || ('A' <= c && c <= 'Z');
        if alphabetic && self.buffer.len() < WORD_LENGTH {
            self.buffer.push(to_lower(c));
        } else {
            self.last_rejected = Some(KeyEvent::Insert(c));
        }
    }

    /// Handle the delete key: drop the last character if there is one,
    /// otherwise ignore the event and record the rejection.
    pub fn delete(&mut self)
        requires
            old(self).wf(),
        ensures
            final(self).wf(),
            if old(self)@.len() > 0 {
                final(self)@ == old(self)@.drop_last() && final(self).rejected() == old(
                    self,
                ).rejected()
            } else {
                final(self)@ == old(self)@ && final(self).rejected() == Some(KeyEvent::Delete)
            },
    {
        if self.buffer.len() > 0 {
            self.buffer.pop();
        } else {
            self.last_rejected = Some(KeyEvent::Delete);
        }
    }

    /// The completed word the buffer offers for submission: a word exactly
    /// when the buffer is full, nothing while it is shorter.
    pub fn candidate(&self) -> (r: Option<Word>)
        requires
            self.wf(),
        ensures
            match r {
                Some(w) => self@.len() == WORD_LENGTH && w@ == self@ && w.wf(),
                None => self@.len() != WORD_LENGTH,
            },
    {
        if self.buffer.len() == WORD_LENGTH {
            let mut letters: Vec<char> = Vec::new();
            let mut i: usize = 0;
            while i < self.buffer.len()
                invariant
                    i <= self@.len(),
                    letters@ == self@.subrange(0, i as int),
                decreases self@.len() - i,
            {
                letters.push(self.buffer[i]);
                i += 1;
            }
            proof {
                assert(letters@ =~= self@);
            }
            match Word::new(letters) {
                Some(w) => Some(w),
                None => None,
            }
        } else {
            None
        }
    }

    /// Reset for the next round, once a submission was accepted.
    pub fn reset(&mut self)
        ensures
            final(self).wf(),
            final(self)@ == Seq::<char>::empty(),
            final(self).rejected() is None,
    {
        self.buffer = Vec::new();
        self.last_rejected = None;
    }

    /// Record a refused event, so that the diagnostic display can show it.
    pub fn note_rejected(&mut self, e: KeyEvent)
        requires
            old(self).wf(),
        ensures
            final(self).wf(),
            final(self)@ == old(self)@,
            final(self).rejected() == Some(e),
    {
        self.last_rejected = Some(e);
    }

    /// The buffered characters, for rendering.
    pub fn buffer(&self) -> (r: &Vec<char>)
        ensures
            r@ == self@,
    {
        &self.buffer
    }

    /// The most recent rejected event, for diagnostic display.
    pub fn last_rejected(&self) -> (r: Option<KeyEvent>)
        ensures
            r == self.rejected(),
    {
        self.last_rejected
    }
}

} // verus!

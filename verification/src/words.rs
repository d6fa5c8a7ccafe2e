//! The word type shared by the whole engine: a fixed-length run of lowercase
//! ASCII letters. The line editor and the dictionary builder are the only
//! producers of `Word` values, so every word the scorer or the session sees
//! satisfies the length-and-letters invariant by construction.

use vstd::prelude::*;

verus! {

/// Every word handled by the engine has exactly this many letters.
pub const WORD_LENGTH: usize = 5;

/// The lowercase ASCII letters are the only characters a word may hold.
pub open spec fn is_letter(c: char) -> bool {
    'a' <= c && c <= 'z'
}

/// Executable test for `is_letter`.
pub fn letter(c: char) -> (r: bool)
    ensures
        r == is_letter(c),
{
    'a' <= c && c <= 'z'
}

/// The ASCII letters of either case: what a typed character must be to enter
/// a word, and what a dictionary token must be made of.
pub open spec fn is_alphabetic(c: char) -> bool {
    ('a' <= c && c <= 'z') || ('A' <= c && c <= 'Z')
}

/// A character as a word stores it: upper case folded to lower, everything
/// else kept as it is.
pub open spec fn lower_char(c: char) -> char {
    if 'A' <= c && c <= 'Z' {
        ((c as u8) + 32) as char
    } else {
        c
    }
}

/// Executable form of `lower_char`.
pub fn to_lower(c: char) -> (r: char)
    ensures
        r == lower_char(c),
        is_alphabetic(c) ==> is_letter(r),
{
    if 'A' <= c && c <= 'Z' {
        (c as u8 + 32) as char
    } else {
        c
    }
}

/// A sequence that satisfies the word invariant: exactly `WORD_LENGTH`
/// characters, all lowercase letters.
pub open spec fn wf_word(s: Seq<char>) -> bool {
    &&& s.len() == WORD_LENGTH
    &&& forall|i: int| 0 <= i < s.len() ==> is_letter(#[trigger] s[i])
}

/// A guess or solution word: exactly `WORD_LENGTH` lowercase letters.
pub struct Word {
    letters: Vec<char>,
}

impl View for Word {
    type V = Seq<char>;

    closed spec fn view(&self) -> Seq<char> {
        self.letters@
    }
}

impl Word {
    /// The word invariant, stated of the view.
    pub open spec fn wf(&self) -> bool {
        wf_word(self@)
    }

    /// The only public constructor: accepts exactly the character vectors
    /// that satisfy the word invariant.
    pub fn new(letters: Vec<char>) -> (r: Option<Word>)
        ensures
            match r {
                Some(w) => w@ == letters@ && w.wf(),
                None => !wf_word(letters@),
            },
    {
        if letters.len() != WORD_LENGTH {
            return None;
        }
        let mut i: usize = 0;
        while i < letters.len()
            invariant
                i <= letters@.len(),
                forall|j: int| 0 <= j < i ==> is_letter(#[trigger] letters@[j]),
            decreases letters@.len() - i,
        {
            if !letter(letters[i]) {
                return None;
            }
            i += 1;
        }
        Some(Word { letters })
    }

    /// Read access to the letters, for rendering and for tests.
    pub fn chars(&self) -> (r: &Vec<char>)
        ensures
            r@ == self@,
    {
        &self.letters
    }

    /// The letter at one position.
    pub fn char_at(&self, i: usize) -> (r: char)
        requires
            i < self@.len(),
        ensures
            r == self@[i as int],
    {
        self.letters[i]
    }

    /// Number of letters; always `WORD_LENGTH` for a well-formed word.
    pub fn len(&self) -> (r: usize)
        ensures
            r == self@.len(),
    {
        self.letters.len()
    }

    /// An explicit copy, so that callers can rely on the copy showing the
    /// same letters.
    pub fn duplicate(&self) -> (r: Word)
        ensures
            r@ == self@,
    {
        let mut letters: Vec<char> = Vec::new();
        let mut i: usize = 0;
        while i < self.letters.len()
            invariant
                i <= self@.len(),
                letters@ == self@.subrange(0, i as int),
            decreases self@.len() - i,
        {
            letters.push(self.letters[i]);
            i += 1;
        }
        proof {
            assert(letters@ =~= self@);
        }
        Word { letters }
    }
}

/// Letter-for-letter equality of two words.
pub fn words_equal(a: &Word, b: &Word) -> (r: bool)
    ensures
        r == (a@ == b@),
{
    if a.len() != b.len() {
        proof {
            assert(a@ != b@);
        }
        return false;
    }
    let mut i: usize = 0;
    while i < a.len()
        invariant
            i <= a@.len(),
            a@.len() == b@.len(),
            forall|j: int| 0 <= j < i ==> a@[j] == b@[j],
        decreases a@.len() - i,
    {
        if a.char_at(i) != b.char_at(i) {
            proof {
                assert(a@ != b@);
            }
            return false;
        }
        i += 1;
    }
    proof {
        assert(a@ =~= b@);
    }
    true
}

/// Whether a word occurs in a list of words.
pub fn contains_word(list: &Vec<Word>, w: &Word) -> (r: bool)
    ensures
        r == (exists|i: int| 0 <= i < list@.len() && list@[i]@ == w@),
{
    let mut i: usize = 0;
    while i < list.len()
        invariant
            i <= list@.len(),
            forall|j: int| 0 <= j < i ==> list@[j]@ != w@,
        decreases list@.len() - i,
    {
        if words_equal(&list[i], w) {
            return true;
        }
        i += 1;
    }
    false
}

} // verus!

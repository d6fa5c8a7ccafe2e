//! Building the dictionary from a word-list text: the whitespace-separated
//! tokens are lower-cased and those that make a well-formed word — exactly
//! `WORD_LENGTH` lowercase letters — become the dictionary, in their order of
//! appearance. A second function prepares the text that is written back to
//! disk when the word list was just downloaded: the tokens of exactly
//! `WORD_LENGTH` characters, kept as they are and joined by newlines.

use vstd::prelude::*;

use crate::words::lower_char;
use crate::words::to_lower;
use crate::words::wf_word;
use crate::words::Word;
use crate::words::WORD_LENGTH;

verus! {

/// The ASCII whitespace characters, the token separators of a word list.
pub open spec fn is_space(c: char) -> bool {
    c == ' ' || c == '\t' || c == '\n' || c == '\u{c}' || c == '\r'
}

/// Executable form of `is_space`.
pub fn space(c: char) -> (r: bool)
    ensures
        r == is_space(c),
{
    c == ' ' || c == '\t' || c == '\n' || c == '\u{c}' || c == '\r'
}

/// The words of a text, scanned left to right from position `i`, with `cur`
/// the lower-cased pending token and `acc` the words already found: tokens
/// end at whitespace and at the end of the text, and a token is kept exactly
/// when it is a well-formed word.
pub open spec fn scan_words(text: Seq<char>, i: int, cur: Seq<char>, acc: Seq<Seq<char>>) -> Seq<
    Seq<char>,
>
    decreases text.len() - i,
{
    if i < 0 || i >= text.len() {
        if wf_word(cur) {
            acc.push(cur)
        } else {
            acc
        }
    } else if is_space(text[i]) {
        if wf_word(cur) {
            scan_words(text, i + 1, Seq::empty(), acc.push(cur))
        } else {
            scan_words(text, i + 1, Seq::empty(), acc)
        }
    } else {
        scan_words(text, i + 1, cur.push(lower_char(text[i])), acc)
    }
}

/// The dictionary a word-list text yields.
pub open spec fn dictionary_of(text: Seq<char>) -> Seq<Seq<char>> {
    scan_words(text, 0, Seq::empty(), Seq::empty())
}

/// The letters of each word of a list.
pub open spec fn word_views(words: Seq<Word>) -> Seq<Seq<char>> {
    words.map_values(|w: Word| w@)
}

/// Build the dictionary of a word-list text: its whitespace-separated tokens,
/// lower-cased, those of exactly `WORD_LENGTH` lowercase letters kept in
/// their order of appearance.
pub fn build_dictionary(text: &Vec<char>) -> (r: Vec<Word>)
    ensures
        word_views(r@) == dictionary_of(text@),
        forall|i: int| 0 <= i < r@.len() ==> (#[trigger] r@[i]).wf(),
        forall|i: int| 0 <= i < r@.len() ==> #[trigger] r@[i]@ == dictionary_of(text@)[i],
        r@.len() == dictionary_of(text@).len(),
{
    let mut words: Vec<Word> = Vec::new();
    let mut cur: Vec<char> = Vec::new();
    let mut i: usize = 0;
    proof {
        assert(word_views(words@) =~= Seq::<Seq<char>>::empty());
    }
    while i < text.len()
        invariant
            i <= text@.len(),
            forall|k: int| 0 <= k < words@.len() ==> (#[trigger] words@[k]).wf(),
            dictionary_of(text@) == scan_words(text@, i as int, cur@, word_views(words@)),
        decreases text@.len() - i,
    {
        let c = text[i];
        if space(c) {
            let ghost old_words = words@;
            let ghost old_cur = cur@;
            match Word::new(cur) {
                Some(w) => {
                    words.push(w);
                    proof {
                        assert(word_views(words@) =~= word_views(old_words).push(old_cur));
                    }
                },
                None => {},
            }
            cur = Vec::new();
        } else {
            cur.push(to_lower(c));
        }
        i += 1;
    }
    let ghost old_words = words@;
    let ghost old_cur = cur@;
    match Word::new(cur) {
        Some(w) => {
            words.push(w);
            proof {
                assert(word_views(words@) =~= word_views(old_words).push(old_cur));
            }
        },
        None => {},
    }
    proof {
        assert forall|i: int| 0 <= i < words@.len() implies #[trigger] words@[i]@ == dictionary_of(
            text@,
        )[i] by {
            assert(word_views(words@)[i] == words@[i]@);
        }
    }
    words
}

/// Two token lists joined: nothing yet and a new token is the token alone; a
/// non-empty accumulation takes a newline before the token.
pub open spec fn join_token(acc: Seq<char>, token: Seq<char>) -> Seq<char> {
    if acc.len() == 0 {
        token
    } else {
        acc + seq!['\n'] + token
    }
}

/// The text written back to disk for a freshly downloaded word list, scanned
/// left to right from position `i` with pending token `cur` and accumulated
/// text `acc`: the tokens of exactly `WORD_LENGTH` characters, kept as they
/// are and joined by newlines.
pub open spec fn scan_file(text: Seq<char>, i: int, cur: Seq<char>, acc: Seq<char>) -> Seq<char>
    decreases text.len() - i,
{
    if i < 0 || i >= text.len() {
        if cur.len() == WORD_LENGTH {
            join_token(acc, cur)
        } else {
            acc
        }
    } else if is_space(text[i]) {
        if cur.len() == WORD_LENGTH {
            scan_file(text, i + 1, Seq::empty(), join_token(acc, cur))
        } else {
            scan_file(text, i + 1, Seq::empty(), acc)
        }
    } else {
        scan_file(text, i + 1, cur.push(text[i]), acc)
    }
}

/// The file image of a downloaded word-list text.
pub open spec fn word_file_image(text: Seq<char>) -> Seq<char> {
    scan_file(text, 0, Seq::empty(), Seq::empty())
}

/// Prepare a downloaded word list for the disk: keep the tokens of exactly
/// `WORD_LENGTH` characters, as they are, one per line.
pub fn filter_word_list(text: &Vec<char>) -> (r: Vec<char>)
    ensures
        r@ == word_file_image(text@),
{
    let mut acc: Vec<char> = Vec::new();
    let mut cur: Vec<char> = Vec::new();
    let mut i: usize = 0;
    while i < text.len()
        invariant
            i <= text@.len(),
            word_file_image(text@) == scan_file(text@, i as int, cur@, acc@),
        decreases text@.len() - i,
    {
        let c = text[i];
        if space(c) {
            if cur.len() == WORD_LENGTH {
                let ghost old_acc = acc@;
                let ghost old_cur = cur@;
                if acc.len() > 0 {
                    acc.push('\n');
                }
                let mut k: usize = 0;
                while k < cur.len()
                    invariant
                        k <= cur@.len(),
                        cur@ == old_cur,
                        acc@ == join_token(old_acc, old_cur).subrange(
                            0,
                            join_token(old_acc, old_cur).len() - old_cur.len() + k,
                        ),
                    decreases cur@.len() - k,
                {
                    acc.push(cur[k]);
                    k += 1;
                }
                proof {
                    assert(acc@ =~= join_token(old_acc, old_cur));
                }
            }
            cur = Vec::new();
        } else {
            cur.push(c);
        }
        i += 1;
    }
    if cur.len() == WORD_LENGTH {
        let ghost old_acc = acc@;
        let ghost old_cur = cur@;
        if acc.len() > 0 {
            acc.push('\n');
        }
        let mut k: usize = 0;
        while k < cur.len()
            invariant
                k <= cur@.len(),
                cur@ == old_cur,
                acc@ == join_token(old_acc, old_cur).subrange(
                    0,
                    join_token(old_acc, old_cur).len() - old_cur.len() + k,
                ),
            decreases cur@.len() - k,
        {
            acc.push(cur[k]);
            k += 1;
        }
        proof {
            assert(acc@ =~= join_token(old_acc, old_cur));
        }
    }
    acc
}

} // verus!

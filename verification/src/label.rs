//! The "Nth word in the word list" label of the post-game display: the
//! solution's one-based position as an English ordinal, such as "1st", "22nd"
//! or "13th". The formatting itself is the `ordinal` crate's; its output is
//! pinned down exactly, as the decimal digits followed by the suffix.

use vstd::prelude::*;

verus! {

/// The character of one decimal digit.
pub open spec fn digit_char(d: int) -> char {
    if d == 0 {
        '0'
    } else if d == 1 {
        '1'
    } else if d == 2 {
        '2'
    } else if d == 3 {
        '3'
    } else if d == 4 {
        '4'
    } else if d == 5 {
        '5'
    } else if d == 6 {
        '6'
    } else if d == 7 {
        '7'
    } else if d == 8 {
        '8'
    } else {
        '9'
    }
}

/// The decimal digits of `n`, most significant first.
pub open spec fn decimal_chars(n: nat) -> Seq<char>
    decreases n,
{
    if n < 10 {
        seq![digit_char(n as int)]
    } else {
        decimal_chars(n / 10).push(digit_char((n % 10) as int))
    }
}

/// The English ordinal suffix of `n`: "st", "nd", "rd" after a final 1, 2 or
/// 3, except for the teens, which take "th" like everything else.
pub open spec fn ordinal_suffix(n: nat) -> Seq<char> {
    if 11 <= n % 100 && n % 100 <= 13 {
        seq!['t', 'h']
    } else if n % 10 == 1 {
        seq!['s', 't']
    } else if n % 10 == 2 {
        seq!['n', 'd']
    } else if n % 10 == 3 {
        seq!['r', 'd']
    } else {
        seq!['t', 'h']
    }
}

/// Relies on the Display of ordinal::Ordinal over usize: the number in
/// decimal followed by its English ordinal suffix ("st", "nd", "rd" after a
/// final 1, 2, 3 outside the teens, otherwise "th").
#[verifier::external_body]
fn ordinal_text(n: usize) -> (r: String)
    ensures
        r@ == decimal_chars(n as nat) + ordinal_suffix(n as nat),
{
    ordinal::Ordinal(n).to_string()
}

/// The display label of the word standing at `index` in the dictionary: its
/// position counted from one, as an ordinal.
pub fn position_label(index: usize) -> (r: String)
    requires
        index < usize::MAX,
    ensures
        r@ == decimal_chars((index + 1) as nat) + ordinal_suffix((index + 1) as nat),
{
    ordinal_text(index + 1)
}

} // verus!

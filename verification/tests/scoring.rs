use wordle::score::score;
use wordle::score::Verdict;
use wordle::words::Word;

fn make_word(s: &str) -> Word {
    Word::new(s.chars().collect()).unwrap()
}

#[test]
fn scenario_trace_against_crane() {
    let solution = make_word("crane");
    let guess = make_word("trace");
    let verdicts = score(&guess, &solution);
    assert_eq!(
        verdicts,
        vec![
            Verdict::Miss,
            Verdict::Hit,
            Verdict::Hit,
            Verdict::Present,
            Verdict::Hit,
        ]
    );
}

#[test]
fn scenario_lolly_against_allow() {
    let solution = make_word("allow");
    let guess = make_word("lolly");
    let verdicts = score(&guess, &solution);
    assert_eq!(
        verdicts,
        vec![
            Verdict::Present,
            Verdict::Present,
            Verdict::Hit,
            Verdict::Miss,
            Verdict::Miss,
        ]
    );
}

#[test]
fn scoring_word_against_itself_is_all_hits() {
    for s in ["crane", "allow", "queue", "zzzzz"] {
        let w = make_word(s);
        let verdicts = score(&w, &w);
        assert_eq!(verdicts, vec![Verdict::Hit; 5]);
    }
}

#[test]
fn repeated_guess_letter_not_overcredited() {
    // The solution holds one `e`; a guess of five `e`s is credited once.
    let solution = make_word("crane");
    let guess = make_word("eeeee");
    let verdicts = score(&guess, &solution);
    assert_eq!(
        verdicts,
        vec![
            Verdict::Miss,
            Verdict::Miss,
            Verdict::Miss,
            Verdict::Miss,
            Verdict::Hit,
        ]
    );
    let credited = verdicts.iter().filter(|v| **v != Verdict::Miss).count();
    assert_eq!(credited, 1);
}

#[test]
fn present_consumes_an_occurrence() {
    // Two `o`s in the guess, one `o` in the solution, none in place: only
    // the first claim is credited.
    let solution = make_word("melon");
    let guess = make_word("oozes");
    let verdicts = score(&guess, &solution);
    assert_eq!(
        verdicts,
        vec![
            Verdict::Present,
            Verdict::Miss,
            Verdict::Miss,
            Verdict::Present,
            Verdict::Miss,
        ]
    );
}

#[test]
fn hit_pass_consumes_before_present_pass() {
    // The solution's only `l` is hit in place by the third letter, so the
    // earlier `l` claims cannot borrow it.
    let solution = make_word("melon");
    let guess = make_word("lllll");
    let verdicts = score(&guess, &solution);
    assert_eq!(
        verdicts,
        vec![
            Verdict::Miss,
            Verdict::Miss,
            Verdict::Hit,
            Verdict::Miss,
            Verdict::Miss,
        ]
    );
}

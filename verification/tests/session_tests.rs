use wordle::score::Verdict;
use wordle::session::Outcome;
use wordle::session::Session;
use wordle::words::Word;

fn sess_word(s: &str) -> Word {
    Word::new(s.chars().collect()).unwrap()
}

#[test]
fn winning_guess_ends_the_session() {
    let mut session = Session::new(sess_word("crane"), 3);
    assert_eq!(session.outcome(), Outcome::Active);
    assert_eq!(session.attempt_number(), 1);
    let verdicts = session.submit_guess(sess_word("trace"));
    assert_eq!(verdicts[0], Verdict::Miss);
    assert_eq!(session.outcome(), Outcome::Active);
    assert_eq!(session.attempt_number(), 2);
    let verdicts = session.submit_guess(sess_word("crane"));
    assert_eq!(verdicts, vec![Verdict::Hit; 5]);
    assert_eq!(session.outcome(), Outcome::Won);
    assert_eq!(session.history().len(), 2);
    assert_eq!(session.solution().chars(), &vec!['c', 'r', 'a', 'n', 'e']);
    assert_eq!(session.solution_index(), 3);
}

#[test]
fn six_wrong_guesses_lose_exactly_on_the_sixth() {
    let mut session = Session::new(sess_word("crane"), 0);
    let wrong = ["aback", "abase", "abate", "abbey", "abbot"];
    for w in wrong {
        session.submit_guess(sess_word(w));
        assert_eq!(session.outcome(), Outcome::Active);
    }
    assert_eq!(session.attempt_number(), 6);
    session.submit_guess(sess_word("abide"));
    assert_eq!(session.outcome(), Outcome::Lost);
    assert_eq!(session.history().len(), 6);
}

#[test]
fn winning_on_the_last_attempt_wins_not_loses() {
    let mut session = Session::new(sess_word("crane"), 0);
    for w in ["aback", "abase", "abate", "abbey", "abbot"] {
        session.submit_guess(sess_word(w));
    }
    session.submit_guess(sess_word("crane"));
    assert_eq!(session.outcome(), Outcome::Won);
}

#[test]
fn history_records_guesses_in_order_with_their_verdicts() {
    let mut session = Session::new(sess_word("allow"), 0);
    session.submit_guess(sess_word("lolly"));
    session.submit_guess(sess_word("allow"));
    let history = session.history();
    assert_eq!(history[0].guess.chars(), &vec!['l', 'o', 'l', 'l', 'y']);
    assert_eq!(
        history[0].verdicts,
        vec![
            Verdict::Present,
            Verdict::Present,
            Verdict::Hit,
            Verdict::Miss,
            Verdict::Miss,
        ]
    );
    assert_eq!(history[1].verdicts, vec![Verdict::Hit; 5]);
}

#[test]
fn has_guessed_reports_exactly_the_submitted_words() {
    let mut session = Session::new(sess_word("crane"), 0);
    session.submit_guess(sess_word("trace"));
    assert!(session.has_guessed(&sess_word("trace")));
    assert!(!session.has_guessed(&sess_word("crane")));
}

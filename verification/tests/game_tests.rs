use wordle::editor::KeyEvent;
use wordle::game::Game;
use wordle::game::StepResult;
use wordle::session::Outcome;
use wordle::words::Word;

fn game_word(s: &str) -> Word {
    Word::new(s.chars().collect()).unwrap()
}

fn game_dict(words: &[&str]) -> Vec<Word> {
    words.iter().map(|s| game_word(s)).collect()
}

fn type_word(game: &mut Game, s: &str) {
    for c in s.chars() {
        game.handle_key(KeyEvent::Insert(c));
    }
}

#[test]
fn a_round_is_typed_submitted_and_scored() {
    let mut game = Game::new(game_dict(&["crane", "trace"]), 0, false);
    type_word(&mut game, "trace");
    let step = game.handle_key(KeyEvent::Submit);
    assert!(matches!(step, StepResult::Played(_)));
    assert_eq!(game.session().history().len(), 1);
    assert_eq!(game.editor().buffer().len(), 0);
    assert_eq!(game.session().outcome(), Outcome::Active);
}

#[test]
fn short_buffer_submission_is_refused() {
    let mut game = Game::new(game_dict(&["crane"]), 0, false);
    type_word(&mut game, "cra");
    let step = game.handle_key(KeyEvent::Submit);
    assert!(matches!(step, StepResult::Refused));
    assert_eq!(game.session().history().len(), 0);
    assert_eq!(game.editor().buffer(), &vec!['c', 'r', 'a']);
    assert_eq!(game.editor().last_rejected(), Some(KeyEvent::Submit));
}

#[test]
fn duplicate_guess_is_refused_before_scoring() {
    let mut game = Game::new(game_dict(&["crane", "trace"]), 0, false);
    type_word(&mut game, "trace");
    assert!(matches!(game.handle_key(KeyEvent::Submit), StepResult::Played(_)));
    type_word(&mut game, "trace");
    let step = game.handle_key(KeyEvent::Submit);
    assert!(matches!(step, StepResult::Refused));
    assert_eq!(game.session().history().len(), 1);
    // The refused buffer stays for the player to edit.
    assert_eq!(game.editor().buffer(), &vec!['t', 'r', 'a', 'c', 'e']);
}

#[test]
fn membership_toggle_refuses_words_outside_the_dictionary() {
    let mut game = Game::new(game_dict(&["crane", "trace"]), 0, true);
    type_word(&mut game, "zzzzz");
    assert!(matches!(game.handle_key(KeyEvent::Submit), StepResult::Refused));
    assert_eq!(game.session().history().len(), 0);
    for _ in 0..5 {
        game.handle_key(KeyEvent::Delete);
    }
    type_word(&mut game, "trace");
    assert!(matches!(game.handle_key(KeyEvent::Submit), StepResult::Played(_)));
}

#[test]
fn without_the_toggle_any_word_may_be_guessed() {
    let mut game = Game::new(game_dict(&["crane"]), 0, false);
    type_word(&mut game, "zzzzz");
    assert!(matches!(game.handle_key(KeyEvent::Submit), StepResult::Played(_)));
}

#[test]
fn winning_stops_the_game() {
    let mut game = Game::new(game_dict(&["crane", "trace"]), 0, false);
    type_word(&mut game, "crane");
    assert!(matches!(game.handle_key(KeyEvent::Submit), StepResult::Played(_)));
    assert_eq!(game.session().outcome(), Outcome::Won);
    // Terminal: every further event is ignored.
    assert!(matches!(game.handle_key(KeyEvent::Insert('a')), StepResult::Ignored));
    assert!(matches!(game.handle_key(KeyEvent::Submit), StepResult::Ignored));
    assert_eq!(game.session().history().len(), 1);
}

#[test]
fn six_wrong_guesses_lose_the_game() {
    let mut game = Game::new(game_dict(&["crane"]), 0, false);
    let wrong = ["aback", "abase", "abate", "abbey", "abbot", "abide"];
    for (round, w) in wrong.iter().enumerate() {
        assert_eq!(game.session().outcome(), Outcome::Active);
        type_word(&mut game, w);
        assert!(matches!(game.handle_key(KeyEvent::Submit), StepResult::Played(_)));
        assert_eq!(game.session().history().len(), round + 1);
    }
    assert_eq!(game.session().outcome(), Outcome::Lost);
}

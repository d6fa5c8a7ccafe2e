use wordle::editor::KeyEvent;
use wordle::editor::LineEditor;

#[test]
fn letters_are_appended_lowercased() {
    let mut ed = LineEditor::new();
    ed.insert('C');
    ed.insert('r');
    ed.insert('A');
    assert_eq!(ed.buffer(), &vec!['c', 'r', 'a']);
}

#[test]
fn non_alphabetic_input_is_ignored_and_recorded() {
    let mut ed = LineEditor::new();
    ed.insert('c');
    ed.insert('3');
    ed.insert(' ');
    assert_eq!(ed.buffer(), &vec!['c']);
    assert_eq!(ed.last_rejected(), Some(KeyEvent::Insert(' ')));
}

#[test]
fn insert_beyond_word_length_is_ignored() {
    let mut ed = LineEditor::new();
    for c in ['c', 'r', 'a', 'n', 'e'] {
        ed.insert(c);
    }
    ed.insert('s');
    assert_eq!(ed.buffer(), &vec!['c', 'r', 'a', 'n', 'e']);
    assert_eq!(ed.last_rejected(), Some(KeyEvent::Insert('s')));
}

#[test]
fn delete_removes_last_letter_and_is_ignored_when_empty() {
    let mut ed = LineEditor::new();
    ed.insert('a');
    ed.insert('b');
    ed.delete();
    assert_eq!(ed.buffer(), &vec!['a']);
    ed.delete();
    assert_eq!(ed.buffer(), &Vec::<char>::new());
    assert_eq!(ed.last_rejected(), None);
    ed.delete();
    assert_eq!(ed.buffer(), &Vec::<char>::new());
    assert_eq!(ed.last_rejected(), Some(KeyEvent::Delete));
}

#[test]
fn candidate_exists_only_for_a_full_buffer() {
    let mut ed = LineEditor::new();
    for c in ['c', 'r', 'a', 'n'] {
        ed.insert(c);
    }
    assert!(ed.candidate().is_none());
    ed.insert('e');
    let w = ed.candidate().unwrap();
    assert_eq!(w.chars(), &vec!['c', 'r', 'a', 'n', 'e']);
    // Peeking does not consume the buffer.
    assert_eq!(ed.buffer().len(), 5);
    ed.reset();
    assert_eq!(ed.buffer().len(), 0);
    assert_eq!(ed.last_rejected(), None);
}

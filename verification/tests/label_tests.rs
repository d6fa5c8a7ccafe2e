use wordle::label::position_label;
use wordle::rng::pick;
use wordle::words::Word;

#[test]
fn labels_count_from_one_with_english_suffixes() {
    assert_eq!(position_label(0), "1st");
    assert_eq!(position_label(1), "2nd");
    assert_eq!(position_label(2), "3rd");
    assert_eq!(position_label(3), "4th");
    assert_eq!(position_label(9), "10th");
}

#[test]
fn teens_take_th() {
    assert_eq!(position_label(10), "11th");
    assert_eq!(position_label(11), "12th");
    assert_eq!(position_label(12), "13th");
    assert_eq!(position_label(110), "111th");
    assert_eq!(position_label(111), "112th");
}

#[test]
fn later_decades_take_their_own_suffixes() {
    assert_eq!(position_label(20), "21st");
    assert_eq!(position_label(21), "22nd");
    assert_eq!(position_label(22), "23rd");
    assert_eq!(position_label(100), "101st");
    assert_eq!(position_label(121), "122nd");
}

#[test]
fn pick_returns_an_element_and_its_index() {
    let words: Vec<Word> = ["crane", "trace", "allow"]
        .iter()
        .map(|s| Word::new(s.chars().collect()).unwrap())
        .collect();
    let (w, i) = pick(&words);
    assert!(i < words.len());
    assert_eq!(w.chars(), words[i].chars());
}

#[test]
fn pick_from_a_single_element_list_is_that_element() {
    let values = vec![41usize];
    let (v, i) = pick(&values);
    assert_eq!(i, 0);
    assert_eq!(*v, 41);
}

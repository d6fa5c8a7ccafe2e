use wordle::dict::build_dictionary;
use wordle::dict::filter_word_list;

fn chars_of(s: &str) -> Vec<char> {
    s.chars().collect()
}

fn string_of(v: &[char]) -> String {
    v.iter().collect()
}

#[test]
fn dictionary_keeps_only_five_letter_tokens_lowercased() {
    let text = chars_of("Crane beds ALLOW\nqueueing\tabide  zesty\r\n");
    let words = build_dictionary(&text);
    let letters: Vec<String> = words.iter().map(|w| string_of(w.chars())).collect();
    assert_eq!(letters, vec!["crane", "allow", "abide", "zesty"]);
}

#[test]
fn dictionary_of_empty_text_is_empty() {
    let words = build_dictionary(&Vec::new());
    assert_eq!(words.len(), 0);
}

#[test]
fn tokens_with_other_characters_are_dropped() {
    let text = chars_of("cra-e 12345 cr4ne crane");
    let words = build_dictionary(&text);
    assert_eq!(words.len(), 1);
    assert_eq!(string_of(words[0].chars()), "crane");
}

#[test]
fn file_image_joins_five_letter_tokens_with_newlines() {
    let text = chars_of("aargh\nZZ\nabaca abaci\tab\n");
    let image = filter_word_list(&text);
    assert_eq!(string_of(&image), "aargh\nabaca\nabaci");
}

#[test]
fn file_image_keeps_case_and_counts_characters() {
    let text = chars_of("AbAcK words12 zesty");
    let image = filter_word_list(&text);
    assert_eq!(string_of(&image), "AbAcK\nzesty");
}

#[test]
fn file_image_of_spaces_alone_is_empty() {
    let text = chars_of("  \t\r\n ");
    let image = filter_word_list(&text);
    assert_eq!(image.len(), 0);
}

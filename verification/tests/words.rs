use primer::lifetimes::{longest, longest_err, ImportantExcerpt};
use primer::ownership::{calculate_length, change, dangle, first_word};
use primer::strings::change as pig_latin_change;

#[test]
fn words_starting_with_vowels_get_hay() {
    assert_eq!(pig_latin_change(String::from("umbrella")), "umbrella-hay");
    assert_eq!(pig_latin_change(String::from("apple")), "apple-hay");
}

#[test]
fn other_words_move_their_first_letter() {
    assert_eq!(pig_latin_change(String::from("value")), "alue-vay");
    assert_eq!(pig_latin_change(String::from("sad")), "ad-say");
    assert_eq!(pig_latin_change(String::from("happy")), "appy-hay");
}

#[test]
fn the_first_word_ends_at_the_first_space() {
    assert_eq!(first_word("hello world"), "hello");
    assert_eq!(first_word("hello"), "hello");
    assert_eq!(first_word(" leading"), "");
}

#[test]
fn length_is_read_through_a_borrow() {
    let s1 = String::from("hello");
    let len = calculate_length(&s1);
    assert_eq!(len, 5);
    assert_eq!(s1, "hello");
}

#[test]
fn change_appends_through_a_mutable_borrow() {
    let mut s = String::from("hello");
    change(&mut s);
    assert_eq!(s, "hello,world");
}

#[test]
fn dangle_hands_out_an_owned_string() {
    assert_eq!(dangle(), "hello");
}

#[test]
fn the_longest_of_two_texts() {
    assert_eq!(longest("abcd", "xyz"), "abcd");
    assert_eq!(longest("ab", "xyz"), "xyz");
    assert_eq!(longest("abc", "xyz"), "xyz");
}

#[test]
fn longest_err_is_always_the_same() {
    assert_eq!(longest_err("a", "b"), "really long string");
}

#[test]
fn every_excerpt_has_level_three() {
    let novel = String::from("Call me Ishmael. Some years ago...");
    let first_sentence = novel.split('.').next().expect("Could not find a '.'");
    let i = ImportantExcerpt { part: first_sentence };
    assert_eq!(i.level(), 3);
}

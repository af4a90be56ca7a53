use minikv::util::{first_word, return_same_ref};

#[test]
fn first_word_stops_at_first_space() {
    assert_eq!(first_word("hello world"), "hello");
    assert_eq!(first_word("one two three"), "one");
}

#[test]
fn first_word_of_spaceless_text_is_all_of_it() {
    assert_eq!(first_word("greeting"), "greeting");
    assert_eq!(first_word(""), "");
}

#[test]
fn first_word_of_leading_space_is_empty() {
    assert_eq!(first_word(" padded"), "");
}

#[test]
fn first_word_handles_multibyte_characters() {
    assert_eq!(first_word("héllo wörld"), "héllo");
    assert_eq!(first_word("übung"), "übung");
}

#[test]
fn return_same_ref_hands_back_its_argument() {
    let x: i32 = 42;
    let r = return_same_ref(&x);
    assert_eq!(*r, 42);
}

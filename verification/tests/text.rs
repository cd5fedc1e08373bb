use copy_on_write::remove_whitespaces;
use copy_on_write::CowValue;

#[test]
fn text_with_a_space_is_copied_without_it() {
    let text = remove_whitespaces("Hello world");
    assert!(matches!(text, CowValue::Owned(_)));
    assert_eq!(text.as_ref(), "Helloworld");
}

#[test]
fn text_without_a_space_is_borrowed() {
    let input = "NoSpacesHere";
    let text = remove_whitespaces(input);
    assert!(matches!(text, CowValue::Borrowed(_)));
    assert_eq!(text.as_ref(), "NoSpacesHere");
    assert_eq!(text.as_ref().as_ptr(), input.as_ptr());
    assert_eq!(text.as_ref().len(), input.len());
}

#[test]
fn borrowed_result_shares_storage_with_a_string() {
    let input = String::from("tab\tand\nnewline");
    let text = remove_whitespaces(&input);
    assert!(matches!(text, CowValue::Borrowed(_)));
    assert_eq!(text.as_ref().as_ptr(), input.as_ptr());
    assert_eq!(text.as_ref(), "tab\tand\nnewline");
}

#[test]
fn owned_result_has_storage_of_its_own() {
    let input = String::from("a b");
    let text = remove_whitespaces(&input);
    assert!(matches!(text, CowValue::Owned(_)));
    assert_ne!(text.as_ref().as_ptr(), input.as_ptr());
    assert_eq!(text.as_ref(), "ab");
    assert_eq!(input, "a b");
}

#[test]
fn every_space_is_removed() {
    assert_eq!(remove_whitespaces("  lead").as_ref(), "lead");
    assert_eq!(remove_whitespaces("trail  ").as_ref(), "trail");
    assert_eq!(remove_whitespaces(" a  b   c ").as_ref(), "abc");
    assert_eq!(remove_whitespaces("one two three four").as_ref(), "onetwothreefour");
}

#[test]
fn only_spaces_leave_empty_owned_text() {
    let text = remove_whitespaces("   ");
    assert!(matches!(text, CowValue::Owned(_)));
    assert_eq!(text.as_ref(), "");
}

#[test]
fn a_single_space_leaves_empty_owned_text() {
    let text = remove_whitespaces(" ");
    assert!(matches!(text, CowValue::Owned(_)));
    assert_eq!(text.as_ref(), "");
}

#[test]
fn empty_text_is_borrowed() {
    let text = remove_whitespaces("");
    assert!(matches!(text, CowValue::Borrowed(_)));
    assert_eq!(text.as_ref(), "");
}

#[test]
fn other_white_space_stays() {
    let text = remove_whitespaces("a\tb c\nd");
    assert!(matches!(text, CowValue::Owned(_)));
    assert_eq!(text.as_ref(), "a\tbc\nd");
}

#[test]
fn characters_of_several_bytes_are_kept_whole() {
    let text = remove_whitespaces("h\u{e9} \u{4f60}\u{597d} \u{1f600}");
    assert!(matches!(text, CowValue::Owned(_)));
    assert_eq!(text.as_ref(), "h\u{e9}\u{4f60}\u{597d}\u{1f600}");
}

#[test]
fn removing_spaces_twice_changes_nothing_more() {
    let once = remove_whitespaces("a b c").into_owned();
    let twice = remove_whitespaces(&once);
    assert!(matches!(twice, CowValue::Borrowed(_)));
    assert_eq!(twice.as_ref(), "abc");
}

#[test]
fn result_can_be_taken_over() {
    let owned: String = remove_whitespaces("Hello world").into_owned();
    assert_eq!(owned, "Helloworld");
    let copied: String = remove_whitespaces("NoSpacesHere").into_owned();
    assert_eq!(copied, "NoSpacesHere");
}

use my_crate::text;

#[test]
fn calculate_length_counts_bytes() {
    let s = String::from("hello");
    assert_eq!(text::calculate_length(&s), 5);
    let empty = String::new();
    assert_eq!(text::calculate_length(&empty), 0);
}

#[test]
fn calculate_length_counts_bytes_not_characters() {
    // Five characters, but the accented one takes two bytes in UTF-8.
    let s = String::from("h\u{e9}llo");
    assert_eq!(text::calculate_length(&s), 6);
}

#[test]
fn change_appends_world() {
    let mut s = String::from("hello");
    text::change(&mut s);
    assert_eq!(s, "hello, world");
}

#[test]
fn longest_picks_the_longer_slice() {
    assert_eq!(text::longest("long string is long", "short"), "long string is long");
    assert_eq!(text::longest("tiny", "much longer here"), "much longer here");
}

#[test]
fn longest_compares_byte_lengths() {
    // Two characters of four bytes each outweigh three one-byte characters.
    assert_eq!(text::longest("\u{1f600}\u{1f600}", "abc"), "\u{1f600}\u{1f600}");
}

#[test]
fn longest_prefers_the_second_on_a_tie() {
    assert_eq!(text::longest("abc", "xyz"), "xyz");
}

use now_playing::text::chars_of;

#[test]
fn chars_of_lists_the_characters() {
    assert_eq!(chars_of("a%\u{e9}"), vec!['a', '%', '\u{e9}']);
    assert_eq!(chars_of("%t - %a"), vec!['%', 't', ' ', '-', ' ', '%', 'a']);
    assert_eq!(chars_of("\u{266a}"), vec!['\u{266a}']);
}

#[test]
fn chars_of_the_empty_string_is_empty() {
    assert_eq!(chars_of(""), Vec::<char>::new());
}

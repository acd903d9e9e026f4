use gpt_telegram_bot::text::{
    chars_of, decimal_text, find_in, slice_eq_ignoring_ascii_case, to_ascii_lower,
};

#[test]
fn decimal_text_writes_plain_digits() {
    assert_eq!(decimal_text(0), "0");
    assert_eq!(decimal_text(7), "7");
    assert_eq!(decimal_text(10), "10");
    assert_eq!(decimal_text(6001), "6001");
    assert_eq!(decimal_text(u32::MAX), "4294967295");
}

#[test]
fn decimal_text_agrees_with_the_standard_rendering() {
    for n in [0u32, 1, 9, 10, 99, 100, 512, 5999, 6000, 6001, 123456789] {
        assert_eq!(decimal_text(n), n.to_string());
    }
}

#[test]
fn chars_of_keeps_every_character() {
    assert_eq!(chars_of(""), Vec::<char>::new());
    assert_eq!(chars_of("a b"), vec!['a', ' ', 'b']);
    assert_eq!(chars_of("h\u{e9}\u{2705}"), vec!['h', '\u{e9}', '\u{2705}']);
}

#[test]
fn to_ascii_lower_folds_ascii_letters_only() {
    assert_eq!(to_ascii_lower('A'), 'a');
    assert_eq!(to_ascii_lower('Z'), 'z');
    assert_eq!(to_ascii_lower('m'), 'm');
    assert_eq!(to_ascii_lower('/'), '/');
    assert_eq!(to_ascii_lower('@'), '@');
    assert_eq!(to_ascii_lower('['), '[');
    assert_eq!(to_ascii_lower('\u{c9}'), '\u{c9}');
}

#[test]
fn find_in_gives_the_first_match_or_the_end() {
    let s = chars_of("ab cd ef");
    assert_eq!(find_in(&s, ' ', 0, s.len()), 2);
    assert_eq!(find_in(&s, ' ', 3, s.len()), 5);
    assert_eq!(find_in(&s, 'x', 0, s.len()), 8);
    assert_eq!(find_in(&s, ' ', 0, 2), 2);
    assert_eq!(find_in(&s, 'e', 0, 4), 4);
    assert_eq!(find_in(&s, 'a', 0, 0), 0);
}

#[test]
fn slice_comparison_ignores_ascii_case() {
    let s = chars_of("/ChAt@Bot");
    assert!(slice_eq_ignoring_ascii_case(&s, 0, 5, &chars_of("/chat")));
    assert!(slice_eq_ignoring_ascii_case(&s, 6, 9, &chars_of("bOT")));
    assert!(!slice_eq_ignoring_ascii_case(&s, 0, 5, &chars_of("/chad")));
    assert!(!slice_eq_ignoring_ascii_case(&s, 0, 4, &chars_of("/chat")));
    assert!(slice_eq_ignoring_ascii_case(&s, 3, 3, &chars_of("")));
}

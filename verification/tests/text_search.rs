use liaisons::text::{chars_of, end_of_line, find_from, stands_at};

#[test]
fn characters_come_in_order() {
    assert_eq!(chars_of("aé—z"), vec!['a', 'é', '—', 'z']);
    assert_eq!(chars_of(""), Vec::<char>::new());
}

#[test]
fn a_pattern_stands_where_it_is_spelled_out() {
    let text = chars_of("abcabc");
    let pattern = chars_of("bc");
    assert!(stands_at(&text, &pattern, 1));
    assert!(stands_at(&text, &pattern, 4));
    assert!(!stands_at(&text, &pattern, 0));
    assert!(!stands_at(&text, &pattern, 5));
    assert!(!stands_at(&text, &pattern, 6));
    assert!(!stands_at(&text, &pattern, usize::MAX));
    assert!(stands_at(&text, &chars_of(""), 6));
    assert!(!stands_at(&text, &chars_of(""), 7));
    assert!(!stands_at(&chars_of("a"), &chars_of("ab"), 0));
}

#[test]
fn the_leftmost_place_is_found() {
    let text = chars_of("abcabc");
    let pattern = chars_of("bc");
    assert_eq!(find_from(&text, &pattern, 0), Some(1));
    assert_eq!(find_from(&text, &pattern, 1), Some(1));
    assert_eq!(find_from(&text, &pattern, 2), Some(4));
    assert_eq!(find_from(&text, &pattern, 5), None);
    assert_eq!(find_from(&text, &pattern, 100), None);
    assert_eq!(find_from(&text, &chars_of("x"), 0), None);
    assert_eq!(find_from(&text, &chars_of(""), 6), Some(6));
}

#[test]
fn a_line_ends_at_its_line_feed_or_with_the_text() {
    let text = chars_of("ab\ncd");
    assert_eq!(end_of_line(&text, 0), 2);
    assert_eq!(end_of_line(&text, 2), 2);
    assert_eq!(end_of_line(&text, 3), 5);
    assert_eq!(end_of_line(&text, 5), 5);
}

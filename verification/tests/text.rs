use rfs::text::{
    char_width, chars_of, is_dot_dot, split_chars, str_lt, str_utf8_len, string_from_chars, utf8_len_of,
};

#[test]
fn test_chars_roundtrip() {
    let cs = chars_of("héllo");
    assert_eq!(cs, vec!['h', 'é', 'l', 'l', 'o']);
    assert_eq!(string_from_chars(&cs), "héllo");
}

#[test]
fn test_utf8_lengths() {
    assert_eq!(char_width('a'), 1);
    assert_eq!(char_width('é'), 2);
    assert_eq!(char_width('€'), 3);
    assert_eq!(char_width('🦀'), 4);
    assert_eq!(utf8_len_of(&['a', '€', '🦀']), 8);
    assert_eq!(str_utf8_len("a€🦀"), "a€🦀".len());
}

#[test]
fn test_split_chars() {
    let pieces = split_chars("a/bc//d", '/');
    assert_eq!(pieces, vec![vec!['a'], vec!['b', 'c'], vec![], vec!['d']]);
    assert_eq!(split_chars("", '/'), vec![Vec::<char>::new()]);
    assert!(is_dot_dot(&vec!['.', '.']));
    assert!(!is_dot_dot(&vec!['.']));
}

#[test]
fn test_str_lt_matches_str_order() {
    let words = ["", "a", "ab", "b", "B", "é", "z", "aa"];
    for x in words.iter() {
        for y in words.iter() {
            assert_eq!(str_lt(x, y), x < y, "{:?} < {:?}", x, y);
        }
    }
}

use zephyr_vault::text::{chars_of, contains_chars, decimal_len, decimal_string, parse_usize, push_padded_left, push_padded_right, push_repeated};

#[test]
fn decimal_numerals() {
    assert_eq!(decimal_string(0), "0");
    assert_eq!(decimal_string(7), "7");
    assert_eq!(decimal_string(10), "10");
    assert_eq!(decimal_string(1234567), "1234567");
    assert_eq!(decimal_string(usize::MAX), usize::MAX.to_string());
    assert_eq!(decimal_len(0), 1);
    assert_eq!(decimal_len(9), 1);
    assert_eq!(decimal_len(10), 2);
    assert_eq!(decimal_len(999), 3);
    assert_eq!(decimal_len(1000), 4);
}

#[test]
fn parse_matches_std() {
    for s in ["0", "42", "+7", "007", "", "+", "-1", "-", "12a", " 1", "1 ", "٣",
              "18446744073709551615", "18446744073709551616", "4294967295", "4294967296", "99999999999999999999999"] {
        assert_eq!(parse_usize(s), s.parse::<usize>().ok(), "input {:?}", s);
    }
}

#[test]
fn padding() {
    let mut s = String::from("[");
    push_padded_right(&mut s, "ab", 5);
    assert_eq!(s, "[ab   ");
    let mut t = String::new();
    push_padded_left(&mut t, "12", 4);
    assert_eq!(t, "  12");
    let mut u = String::new();
    push_padded_right(&mut u, "long text", 3);
    assert_eq!(u, "long text");
    let mut w = String::new();
    push_padded_right(&mut w, "é", 3);
    assert_eq!(w, format!("{:<3}", "é"));
    let mut r = String::new();
    push_repeated(&mut r, '-', 3);
    assert_eq!(r, "---");
}

#[test]
fn substring_search() {
    let hay = chars_of("github.com");
    assert!(contains_chars(&hay, &chars_of("hub")));
    assert!(contains_chars(&hay, &chars_of("")));
    assert!(contains_chars(&hay, &chars_of("github.com")));
    assert!(!contains_chars(&hay, &chars_of("gitlab")));
    assert!(!contains_chars(&chars_of("ab"), &chars_of("abc")));
    assert_eq!(chars_of("h\u{e9}"), vec!['h', '\u{e9}']);
}

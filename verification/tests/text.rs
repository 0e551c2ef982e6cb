use redmine_new_branch::text::{chars_of, decimal_of, has_at, has_end, has_part, string_of};

fn chars(s: &str) -> Vec<char> {
    s.chars().collect()
}

#[test]
fn chars_and_back() {
    let v = chars_of("héllo");
    assert_eq!(v, vec!['h', 'é', 'l', 'l', 'o']);
    assert_eq!(string_of(&v, 0, 5), "héllo");
    assert_eq!(string_of(&v, 1, 3), "él");
    assert_eq!(string_of(&v, 2, 2), "");
    assert_eq!(chars_of(""), Vec::<char>::new());
}

#[test]
fn decimal_writes_integers() {
    assert_eq!(decimal_of(0), chars("0"));
    assert_eq!(decimal_of(7), chars("7"));
    assert_eq!(decimal_of(10), chars("10"));
    assert_eq!(decimal_of(26968), chars("26968"));
    assert_eq!(decimal_of(-1), chars("-1"));
    assert_eq!(decimal_of(-120), chars("-120"));
    assert_eq!(decimal_of(2147483647), chars("2147483647"));
    assert_eq!(decimal_of(-2147483648), chars("-2147483648"));
    assert_eq!(decimal_of(i64::MAX), chars("9223372036854775807"));
    assert_eq!(decimal_of(i64::MIN), chars("-9223372036854775808"));
}

#[test]
fn decimal_agrees_with_formatting() {
    for n in [-1000, -999, -11, -10, -9, 0, 9, 10, 11, 99, 100, 101, 12345] {
        assert_eq!(decimal_of(n), chars(&format!("{}", n)));
    }
}

#[test]
fn part_is_found_anywhere() {
    assert!(has_part(&chars("origin/rd-42-abc"), &chars("42")));
    assert!(has_part(&chars("origin/rd-42-abc"), &chars("origin")));
    assert!(has_part(&chars("origin/rd-42-abc"), &chars("abc")));
    assert!(has_part(&chars("origin/rd-42-abc"), &chars("")));
    assert!(has_part(&chars(""), &chars("")));
    assert!(!has_part(&chars("origin/rd-42-abc"), &chars("43")));
    assert!(!has_part(&chars("ab"), &chars("abc")));
    assert!(!has_part(&chars(""), &chars("a")));
}

#[test]
fn part_at_a_position() {
    assert!(has_at(&chars("abcabc"), &chars("bc"), 1));
    assert!(has_at(&chars("abcabc"), &chars("bc"), 4));
    assert!(!has_at(&chars("abcabc"), &chars("bc"), 0));
    assert!(!has_at(&chars("abcabc"), &chars("bc"), 5));
    assert!(!has_at(&chars("abcabc"), &chars("bc"), 7));
    assert!(has_at(&chars("abc"), &chars(""), 3));
    assert!(!has_at(&chars("abc"), &chars(""), 4));
}

#[test]
fn end_is_matched_exactly() {
    assert!(has_end(&chars("refs/heads/rd-42-abc"), &chars("rd-42-abc")));
    assert!(has_end(&chars("rd-42-abc"), &chars("rd-42-abc")));
    assert!(has_end(&chars("x"), &chars("")));
    assert!(!has_end(&chars("refs/heads/rd-42-abcd"), &chars("rd-42-abc")));
    assert!(!has_end(&chars("abc"), &chars("xabc")));
}

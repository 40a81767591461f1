use setwlkbmap::text::{contains_char, find_last, signed_decimal, to_chars, unsigned_decimal};

#[test]
fn unsigned_numerals() {
    assert_eq!(unsigned_decimal(0), "0");
    assert_eq!(unsigned_decimal(7), "7");
    assert_eq!(unsigned_decimal(10), "10");
    assert_eq!(unsigned_decimal(109), "109");
    assert_eq!(unsigned_decimal(1234567890), "1234567890");
    assert_eq!(unsigned_decimal(u64::MAX), "18446744073709551615");
    for n in 0u64..2000 {
        assert_eq!(unsigned_decimal(n), n.to_string());
    }
}

#[test]
fn signed_numerals() {
    assert_eq!(signed_decimal(0), "0");
    assert_eq!(signed_decimal(-1), "-1");
    assert_eq!(signed_decimal(42), "42");
    assert_eq!(signed_decimal(-100), "-100");
    assert_eq!(signed_decimal(i32::MIN), "-2147483648");
    assert_eq!(signed_decimal(i32::MAX), "2147483647");
    for n in -1500i32..1500 {
        assert_eq!(signed_decimal(n), n.to_string());
    }
}

#[test]
fn character_search() {
    assert!(contains_char("a Triumph", ' '));
    assert!(!contains_char("was", ' '));
    assert!(!contains_char("", ' '));
    assert!(contains_char("é ", ' '));
    assert!(!contains_char("a\u{a0}b", ' '));
}

#[test]
fn last_position() {
    assert_eq!(find_last(&to_chars("[a] [b]"), ']'), Some(6));
    assert_eq!(find_last(&to_chars("]"), ']'), Some(0));
    assert_eq!(find_last(&to_chars("é]é"), ']'), Some(1));
    assert_eq!(find_last(&to_chars("abc"), ']'), None);
    assert_eq!(find_last(&to_chars(""), ']'), None);
}

#[test]
fn characters_one_by_one() {
    assert_eq!(to_chars("aé日"), vec!['a', 'é', '日']);
    assert_eq!(to_chars(""), Vec::<char>::new());
}

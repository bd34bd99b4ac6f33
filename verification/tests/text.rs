use content::text::{count_words, find, from_chars, join, matches_at, same_text, to_chars, trim};

#[test]
fn trim_removes_white_space_at_both_ends_only() {
    assert_eq!(trim("  a b \t\n"), "a b");
    assert_eq!(trim("a"), "a");
    assert_eq!(trim(" \n "), "");
    assert_eq!(trim(""), "");
    assert_eq!(trim("\u{a0}x\u{3000}"), "x");
    assert_eq!(trim("-x-"), "-x-");
}

#[test]
fn chars_go_round() {
    let v = to_chars("héllo");
    assert_eq!(v, vec!['h', 'é', 'l', 'l', 'o']);
    assert_eq!(from_chars(&v, 0, 5), "héllo");
    assert_eq!(from_chars(&v, 1, 3), "él");
    assert_eq!(from_chars(&v, 2, 2), "");
}

#[test]
fn same_text_compares_characters() {
    assert!(same_text("index", "index"));
    assert!(!same_text("index", "Index"));
    assert!(!same_text("index", "index "));
    assert!(same_text("", ""));
}

#[test]
fn find_gives_the_first_occurrence() {
    let hay = to_chars("ab+++cd+++");
    let needle = to_chars("+++");
    assert_eq!(find(&hay, &needle, 0), Some(2));
    assert_eq!(find(&hay, &needle, 2), Some(2));
    assert_eq!(find(&hay, &needle, 3), Some(7));
    assert_eq!(find(&hay, &needle, 8), None);
    assert_eq!(find(&hay, &needle, 100), None);
    assert_eq!(find(&hay, &to_chars(""), 4), Some(4));
    assert_eq!(find(&to_chars("++"), &needle, 0), None);
    assert!(matches_at(&hay, &needle, 7));
    assert!(!matches_at(&hay, &needle, 8));
    assert!(!matches_at(&hay, &needle, 6));
}

#[test]
fn words_are_runs_without_white_space() {
    assert_eq!(count_words(""), 0);
    assert_eq!(count_words("   "), 0);
    assert_eq!(count_words("one"), 1);
    assert_eq!(count_words(" one  two\nthree\t"), 3);
    assert_eq!(count_words("a-b c"), 2);
}

#[test]
fn join_puts_the_separator_between() {
    assert_eq!(join(&vec![], '/'), "");
    assert_eq!(join(&vec!["a".to_string()], '/'), "a");
    assert_eq!(join(&vec!["a".to_string(), "b".to_string(), "".to_string()], '/'), "a/b/");
}

#[test]
fn white_space_is_what_unicode_says() {
    let listed = |c: char| {
        let n = c as u32;
        (0x09..=0x0d).contains(&n)
            || (0x2000..=0x200a).contains(&n)
            || [0x20, 0x85, 0xa0, 0x1680, 0x2028, 0x2029, 0x202f, 0x205f, 0x3000].contains(&n)
    };
    let mut found = 0;
    for n in 0..=0x10ffff_u32 {
        if let Some(c) = char::from_u32(n) {
            let text = c.to_string();
            assert_eq!(trim(&text).is_empty(), listed(c), "U+{:04X}", n);
            assert_eq!(count_words(&text), if listed(c) { 0 } else { 1 }, "U+{:04X}", n);
            if listed(c) {
                found += 1;
            }
        }
    }
    assert_eq!(found, 25);
}

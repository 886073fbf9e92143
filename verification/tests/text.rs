use webreg::text::chars_of;
use webreg::text::contains;
use webreg::text::contains_str;
use webreg::text::is_whitespace;
use webreg::text::matches_at;
use webreg::text::push_chars;
use webreg::text::push_decimal;
use webreg::text::push_str;
use webreg::text::replace;
use webreg::text::replace_str;
use webreg::text::part;
use webreg::text::same_text;
use webreg::text::split_fields;
use webreg::text::starts_with_str;
use webreg::text::trim;

fn chars(s: &str) -> Vec<char> {
    s.chars().collect()
}

fn text(v: Vec<char>) -> String {
    v.into_iter().collect()
}

#[test]
fn characters_are_unpacked_in_order() {
    assert_eq!(chars_of("aé😀"), vec!['a', 'é', '😀']);
    assert_eq!(chars_of(""), Vec::<char>::new());
    let mut buf = chars("ab");
    push_str(&mut buf, "cd");
    push_chars(&mut buf, &chars("é"));
    assert_eq!(text(buf), "abcdé");
}

#[test]
fn search_finds_every_position() {
    let s = chars("abcabc");
    assert!(matches_at(&s, 0, &chars("abc")));
    assert!(matches_at(&s, 3, &chars("abc")));
    assert!(!matches_at(&s, 4, &chars("abc")));
    assert!(!matches_at(&s, 1, &chars("abc")));
    assert!(matches_at(&s, 6, &chars("")));
    assert!(!matches_at(&s, 7, &chars("")));
    assert!(!matches_at(&s, usize::MAX, &chars("a")));
    assert!(contains(&s, &chars("cab")));
    assert!(contains(&s, &chars("")));
    assert!(contains(&chars(""), &chars("")));
    assert!(!contains(&chars(""), &chars("a")));
    assert!(!contains(&s, &chars("abcabca")));
    assert!(!contains(&s, &chars("ac")));
    assert!(contains_str(&s, "bc"));
    assert!(contains_str(&s, "abcabc"));
    assert!(starts_with_str(&s, "abca"));
    assert!(starts_with_str(&s, ""));
    assert!(!starts_with_str(&s, "bc"));
}

#[test]
fn replacement_scans_from_the_left() {
    assert_eq!(text(replace_str(&chars("aaa"), "aa", "b")), "ba");
    assert_eq!(text(replace_str(&chars("abab"), "ab", "ab")), "abab");
    assert_eq!(text(replace_str(&chars("abab"), "ab", "")), "");
    assert_eq!(text(replace_str(&chars("xaby"), "ab", "abab")), "xababy");
    assert_eq!(text(replace_str(&chars("abc"), "abcd", "x")), "abc");
    assert_eq!(text(replace_str(&chars(""), "a", "x")), "");
    assert_eq!(text(replace_str(&chars("abc"), "", "x")), "abc");
    assert_eq!(text(replace(&chars("a.b.c"), &chars("."), &chars("::"))), "a::b::c");
    for (s, from, to) in [("%2%211", "%21", "!"), ("aXbXXc", "X", "--"), ("ééé", "é", "e")] {
        assert_eq!(text(replace_str(&chars(s), from, to)), s.replace(from, to));
    }
}

#[test]
fn numbers_are_written_in_decimal() {
    for n in [0u64, 7, 10, 99, 100, 12_345, u64::MAX] {
        let mut buf = chars("n=");
        push_decimal(&mut buf, n);
        assert_eq!(text(buf), format!("n={}", n));
    }
}

#[test]
fn texts_are_compared_by_their_characters() {
    assert!(same_text("", ""));
    assert!(same_text("IP", "IP"));
    assert!(!same_text("IP", "ip"));
    assert!(!same_text("IP", "IPX"));
    assert!(!same_text("a", ""));
}

#[test]
fn trimming_takes_white_space_off_both_ends() {
    for s in [
        "",
        " ",
        "a",
        "  a b  ",
        "\t\n x \r\n",
        "\u{a0}x\u{3000}",
        "\u{85}\u{2028}a\u{2029}b\u{1680}",
        "\u{200b}a\u{200b}",
        "é ",
        "   ",
    ] {
        assert_eq!(trim(s), s.trim());
    }
    assert_eq!(trim("  Job  Failed \n"), "Job  Failed");
}

#[test]
fn fields_stand_between_runs_of_white_space() {
    for s in [
        "",
        "   ",
        "one",
        " one",
        "one ",
        "CSE 100",
        "  MATH \t 20A  extra ",
        "a\u{a0}b\u{3000}\u{3000}c",
        "x\ny\r\nz",
    ] {
        let expected: Vec<String> = s.split_whitespace().map(String::from).collect();
        assert_eq!(split_fields(s), expected);
    }
    assert_eq!(split_fields("a  b"), vec!["a".to_string(), "b".to_string()]);
}

#[test]
fn parts_are_cut_by_position() {
    let s = chars("abcdef");
    assert_eq!(text(part(&s, 1, 4)), "bcd");
    assert_eq!(text(part(&s, 0, 6)), "abcdef");
    assert_eq!(text(part(&s, 3, 3)), "");
    assert_eq!(text(part(&s, 4, 2)), "");
    assert_eq!(text(part(&s, 2, 7)), "");
}

#[test]
fn white_space_is_what_the_standard_library_calls_so() {
    let mut count = 0;
    for code in 0..=0x10ffffu32 {
        if let Some(c) = char::from_u32(code) {
            assert_eq!(is_whitespace(c), c.is_whitespace(), "U+{:04X}", code);
            if is_whitespace(c) {
                count += 1;
            }
        }
    }
    assert_eq!(count, 25);
}

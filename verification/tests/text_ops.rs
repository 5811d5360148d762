use pulpcalc::text::{char_is_whitespace, chars_of, count_words, i64_to_text, replace_last_pair, replace_pairs, replace_str, str_eq};

fn pairs(ps: &[(&str, &str)]) -> Vec<(String, String)> {
    ps.iter().map(|(a, b)| (a.to_string(), b.to_string())).collect()
}

#[test]
fn replace_str_agrees_with_std_replace() {
    let cases = [
        ("hello THIS_TOPIC world THIS_TOPIC", "THIS_TOPIC", "rust"),
        ("aaaa", "aa", "b"),
        ("aaa", "aa", "b"),
        ("abc", "", "X"),
        ("", "", "X"),
        ("", "a", "X"),
        ("no match here", "zzz", "y"),
        ("épée épée", "é", "e"),
        ("AGE: AGE", "AGE", "42"),
        ("xyxyx", "xyx", "Z"),
        ("ab", "abc", "Z"),
    ];
    for (s, p, r) in cases {
        assert_eq!(replace_str(s, p, r), s.replace(p, r), "case {:?}", (s, p, r));
    }
}

#[test]
fn replace_str_exact_values() {
    assert_eq!(replace_str("aaaa", "aa", "b"), "bb");
    assert_eq!(replace_str("abc", "", "-"), "-a-b-c-");
    assert_eq!(replace_str("a.b.c", ".", ""), "abc");
}

#[test]
fn replace_pairs_applies_each_pair_to_the_result_of_the_one_before() {
    let w = pairs(&[("A", "B"), ("B", "C")]);
    assert_eq!(replace_pairs("AB", &w), "CC");
    assert_eq!(replace_pairs("AB", &Vec::new()), "AB");
}

#[test]
fn replace_last_pair_keeps_only_the_last_replacement() {
    let w = pairs(&[("A", "x"), ("B", "y")]);
    assert_eq!(replace_last_pair("AB", &w), "Ay");
    assert_eq!(replace_last_pair("AB", &Vec::new()), "AB");
}

#[test]
fn count_words_agrees_with_split_whitespace() {
    let cases = [
        "",
        "   ",
        "one",
        " one two  three ",
        "tab\tseparated\nlines\r\nhere",
        "ideographic\u{3000}space",
        "next\u{85}line and\u{a0}nbsp",
        "thin\u{2009}space\u{202f}narrow",
        "zero\u{200b}width",
    ];
    for s in cases {
        assert_eq!(count_words(s), s.split_whitespace().count(), "case {:?}", s);
    }
}

#[test]
fn count_words_exact_values() {
    assert_eq!(count_words("The quick brown fox"), 4);
    assert_eq!(count_words(""), 0);
    assert_eq!(count_words("  a  "), 1);
}

#[test]
fn char_is_whitespace_agrees_with_std() {
    for c in ['\t', '\n', '\u{b}', '\u{c}', '\r', ' ', '\u{85}', '\u{a0}', '\u{1680}', '\u{2000}', '\u{200a}', '\u{2028}', '\u{2029}', '\u{202f}', '\u{205f}', '\u{3000}', 'a', '\u{200b}', '\u{180e}', '0', '\u{feff}'] {
        assert_eq!(char_is_whitespace(c), c.is_whitespace(), "char {:?}", c);
    }
}

#[test]
fn i64_to_text_agrees_with_to_string() {
    for n in [0i64, 7, 10, 42, -1, -10, 123456789, i64::MAX, i64::MIN, -9] {
        assert_eq!(i64_to_text(n), n.to_string());
    }
}

#[test]
fn str_eq_and_chars_of() {
    assert!(str_eq("male", "male"));
    assert!(!str_eq("male", "female"));
    assert!(!str_eq("", "a"));
    assert_eq!(chars_of("héllo"), vec!['h', 'é', 'l', 'l', 'o']);
}

#[test]
fn replacing_an_absent_placeholder_changes_nothing() {
    assert_eq!(replace_str("Core desire: CORE_DESISRE", "CORE_DESIRE", "money"), "Core desire: CORE_DESISRE");
    assert_eq!(replace_str("", "X", "y"), "");
}

#[test]
fn replacing_a_placeholder_by_itself_changes_nothing() {
    for s in ["AGE AGE", "AAGEE", "no placeholder", ""] {
        assert_eq!(replace_str(s, "AGE", "AGE"), s);
    }
}

#[test]
fn words_of_joined_texts_add_up() {
    let a = "one two";
    let b = " three";
    for sep in [' ', '\n', '\u{3000}'] {
        let joined = format!("{}{}{}", a, sep, b);
        assert_eq!(count_words(&joined), count_words(a) + count_words(b));
    }
    for s in ["", "a", "a b c", "   "] {
        assert!(count_words(s) <= s.chars().count());
    }
}

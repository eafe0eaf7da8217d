use silence_remover::text::{
    chars_of, copy_opt, decimal_text, find, one, replace, same_text, string_of, trim, two, Edge,
};

fn replaced(s: &str, pat: &str, with: &str) -> String {
    let out = replace(&chars_of(s), &chars_of(pat), &chars_of(with));
    string_of(&out, 0, out.len())
}

#[test]
fn white_space_is_that_of_unicode() {
    for u in 0..=0x10FFFFu32 {
        if let Some(c) = char::from_u32(u) {
            assert_eq!(Edge::Whitespace.is_covered(c), c.is_whitespace(), "{:x}", u);
        }
    }
}

#[test]
fn quotes_are_covered() {
    assert!(Edge::Quotes.is_covered('"'));
    assert!(Edge::Quotes.is_covered('\''));
    assert!(!Edge::Quotes.is_covered('`'));
    assert!(!Edge::Quotes.is_covered(' '));
}

#[test]
fn trimming() {
    for s in ["", "  ", " a b \n", "\u{a0}x\u{3000}", "\tд а\r\n", "plain"] {
        assert_eq!(trim(s, Edge::Whitespace), s.trim());
        assert_eq!(trim(&trim(s, Edge::Whitespace), Edge::Whitespace), s.trim());
    }
    assert_eq!(trim("\"'a'b\"\"", Edge::Quotes), "a'b");
    assert_eq!(trim("\"\"", Edge::Quotes), "");
}

#[test]
fn finding() {
    let s = chars_of("абвабв");
    assert_eq!(find(&s, &chars_of("бв"), 0), Some(1));
    assert_eq!(find(&s, &chars_of("бв"), 2), Some(4));
    assert_eq!(find(&s, &chars_of("бв"), 5), None);
    assert_eq!(find(&s, &chars_of("вб"), 0), None);
    assert_eq!(find(&s, &chars_of(""), 6), Some(6));
    assert_eq!(find(&chars_of("a"), &chars_of("ab"), 0), None);
}

#[test]
fn replacing_agrees_with_std() {
    let samples = ["", "aaa", "a\\nb", "\\\\n", "\"x\"\n", "ааба", "\\\\\\\\", "nothing"];
    let pairs = [("a", "bb"), ("aa", "a"), ("\\n", "\n"), ("\\\"", "\""), ("\\\\", "\\"), ("а", "")];
    for s in samples {
        for (pat, with) in pairs {
            assert_eq!(replaced(s, pat, with), s.replace(pat, with));
        }
    }
}

#[test]
fn small_texts() {
    assert_eq!(one('x'), vec!['x']);
    assert_eq!(two('x', 'y'), vec!['x', 'y']);
    assert_eq!(chars_of("aй"), vec!['a', 'й']);
    assert_eq!(string_of(&vec!['a', 'b', 'c'], 1, 3), "bc");
    assert!(same_text("да", "да"));
    assert!(!same_text("да", "дa"));
    assert_eq!(copy_opt(&Some("k".to_string())), Some("k".to_string()));
    assert_eq!(copy_opt(&None), None);
}

#[test]
fn decimal_numbers() {
    for n in [0u32, 7, 9, 10, 60, 99, 100, 1234567890, u32::MAX] {
        assert_eq!(decimal_text(n), n.to_string());
    }
}
